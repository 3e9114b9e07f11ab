//! The settings of the server itself.

use crate::text::{decimal, decimal_u64};
use vstd::prelude::*;
use vstd::string::StringExecFns;

verus! {

/// The HTTPS settings of the server.
#[derive(Clone, Debug)]
pub struct HttpsConfig {
    /// Whether the server listens with TLS.
    pub enabled: bool,
}

/// The settings of the server.
#[derive(Clone, Debug)]
pub struct Config {
    /// The address to listen on.
    pub address: String,
    /// The port to listen on, where it is not the default one.
    pub port: Option<u64>,
    /// The HTTPS settings, where there are any.
    pub https: Option<HttpsConfig>,
}

/// The port of plain HTTP.
pub const HTTP_PORT: u64 = 80;

/// The port of HTTPS.
pub const HTTPS_PORT: u64 = 443;

impl Config {
    /// Whether HTTPS is switched on.
    pub open spec fn wants_https(self) -> bool {
        match self.https {
            Some(c) => c.enabled,
            None => false,
        }
    }

    /// The port to listen on: the one that is set, else that of the protocol.
    pub open spec fn chosen_port(self) -> u64 {
        match self.port {
            Some(p) => p,
            None => if self.wants_https() {
                HTTPS_PORT
            } else {
                HTTP_PORT
            },
        }
    }

    /// Whether HTTPS is switched on.
    pub fn https_enabled(&self) -> (r: bool)
        ensures
            r == self.wants_https(),
    {
        match self.https {
            Some(ref c) => c.enabled,
            None => false,
        }
    }

    /// The port to listen on.
    pub fn get_port(&self) -> (r: u64)
        ensures
            r == self.chosen_port(),
    {
        match self.port {
            Some(p) => p,
            None => if self.https_enabled() {
                HTTPS_PORT
            } else {
                HTTP_PORT
            },
        }
    }

    /// The address to listen on, as text: the address, a colon, the port.
    pub fn get_address(&self) -> (r: String)
        ensures
            r@ == self.address@ + ":"@ + decimal(self.chosen_port() as int),
    {
        let port = decimal_u64(self.get_port());
        self.address.clone().concat(":").concat(port.as_str())
    }
}

} // verus!

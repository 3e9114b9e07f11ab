//! The core of a webhook host for Telegram bots: the session store with its
//! merge engine, the configuration documents of the modules, the registry
//! that decides which generation of a module's code serves a request, the
//! router's decisions, and the bots themselves as far as they decide.

pub mod assoc;
pub mod blasphemy_bot;
pub mod bot;
pub mod config;
pub mod entities;
pub mod generation;
pub mod json;
pub mod merge;
pub mod no_fly_bot;
pub mod plugin;
pub mod registry;
pub mod router;
pub mod server;
pub mod session;
pub mod telegram;
pub mod text;

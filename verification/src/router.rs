//! The router's decisions: which requests go to a module, and what answer a
//! result becomes.

use crate::json::Json;
use crate::plugin::DispatchError;
use vstd::prelude::*;

verus! {

/// The capture groups of the leftmost match of the regular expression
/// `pattern` in `text`, as the `regex` crate finds them: for each group, from
/// the whole match on, the text it matched, where it took part. None where the
/// pattern is refused or does not match.
pub uninterp spec fn regex_groups(pattern: Seq<char>, text: Seq<char>) -> Option<
    Seq<Option<Seq<char>>>,
>;

/// The texts of a list of capture groups.
pub open spec fn groups_view(groups: Seq<Option<String>>) -> Seq<Option<Seq<char>>> {
    Seq::new(
        groups.len(),
        |i: int|
            match groups[i] {
                Some(s) => Some(s@),
                None => None,
            },
    )
}

/// The texts of the capture groups of a match, where there is one.
pub open spec fn match_view(found: Option<Vec<Option<String>>>) -> Option<Seq<Option<Seq<char>>>> {
    match found {
        Some(groups) => Some(groups_view(groups@)),
        None => None,
    }
}

/// Calls `Regex::new` and then `Regex::captures` of the `regex` crate, and
/// copies out the text of each group that `Captures::iter` yields. The claim:
/// what comes back is what [`regex_groups`] names.
#[verifier::external_body]
fn regex_captures(pattern: &str, text: &str) -> (r: Option<Vec<Option<String>>>)
    ensures
        match_view(r) == regex_groups(pattern@, text@),
{
    let re = regex::Regex::new(pattern).ok()?;
    let found = re.captures(text)?;
    Some(found.iter().map(|g| g.map(|m| m.as_str().to_owned())).collect())
}

/// Where a request goes.
#[derive(Debug)]
pub enum Route {
    /// It is no POST: it is answered with the banner.
    Banner,
    /// Its path names no module: it is answered with "not found".
    NotFound,
    /// Its path names this module with this secret: it is dispatched.
    Dispatch(String, String),
}

/// What a [`Route`] holds.
pub enum RouteView {
    Banner,
    NotFound,
    Dispatch(Seq<char>, Seq<char>),
}

impl View for Route {
    type V = RouteView;

    open spec fn view(&self) -> RouteView {
        match self {
            Route::Banner => RouteView::Banner,
            Route::NotFound => RouteView::NotFound,
            Route::Dispatch(bot, secret) => RouteView::Dispatch(bot@, secret@),
        }
    }
}

/// The pattern of the paths that name a module and its secret.
pub open spec fn path_pattern() -> Seq<char> {
    "^/Telegram/([^/]+)/([^/]+)"@
}

/// The name of the method whose requests are dispatched.
pub open spec fn post() -> Seq<char> {
    "POST"@
}

/// Where a request goes, given whether it is a POST and what the path pattern
/// matched in its path: to the module of the first group, with the secret of
/// the second.
pub open spec fn route_of(is_post: bool, found: Option<Seq<Option<Seq<char>>>>) -> RouteView {
    if !is_post {
        RouteView::Banner
    } else {
        match found {
            Some(groups) => if groups.len() > 2 && groups[1] is Some && groups[2] is Some {
                RouteView::Dispatch(groups[1]->0, groups[2]->0)
            } else {
                RouteView::NotFound
            },
            None => RouteView::NotFound,
        }
    }
}

/// The body of an answer.
#[derive(Debug)]
pub enum Body {
    /// Nothing.
    Empty,
    /// This text.
    Text(String),
    /// This value, serialized.
    Value(Json),
}

/// An answer to a request.
#[derive(Debug)]
pub struct Response {
    /// The status code.
    pub status: u16,
    /// The body.
    pub body: Body,
}

/// The status of an answer that carries a result or the banner.
pub const STATUS_OK: u16 = 200;

/// The status of the answer to a path that names no module.
pub const STATUS_NOT_FOUND: u16 = 404;

/// The status of the answer to a request that failed, whatever the failure.
pub const STATUS_INTERNAL_SERVER_ERROR: u16 = 500;

/// The router.
pub struct WebServer;

impl WebServer {
    /// Where a request goes, given what the path pattern matched in its path.
    pub fn route_from(is_post: bool, found: Option<Vec<Option<String>>>) -> (r: Route)
        ensures
            r@ == route_of(is_post, match_view(found)),
    {
        if !is_post {
            return Route::Banner;
        }
        match found {
            None => Route::NotFound,
            Some(groups) => {
                if groups.len() <= 2 {
                    return Route::NotFound;
                }
                match (&groups[1], &groups[2]) {
                    (Some(bot), Some(secret)) => Route::Dispatch(bot.clone(), secret.clone()),
                    _ => Route::NotFound,
                }
            },
        }
    }

    /// Where a request with this method and this path goes.
    pub fn route(method: &str, path: &str) -> (r: Route)
        ensures
            r@ == route_of(method@ == post(), regex_groups(path_pattern(), path@)),
            method@ != post() ==> r@ == RouteView::Banner,
    {
        let is_post = method.to_owned() == "POST".to_owned();
        if !is_post {
            return Route::Banner;
        }
        WebServer::route_from(true, regex_captures("^/Telegram/([^/]+)/([^/]+)", path))
    }

    /// The answer to a request that is no POST.
    pub fn banner() -> (r: Response)
        ensures
            r.status == STATUS_OK,
            r.body matches Body::Text(t) && t@ == "Rustegram server"@,
    {
        Response { status: STATUS_OK, body: Body::Text("Rustegram server".to_owned()) }
    }

    /// The answer to a path that names no module.
    pub fn not_found() -> (r: Response)
        ensures
            r.status == STATUS_NOT_FOUND,
            r.body is Empty,
    {
        Response { status: STATUS_NOT_FOUND, body: Body::Empty }
    }

    /// The answer that the outcome of a dispatched request becomes: a value is
    /// sent as it is; an error of any kind is sent as its message, with the
    /// one status of a failure.
    pub fn respond(outcome: Result<Json, DispatchError>) -> (r: Response)
        ensures
            match outcome {
                Ok(value) => r.status == STATUS_OK && r.body == Body::Value(value),
                Err(e) => r.status == STATUS_INTERNAL_SERVER_ERROR && (r.body matches Body::Text(t)
                    && t@ == e.text()),
            },
    {
        match outcome {
            Ok(value) => Response { status: STATUS_OK, body: Body::Value(value) },
            Err(e) => Response {
                status: STATUS_INTERNAL_SERVER_ERROR,
                body: Body::Text(e.message()),
            },
        }
    }
}

} // verus!

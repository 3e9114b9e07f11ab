use rustegram::config::ConfigError;
use rustegram::json::{Json, Number};
use rustegram::plugin::DispatchError;
use rustegram::router::{
    Body, Route, WebServer, STATUS_INTERNAL_SERVER_ERROR, STATUS_NOT_FOUND, STATUS_OK,
};

fn dispatch(path: &str) -> Option<(String, String)> {
    match WebServer::route("POST", path) {
        Route::Dispatch(bot, secret) => Some((bot, secret)),
        Route::NotFound => None,
        Route::Banner => panic!("a POST is never answered with the banner"),
    }
}

#[test]
fn post_to_a_module_path_is_dispatched() {
    assert_eq!(
        dispatch("/Telegram/blasphemy_bot/prova"),
        Some(("blasphemy_bot".to_string(), "prova".to_string()))
    );
    assert_eq!(dispatch("/Telegram/a/b"), Some(("a".to_string(), "b".to_string())));
    // what follows the secret does not count
    assert_eq!(dispatch("/Telegram/a/b/c/d"), Some(("a".to_string(), "b".to_string())));
    assert_eq!(dispatch("/Telegram/a/b/"), Some(("a".to_string(), "b".to_string())));
    assert_eq!(dispatch("/Telegram/a b/c?d"), Some(("a b".to_string(), "c?d".to_string())));
}

#[test]
fn post_to_another_path_is_not_found() {
    assert_eq!(dispatch(""), None);
    assert_eq!(dispatch("/"), None);
    assert_eq!(dispatch("/Telegram"), None);
    assert_eq!(dispatch("/Telegram/"), None);
    assert_eq!(dispatch("/Telegram/bot"), None);
    assert_eq!(dispatch("/Telegram/bot/"), None);
    assert_eq!(dispatch("/Telegram//secret"), None);
    assert_eq!(dispatch("/telegram/bot/secret"), None);
    assert_eq!(dispatch("/x/Telegram/bot/secret"), None);
    assert_eq!(dispatch("Telegram/bot/secret"), None);
}

#[test]
fn other_methods_get_the_banner() {
    assert!(matches!(WebServer::route("GET", "/Telegram/bot/secret"), Route::Banner));
    assert!(matches!(WebServer::route("PUT", "/"), Route::Banner));
    assert!(matches!(WebServer::route("post", "/Telegram/bot/secret"), Route::Banner));
    assert!(matches!(WebServer::route("", ""), Route::Banner));
    let banner = WebServer::banner();
    assert_eq!(banner.status, STATUS_OK);
    assert_eq!(banner.status, 200);
    match banner.body {
        Body::Text(t) => assert_eq!(t, "Rustegram server"),
        other => panic!("got {:?}", other),
    }
}

#[test]
fn not_found_has_no_body() {
    let r = WebServer::not_found();
    assert_eq!(r.status, STATUS_NOT_FOUND);
    assert_eq!(r.status, 404);
    assert!(matches!(r.body, Body::Empty));
}

#[test]
fn route_from_reads_the_first_two_groups() {
    let groups = |v: Vec<Option<&str>>| Some(v.into_iter().map(|g| g.map(|s| s.to_string())).collect());
    match WebServer::route_from(true, groups(vec![Some("/Telegram/a/b"), Some("a"), Some("b")])) {
        Route::Dispatch(bot, secret) => {
            assert_eq!(bot, "a");
            assert_eq!(secret, "b");
        }
        other => panic!("got {:?}", other),
    }
    assert!(matches!(WebServer::route_from(true, None), Route::NotFound));
    assert!(matches!(WebServer::route_from(true, groups(vec![])), Route::NotFound));
    assert!(matches!(
        WebServer::route_from(true, groups(vec![Some("x"), Some("a")])),
        Route::NotFound
    ));
    assert!(matches!(
        WebServer::route_from(true, groups(vec![Some("x"), None, Some("b")])),
        Route::NotFound
    ));
    assert!(matches!(
        WebServer::route_from(true, groups(vec![Some("x"), Some("a"), None])),
        Route::NotFound
    ));
    assert!(matches!(
        WebServer::route_from(false, groups(vec![Some("x"), Some("a"), Some("b")])),
        Route::Banner
    ));
}

#[test]
fn route_agrees_with_the_regex_crate() {
    let re = regex::Regex::new(r"^/Telegram/([^/]+)/([^/]+)").unwrap();
    for path in [
        "/Telegram/bot/secret",
        "/Telegram/bot/secret/more",
        "/Telegram/b\u{e9}t/s\ncret",
        "/Telegram/bot",
        "//Telegram/bot/secret",
        "/Telegram/bot//",
        "",
    ] {
        let expected = re.captures(path).map(|c| (c[1].to_string(), c[2].to_string()));
        assert_eq!(dispatch(path), expected, "path {:?}", path);
    }
}

#[test]
fn respond_sends_a_value_as_it_is() {
    let value = Json::Object(vec![("ok".to_string(), Json::Bool(true))]);
    let r = WebServer::respond(Ok(Json::Object(vec![("ok".to_string(), Json::Bool(true))])));
    assert_eq!(r.status, STATUS_OK);
    match r.body {
        Body::Value(v) => assert_eq!(v, value),
        other => panic!("got {:?}", other),
    }
    let r = WebServer::respond(Ok(Json::Number(Number::NegInt(-1))));
    assert!(matches!(r.body, Body::Value(Json::Number(Number::NegInt(-1)))));
}

#[test]
fn respond_sends_every_failure_as_an_internal_error_with_its_message() {
    let cases: Vec<(DispatchError, &str)> = vec![
        (DispatchError::NotFound, "module not available"),
        (DispatchError::NotLoaded, "module not available"),
        (DispatchError::AuthMismatch, "Secret mismatch"),
        (DispatchError::NoResult, "Null pointer exception"),
        (DispatchError::Application("Method x not found".to_string()), "Method x not found"),
        (
            DispatchError::ConfigInvalid(ConfigError::MissingSecret),
            "secret config value not found",
        ),
    ];
    for (error, message) in cases {
        let r = WebServer::respond(Err(error));
        assert_eq!(r.status, STATUS_INTERNAL_SERVER_ERROR);
        assert_eq!(r.status, 500);
        match r.body {
            Body::Text(t) => assert_eq!(t, message),
            other => panic!("got {:?}", other),
        }
    }
}

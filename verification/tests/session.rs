use rustegram::json::{Json, Number};
use rustegram::session::Session;

fn num(n: u64) -> Json {
    Json::Number(Number::PosInt(n))
}

fn float(x: f64) -> Json {
    Json::Number(Number::Float(x.to_bits()))
}

fn text(s: &str) -> Json {
    Json::Text(s.to_string())
}

fn list(items: Vec<Json>) -> Json {
    Json::Array(items)
}

fn table(entries: Vec<(&str, Json)>) -> Json {
    Json::Object(entries.into_iter().map(|(k, v)| (k.to_string(), v)).collect())
}

#[test]
fn session_it_works() {
    let mut session = Session::new();
    let key = "test";
    session.add(key, table(vec![("a", num(123))]));
    session.add(key, table(vec![("b", num(456))]));
    session.add(key, table(vec![("a", num(456))]));
    assert_eq!(session.get(key).unwrap(), table(vec![("a", num(456)), ("b", num(456))]));
    session.add(key, table(vec![("b", table(vec![("c", table(vec![("d", Json::Bool(true))]))]))]));
    session.add(key, table(vec![("b", table(vec![("c", table(vec![("e", float(12.25))]))]))]));
    session.add(key, table(vec![("b", table(vec![("c", table(vec![("d", text("false"))]))]))]));
    assert_eq!(
        session.get(key).unwrap(),
        table(vec![
            ("a", num(456)),
            ("b", table(vec![("c", table(vec![("d", text("false")), ("e", float(12.25))]))])),
        ])
    );
    session.add(key, table(vec![("f", list(vec![num(1), num(2), num(3)]))]));
    session.add(key, table(vec![("f", list(vec![num(4), num(5), num(6)]))]));
    assert_eq!(
        session.get(key).unwrap(),
        table(vec![
            ("a", num(456)),
            ("b", table(vec![("c", table(vec![("d", text("false")), ("e", float(12.25))]))])),
            ("f", list(vec![num(4), num(5), num(6)])),
        ])
    );
}

#[test]
fn get_folds_three_fragments_from_the_left() {
    let mut session = Session::new();
    session.add("k", table(vec![("a", num(1))]));
    session.add("k", table(vec![("b", num(2))]));
    session.add("k", table(vec![("a", num(3))]));
    assert_eq!(session.get("k").unwrap(), table(vec![("a", num(3)), ("b", num(2))]));
    // the order in which a table lists its keys does not count
    assert_eq!(session.get("k").unwrap(), table(vec![("b", num(2)), ("a", num(3))]));
    assert_ne!(session.get("k").unwrap(), table(vec![("a", num(1)), ("b", num(2))]));
}

#[test]
fn sequence_merge_keeps_the_longer_length() {
    let mut session = Session::new();
    session.add("k", list(vec![num(1), num(2), num(3)]));
    session.add("k", list(vec![num(9), num(9)]));
    assert_eq!(session.get("k").unwrap(), list(vec![num(9), num(9), num(3)]));
}

#[test]
fn sequence_merge_grows_to_the_later_length() {
    let mut session = Session::new();
    session.add("k", list(vec![num(1)]));
    session.add("k", list(vec![num(7), num(8), num(9)]));
    assert_eq!(session.get("k").unwrap(), list(vec![num(7), num(8), num(9)]));
}

#[test]
fn set_is_a_hard_reset() {
    let mut session = Session::new();
    session.add("k", table(vec![("a", num(1))]));
    session.add("k", table(vec![("b", num(2))]));
    session.add("k", list(vec![num(5)]));
    session.set("k", table(vec![("z", text("y"))]));
    assert_eq!(session.get("k").unwrap(), table(vec![("z", text("y"))]));
    session.add("k", table(vec![("w", Json::Null)]));
    assert_eq!(session.get("k").unwrap(), table(vec![("z", text("y")), ("w", Json::Null)]));
}

#[test]
fn unknown_key_has_no_value() {
    let mut session = Session::new();
    assert!(session.get("never-set").is_none());
    session.set("other", Json::Null);
    assert!(session.get("never-set").is_none());
    // a key that was set to null is present, with the value null
    assert_eq!(session.get("other"), Some(Json::Null));
}

#[test]
fn aggregate_of_a_value_with_itself_is_the_value() {
    let values = vec![
        Json::Null,
        Json::Bool(false),
        num(7),
        Json::Number(Number::NegInt(-3)),
        float(0.5),
        text("x"),
        list(vec![num(1), list(vec![text("a"), Json::Null]), table(vec![("k", num(2))])]),
        table(vec![("a", num(1)), ("b", table(vec![("c", list(vec![num(1), num(2)]))]))]),
    ];
    for v in values.iter() {
        assert_eq!(&Session::aggregate(v, v), v);
    }
}

#[test]
fn aggregate_later_scalar_wins() {
    assert_eq!(Session::aggregate(&num(1), &text("b")), text("b"));
    assert_eq!(Session::aggregate(&list(vec![num(1)]), &num(2)), num(2));
    assert_eq!(Session::aggregate(&table(vec![("a", num(1))]), &list(vec![])), list(vec![]));
    assert_eq!(Session::aggregate(&text("a"), &Json::Null), Json::Null);
    assert_eq!(
        Session::aggregate(&list(vec![num(1)]), &table(vec![("a", num(1))])),
        table(vec![("a", num(1))])
    );
}

#[test]
fn aggregate_tables_take_the_union_of_keys() {
    let a = table(vec![("x", num(1)), ("y", list(vec![num(1), num(2)]))]);
    let b = table(vec![("y", list(vec![num(3)])), ("z", Json::Bool(true))]);
    assert_eq!(
        Session::aggregate(&a, &b),
        table(vec![("x", num(1)), ("y", list(vec![num(3), num(2)])), ("z", Json::Bool(true))])
    );
}

#[test]
fn first_entry_of_a_repeated_key_counts() {
    let twice = table(vec![("a", num(1)), ("a", num(2))]);
    assert_eq!(twice, table(vec![("a", num(1))]));
    assert_ne!(twice, table(vec![("a", num(2))]));
    assert_eq!(Session::aggregate(&Json::Null, &twice), table(vec![("a", num(1))]));
}

#[test]
fn keys_of_a_store_are_apart() {
    let mut session = Session::new();
    session.add("1.2", num(1));
    session.add("1.3", num(2));
    session.set("1.2", num(5));
    assert_eq!(session.get("1.3"), Some(num(2)));
    assert_eq!(session.get("1.2"), Some(num(5)));
}

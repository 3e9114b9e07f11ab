use rustegram::config::{ConfigDocument, ConfigError, ConfigValue};

fn table(entries: Vec<(&str, ConfigValue)>) -> ConfigValue {
    ConfigValue::Table(entries.into_iter().map(|(k, v)| (k.to_string(), v)).collect())
}

fn text(s: &str) -> ConfigValue {
    ConfigValue::Text(s.to_string())
}

#[test]
fn parse_reads_the_two_settings() {
    let doc = ConfigDocument::parse("secret = \"prova\"\ntoken = \"test\"\n").unwrap();
    assert_eq!(doc.secret(), "prova");
    assert_eq!(doc.token(), "test");
    assert!(doc.secret_is("prova"));
    assert!(!doc.secret_is("prov"));
    assert!(!doc.secret_is("test"));
}

#[test]
fn parse_keeps_the_settings_of_the_module() {
    let doc = ConfigDocument::parse(
        "secret = \"s\"\ntoken = \"t\"\nWordsA = [\"a\", \"b\"]\nlimit = 3\nratio = 0.5\nflag = true\nwhen = 1979-05-27T07:32:00Z\n\n[commands]\nfind = \"echo\"\n",
    )
    .unwrap();
    let tree = doc.tree();
    let words = tree.get("WordsA").unwrap().as_array().unwrap();
    assert_eq!(words.len(), 2);
    assert_eq!(words[0].as_str(), Some("a"));
    assert_eq!(words[1].as_str(), Some("b"));
    assert!(matches!(tree.get("limit"), Some(ConfigValue::Integer(3))));
    assert!(matches!(tree.get("flag"), Some(ConfigValue::Boolean(true))));
    match tree.get("ratio") {
        Some(ConfigValue::Float(bits)) => assert_eq!(f64::from_bits(*bits), 0.5),
        other => panic!("ratio is {:?}", other),
    }
    match tree.get("when") {
        Some(ConfigValue::Datetime(s)) => assert_eq!(s, "1979-05-27T07:32:00Z"),
        other => panic!("when is {:?}", other),
    }
    assert_eq!(tree.get("commands").unwrap().get("find").unwrap().as_str(), Some("echo"));
    assert!(tree.get("commands").unwrap().get("lose").is_none());
    assert!(tree.get("absent").is_none());
    assert!(tree.get("limit").unwrap().as_str().is_none());
    assert!(tree.get("limit").unwrap().as_array().is_none());
    assert!(tree.get("limit").unwrap().get("x").is_none());
}

#[test]
fn parse_refuses_what_is_no_toml() {
    match ConfigDocument::parse("secret = ") {
        Err(ConfigError::Syntax(detail)) => assert!(!detail.is_empty()),
        other => panic!("got {:?}", other.map(|_| ())),
    }
    assert!(matches!(ConfigDocument::parse("[[[").map(|_| ()), Err(ConfigError::Syntax(_))));
}

#[test]
fn parse_names_the_setting_that_is_missing_or_wrong() {
    assert!(matches!(ConfigDocument::parse("").map(|_| ()), Err(ConfigError::MissingSecret)));
    assert!(matches!(
        ConfigDocument::parse("token = \"t\"").map(|_| ()),
        Err(ConfigError::MissingSecret)
    ));
    assert!(matches!(
        ConfigDocument::parse("secret = 1\ntoken = \"t\"").map(|_| ()),
        Err(ConfigError::InvalidSecret)
    ));
    assert!(matches!(
        ConfigDocument::parse("secret = 1979-05-27\ntoken = \"t\"").map(|_| ()),
        Err(ConfigError::InvalidSecret)
    ));
    assert!(matches!(
        ConfigDocument::parse("secret = \"s\"").map(|_| ()),
        Err(ConfigError::MissingToken)
    ));
    assert!(matches!(
        ConfigDocument::parse("secret = \"s\"\ntoken = [\"t\"]").map(|_| ()),
        Err(ConfigError::InvalidToken)
    ));
    // the secret is looked at before the token
    assert!(matches!(
        ConfigDocument::parse("secret = true\ntoken = false").map(|_| ()),
        Err(ConfigError::InvalidSecret)
    ));
}

#[test]
fn from_tree_checks_a_tree_that_was_built_by_hand() {
    let doc = ConfigDocument::from_tree(table(vec![("secret", text("a")), ("token", text("b"))]))
        .unwrap();
    assert_eq!(doc.secret(), "a");
    assert_eq!(doc.token(), "b");
    assert!(matches!(
        ConfigDocument::from_tree(text("secret")).map(|_| ()),
        Err(ConfigError::MissingSecret)
    ));
    assert!(matches!(
        ConfigDocument::from_tree(table(vec![("secret", text("a")), ("token", ConfigValue::Integer(1))]))
            .map(|_| ()),
        Err(ConfigError::InvalidToken)
    ));
    // where a key is written twice, the first entry counts
    let twice = ConfigDocument::from_tree(table(vec![
        ("secret", text("first")),
        ("secret", text("second")),
        ("token", text("t")),
    ]))
    .unwrap();
    assert_eq!(twice.secret(), "first");
}

#[test]
fn messages_of_the_errors() {
    assert_eq!(ConfigError::MissingSecret.message(), "secret config value not found");
    assert_eq!(ConfigError::InvalidSecret.message(), "Error interpreting secret config value");
    assert_eq!(ConfigError::MissingToken.message(), "token config value not found");
    assert_eq!(ConfigError::InvalidToken.message(), "Error interpreting token config value");
    assert_eq!(
        ConfigError::Syntax("oops".to_string()).message(),
        "Syntax error on Toml file: oops"
    );
    assert_eq!(
        ConfigError::Unreadable("File \"config/x.toml\" not found".to_string()).message(),
        "File \"config/x.toml\" not found"
    );
}

#[test]
fn parse_agrees_with_the_toml_crate() {
    let source = "secret = \"s\"\ntoken = \"t\"\nn = -7\n[a]\nb = [1, 2]\nc = \"x\"\n";
    let doc = ConfigDocument::parse(source).unwrap();
    let direct: toml::Value = toml::from_str(source).unwrap();
    assert_eq!(direct.get("secret").unwrap().as_str(), Some(doc.secret()));
    assert!(matches!(doc.tree().get("n"), Some(ConfigValue::Integer(-7))));
    let b = doc.tree().get("a").unwrap().get("b").unwrap().as_array().unwrap();
    assert_eq!(b.len(), direct["a"]["b"].as_array().unwrap().len());
    assert!(matches!(b[1], ConfigValue::Integer(2)));
    assert_eq!(doc.tree().get("a").unwrap().get("c").unwrap().as_str(), direct["a"]["c"].as_str());
}

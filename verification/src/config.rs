//! Configuration documents: the tree that a module's configuration file holds,
//! and the two settings that the host itself reads from it.

use crate::assoc::{assoc, find, keys_of, lemma_assoc_absent, lemma_assoc_first};
use vstd::prelude::*;
use vstd::string::StringExecFns;

verus! {

/// A parsed TOML document of the `toml` crate. Nothing of its contents is
/// visible here: it is only handed from the parser to the conversion.
#[verifier::external_type_specification]
#[verifier::external_body]
pub struct ExTomlValue(toml::Value);

/// The error of the `toml` crate's parser.
#[verifier::external_type_specification]
#[verifier::external_body]
pub struct ExTomlError(toml::de::Error);

/// A value of a configuration document.
///
/// A table is held as a list of entries; where a key occurs more than once, the
/// first entry with that key is the one that counts.
#[derive(Debug)]
pub enum ConfigValue {
    /// A string.
    Text(String),
    /// An integer.
    Integer(i64),
    /// A float, by the bits of its IEEE 754 binary64 encoding.
    Float(u64),
    /// A boolean.
    Boolean(bool),
    /// A date or time, as written.
    Datetime(String),
    /// A sequence of values.
    Array(Vec<ConfigValue>),
    /// A table of values.
    Table(Vec<(String, ConfigValue)>),
}

/// The mathematical content of a [`ConfigValue`].
#[verifier::ext_equal]
pub enum ConfigData {
    Text(Seq<char>),
    Integer(i64),
    Float(u64),
    Boolean(bool),
    Datetime(Seq<char>),
    Array(Seq<ConfigData>),
    Table(Map<Seq<char>, ConfigData>),
}

/// What a configuration value holds.
pub open spec fn config_data(v: ConfigValue) -> ConfigData
    decreases v,
{
    match v {
        ConfigValue::Text(s) => ConfigData::Text(s@),
        ConfigValue::Integer(i) => ConfigData::Integer(i),
        ConfigValue::Float(bits) => ConfigData::Float(bits),
        ConfigValue::Boolean(b) => ConfigData::Boolean(b),
        ConfigValue::Datetime(s) => ConfigData::Datetime(s@),
        ConfigValue::Array(items) => ConfigData::Array(config_list(items@)),
        ConfigValue::Table(entries) => ConfigData::Table(assoc(config_pairs(entries@))),
    }
}

/// What a list of configuration values holds, item by item.
pub open spec fn config_list(items: Seq<ConfigValue>) -> Seq<ConfigData>
    decreases items,
{
    Seq::new(
        items.len(),
        |i: int|
            if 0 <= i < items.len() {
                config_data(items[i])
            } else {
                ConfigData::Boolean(false)
            },
    )
}

/// What a list of table entries holds, entry by entry.
pub open spec fn config_pairs(entries: Seq<(String, ConfigValue)>) -> Seq<(Seq<char>, ConfigData)>
    decreases entries,
{
    Seq::new(
        entries.len(),
        |i: int|
            if 0 <= i < entries.len() {
                (entries[i].0@, config_data(entries[i].1))
            } else {
                (Seq::empty(), ConfigData::Boolean(false))
            },
    )
}

impl View for ConfigValue {
    type V = ConfigData;

    open spec fn view(&self) -> ConfigData {
        config_data(*self)
    }
}

/// The value that a tree binds to `key`: none where the tree is no table, or
/// is a table without the key.
pub open spec fn field(tree: ConfigData, key: Seq<char>) -> Option<ConfigData> {
    match tree {
        ConfigData::Table(m) => if m.contains_key(key) {
            Some(m[key])
        } else {
            None
        },
        _ => None,
    }
}

/// The string that a value is: none where it is of another type.
pub open spec fn text_of(value: ConfigData) -> Option<Seq<char>> {
    match value {
        ConfigData::Text(s) => Some(s),
        _ => None,
    }
}

/// The items that a value has as an array: none where it is of another type.
pub open spec fn items_of(value: ConfigData) -> Option<Seq<ConfigData>> {
    match value {
        ConfigData::Array(items) => Some(items),
        _ => None,
    }
}

impl ConfigValue {
    /// The value under `key`, where this value is a table that has the key.
    pub fn get(&self, key: &str) -> (r: Option<&ConfigValue>)
        ensures
            match r {
                Some(v) => field(self@, key@) == Some(v@),
                None => field(self@, key@) is None,
            },
    {
        match self {
            ConfigValue::Table(entries) => {
                let at = find(entries, key);
                proof {
                    let pairs = config_pairs(entries@);
                    assert forall|j: int| 0 <= j < pairs.len() implies (#[trigger] pairs[j]).0
                        == keys_of(entries@)[j] by {}
                    match at {
                        Some(i) => {
                            lemma_assoc_first(pairs, key@, i as int);
                        },
                        None => {
                            lemma_assoc_absent(pairs, key@);
                        },
                    }
                }
                match at {
                    Some(i) => Some(&entries[i].1),
                    None => None,
                }
            },
            _ => None,
        }
    }

    /// The string, where this value is one.
    pub fn as_str(&self) -> (r: Option<&str>)
        ensures
            match r {
                Some(s) => text_of(self@) == Some(s@),
                None => text_of(self@) is None,
            },
    {
        match self {
            ConfigValue::Text(s) => Some(s.as_str()),
            _ => None,
        }
    }

    /// The items, where this value is an array.
    pub fn as_array(&self) -> (r: Option<&Vec<ConfigValue>>)
        ensures
            match r {
                Some(items) => items_of(self@) == Some(config_list(items@)),
                None => items_of(self@) is None,
            },
    {
        match self {
            ConfigValue::Array(items) => Some(items),
            _ => None,
        }
    }
}

/// Why a configuration document was refused.
#[derive(Debug)]
pub enum ConfigError {
    /// The file of the document could not be read; the reader's message is
    /// attached. This library reads no file: the variant is for the caller
    /// that does.
    Unreadable(String),
    /// The text is no TOML document; the parser's message is attached.
    Syntax(String),
    /// The document has no `secret`.
    MissingSecret,
    /// The `secret` of the document is no string.
    InvalidSecret,
    /// The document has no `token`.
    MissingToken,
    /// The `token` of the document is no string.
    InvalidToken,
}

impl ConfigError {
    /// The message of the error, for a person to read.
    pub open spec fn text(self) -> Seq<char> {
        match self {
            ConfigError::Unreadable(detail) => detail@,
            ConfigError::Syntax(detail) => "Syntax error on Toml file: "@ + detail@,
            ConfigError::MissingSecret => "secret config value not found"@,
            ConfigError::InvalidSecret => "Error interpreting secret config value"@,
            ConfigError::MissingToken => "token config value not found"@,
            ConfigError::InvalidToken => "Error interpreting token config value"@,
        }
    }

    /// The message of the error, for a person to read.
    pub fn message(&self) -> (r: String)
        ensures
            r@ == self.text(),
    {
        match self {
            ConfigError::Unreadable(detail) => detail.clone(),
            ConfigError::Syntax(detail) => "Syntax error on Toml file: ".to_owned().concat(
                detail.as_str(),
            ),
            ConfigError::MissingSecret => "secret config value not found".to_owned(),
            ConfigError::InvalidSecret => "Error interpreting secret config value".to_owned(),
            ConfigError::MissingToken => "token config value not found".to_owned(),
            ConfigError::InvalidToken => "Error interpreting token config value".to_owned(),
        }
    }
}

/// The key of the authentication secret.
pub open spec fn secret_key() -> Seq<char> {
    "secret"@
}

/// The key of the upstream-service token.
pub open spec fn token_key() -> Seq<char> {
    "token"@
}

/// Whether a tree is a valid configuration document: both mandatory keys
/// resolve to strings.
pub open spec fn valid(tree: ConfigData) -> bool {
    &&& field(tree, secret_key()) matches Some(s) && s is Text
    &&& field(tree, token_key()) matches Some(t) && t is Text
}

/// The authentication secret of a valid tree.
pub open spec fn secret_of(tree: ConfigData) -> Seq<char> {
    text_of(field(tree, secret_key())->0)->0
}

/// The upstream-service token of a valid tree.
pub open spec fn token_of(tree: ConfigData) -> Seq<char> {
    text_of(field(tree, token_key())->0)->0
}

/// A tree is valid exactly where it has no fault.
pub proof fn lemma_valid_has_no_fault(tree: ConfigData)
    ensures
        valid(tree) <==> fault(tree) is None,
{
}

/// The fault of a tree that is no valid configuration document: the first of
/// a missing secret, a secret that is no string, a missing token, a token that
/// is no string.
pub open spec fn fault(tree: ConfigData) -> Option<ConfigError> {
    match field(tree, secret_key()) {
        None => Some(ConfigError::MissingSecret),
        Some(s) => if !(s is Text) {
            Some(ConfigError::InvalidSecret)
        } else {
            match field(tree, token_key()) {
                None => Some(ConfigError::MissingToken),
                Some(t) => if !(t is Text) {
                    Some(ConfigError::InvalidToken)
                } else {
                    None
                },
            }
        },
    }
}

/// The document that a text is as TOML, where it is one: what the `toml`
/// crate's parser makes of the text.
pub uninterp spec fn toml_tree(text: Seq<char>) -> Option<ConfigData>;

/// Copies a `toml::Value` into a value of this library, variant by variant:
/// a float by `to_bits`, a datetime by the text that its `to_string` gives, a
/// table by the entries that its `iter` yields, in their order. Nothing is
/// claimed of it here; what the parsing as a whole gives is claimed of
/// [`parse_toml`].
#[verifier::external_body]
fn lift_toml(v: &toml::Value) -> ConfigValue {
    match v {
        toml::Value::String(s) => ConfigValue::Text(s.clone()),
        toml::Value::Integer(i) => ConfigValue::Integer(*i),
        toml::Value::Float(x) => ConfigValue::Float(x.to_bits()),
        toml::Value::Boolean(b) => ConfigValue::Boolean(*b),
        toml::Value::Datetime(d) => ConfigValue::Datetime(d.to_string()),
        toml::Value::Array(a) => ConfigValue::Array(a.iter().map(lift_toml).collect()),
        toml::Value::Table(t) => ConfigValue::Table(
            t.iter().map(|(k, x)| (k.clone(), lift_toml(x))).collect(),
        ),
    }
}

/// Calls `toml::from_str` for a `toml::Value`. The claim: the call succeeds
/// exactly on the texts that are TOML documents, and what it returns is the
/// document that the text is.
#[verifier::external_body]
fn parse_toml(text: &str) -> (r: Result<ConfigValue, toml::de::Error>)
    ensures
        match r {
            Ok(v) => toml_tree(text@) == Some(v@),
            Err(_) => toml_tree(text@) is None,
        },
{
    toml::from_str::<toml::Value>(text).map(|v| lift_toml(&v))
}

/// Calls `to_string` on the parser's error: its message, of which nothing is
/// claimed.
#[verifier::external_body]
fn toml_error_text(e: &toml::de::Error) -> String {
    e.to_string()
}

/// A valid configuration document, shared by all callers of one module.
pub struct ConfigDocument {
    tree: ConfigValue,
    secret: String,
    token: String,
}

impl ConfigDocument {
    #[verifier::type_invariant]
    spec fn holds_settings(self) -> bool {
        &&& field(self.tree@, secret_key()) == Some(ConfigData::Text(self.secret@))
        &&& field(self.tree@, token_key()) == Some(ConfigData::Text(self.token@))
    }

    /// The whole tree of the document.
    pub closed spec fn data(&self) -> ConfigData {
        self.tree@
    }

    /// The authentication secret of the document.
    pub closed spec fn secret_text(&self) -> Seq<char> {
        self.secret@
    }

    /// The upstream-service token of the document.
    pub closed spec fn token_text(&self) -> Seq<char> {
        self.token@
    }

    /// Makes a document of a tree, or says what the tree lacks.
    pub fn from_tree(tree: ConfigValue) -> (r: Result<ConfigDocument, ConfigError>)
        ensures
            match r {
                Ok(d) => fault(tree@) is None && valid(tree@) && d.data() == tree@
                    && d.secret_text() == secret_of(tree@) && d.token_text() == token_of(tree@),
                Err(e) => fault(tree@) == Some(e) && !valid(tree@),
            },
    {
        let secret: String = match tree.get("secret") {
            None => {
                return Err(ConfigError::MissingSecret);
            },
            Some(v) => match v.as_str() {
                None => {
                    return Err(ConfigError::InvalidSecret);
                },
                Some(s) => s.to_owned(),
            },
        };
        let token: String = match tree.get("token") {
            None => {
                return Err(ConfigError::MissingToken);
            },
            Some(v) => match v.as_str() {
                None => {
                    return Err(ConfigError::InvalidToken);
                },
                Some(s) => s.to_owned(),
            },
        };
        Ok(ConfigDocument { tree, secret, token })
    }

    /// Reads a document from the text of a configuration file.
    pub fn parse(text: &str) -> (r: Result<ConfigDocument, ConfigError>)
        ensures
            match toml_tree(text@) {
                None => r matches Err(ConfigError::Syntax(_)),
                Some(tree) => match r {
                    Ok(d) => fault(tree) is None && d.data() == tree && d.secret_text()
                        == secret_of(tree) && d.token_text() == token_of(tree),
                    Err(e) => fault(tree) == Some(e),
                },
            },
    {
        match parse_toml(text) {
            Err(e) => Err(ConfigError::Syntax(toml_error_text(&e))),
            Ok(tree) => ConfigDocument::from_tree(tree),
        }
    }

    /// Whether `candidate` is the authentication secret.
    pub fn secret_is(&self, candidate: &str) -> (r: bool)
        ensures
            r == (candidate@ == self.secret_text()),
    {
        let given: String = candidate.to_owned();
        self.secret == given
    }

    /// The authentication secret.
    pub fn secret(&self) -> (r: &str)
        ensures
            r@ == self.secret_text(),
            valid(self.data()),
            r@ == secret_of(self.data()),
    {
        proof {
            use_type_invariant(self);
        }
        self.secret.as_str()
    }

    /// The upstream-service token.
    pub fn token(&self) -> (r: &str)
        ensures
            r@ == self.token_text(),
            valid(self.data()),
            r@ == token_of(self.data()),
    {
        proof {
            use_type_invariant(self);
        }
        self.token.as_str()
    }

    /// The tree of the document, for the settings that a module reads itself.
    pub fn tree(&self) -> (r: &ConfigValue)
        ensures
            r@ == self.data(),
            valid(r@),
    {
        proof {
            use_type_invariant(self);
        }
        &self.tree
    }
}

} // verus!

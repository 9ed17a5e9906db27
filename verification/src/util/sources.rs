//! The outside crates the library's logic calls: the TOML document parser
//! (`toml`), the URL parser (`url`), the login-name lookup (`whoami`) and
//! the random id generator (`uuid`) and the JSON parser (`serde_json`). Each call stands behind a trusted item
//! whose contract is stated here.

use vstd::prelude::*;

verus! {

#[verifier::external_type_specification]
#[verifier::external_body]
#[verifier::reject_recursive_types(K)]
#[verifier::reject_recursive_types(V)]
pub struct ExTomlMap<K, V>(toml::map::Map<K, V>);

#[verifier::external_type_specification]
#[verifier::external_body]
pub struct ExTomlValue(toml::Value);

/// What a TOML value holds, as far as the configuration reads it. A float is
/// kept as the text its `Display` renders, which is all the resolver uses.
pub enum TomlItem {
    Text(Seq<char>),
    Integer(int),
    Float(Seq<char>),
    Boolean(bool),
    Datetime,
    Array,
    Table(Map<Seq<char>, TomlItem>),
}

/// The entries of a TOML table, key by key.
pub uninterp spec fn toml_table_entries(t: toml::Table) -> Map<Seq<char>, TomlItem>;

/// What a single TOML value holds.
pub uninterp spec fn toml_value_item(v: toml::Value) -> TomlItem;

/// The outcome of parsing a text as a TOML document: its top-level entries,
/// or the parser's error message.
pub uninterp spec fn toml_document(text: Seq<char>) -> Result<Map<Seq<char>, TomlItem>, Seq<char>>;

/// A TOML value seen through its variant: scalars carry their payload, the
/// other variants only their kind.
pub enum TomlScalar {
    Text(String),
    Integer(i64),
    Float(String),
    Boolean(bool),
    Datetime,
    Array,
    Table,
}

pub open spec fn scalar_agrees(s: TomlScalar, item: TomlItem) -> bool {
    match (s, item) {
        (TomlScalar::Text(a), TomlItem::Text(b)) => a@ == b,
        (TomlScalar::Integer(a), TomlItem::Integer(b)) => a as int == b,
        (TomlScalar::Float(a), TomlItem::Float(b)) => a@ == b,
        (TomlScalar::Boolean(a), TomlItem::Boolean(b)) => a == b,
        (TomlScalar::Datetime, TomlItem::Datetime) => true,
        (TomlScalar::Array, TomlItem::Array) => true,
        (TomlScalar::Table, TomlItem::Table(_)) => true,
        _ => false,
    }
}

/// Parses `content` as a TOML document whose top level is a table.
///
/// Trusted: `toml::from_str::<toml::Table>`. The contract claims only that the
/// outcome is the parser's (a table whose entries are `toml_document`'s, or
/// its error message rendered by `Display`), which depends on the text alone.
#[verifier::external_body]
pub(crate) fn parse_toml_table(content: &str) -> (r: Result<toml::Table, String>)
    ensures
        match (r, toml_document(content@)) {
            (Ok(t), Ok(m)) => toml_table_entries(t) == m,
            (Err(e), Err(m)) => e@ == m,
            _ => false,
        },
{
    match toml::from_str::<toml::Table>(content) {
        Ok(t) => Ok(t),
        Err(e) => Err(e.to_string()),
    }
}

/// Looks a key up in a TOML table.
///
/// Trusted: `toml::map::Map::get`, which returns the value stored under the key,
/// or `None` when the table has no such key.
#[verifier::external_body]
pub(crate) fn table_get<'a>(t: &'a toml::Table, key: &str) -> (r: Option<&'a toml::Value>)
    ensures
        r is Some <==> toml_table_entries(*t).contains_key(key@),
        r matches Some(v) ==> toml_value_item(*v) == toml_table_entries(*t)[key@],
{
    t.get(key)
}

/// Views a TOML value as a table.
///
/// Trusted: `toml::Value::as_table`, which returns the table a `Value::Table`
/// holds and `None` for every other variant.
#[verifier::external_body]
pub(crate) fn value_as_table(v: &toml::Value) -> (r: Option<&toml::Table>)
    ensures
        r is Some <==> toml_value_item(*v) is Table,
        r matches Some(t) ==> toml_value_item(*v) == TomlItem::Table(toml_table_entries(*t)),
{
    v.as_table()
}

/// Tells the variants of a TOML value apart.
///
/// Trusted: a match on `toml::Value`; a string is copied, a float rendered
/// with its `Display`, and the non-scalar variants keep only their kind.
#[verifier::external_body]
pub(crate) fn value_scalar(v: &toml::Value) -> (r: TomlScalar)
    ensures
        scalar_agrees(r, toml_value_item(*v)),
{
    match v {
        toml::Value::String(s) => TomlScalar::Text(s.clone()),
        toml::Value::Integer(i) => TomlScalar::Integer(*i),
        toml::Value::Float(f) => TomlScalar::Float(f.to_string()),
        toml::Value::Boolean(b) => TomlScalar::Boolean(*b),
        toml::Value::Datetime(_) => TomlScalar::Datetime,
        toml::Value::Array(_) => TomlScalar::Array,
        toml::Value::Table(_) => TomlScalar::Table,
    }
}

/// The scheme and host of a parsed URL.
pub struct UrlParts {
    pub scheme: String,
    pub host: Option<String>,
}

pub open spec fn opt_text(o: Option<String>) -> Option<Seq<char>> {
    match o {
        Some(s) => Some(s@),
        None => None,
    }
}

/// The outcome of parsing a text as a URL: its scheme and host, or the
/// parser's error message.
pub uninterp spec fn url_parse(text: Seq<char>) -> Result<(Seq<char>, Option<Seq<char>>), Seq<char>>;

/// Parses `text` as an absolute URL.
///
/// Trusted: `url::Url::parse`, with `Url::scheme` and `Url::host_str` read off
/// its result and its error rendered by `Display`; the outcome depends on the
/// text alone.
#[verifier::external_body]
pub(crate) fn parse_url(text: &str) -> (r: Result<UrlParts, String>)
    ensures
        match (r, url_parse(text@)) {
            (Ok(p), Ok((scheme, host))) => p.scheme@ == scheme && opt_text(p.host) == host,
            (Err(e), Err(m)) => e@ == m,
            _ => false,
        },
{
    match url::Url::parse(text) {
        Ok(u) => Ok(UrlParts { scheme: u.scheme().to_string(), host: match u.host_str() {
            Some(h) => Some(h.to_string()),
            None => None,
        } }),
        Err(e) => Err(e.to_string()),
    }
}

/// The login name of the user running the process, when it can be found.
///
/// Trusted: `whoami::username`. It reads the machine's account database, so
/// nothing is stated of what it returns.
#[verifier::external_body]
pub(crate) fn current_username() -> (r: Option<String>) {
    match whoami::username() {
        Ok(u) => Some(u),
        Err(_) => None,
    }
}

/// A fresh random id.
///
/// Trusted: `uuid::Uuid::new_v4`, rendered by `to_string`, which writes the
/// hyphenated form of 36 characters. Which id comes out is random, so
/// nothing more is stated of it.
#[verifier::external_body]
pub(crate) fn random_id() -> (id: String)
    ensures
        id@.len() == 36,
{
    uuid::Uuid::new_v4().to_string()
}

/// The outcome of parsing a text as JSON: the value pretty-printed, or the
/// parser's error message.
pub uninterp spec fn json_pretty(body: Seq<char>) -> Result<Seq<char>, Seq<char>>;

/// Parses `body` as a JSON value and pretty-prints it.
///
/// Trusted: `serde_json::from_str::<serde_json::Value>` with its error
/// rendered by `Display`, then `serde_json::to_string_pretty` (falling back
/// to the value's compact `Display`, as the command line does); the outcome
/// depends on the text alone.
#[verifier::external_body]
pub(crate) fn pretty_json(body: &str) -> (r: Result<String, String>)
    ensures
        match (r, json_pretty(body@)) {
            (Ok(s), Ok(p)) => s@ == p,
            (Err(e), Err(m)) => e@ == m,
            _ => false,
        },
{
    match serde_json::from_str::<serde_json::Value>(body) {
        Ok(v) => Ok(serde_json::to_string_pretty(&v).unwrap_or_else(|_| v.to_string())),
        Err(e) => Err(e.to_string()),
    }
}

} // verus!

//! The configuration document: a TOML table, read by the `toml` crate.
//!
//! Nothing here is proved. The two functions at the end call into `toml`, and
//! their contracts are taken on trust; the rest of the library is verified
//! against them. What a document holds is not spelled out: it is whatever
//! `toml` reads, under the names [`document_settings`] and
//! [`table_settings`].

use vstd::prelude::*;

verus! {

/// `toml::map::Map`, of which `toml::Table` is the instance from `String` to
/// `toml::Value`. Nothing is known of what is inside.
#[verifier::external_type_specification]
#[verifier::external_body]
#[verifier::reject_recursive_types(K)]
#[verifier::reject_recursive_types(V)]
pub struct ExMap<K, V>(toml::map::Map<K, V>);

/// `toml::Value`, what a key of a table holds. Nothing is known of what is
/// inside.
#[verifier::external_type_specification]
#[verifier::external_body]
pub struct ExValue(toml::Value);

/// `toml::de::Error`, why a text is no TOML document. Nothing is known of
/// what is inside.
#[verifier::external_type_specification]
#[verifier::external_body]
pub struct ExDocumentError(toml::de::Error);

/// What one key of a document holds, as far as the configuration cares: a
/// string, a boolean, or a value of another type.
#[derive(Debug, Clone, PartialEq, Eq)]
pub enum Setting {
    Text(String),
    Flag(bool),
    Other,
}

/// A [`Setting`] as a mathematical value.
pub enum SettingView {
    Text(Seq<char>),
    Flag(bool),
    Other,
}

impl View for Setting {
    type V = SettingView;

    open spec fn view(&self) -> SettingView {
        match self {
            Setting::Text(text) => SettingView::Text(text@),
            Setting::Flag(flag) => SettingView::Flag(*flag),
            Setting::Other => SettingView::Other,
        }
    }
}

/// The top-level entries of a table: each key with what it holds.
pub uninterp spec fn table_settings(table: toml::Table) -> Map<Seq<char>, SettingView>;

/// The top-level entries of the table that a text writes in TOML, or `None`
/// where the text is no TOML document.
pub uninterp spec fn document_settings(text: Seq<char>) -> Option<Map<Seq<char>, SettingView>>;

/// What a table holds under a key.
pub open spec fn setting_of(settings: Map<Seq<char>, SettingView>, key: Seq<char>) -> Option<
    SettingView,
> {
    if settings.contains_key(key) {
        Some(settings[key])
    } else {
        None
    }
}

/// Calls `str::parse::<toml::Table>`, which is `toml::from_str`. Claimed: the
/// outcome depends on the text alone; `Ok` comes with the table that the text
/// writes, `Err` when the text is no TOML document.
#[verifier::external_body]
pub(crate) fn parse_table(text: &str) -> (parsed: Result<toml::Table, toml::de::Error>)
    ensures
        match parsed {
            Ok(table) => document_settings(text@) == Some(table_settings(table)),
            Err(_) => document_settings(text@) is None,
        },
{
    text.parse::<toml::Table>()
}

/// Calls `toml::map::Map::get` and tells the variants of `toml::Value`
/// apart. Claimed: `None` exactly when the table has no such key; a string
/// and a boolean come back with their content, every other value as
/// [`Setting::Other`].
#[verifier::external_body]
pub(crate) fn table_get(table: &toml::Table, key: &str) -> (found: Option<Setting>)
    ensures
        match found {
            Some(setting) => setting_of(table_settings(*table), key@) == Some(setting@),
            None => setting_of(table_settings(*table), key@) is None,
        },
{
    match table.get(key) {
        None => None,
        Some(toml::Value::String(text)) => Some(Setting::Text(text.clone())),
        Some(toml::Value::Boolean(flag)) => Some(Setting::Flag(*flag)),
        Some(toml::Value::Integer(_)) => Some(Setting::Other),
        Some(toml::Value::Float(_)) => Some(Setting::Other),
        Some(toml::Value::Datetime(_)) => Some(Setting::Other),
        Some(toml::Value::Array(_)) => Some(Setting::Other),
        Some(toml::Value::Table(_)) => Some(Setting::Other),
    }
}

} // verus!

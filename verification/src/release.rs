//! Release inspector: the Java version that the `release` file of an unpacked
//! JDK reports.

use std::collections::HashMap;
use vstd::hash_map::StringHashMap;
use vstd::prelude::*;
use crate::scan::{flat, is_flat};

verus! {

/// The table of strings that `toml::from_str` reads from `text`, or `None`
/// where it rejects `text` as a table of strings.
pub uninterp spec fn toml_string_table(text: Seq<char>) -> Option<Map<Seq<char>, Seq<char>>>;

/// The key under which a `release` file gives the Java version.
pub open spec fn version_key() -> Seq<char> {
    "JAVA_VERSION"@
}

/// The keys and values of `table` as text.
pub open spec fn table_text(table: StringHashMap<String>) -> Map<Seq<char>, Seq<char>> {
    table@.map_values(|value: String| value@)
}

/// The Java version that release metadata holds, where it has the key.
pub open spec fn version_in(table: Map<Seq<char>, Seq<char>>) -> Option<Seq<char>> {
    if table.contains_key(version_key()) {
        Some(table[version_key()])
    } else {
        None
    }
}

/// The table of strings that `text` holds. A text that is not flat holds
/// none: a bracket or a brace in its code opens an array or a table, and a
/// dot in its code stands in a dotted key, in a number or in a date, so one
/// of its values is no string, or it is no TOML at all. The parser is asked
/// for flat texts only.
pub open spec fn string_table(text: Seq<char>) -> Option<Map<Seq<char>, Seq<char>>> {
    if flat(text) {
        toml_string_table(text)
    } else {
        None
    }
}

/// The Java version that the text of a `release` file reports: the value of
/// the version key in the table of strings that the text holds, and none
/// where the text holds no table of strings or the table lacks the key.
pub open spec fn release_version(text: Seq<char>) -> Option<Seq<char>> {
    match string_table(text) {
        Some(table) => version_in(table),
        None => None,
    }
}

/// Calls `toml::from_str` to read `text` as a map from strings to strings.
/// The contract names the outcome `toml_string_table(text)`: `None` where
/// `toml::from_str` returns an error, else the keys and values that it
/// returned. Nothing more is claimed of what the parser accepts.
///
/// The parser has no limit of its own on how deep the values nest that it
/// builds and drops, so only a flat text is handed to it. The parser reads
/// the text token by token, and `flat` splits a text into strings, comments
/// and code as the parser's tokens do. In a flat text no token opens an array
/// or a table and none is a dot, so every value that the parser builds is a
/// single string, whole number, date or truth value, under a key of one
/// part, and nothing nests.
#[verifier::external_body]
fn parse_string_table(text: &str) -> (r: Option<StringHashMap<String>>)
    requires
        flat(text@),
    ensures
        r is Some <==> toml_string_table(text@) is Some,
        r matches Some(table) ==> toml_string_table(text@) == Some(table_text(table)),
{
    let parsed: Result<HashMap<String, String>, toml::de::Error> = toml::from_str(text);
    match parsed {
        Ok(entries) => {
            let mut table = StringHashMap::new();
            for (key, value) in entries {
                table.insert(key, value);
            }
            Some(table)
        },
        Err(_) => None,
    }
}

/// Looks the Java version up in release metadata.
pub fn java_version(table: &StringHashMap<String>) -> (r: Option<String>)
    ensures
        r.deep_view() == version_in(table_text(*table)),
{
    match table.get("JAVA_VERSION") {
        Some(value) => Some(value.clone()),
        None => None,
    }
}

/// Reads the table of strings that `text` holds.
pub fn read_string_table(text: &str) -> (r: Option<StringHashMap<String>>)
    ensures
        r is Some <==> string_table(text@) is Some,
        r matches Some(table) ==> string_table(text@) == Some(table_text(table)),
{
    if is_flat(text) {
        parse_string_table(text)
    } else {
        None
    }
}

/// Reads the Java version from the text of a `release` file.
pub fn read_release(text: &str) -> (r: Option<String>)
    ensures
        r.deep_view() == release_version(text@),
{
    match read_string_table(text) {
        Some(table) => java_version(&table),
        None => None,
    }
}

} // verus!

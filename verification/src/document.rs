//! The parsed manifest as the search sees it.
//!
//! The manifest is held in the tables and values of the `toml` crate. This
//! module gives them a mathematical reading, a tree of [`Node`]s, and states
//! every call into `toml` over that reading. With the `preserve_order`
//! feature of `toml`, a table is walked in the order in which the parser
//! put its entries in, so in the order of the manifest. Nothing in this module is
//! proved: the types of `toml` are opaque to the verifier, [`value_node`],
//! [`table_entries`] and [`parsed`] have no definition, and the contracts of
//! the functions that call `toml` are taken on trust. All that the rest of
//! the library knows of a manifest, it knows from them.

use toml::de::Error as ParseError;
use vstd::prelude::*;

verus! {

/// What a TOML value is to the search: a string, a table, or anything else.
pub enum Node {
    /// A string value, by its characters.
    Text(Seq<char>),
    /// A table value, by its entries in iteration order.
    Table(Seq<(Seq<char>, Node)>),
    /// A value of any other TOML type.
    Other,
}

/// The entries of a table: each key with the value under it.
pub type Entries = Seq<(Seq<char>, Node)>;

/// `toml::Value`, a TOML value of any type. Its variants stay hidden; what
/// a value holds is read through [`value_node`].
#[verifier::external_type_specification]
#[verifier::external_body]
pub struct ExValue(toml::Value);

/// `toml::map::Map`, the map behind a TOML table. What a table holds is
/// read through [`table_entries`].
#[verifier::external_type_specification]
#[verifier::external_body]
#[verifier::reject_recursive_types(K)]
#[verifier::reject_recursive_types(V)]
pub struct ExMap<K, V>(toml::map::Map<K, V>);

/// `toml::de::Error`, the error of the TOML parser. It is carried along and
/// never looked into.
#[verifier::external_type_specification]
#[verifier::external_body]
pub struct ExParseError(ParseError);

/// The tree that a value of `toml` stands for: `Text` with its characters
/// for a string, `Table` with the entries of its table for a table, `Other`
/// for a value of any other type.
pub uninterp spec fn value_node(value: toml::Value) -> Node;

/// The entries that a table of `toml` holds, each key with the tree of its
/// value, in the order in which the table is walked. No two of them have the
/// same key.
pub uninterp spec fn table_entries(table: toml::map::Map<String, toml::Value>) -> Entries;

/// The value under the first entry with the given key, if there is one.
pub open spec fn lookup(entries: Entries, key: Seq<char>) -> Option<Node>
    decreases entries.len(),
{
    if entries.len() == 0 {
        None
    } else if entries[0].0 == key {
        Some(entries[0].1)
    } else {
        lookup(entries.drop_first(), key)
    }
}

/// `toml::Value::as_str`: the string of a string value, and nothing for a
/// value of any other type. So a value stands for `Text` exactly where this
/// returns its string.
#[verifier::external_body]
pub(crate) fn value_as_str<'a>(value: &'a toml::Value) -> (text: Option<&'a str>)
    ensures
        match text {
            Some(s) => value_node(*value) == Node::Text(s@),
            None => !(value_node(*value) is Text),
        },
{
    value.as_str()
}

/// `toml::Value::as_table`: the table of a table value, and nothing for a
/// value of any other type. So a value stands for `Table` exactly where this
/// returns its table.
#[verifier::external_body]
pub(crate) fn value_as_table<'a>(value: &'a toml::Value) -> (table: Option<
    &'a toml::map::Map<String, toml::Value>,
>)
    ensures
        match table {
            Some(t) => value_node(*value) == Node::Table(table_entries(*t)),
            None => !(value_node(*value) is Table),
        },
{
    value.as_table()
}

/// `toml::map::Map::get`: the value stored under a key, and nothing where the
/// table has no such key. As no two entries share a key, that is the value
/// of the first entry with the key.
#[verifier::external_body]
pub(crate) fn table_get<'a>(table: &'a toml::map::Map<String, toml::Value>, key: &str) -> (value:
    Option<&'a toml::Value>)
    ensures
        match value {
            Some(v) => lookup(table_entries(*table), key@) == Some(value_node(*v)),
            None => lookup(table_entries(*table), key@) is None,
        },
{
    table.get(key)
}

/// `toml::map::Map::iter`, collected: every entry of the table, key and
/// value, in the order in which the table is walked.
#[verifier::external_body]
pub(crate) fn table_iter<'a>(table: &'a toml::map::Map<String, toml::Value>) -> (entries: Vec<
    (&'a String, &'a toml::Value),
>)
    ensures
        entries@.len() == table_entries(*table).len(),
        forall|i: int|
            0 <= i < entries@.len() ==> table_entries(*table)[i] == (
                (#[trigger] entries@[i]).0@,
                value_node(*entries@[i].1),
            ),
{
    table.iter().collect()
}

/// `Clone::clone` of a table: the copy holds the same entries in the same
/// order.
pub assume_specification[ <toml::map::Map<String, toml::Value> as Clone>::clone ](
    table: &toml::map::Map<String, toml::Value>,
) -> (copy: toml::map::Map<String, toml::Value>)
    ensures
        table_entries(copy) == table_entries(*table),
;

/// The entries of the top-level table that a manifest text parses to;
/// nothing where the parser refuses the text.
pub uninterp spec fn parsed(text: Seq<char>) -> Option<Entries>;

/// `toml::from_str`, asked for a table: the top-level table of the document
/// that the text holds, or the parser's error where it refuses the text.
/// Which of the two, and which table, depends on the text alone.
#[verifier::external_body]
pub(crate) fn parse(text: &str) -> (document: Result<
    toml::map::Map<String, toml::Value>,
    ParseError,
>)
    ensures
        match document {
            Ok(table) => parsed(text@) == Some(table_entries(table)),
            Err(_) => parsed(text@) is None,
        },
{
    toml::from_str(text)
}

} // verus!

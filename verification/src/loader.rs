//! Reading the alias table from a TOML document: a flat table whose values
//! are all strings, such as
//!
//! ```toml
//! mvn = "mvn clean compile"
//! python = "uv run python"
//! ```

use crate::alias::{lemma_table_of_keys, lemma_table_of_last_match, table_of, AliasTable};
use std::collections::HashMap;
use vstd::prelude::*;

verus! {

/// The error type of the `toml` crate's deserializer, carried through as it is.
#[verifier::external_type_specification]
#[verifier::external_body]
pub struct ExTomlError(toml::de::Error);

/// What `toml::from_str` makes of a document when asked for a map from
/// strings to strings: the map, or nothing where it reports an error.
pub uninterp spec fn toml_string_table(content: Seq<char>) -> Option<Map<Seq<char>, Seq<char>>>;

/// `pairs` lists `table` entry by entry: no key twice, every pair an entry
/// of the table, every key of the table in some pair.
pub open spec fn lists(
    pairs: Seq<(Seq<char>, Seq<char>)>,
    table: Map<Seq<char>, Seq<char>>,
) -> bool {
    &&& forall|i: int, j: int| 0 <= i < j < pairs.len() ==> pairs[i].0 != pairs[j].0
    &&& forall|i: int|
        0 <= i < pairs.len() ==> table.contains_key(#[trigger] pairs[i].0) && table[pairs[i].0]
            == pairs[i].1
    &&& forall|key: Seq<char>| #[trigger]
        table.contains_key(key) ==> exists|i: int| 0 <= i < pairs.len() && pairs[i].0 == key
}

/// Calls `toml::from_str` for a `HashMap<String, String>` and hands its
/// entries out as pairs, in whatever order the map yields them.
///
/// Trusted: that the call's result depends on the document alone, and that
/// the pairs handed out are the entries of the map it built, each key once.
/// Nothing is claimed about which documents parse, nor about the order of
/// the pairs.
#[verifier::external_body]
fn toml_string_pairs(content: &str) -> (parsed: Result<Vec<(String, String)>, toml::de::Error>)
    ensures
        match parsed {
            Ok(pairs) => toml_string_table(content@) matches Some(table) && lists(
                pairs.deep_view(),
                table,
            ),
            Err(_) => toml_string_table(content@) is None,
        },
{
    match toml::from_str::<HashMap<String, String>>(content) {
        Ok(table) => Ok(table.into_iter().collect()),
        Err(error) => Err(error),
    }
}

/// The text of a `toml` error, as its `Display` gives it. Nothing is
/// claimed about the text.
#[verifier::external_body]
fn toml_error_text(error: &toml::de::Error) -> String {
    error.to_string()
}

/// Why a document is not an alias table.
#[derive(Debug, PartialEq, Eq)]
pub struct ParseError {
    /// The parser's own account, with the place in the document.
    pub message: String,
}

/// A list that names every entry of a table once stands for that table.
pub proof fn lemma_listed_table(
    pairs: Seq<(Seq<char>, Seq<char>)>,
    table: Map<Seq<char>, Seq<char>>,
)
    requires
        lists(pairs, table),
    ensures
        table_of(pairs) == table,
{
    assert forall|key: Seq<char>| #[trigger]
        table_of(pairs).contains_key(key) <==> table.contains_key(key) by {
        lemma_table_of_keys(pairs, key);
        if table_of(pairs).contains_key(key) {
            let j = choose|j: int| 0 <= j < pairs.len() && #[trigger] pairs[j].0 == key;
            assert(table.contains_key(pairs[j].0));
        }
    }
    assert forall|key: Seq<char>| #[trigger] table.contains_key(key) implies table_of(pairs)[key]
        == table[key] by {
        let at = choose|at: int| 0 <= at < pairs.len() && pairs[at].0 == key;
        lemma_table_of_last_match(pairs, key, at);
    }
    assert(table_of(pairs) =~= table);
}

/// Reads an alias table from a TOML document.
pub fn parse_commands(content: &str) -> (parsed: Result<AliasTable, ParseError>)
    ensures
        match parsed {
            Ok(table) => toml_string_table(content@) == Some(table@),
            Err(_) => toml_string_table(content@) is None,
        },
{
    match toml_string_pairs(content) {
        Ok(pairs) => {
            proof {
                lemma_listed_table(pairs.deep_view(), toml_string_table(content@)->0);
            }
            Ok(AliasTable::from_pairs(pairs))
        },
        Err(error) => Err(ParseError { message: toml_error_text(&error) }),
    }
}

/// The alias table to run with: the one that was read, or the empty table
/// where the document was malformed, so that every command stands for
/// itself.
pub fn commands_or_empty(parsed: Result<AliasTable, ParseError>) -> (table: AliasTable)
    ensures
        table@ == match parsed {
            Ok(read) => read@,
            Err(_) => Map::<Seq<char>, Seq<char>>::empty(),
        },
{
    match parsed {
        Ok(read) => read,
        Err(_) => AliasTable::new(),
    }
}

} // verus!

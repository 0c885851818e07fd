//! The command prefix of each guild, and the JSON text it is saved as.

use vstd::prelude::*;
use std::collections::HashMap;

verus! {

broadcast use vstd::std_specs::hash::group_hash_axioms;

/// The prefix of a guild that has not chosen one.
pub open spec fn default_prefix() -> Seq<char> {
    seq!['!']
}

/// The views of the prefixes in a table.
pub open spec fn prefix_views(table: Map<u64, String>) -> Map<u64, Seq<char>> {
    table.map_values(|p: String| p@)
}

/// The prefix table that the JSON object in `text` describes, if it is one
/// whose keys are integers and whose values are strings.
pub uninterp spec fn json_prefix_table(text: Seq<char>) -> Option<Map<u64, Seq<char>>>;

/// Relies on serde_json's `from_str` into a `HashMap<u64, String>`.
#[verifier::external_body]
fn parse_prefix_table(text: &str) -> (r: Option<HashMap<u64, String>>)
    ensures
        match r {
            Some(table) => json_prefix_table(text@) == Some(prefix_views(table@)),
            None => json_prefix_table(text@) is None,
        },
{
    serde_json::from_str::<HashMap<u64, String>>(text).ok()
}

/// Relies on serde_json's `to_string_pretty`: the table as a JSON object. The
/// order of its members follows the map's iteration order, which is not fixed.
#[verifier::external_body]
fn prefix_table_json(table: &HashMap<u64, String>) -> (r: Option<String>) {
    serde_json::to_string_pretty(table).ok()
}

/// The prefix table saved as `text`; empty when the text does not describe one.
pub fn load_prefixes(text: &str) -> (r: HashMap<u64, String>)
    ensures
        prefix_views(r@) == match json_prefix_table(text@) {
            Some(m) => m,
            None => Map::empty(),
        },
{
    match parse_prefix_table(text) {
        Some(table) => table,
        None => {
            let table: HashMap<u64, String> = HashMap::new();
            assert(prefix_views(table@) =~= Map::empty());
            table
        },
    }
}

/// The prefix of `guild`: the one in the table, else `!`.
pub fn prefix_for(table: &HashMap<u64, String>, guild: u64) -> (r: String)
    ensures
        r@ == (if table@.contains_key(guild) {
            table@[guild]@
        } else {
            default_prefix()
        }),
{
    match table.get(&guild) {
        Some(p) => p.clone(),
        None => {
            let p = "!".to_owned();
            proof {
                reveal_strlit("!");
            }
            p
        },
    }
}

/// Records `prefix` as the prefix of `guild`.
pub fn set_prefix(table: &mut HashMap<u64, String>, guild: u64, prefix: String)
    ensures
        final(table)@ == old(table)@.insert(guild, prefix),
{
    table.insert(guild, prefix);
}

/// What saving `prefix` for `guild` writes, given the saved text: the saved
/// table (empty when unreadable) with the prefix recorded, and that table as
/// JSON text when it could be encoded.
pub fn updated_prefix_table(saved: &str, guild: u64, prefix: String) -> (r: (
    HashMap<u64, String>,
    Option<String>,
))
    ensures
        prefix_views(r.0@) == match json_prefix_table(saved@) {
            Some(m) => m,
            None => Map::empty(),
        }.insert(guild, prefix@),
{
    let mut table = load_prefixes(saved);
    let ghost loaded = table@;
    let ghost chosen = prefix@;
    set_prefix(&mut table, guild, prefix);
    assert(prefix_views(table@) =~= prefix_views(loaded).insert(guild, chosen));
    let text = prefix_table_json(&table);
    (table, text)
}

} // verus!

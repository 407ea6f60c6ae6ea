//! The character catalog: records loaded from a JSON configuration
//! document with a top-level `"Items"` list of character entries, each a
//! flat string-keyed map of attributes.
//!
//! Reading the document from disk belongs to the host around this crate;
//! here a record is a list of key/value attribute pairs, the JSON text is
//! turned into records behind tinyjson, and the catalog is narrowed to the
//! character kinds the combat core implements.
//!
//! tinyjson's parse is a function of the document text alone, so what a
//! catalog text holds is given two names: [`catalog_items_of`] for the
//! top-level shape and record count, [`catalog_record_of`] for one
//! record's attributes read as a map (a map, not a list, because the
//! attribute order follows a hash walk of which nothing is promised). The
//! trusted items state their results over those names, and the verified
//! assembly proves [`parse_character_config`] lossless against them.

use std::collections::HashMap;
use tinyjson::JsonValue;
use vstd::prelude::*;

verus! {

/// Why a configuration document was rejected.
#[derive(Debug, Clone, PartialEq, Eq, Structural)]
pub enum ConfigError {
    /// The text is not valid JSON.
    InvalidJson,
    /// The top-level value is not an object.
    NotAnObject,
    /// The top-level object has no `"Items"` entry.
    MissingItems,
    /// The `"Items"` entry is not an array.
    ItemsNotAnArray,
    /// An entry of the `"Items"` array is not an object.
    CharacterNotAnObject,
    /// An attribute value of a character entry is not a string.
    AttributeNotAString,
}

/// A distinct code for each rejection, the form in which the uninterpreted
/// catalog names below speak of a shape violation.
pub open spec fn config_error_code(e: ConfigError) -> nat {
    match e {
        ConfigError::InvalidJson => 0,
        ConfigError::NotAnObject => 1,
        ConfigError::MissingItems => 2,
        ConfigError::ItemsNotAnArray => 3,
        ConfigError::CharacterNotAnObject => 4,
        ConfigError::AttributeNotAString => 5,
    }
}

/// What the top of a catalog document holds: for a text that is valid
/// JSON whose top level is an object with an array under `key`, the
/// number of the array's elements; otherwise the `config_error_code` of
/// the first top-level shape violation (invalid JSON, top level not an
/// object, no entry under `key`, entry not an array, in that order).
/// Well defined because tinyjson's parse depends on the text alone.
pub uninterp spec fn catalog_items_of(s: Seq<char>, key: Seq<char>) -> Result<nat, nat>;

/// What record `i` of a catalog document holds, for `i` below the count
/// given by [`catalog_items_of`]: the element's attributes as a key-to-
/// value map if the element is an object all of whose values are JSON
/// strings; otherwise the `config_error_code` of the record's shape
/// violation (not an object, or some value not a string). Well defined
/// because tinyjson's parse depends on the text alone and a map carries
/// no pair order.
pub uninterp spec fn catalog_record_of(s: Seq<char>, key: Seq<char>, i: int) -> Result<
    Map<Seq<char>, Seq<char>>,
    nat,
>;

/// An attribute list read as a key-to-value map.
pub open spec fn record_as_map(record: Seq<(String, String)>) -> Map<Seq<char>, Seq<char>>
    decreases record.len(),
{
    if record.len() == 0 {
        Map::empty()
    } else {
        record_as_map(record.drop_last()).insert(record.last().0@, record.last().1@)
    }
}

/// No two pairs of an attribute list share a key.
pub open spec fn record_keys_distinct(record: Seq<(String, String)>) -> bool {
    forall|i: int, j: int|
        0 <= i < j < record.len() ==> (#[trigger] record[i]).0@ != (#[trigger] record[j]).0@
}

/// Relies on str::parse with tinyjson's FromStr for JsonValue, on
/// JsonValue::get (access to the Object and Array variants), on
/// HashMap::get and on Vec::len: the number of elements of the array
/// under `key` in the top-level object, or the first top-level shape
/// violation, exactly as [`catalog_items_of`] names it.
#[verifier::external_body]
fn catalog_item_count(contents: &str, key: &str) -> (r: Result<usize, ConfigError>)
    ensures
        match r {
            Ok(n) => catalog_items_of(contents@, key@) == Ok::<nat, nat>(n as nat),
            Err(e) => {
                &&& catalog_items_of(contents@, key@) == Err::<nat, nat>(config_error_code(e))
                &&& (e is InvalidJson || e is NotAnObject || e is MissingItems
                    || e is ItemsNotAnArray)
            },
        },
{
    let parsed: JsonValue = match contents.parse() { Ok(v) => v, Err(_) => return Err(ConfigError::InvalidJson) };
    let object = match parsed.get::<HashMap<String, JsonValue>>() { Some(o) => o, None => return Err(ConfigError::NotAnObject) };
    let items = match object.get(key) { Some(i) => i, None => return Err(ConfigError::MissingItems) };
    match items.get::<Vec<JsonValue>>() { Some(a) => Ok(a.len()), None => Err(ConfigError::ItemsNotAnArray) }
}

/// Relies on the same tinyjson access path as [`catalog_item_count`],
/// plus JsonValue::get for the String variant and String::clone: the
/// attributes of element `index` of the array under `key`, flattened to
/// owned pairs, or the record's shape violation, exactly as
/// [`catalog_record_of`] names it. The pair order follows the hash walk
/// and is not promised; the pairs read as a map, with no key repeated,
/// are.
#[verifier::external_body]
fn catalog_record(contents: &str, key: &str, index: usize) -> (r: Result<
    Vec<(String, String)>,
    ConfigError,
>)
    requires
        catalog_items_of(contents@, key@) matches Ok(n) && index < n,
    ensures
        match r {
            Ok(pairs) => {
                &&& catalog_record_of(contents@, key@, index as int) matches Ok(m)
                    && record_as_map(pairs@) == m
                &&& record_keys_distinct(pairs@)
            },
            Err(e) => {
                &&& catalog_record_of(contents@, key@, index as int) == Err::<
                    Map<Seq<char>, Seq<char>>,
                    nat,
                >(config_error_code(e))
                &&& (e is CharacterNotAnObject || e is AttributeNotAString)
            },
        },
{
    let parsed: Option<JsonValue> = contents.parse().ok();
    let item = parsed
        .as_ref()
        .and_then(|v| v.get::<HashMap<String, JsonValue>>())
        .and_then(|o| o.get(key))
        .and_then(|v| v.get::<Vec<JsonValue>>())
        .and_then(|a| a.get(index));
    let record = match item.and_then(|v| v.get::<HashMap<String, JsonValue>>()) {
        Some(r) => r,
        None => return Err(ConfigError::CharacterNotAnObject),
    };
    record.iter().map(|(k, v)| match v.get::<String>() {
        Some(s) => Ok((k.clone(), s.clone())),
        None => Err(ConfigError::AttributeNotAString),
    }).collect()
}

/// A successfully parsed catalog is lossless against the document: one
/// record per element of the `key` array, in order, each reading as
/// exactly the named map of that element, with no key repeated.
pub open spec fn catalog_success(
    s: Seq<char>,
    key: Seq<char>,
    records: Seq<Vec<(String, String)>>,
) -> bool {
    &&& catalog_items_of(s, key) == Ok::<nat, nat>(records.len())
    &&& forall|i: int|
        0 <= i < records.len() ==> record_matches_catalog(s, key, i, #[trigger] records[i])
}

/// Record `i` of the parse result carries exactly what the document's
/// element `i` holds.
pub open spec fn record_matches_catalog(
    s: Seq<char>,
    key: Seq<char>,
    i: int,
    record: Vec<(String, String)>,
) -> bool {
    &&& catalog_record_of(s, key, i) matches Ok(m) && record_as_map(record@) == m
    &&& record_keys_distinct(record@)
}

/// A rejection names the document's first shape violation: either the
/// top-level violation, or the violation of the first malformed record,
/// every record before it being well formed.
pub open spec fn catalog_failure(s: Seq<char>, key: Seq<char>, e: ConfigError) -> bool {
    ||| catalog_items_of(s, key) == Err::<nat, nat>(config_error_code(e))
    ||| exists|i: int|
        {
            &&& 0 <= i
            &&& catalog_items_of(s, key) matches Ok(n) && i < n
            &&& #[trigger] catalog_record_of(s, key, i) == Err::<Map<Seq<char>, Seq<char>>, nat>(
                config_error_code(e),
            )
            &&& forall|j: int| 0 <= j < i ==> (#[trigger] catalog_record_of(s, key, j)) is Ok
        }
}

/// Turn the text of a character-catalog document into attribute records:
/// the `"Items"` array of the top-level object, each entry flattened to
/// its key/value pairs, every value required to be a string. The parse is
/// lossless — success returns one record per `"Items"` element, in order,
/// each reading as exactly that element's attribute map — and a document
/// with a shape violation is rejected with the variant of its first
/// violation, never a partial result.
pub fn parse_character_config(contents: &str) -> (res: Result<
    Vec<Vec<(String, String)>>,
    ConfigError,
>)
    ensures
        match res {
            Ok(records) => catalog_success(contents@, "Items"@, records@),
            Err(e) => catalog_failure(contents@, "Items"@, e),
        },
{
    let n = match catalog_item_count(contents, "Items") {
        Ok(n) => n,
        Err(e) => {
            return Err(e);
        },
    };
    let mut records: Vec<Vec<(String, String)>> = Vec::new();
    let mut i: usize = 0;
    while i < n
        invariant
            catalog_items_of(contents@, "Items"@) == Ok::<nat, nat>(n as nat),
            i <= n,
            records@.len() == i,
            forall|k: int|
                0 <= k < i ==> record_matches_catalog(
                    contents@,
                    "Items"@,
                    k,
                    #[trigger] records@[k],
                ),
        decreases n - i,
    {
        let record = match catalog_record(contents, "Items", i) {
            Ok(pairs) => pairs,
            Err(e) => {
                proof {
                    assert forall|j: int|
                        0 <= j < i implies (catalog_record_of(contents@, "Items"@, j)) is Ok by {
                        assert(record_matches_catalog(contents@, "Items"@, j, records@[j]));
                    }
                }
                return Err(e);
            },
        };
        records.push(record);
        i = i + 1;
    }
    Ok(records)
}

/// The value under `key` in an attribute record: the value of the first
/// pair whose key matches, if any.
pub open spec fn record_lookup(record: Seq<(String, String)>, key: Seq<char>) -> Option<
    Seq<char>,
>
    decreases record.len(),
{
    if record.len() == 0 {
        None
    } else if record[0].0@ == key {
        Some(record[0].1@)
    } else {
        record_lookup(record.drop_first(), key)
    }
}

/// The character kinds the combat core implements.
pub open spec fn spec_implemented_name(name: Seq<char>) -> bool {
    name == "Muflus"@ || name == "Uma"@ || name == "H4ck"@
}

/// A catalog record is kept when its `"Name"` attribute is one of the
/// implemented character kinds.
pub open spec fn record_is_implemented(record: Seq<(String, String)>) -> bool {
    match record_lookup(record, "Name"@) {
        Some(name) => spec_implemented_name(name),
        None => false,
    }
}

/// The records of a catalog whose `"Name"` is an implemented kind, in
/// their original order.
pub open spec fn implemented_records(config: Seq<Vec<(String, String)>>) -> Seq<
    Vec<(String, String)>,
>
    decreases config.len(),
{
    if config.len() == 0 {
        Seq::empty()
    } else {
        let rest = implemented_records(config.drop_last());
        if record_is_implemented(config.last()@) {
            rest.push(config.last())
        } else {
            rest
        }
    }
}

/// Look an attribute up in a record by key: the value of the first pair
/// whose key matches.
pub fn config_get(record: &Vec<(String, String)>, key: &String) -> (res: Option<String>)
    ensures
        match res {
            Some(value) => record_lookup(record@, key@) == Some(value@),
            None => record_lookup(record@, key@) is None,
        },
{
    let ghost all = record@;
    proof {
        assert(all.subrange(0, all.len() as int) =~= all);
    }
    let mut i: usize = 0;
    while i < record.len()
        invariant
            i <= record.len(),
            record@ == all,
            record_lookup(all, key@) == record_lookup(
                all.subrange(i as int, all.len() as int),
                key@,
            ),
        decreases record.len() - i,
    {
        let pair = &record[i];
        if pair.0 == *key {
            proof {
                assert(all.subrange(i as int, all.len() as int)[0] == all[i as int]);
            }
            return Some(pair.1.clone());
        }
        proof {
            assert(all.subrange(i as int, all.len() as int).drop_first() =~= all.subrange(
                i as int + 1,
                all.len() as int,
            ));
        }
        i = i + 1;
    }
    proof {
        assert(all.subrange(all.len() as int, all.len() as int).len() == 0);
    }
    None
}

/// Whether a character name is one of the kinds the combat core implements.
pub fn is_implemented_name(name: &String) -> (res: bool)
    ensures
        res == spec_implemented_name(name@),
{
    *name == "Muflus".to_string() || *name == "Uma".to_string() || *name == "H4ck".to_string()
}

/// Narrow a parsed catalog to the records of implemented character kinds:
/// exactly those whose `"Name"` attribute is an implemented name, kept in
/// their original order.
pub fn read_character_config_skip_not_implemented(config: Vec<Vec<(String, String)>>) -> (kept:
    Vec<Vec<(String, String)>>)
    ensures
        kept@ == implemented_records(config@),
{
    let ghost orig = config@;
    let mut remaining = config;
    let mut kept: Vec<Vec<(String, String)>> = Vec::new();
    proof {
        assert(orig.take(0).len() == 0);
        assert(kept@ =~= implemented_records(orig.take(0)));
    }
    while remaining.len() > 0
        invariant
            remaining.len() <= orig.len(),
            remaining@ =~= orig.subrange(
                orig.len() - remaining.len(),
                orig.len() as int,
            ),
            kept@ == implemented_records(orig.take(orig.len() - remaining.len())),
        decreases remaining.len(),
    {
        let ghost done = orig.len() - remaining.len();
        let record = remaining.remove(0);
        let key = "Name".to_string();
        let implemented = match config_get(&record, &key) {
            Some(name) => is_implemented_name(&name),
            None => false,
        };
        proof {
            assert(remaining@ =~= orig.subrange(done + 1, orig.len() as int));
            assert(record == orig[done]);
            assert(implemented == record_is_implemented(record@));
            let pushed = orig.take(done).push(record);
            assert(orig.take(done + 1) =~= pushed);
            assert(pushed.drop_last() =~= orig.take(done));
            assert(pushed.last() == record);
            assert(implemented_records(orig.take(done + 1)) == if implemented {
                implemented_records(orig.take(done)).push(record)
            } else {
                implemented_records(orig.take(done))
            });
        }
        if implemented {
            kept.push(record);
        }
    }
    proof {
        assert(orig.take(orig.len() as int) =~= orig);
    }
    kept
}

} // verus!

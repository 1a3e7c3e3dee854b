//! Save-file format check: a save is current when it is a RON map whose
//! keys include `resources` or `entities`.

use vstd::prelude::*;

verus! {

/// What `ron::from_str::<ron::Value>` makes of `content`, as far as the save
/// check reads it: `None` unless it parses to a map; otherwise the map's keys
/// in the map's order, each as its text when it is a string value.
pub uninterp spec fn ron_map_keys(content: Seq<char>) -> Option<Seq<Option<Seq<char>>>>;

/// The text of each key, where it has one.
pub open spec fn key_texts(keys: Seq<Option<String>>) -> Seq<Option<Seq<char>>> {
    keys.map_values(|k: Option<String>| match k {
        Some(s) => Some(s@),
        None => None,
    })
}

/// Parses `content` with `ron::from_str` into a `ron::Value`; when that is a
/// map, returns its keys (in the map's iteration order) with string keys as
/// their text and other keys as `None`. The contract names the result
/// `ron_map_keys(content@)`; RON's grammar itself is not stated here.
#[verifier::external_body]
fn parse_ron_map_keys(content: &str) -> (r: Option<Vec<Option<String>>>)
    ensures
        match r {
            Some(keys) => ron_map_keys(content@) == Some(key_texts(keys@)),
            None => ron_map_keys(content@) is None,
        },
{
    match ron::from_str::<ron::Value>(content) {
        Ok(ron::Value::Map(map)) => Some(
            map.keys().map(|key| match key {
                ron::Value::String(s) => Some(s.clone()),
                _ => None,
            }).collect(),
        ),
        _ => None,
    }
}

/// A key that marks the current save layout.
pub open spec fn is_save_key(k: Option<Seq<char>>) -> bool {
    k == Some("resources"@) || k == Some("entities"@)
}

/// Some key marks the current save layout.
pub open spec fn has_save_key(ks: Seq<Option<Seq<char>>>) -> bool {
    exists|i: int| 0 <= i < ks.len() && is_save_key(#[trigger] ks[i])
}

/// Current layout: a map with a `resources` or `entities` string key.
pub open spec fn valid_save_keys(keys: Option<Seq<Option<Seq<char>>>>) -> bool {
    match keys {
        Some(ks) => has_save_key(ks),
        None => false,
    }
}

/// Whether parsed top-level keys mark the current save layout.
pub fn is_valid_save_keys(keys: &Option<Vec<Option<String>>>) -> (r: bool)
    ensures
        r == valid_save_keys(match keys {
            Some(ks) => Some(key_texts(ks@)),
            None => None,
        }),
{
    let ks = match keys {
        Some(ks) => ks,
        None => return false,
    };
    let resources = String::from_str("resources");
    let entities = String::from_str("entities");
    let ghost texts = key_texts(ks@);
    assert(keys is Some && keys->0@ == ks@);
    let mut i: usize = 0;
    while i < ks.len()
        invariant
            0 <= i <= ks@.len(),
            texts == key_texts(ks@),
            keys is Some && keys->0@ == ks@,
            resources@ == "resources"@,
            entities@ == "entities"@,
            forall|j: int| 0 <= j < i ==> !is_save_key(#[trigger] texts[j]),
        decreases ks.len() - i,
    {
        match &ks[i] {
            Some(s) => {
                if *s == resources || *s == entities {
                    assert(texts.len() == ks@.len());
                    assert(is_save_key(texts[i as int]));
                    assert(has_save_key(texts));
                    return true;
                }
            },
            None => {},
        }
        i += 1;
    }
    false
}

/// Whether `content` is a save in the current layout.
pub fn is_valid_save_format(content: &str) -> (r: bool)
    ensures
        r == valid_save_keys(ron_map_keys(content@)),
{
    let keys = parse_ron_map_keys(content);
    is_valid_save_keys(&keys)
}

/// What to do with the save file when gameplay starts and no stat records
/// exist yet.
#[derive(Debug, Clone, Copy, PartialEq, Eq, Structural)]
pub enum SaveStartup {
    /// Records already exist: do nothing.
    KeepExisting,
    /// Load the save file.
    LoadSave,
    /// Start a new save with default records.
    NewSave,
}

/// Decide from whether records exist and, when a save file exists, whether
/// its content is in the current layout (`None` when there is no readable
/// save file).
pub fn save_startup(records_exist: bool, save_content: Option<&str>) -> (r: SaveStartup)
    ensures
        records_exist ==> r == SaveStartup::KeepExisting,
        !records_exist ==> r == (match save_content {
            Some(c) => if valid_save_keys(ron_map_keys(c@)) { SaveStartup::LoadSave } else { SaveStartup::NewSave },
            None => SaveStartup::NewSave,
        }),
{
    if records_exist {
        return SaveStartup::KeepExisting;
    }
    match save_content {
        Some(c) => if is_valid_save_format(c) {
            SaveStartup::LoadSave
        } else {
            SaveStartup::NewSave
        },
        None => SaveStartup::NewSave,
    }
}

} // verus!

use vstd::prelude::*;

use crate::error::NpmError;

verus! {

/// What reading a project's descriptor file yielded. Reading the file is I/O
/// and is the caller's business; the library decides everything that follows
/// from the outcome.
pub enum DescriptorFile {
    /// The descriptor file does not exist.
    Missing,
    /// The descriptor file exists but could not be read.
    Unreadable,
    /// The text the descriptor file holds.
    Contents(String),
}

/// The scripts mapping that a list of (name, command) pairs denotes; on the
/// lists this library builds, no name repeats, so the order of the pairs does
/// not matter.
pub open spec fn pairs_to_map(pairs: Seq<(String, String)>) -> Map<Seq<char>, Seq<char>>
    decreases pairs.len(),
{
    if pairs.len() == 0 {
        Map::empty()
    } else {
        pairs_to_map(pairs.drop_last()).insert(pairs.last().0@, pairs.last().1@)
    }
}

/// No two pairs carry the same name.
pub open spec fn pairs_unique(pairs: Seq<(String, String)>) -> bool {
    forall|i: int, j: int| 0 <= i < j < pairs.len() ==> pairs[i].0@ != pairs[j].0@
}

/// What parsing `text` as a JSON object and reading its field `key` as a map
/// of strings yields: `None` when `text` is not a JSON object or the field
/// holds anything but an object of strings; `Some(None)` when the field is
/// absent or null; `Some(Some(m))` with the field's entries otherwise.
/// A function of `text` and `key` alone.
pub uninterp spec fn string_map_field(text: Seq<char>, key: Seq<char>) -> Option<
    Option<Map<Seq<char>, Seq<char>>>,
>;

/// Relies on serde_json::from_str and serde_json::from_value: `text` must be a
/// JSON object; its field named `key`, when present and not null, must be an
/// object with string values, whose entries come back as pairs in no
/// particular order.
#[verifier::external_body]
fn parse_string_map_field(text: &str, key: &str) -> (r: Option<Option<Vec<(String, String)>>>)
    ensures
        (r is None) == (string_map_field(text@, key@) is None),
        r matches Some(field) ==> match field {
            None => string_map_field(text@, key@) == Some(None::<Map<Seq<char>, Seq<char>>>),
            Some(pairs) => string_map_field(text@, key@) == Some(Some(pairs_to_map(pairs@)))
                && pairs_unique(pairs@),
        },
{
    let top: std::collections::HashMap<String, serde_json::Value> =
        match serde_json::from_str(text) { Ok(object) => object, Err(_) => return None };
    let field = match top.get(key) { Some(value) => value.clone(), None => return Some(None) };
    let entries: Option<std::collections::HashMap<String, String>> =
        match serde_json::from_value(field) { Ok(entries) => entries, Err(_) => return None };
    match entries {
        Some(map) => Some(Some(map.into_iter().collect())),
        None => Some(None),
    }
}

/// The scripts mapping of a descriptor text: `None` when the text is not a
/// valid descriptor, `Some(None)` when the descriptor has no scripts mapping,
/// and `Some(Some(m))` with the mapping otherwise.
pub open spec fn descriptor_scripts(text: Seq<char>) -> Option<Option<Map<Seq<char>, Seq<char>>>> {
    string_map_field(text, "scripts"@)
}

/// The parsed contents of a descriptor file, reduced to the one field of
/// interest: the optional scripts mapping, held as (name, command) pairs.
pub struct PackageConfig {
    /// The scripts mapping, if the descriptor has one.
    pub scripts: Option<Vec<(String, String)>>,
}

impl PackageConfig {
    /// The scripts mapping as a mathematical map, when present.
    pub open spec fn scripts_map(&self) -> Option<Map<Seq<char>, Seq<char>>> {
        match self.scripts {
            None => None,
            Some(pairs) => Some(pairs_to_map(pairs@)),
        }
    }

    /// No script name repeats; parsing guarantees this.
    pub open spec fn wf(&self) -> bool {
        self.scripts matches Some(pairs) ==> pairs_unique(pairs@)
    }

    /// Parses a descriptor text: a JSON object whose `scripts` field, when
    /// present and not null, must be an object mapping script names to
    /// command strings. All other fields are ignored.
    pub fn parse(text: &str) -> (r: Result<PackageConfig, NpmError>)
        ensures
            match descriptor_scripts(text@) {
                None => r == Err::<PackageConfig, NpmError>(NpmError::Parse),
                Some(scripts) => r matches Ok(cfg) && cfg.wf() && cfg.scripts_map() == scripts,
            },
    {
        match parse_string_map_field(text, "scripts") {
            None => Err(NpmError::Parse),
            Some(None) => Ok(PackageConfig { scripts: None }),
            Some(Some(pairs)) => Ok(PackageConfig { scripts: Some(pairs) }),
        }
    }

    /// True iff the scripts mapping is present and holds exactly the name
    /// `name`; the comparison is case-sensitive.
    pub fn contains_script(&self, name: &str) -> (r: bool)
        ensures
            r == (self.scripts_map() matches Some(m) && m.contains_key(name@)),
    {
        match &self.scripts {
            None => false,
            Some(pairs) => pairs_contain_name(pairs, name),
        }
    }
}

/// A name is a key of the denoted mapping iff some pair carries it.
proof fn lemma_pairs_to_map_contains(pairs: Seq<(String, String)>, key: Seq<char>)
    ensures
        pairs_to_map(pairs).contains_key(key) <==> exists|j: int|
            0 <= j < pairs.len() && pairs[j].0@ == key,
    decreases pairs.len(),
{
    if pairs.len() == 0 {
    } else {
        let prefix = pairs.drop_last();
        lemma_pairs_to_map_contains(prefix, key);
        if pairs.last().0@ == key {
            assert(pairs[pairs.len() - 1].0@ == key);
        } else if pairs_to_map(prefix).contains_key(key) {
            let j = choose|j: int| 0 <= j < prefix.len() && prefix[j].0@ == key;
            assert(pairs[j].0@ == key);
        } else if exists|j: int| 0 <= j < pairs.len() && pairs[j].0@ == key {
            let j = choose|j: int| 0 <= j < pairs.len() && pairs[j].0@ == key;
            assert(0 <= j < prefix.len() ==> prefix[j].0@ == key);
        }
    }
}

/// Linear scan of the pairs for a name.
fn pairs_contain_name(pairs: &Vec<(String, String)>, name: &str) -> (r: bool)
    ensures
        r == pairs_to_map(pairs@).contains_key(name@),
{
    let target: String = name.to_owned();
    let mut i: usize = 0;
    while i < pairs.len()
        invariant
            i <= pairs@.len(),
            target@ == name@,
            forall|j: int| 0 <= j < i ==> pairs@[j].0@ != name@,
        decreases pairs@.len() - i,
    {
        if pairs[i].0 == target {
            proof {
                lemma_pairs_to_map_contains(pairs@, name@);
            }
            return true;
        }
        i = i + 1;
    }
    proof {
        lemma_pairs_to_map_contains(pairs@, name@);
    }
    false
}

} // verus!

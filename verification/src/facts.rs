//! The facts that were gathered about the host: a map from the key of a
//! fact to its text.

use vstd::hash_map::StringHashMap;
use vstd::prelude::*;

verus! {

/// The text that stands for a fact that could not be determined.
pub const UNKNOWN: &'static str = "Unknown";

/// The text of the fact `key` in `facts`, or the text that stands for an
/// unknown fact where `facts` holds none for it.
pub open spec fn fact(facts: Map<Seq<char>, Seq<char>>, key: Seq<char>) -> Seq<char> {
    if facts.contains_key(key) {
        facts[key]
    } else {
        UNKNOWN@
    }
}

/// A map from the keys of facts to their texts.
pub struct FactMap {
    entries: StringHashMap<String>,
}

impl View for FactMap {
    type V = Map<Seq<char>, Seq<char>>;

    closed spec fn view(&self) -> Map<Seq<char>, Seq<char>> {
        self.entries@.map_values(|text: String| text@)
    }
}

impl FactMap {
    /// A map without facts.
    pub fn new() -> (facts: FactMap)
        ensures
            facts@ == Map::<Seq<char>, Seq<char>>::empty(),
    {
        FactMap { entries: StringHashMap::new() }
    }

    /// Sets the text of the fact `key`, in place of an earlier one.
    pub fn insert(&mut self, key: &str, text: String)
        ensures
            final(self)@ == old(self)@.insert(key@, text@),
    {
        self.entries.insert(key.to_owned(), text);
    }

    /// The text of the fact `key`, if the map holds one.
    pub fn get(&self, key: &str) -> (text: Option<&String>)
        ensures
            match text {
                Some(t) => self@.contains_key(key@) && t@ == self@[key@],
                None => !self@.contains_key(key@),
            },
    {
        self.entries.get(key)
    }

    /// The text of the fact `key`, or the text that stands for an unknown
    /// fact.
    pub fn text_of(&self, key: &str) -> (text: String)
        ensures
            text@ == fact(self@, key@),
    {
        match self.entries.get(key) {
            Some(t) => t.clone(),
            None => UNKNOWN.to_owned(),
        }
    }
}

} // verus!

//! The loosely typed parameter bag that a tool invocation carries.
//!
//! Lookups are lenient: a field that is missing, or that holds something
//! other than text, reads as absent, and callers fall back to a default.

use vstd::prelude::*;

use crate::text::text_equals;

verus! {

/// One value in a parameter bag.
#[derive(Clone, Debug)]
pub enum ParamValue {
    Null,
    Bool(bool),
    Int(i64),
    Text(String),
    /// A fractional number, a list or a nested object: nothing a handler reads.
    Other,
}

/// The text that a value holds, if it is text.
pub open spec fn text_of_value(v: ParamValue) -> Option<Seq<char>> {
    match v {
        ParamValue::Text(s) => Some(s@),
        _ => None,
    }
}

/// The text stored under `key`: the first entry with that key decides.
pub open spec fn text_in(entries: Seq<(String, ParamValue)>, key: Seq<char>) -> Option<Seq<char>>
    decreases entries.len(),
{
    if entries.len() == 0 {
        None
    } else if entries[0].0@ == key {
        text_of_value(entries[0].1)
    } else {
        text_in(entries.drop_first(), key)
    }
}

/// A key-to-value mapping. The newest entry for a key hides older ones.
#[derive(Clone, Debug)]
pub struct ParamBag {
    pub entries: Vec<(String, ParamValue)>,
}

impl ParamBag {
    /// The text stored under `key`, if there is text there.
    pub open spec fn text_at(&self, key: Seq<char>) -> Option<Seq<char>> {
        text_in(self.entries@, key)
    }

    /// The text stored under `key`, or `default` when there is none.
    pub open spec fn text_or(&self, key: Seq<char>, default: Seq<char>) -> Seq<char> {
        match self.text_at(key) {
            Some(s) => s,
            None => default,
        }
    }

    /// An empty bag.
    pub fn new() -> (r: Self)
        ensures
            r.entries@.len() == 0,
            forall|k: Seq<char>| #[trigger] r.text_at(k) is None,
    {
        ParamBag { entries: Vec::new() }
    }

    /// Stores `value` under `key`, hiding what was there before.
    pub fn insert(&mut self, key: String, value: ParamValue)
        ensures
            final(self).entries@ == seq![(key, value)] + old(self).entries@,
            final(self).text_at(key@) == text_of_value(value),
            forall|k: Seq<char>| k != key@ ==> #[trigger] final(self).text_at(k) == old(self).text_at(k),
    {
        let ghost old_entries = self.entries@;
        self.entries.insert(0, (key, value));
        assert(self.entries@ =~= seq![(key, value)] + old_entries);
        assert(self.entries@.drop_first() =~= old_entries);
    }

    /// The text stored under `key`, if any.
    pub fn get_text(&self, key: &str) -> (r: Option<String>)
        ensures
            r matches Some(s) ==> self.text_at(key@) == Some(s@),
            r is None ==> self.text_at(key@) is None,
    {
        let n = self.entries.len();
        let mut i: usize = 0;
        assert(self.entries@.subrange(0, n as int) =~= self.entries@);
        while i < n
            invariant
                n == self.entries@.len(),
                i <= n,
                text_in(self.entries@, key@) == text_in(self.entries@.subrange(i as int, n as int), key@),
            decreases n - i,
        {
            let entry = &self.entries[i];
            let rest = Ghost(self.entries@.subrange(i as int, n as int));
            assert(rest@[0] == self.entries@[i as int]);
            if text_equals(entry.0.as_str(), key) {
                return match &entry.1 {
                    ParamValue::Text(s) => Some(s.clone()),
                    _ => None,
                };
            }
            assert(rest@.drop_first() =~= self.entries@.subrange(i + 1, n as int));
            i = i + 1;
        }
        None
    }

    /// The text stored under `key`, or `default` when there is none.
    pub fn get_text_or(&self, key: &str, default: &str) -> (r: String)
        ensures
            r@ == self.text_or(key@, default@),
    {
        match self.get_text(key) {
            Some(s) => s,
            None => default.to_owned(),
        }
    }
}

} // verus!

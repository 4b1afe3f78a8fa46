//! The entries of one image file directory, found by their tags.

use std::collections::HashMap;
use vstd::prelude::*;
use crate::entry::Entry;
use crate::tags::{Tag, tag_codes_distinct};

verus! {

/// The number under which a tag's entry is kept: the code of a tag of the
/// catalog, and a number above every code for an `Unknown` tag, so that
/// `Unknown` with a code of the catalog is not taken for the tag of that code.
spec fn key_of(tag: Tag) -> u32 {
    match tag {
        Tag::Unknown(code) => (65536 + code) as u32,
        named => named.spec_code() as u32,
    }
}

/// Different tags are kept under different numbers.
proof fn key_of_is_injective(a: Tag, b: Tag)
    requires
        key_of(a) == key_of(b),
    ensures
        a == b,
{
    if !(a is Unknown) && !(b is Unknown) {
        tag_codes_distinct(a, b);
    }
}

/// The number under which a tag's entry is kept.
fn key(tag: Tag) -> (k: u32)
    ensures
        k == key_of(tag),
{
    match tag {
        Tag::Unknown(code) => 65536 + code as u32,
        named => named.code() as u32,
    }
}

/// The entries of one image file directory. Each tag has at most one entry:
/// inserting under a tag that is present replaces its entry.
pub struct Directory {
    entries: HashMap<u32, Entry>,
}

impl View for Directory {
    type V = Map<Tag, Entry>;

    closed spec fn view(&self) -> Map<Tag, Entry> {
        Map::new(
            |tag: Tag| self.entries@.contains_key(key_of(tag)),
            |tag: Tag| self.entries@[key_of(tag)],
        )
    }
}

impl Directory {
    /// A directory without entries.
    pub fn new() -> (directory: Directory)
        ensures
            directory@ == Map::<Tag, Entry>::empty(),
    {
        Directory { entries: HashMap::new() }
    }

    /// Puts `entry` under `tag` and returns the entry that was there before,
    /// if there was one. The entries of all other tags stay.
    pub fn insert(&mut self, tag: Tag, entry: Entry) -> (previous: Option<Entry>)
        ensures
            final(self)@ == old(self)@.insert(tag, entry),
            old(self)@.contains_key(tag) ==> previous == Some(old(self)@[tag]),
            !old(self)@.contains_key(tag) ==> previous is None,
    {
        let previous = self.entries.insert(key(tag), entry);
        proof {
            assert forall|other: Tag| key_of(other) == key_of(tag) implies other == tag by {
                key_of_is_injective(other, tag);
            }
        }
        previous
    }

    /// The entry under `tag`, if there is one.
    pub fn get(&self, tag: &Tag) -> (found: Option<&Entry>)
        ensures
            self@.contains_key(*tag) ==> found == Some(&self@[*tag]),
            !self@.contains_key(*tag) ==> found is None,
    {
        let k: u32 = key(*tag);
        self.entries.get(&k)
    }

    /// Whether there is an entry under `tag`.
    pub fn contains_key(&self, tag: &Tag) -> (present: bool)
        ensures
            present == self@.contains_key(*tag),
    {
        let k: u32 = key(*tag);
        self.entries.contains_key(&k)
    }
}

/// Inserting the same entry under the same tag a second time changes
/// nothing.
pub proof fn insert_is_idempotent(entries: Map<Tag, Entry>, tag: Tag, entry: Entry)
    ensures
        entries.insert(tag, entry).insert(tag, entry) == entries.insert(tag, entry),
{
}

/// Of two entries inserted under one tag the later one stays, and the entries
/// of the other tags are what they were.
pub proof fn later_insert_overwrites(
    entries: Map<Tag, Entry>,
    tag: Tag,
    earlier: Entry,
    later: Entry,
)
    ensures
        entries.insert(tag, earlier).insert(tag, later) == entries.insert(tag, later),
        entries.insert(tag, earlier).insert(tag, later)[tag] == later,
        forall|other: Tag|
            other != tag ==> (#[trigger] entries.insert(tag, earlier).insert(
                tag,
                later,
            ).contains_key(other) <==> entries.contains_key(other)),
{
}

} // verus!

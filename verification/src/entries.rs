//! Lists of keys and values: annotations of cluster objects, environment variables.

use crate::text::same;
use vstd::prelude::*;
use vstd::string::*;

verus! {

/// A key and its value.
#[derive(Debug, Clone)]
pub struct Entry {
    pub key: String,
    pub value: String,
}

/// The view of an [`Entry`].
pub struct EntryView {
    pub key: Seq<char>,
    pub value: Seq<char>,
}

impl View for Entry {
    type V = EntryView;

    open spec fn view(&self) -> EntryView {
        EntryView { key: self.key@, value: self.value@ }
    }
}

/// The views of a list of entries.
pub open spec fn entry_views(entries: Seq<Entry>) -> Seq<EntryView> {
    entries.map_values(|e: Entry| e@)
}

/// The value of the first entry with the key.
pub open spec fn lookup(entries: Seq<EntryView>, key: Seq<char>) -> Option<Seq<char>>
    decreases entries.len(),
{
    if entries.len() == 0 {
        None
    } else if entries[0].key == key {
        Some(entries[0].value)
    } else {
        lookup(entries.drop_first(), key)
    }
}

/// The value of the first entry with the key.
pub fn find_entry<'a>(entries: &'a Vec<Entry>, key: &str) -> (value: Option<&'a str>)
    ensures
        match value {
            Some(v) => lookup(entry_views(entries@), key@) == Some(v@),
            None => lookup(entry_views(entries@), key@) is None,
        },
{
    let ghost all = entry_views(entries@);
    let mut i: usize = 0;
    assert(all.skip(0) =~= all);
    while i < entries.len()
        invariant
            i <= entries.len(),
            all == entry_views(entries@),
            lookup(all, key@) == lookup(all.skip(i as int), key@),
        decreases entries.len() - i,
    {
        assert(all.skip(i as int).drop_first() =~= all.skip(i + 1));
        assert(all.skip(i as int)[0] == entries[i as int]@);
        if same(entries[i].key.as_str(), key) {
            return Some(entries[i].value.as_str());
        }
        i += 1;
    }
    None
}

} // verus!

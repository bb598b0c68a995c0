//! The client's UI string table: `UIIT_*` keys to display text, with the
//! English fallback every call site carries for a key the table lacks.
use vstd::prelude::*;
use crate::text::{chars_eq, chars_of, string_of};

verus! {

/// Key/value pairs in load order.
pub struct UiStrings {
    pub entries: Vec<(String, String)>,
}

/// The value of the first entry whose key is `key`, if any.
pub open spec fn lookup(entries: Seq<(Seq<char>, Seq<char>)>, key: Seq<char>) -> Option<Seq<char>>
    decreases entries.len(),
{
    if entries.len() == 0 {
        None
    } else if entries[0].0 == key {
        Some(entries[0].1)
    } else {
        lookup(entries.drop_first(), key)
    }
}

impl UiStrings {
    pub open spec fn entries_view(&self) -> Seq<(Seq<char>, Seq<char>)> {
        self.entries@.map_values(|e: (String, String)| (e.0@, e.1@))
    }

    /// An empty table: every lookup falls back.
    pub fn new() -> (t: UiStrings)
        ensures
            t.entries_view() == Seq::<(Seq<char>, Seq<char>)>::empty(),
    {
        let t = UiStrings { entries: Vec::new() };
        proof {
            assert(t.entries_view() =~= Seq::<(Seq<char>, Seq<char>)>::empty());
        }
        t
    }

    /// The text for `key`, or `fallback` when the table has none.
    pub fn get_or(&self, key: &str, fallback: &str) -> (s: String)
        ensures
            s@ == (match lookup(self.entries_view(), key@) {
                Some(v) => v,
                None => fallback@,
            }),
    {
        let k = chars_of(key);
        let ghost all = self.entries_view();
        let mut i: usize = 0;
        proof {
            assert(all.skip(0) =~= all);
        }
        while i < self.entries.len()
            invariant
                all == self.entries_view(),
                k@ == key@,
                i <= self.entries@.len(),
                lookup(all.skip(i as int), key@) == lookup(all, key@),
            decreases self.entries.len() - i,
        {
            let entry_key = chars_of(self.entries[i].0.as_str());
            proof {
                assert(all.skip(i as int)[0] == all[i as int]);
                assert(all.skip(i as int).drop_first() =~= all.skip(i + 1));
            }
            if chars_eq(&entry_key, &k) {
                let v = chars_of(self.entries[i].1.as_str());
                return string_of(&v);
            }
            i = i + 1;
        }
        proof {
            assert(all.skip(i as int) =~= Seq::<(Seq<char>, Seq<char>)>::empty());
        }
        let f = chars_of(fallback);
        string_of(&f)
    }
}

} // verus!

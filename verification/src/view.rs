//! The immutable key-value snapshot consumed by one extraction step.

use vstd::prelude::*;
use crate::value::{Value, ValueView};

verus! {

/// An immutable snapshot of the remote store's key-value table, materialized
/// on one successful fetch and discarded after extraction. Keys are fully
/// qualified strings; a key written twice keeps the value written last, so
/// the snapshot denotes a plain map from key to value.
pub struct KeyValueView {
    entries: Vec<(String, Value)>,
}

/// The map that a sequence of (key, value) pairs denotes: a later pair for
/// the same key overrides an earlier one.
spec fn pairs_map(s: Seq<(String, Value)>) -> Map<Seq<char>, ValueView>
    decreases s.len(),
{
    if s.len() == 0 {
        Map::empty()
    } else {
        pairs_map(s.drop_last()).insert(s.last().0@, s.last().1@)
    }
}

impl View for KeyValueView {
    type V = Map<Seq<char>, ValueView>;

    closed spec fn view(&self) -> Map<Seq<char>, ValueView> {
        pairs_map(self.entries@)
    }
}

impl KeyValueView {
    /// An empty snapshot; entries are added with [`KeyValueView::put`].
    pub fn new() -> (r: KeyValueView)
        ensures
            r@ == Map::<Seq<char>, ValueView>::empty(),
    {
        KeyValueView { entries: Vec::new() }
    }

    /// Records one entry of the fetched table; a key recorded twice keeps the
    /// value recorded last.
    pub fn put(&mut self, key: String, value: Value)
        ensures
            final(self)@ == old(self)@.insert(key@, value@),
    {
        let ghost before = self.entries@;
        self.entries.push((key, value));
        proof {
            assert(self.entries@.drop_last() =~= before);
        }
    }

    /// Looks a fully qualified key up in the snapshot.
    pub fn get(&self, key: &String) -> (r: Option<&Value>)
        ensures
            match r {
                Some(v) => self@.contains_key(key@) && v@ == self@[key@],
                None => !self@.contains_key(key@),
            },
    {
        let mut found: Option<usize> = None;
        let mut i: usize = 0;
        let n = self.entries.len();
        while i < n
            invariant
                n == self.entries.len(),
                i <= n,
                match found {
                    Some(j) => {
                        &&& j < i
                        &&& pairs_map(self.entries@.take(i as int)).contains_key(key@)
                        &&& pairs_map(self.entries@.take(i as int))[key@]
                            == self.entries@[j as int].1@
                    },
                    None => !pairs_map(self.entries@.take(i as int)).contains_key(key@),
                },
            decreases n - i,
        {
            proof {
                let s = self.entries@;
                assert(s.take(i + 1).drop_last() =~= s.take(i as int));
                assert(s.take(i + 1).last() == s[i as int]);
            }
            if self.entries[i].0 == *key {
                found = Some(i);
            }
            i = i + 1;
        }
        proof {
            assert(self.entries@.take(n as int) =~= self.entries@);
        }
        match found {
            Some(j) => Some(&self.entries[j].1),
            None => None,
        }
    }
}

} // verus!

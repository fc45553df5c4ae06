//! Maps from text to text.
use vstd::prelude::*;

use crate::text::same_text;

verus! {

/// A map from text to text. Its entries are held in the order in which they
/// were added; of two with one key the later one counts. It is a row and not a
/// hash map so that it can be copied and walked, with its contents proved.
#[derive(Debug)]
pub struct TextMap {
    pub entries: Vec<(String, String)>,
}

/// The map that a row of entries stands for.
pub open spec fn entries_view(entries: Seq<(String, String)>) -> Map<Seq<char>, Seq<char>>
    decreases entries.len(),
{
    if entries.len() == 0 {
        Map::empty()
    } else {
        entries_view(entries.drop_last()).insert(entries.last().0@, entries.last().1@)
    }
}

/// The map that a row of pairs stands for.
pub open spec fn pairs_view(pairs: Seq<(Seq<char>, Seq<char>)>) -> Map<Seq<char>, Seq<char>>
    decreases pairs.len(),
{
    if pairs.len() == 0 {
        Map::empty()
    } else {
        pairs_view(pairs.drop_last()).insert(pairs.last().0, pairs.last().1)
    }
}

/// The models of pairs of strings in a row.
pub open spec fn text_pairs(pairs: Seq<(String, String)>) -> Seq<(Seq<char>, Seq<char>)> {
    Seq::new(pairs.len(), |i: int| (pairs[i].0@, pairs[i].1@))
}

/// The value under a key, if there is one.
pub open spec fn lookup(map: Map<Seq<char>, Seq<char>>, key: Seq<char>) -> Option<Seq<char>> {
    if map.contains_key(key) {
        Some(map[key])
    } else {
        None
    }
}

impl View for TextMap {
    type V = Map<Seq<char>, Seq<char>>;

    open spec fn view(&self) -> Map<Seq<char>, Seq<char>> {
        entries_view(self.entries@)
    }
}

proof fn later_entries_hide(entries: Seq<(String, String)>, key: Seq<char>, i: int)
    requires
        0 <= i < entries.len(),
        entries[i].0@ == key,
        forall|j: int| i < j < entries.len() ==> (#[trigger] entries[j]).0@ != key,
    ensures
        lookup(entries_view(entries), key) == Some(entries[i].1@),
    decreases entries.len(),
{
    if i < entries.len() - 1 {
        assert(entries[entries.len() - 1].0@ != key);
        later_entries_hide(entries.drop_last(), key, i);
    }
}

proof fn absent_entries(entries: Seq<(String, String)>, key: Seq<char>)
    requires
        forall|j: int| 0 <= j < entries.len() ==> (#[trigger] entries[j]).0@ != key,
    ensures
        !entries_view(entries).contains_key(key),
    decreases entries.len(),
{
    if entries.len() > 0 {
        assert(entries[entries.len() - 1].0@ != key);
        absent_entries(entries.drop_last(), key);
    }
}

/// The entries of a row are those of the pairs that they stand for.
pub(crate) proof fn pairs_are_entries(entries: Seq<(String, String)>)
    ensures
        entries_view(entries) == pairs_view(text_pairs(entries)),
    decreases entries.len(),
{
    if entries.len() > 0 {
        pairs_are_entries(entries.drop_last());
        assert(text_pairs(entries).drop_last() =~= text_pairs(entries.drop_last()));
    }
}

impl TextMap {
    /// A map without entries.
    pub fn new() -> (r: TextMap)
        ensures
            r@ == Map::<Seq<char>, Seq<char>>::empty(),
    {
        TextMap { entries: Vec::new() }
    }

    /// The map that pairs make, of which a later one replaces an earlier one
    /// with its key.
    pub fn of(pairs: Vec<(String, String)>) -> (r: TextMap)
        ensures
            r@ == pairs_view(text_pairs(pairs@)),
    {
        proof {
            pairs_are_entries(pairs@);
        }
        TextMap { entries: pairs }
    }

    /// Puts a value under a key, in place of what was there.
    pub fn insert(&mut self, key: String, value: String)
        ensures
            final(self)@ == old(self)@.insert(key@, value@),
    {
        let ghost before = self.entries@;
        self.entries.push((key, value));
        assert(self.entries@.drop_last() =~= before);
    }

    /// The value under a key, if there is one.
    pub fn get(&self, key: &str) -> (r: Option<&str>)
        ensures
            crate::text::optional(r) == lookup(self@, key@),
    {
        let mut i: usize = self.entries.len();
        while i > 0
            invariant
                i <= self.entries@.len(),
                forall|j: int|
                    i <= j < self.entries@.len() ==> (#[trigger] self.entries@[j]).0@ != key@,
            decreases i,
        {
            i -= 1;
            if same_text(self.entries[i].0.as_str(), key) {
                proof {
                    later_entries_hide(self.entries@, key@, i as int);
                }
                return Some(self.entries[i].1.as_str());
            }
        }
        proof {
            absent_entries(self.entries@, key@);
        }
        None
    }

    /// Whether there is a value under a key.
    pub fn contains_key(&self, key: &str) -> (r: bool)
        ensures
            r == self@.contains_key(key@),
    {
        self.get(key).is_some()
    }
}

impl Clone for TextMap {
    fn clone(&self) -> (r: Self)
        ensures
            r@ == self@,
    {
        let mut entries: Vec<(String, String)> = Vec::new();
        let mut i: usize = 0;
        while i < self.entries.len()
            invariant
                i <= self.entries@.len(),
                entries_view(entries@) == entries_view(self.entries@.take(i as int)),
            decreases self.entries@.len() - i,
        {
            let ghost before = entries@;
            entries.push((self.entries[i].0.clone(), self.entries[i].1.clone()));
            i += 1;
            assert(entries@.drop_last() =~= before);
            assert(self.entries@.take(i as int).drop_last() =~= self.entries@.take(i - 1));
        }
        assert(self.entries@.take(i as int) =~= self.entries@);
        TextMap { entries }
    }
}

} // verus!

use vstd::prelude::*;

use crate::text::str_eq;

verus! {

/// The mapping that an association list denotes: a later entry for the same
/// key overrides an earlier one, as inserting into a map twice would.
pub open spec fn map_of(entries: Seq<(String, String)>) -> Map<Seq<char>, Seq<char>>
    decreases entries.len(),
{
    if entries.len() == 0 {
        Map::empty()
    } else {
        map_of(entries.drop_last()).insert(entries.last().0@, entries.last().1@)
    }
}

/// Entries at or after position `i` never mention key `k`, so the map of the
/// whole list agrees at `k` with the map of the first `i` entries.
proof fn lemma_map_of_agrees(entries: Seq<(String, String)>, i: int, k: Seq<char>)
    requires
        0 <= i <= entries.len(),
        forall|j: int| i <= j < entries.len() ==> entries[j].0@ != k,
    ensures
        map_of(entries).contains_key(k) == map_of(entries.take(i)).contains_key(k),
        map_of(entries).contains_key(k) ==> map_of(entries)[k] == map_of(entries.take(i))[k],
    decreases entries.len() - i,
{
    if i == entries.len() {
        assert(entries.take(i) =~= entries);
    } else {
        let shorter = entries.drop_last();
        assert(entries.last().0@ != k);
        assert(shorter.take(i) =~= entries.take(i));
        lemma_map_of_agrees(shorter, i, k);
    }
}

/// The variable-substitution lookup table of a configuration: a mapping from
/// variable name to value, built once and read-only afterwards.
#[derive(Debug)]
pub struct Context {
    entries: Vec<(String, String)>,
}

impl View for Context {
    type V = Map<Seq<char>, Seq<char>>;

    closed spec fn view(&self) -> Map<Seq<char>, Seq<char>> {
        map_of(self.entries@)
    }
}

impl Context {
    /// Builds a context from name/value pairs; on a repeated name the later
    /// pair wins, as it would when inserting into a map.
    pub fn new(values: Vec<(String, String)>) -> (r: Self)
        ensures
            r@ == map_of(values@),
    {
        Context { entries: values }
    }

    /// The empty context: no variable is known.
    pub fn empty() -> (r: Self)
        ensures
            r@ == Map::<Seq<char>, Seq<char>>::empty(),
    {
        Context { entries: Vec::new() }
    }

    /// Gives the name/value pairs up, for a caller that persists them.
    pub fn into_entries(self) -> (r: Vec<(String, String)>)
        ensures
            map_of(r@) == self@,
    {
        self.entries
    }

    /// A copy with exactly the same entries.
    pub fn duplicate(&self) -> (r: Self)
        ensures
            r@ == self@,
    {
        let mut entries: Vec<(String, String)> = Vec::new();
        let mut i: usize = 0;
        while i < self.entries.len()
            invariant
                i <= self.entries@.len(),
                entries@ == self.entries@.take(i as int),
            decreases self.entries@.len() - i,
        {
            let pair = (self.entries[i].0.clone(), self.entries[i].1.clone());
            entries.push(pair);
            i = i + 1;
            proof {
                assert(entries@ =~= self.entries@.take(i as int));
            }
        }
        proof {
            assert(entries@ =~= self.entries@);
        }
        Context { entries }
    }

    /// Looks a variable up by name.
    pub fn get(&self, key: &str) -> (r: Option<&String>)
        ensures
            match r {
                Some(v) => self@.contains_key(key@) && v@ == self@[key@],
                None => !self@.contains_key(key@),
            },
    {
        let mut i: usize = self.entries.len();
        while i > 0
            invariant
                i <= self.entries@.len(),
                forall|j: int| i <= j < self.entries@.len() ==> self.entries@[j].0@ != key@,
            decreases i,
        {
            i = i - 1;
            if str_eq(self.entries[i].0.as_str(), key) {
                proof {
                    lemma_map_of_agrees(self.entries@, i + 1, key@);
                    let prefix = self.entries@.take(i + 1);
                    assert(prefix.drop_last() =~= self.entries@.take(i as int));
                    assert(prefix.last() == self.entries@[i as int]);
                }
                return Some(&self.entries[i].1);
            }
        }
        proof {
            lemma_map_of_agrees(self.entries@, 0, key@);
            assert(self.entries@.take(0) =~= Seq::<(String, String)>::empty());
        }
        None
    }
}

impl Default for Context {
    /// The default context is empty.
    fn default() -> (r: Self)
        ensures
            r@ == Map::<Seq<char>, Seq<char>>::empty(),
    {
        Context { entries: Vec::new() }
    }
}

} // verus!

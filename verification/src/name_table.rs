use vstd::prelude::*;
use crate::text::str_eq;

verus! {

/// A map from names to values, kept as a list of entries. A later entry
/// for a name shadows the earlier ones, so inserting never has to search.
pub struct NameTable<V> {
    entries: Vec<(String, V)>,
}

/// The map that a list of entries denotes: the last entry of a name wins.
pub open spec fn entries_map<V>(entries: Seq<(String, V)>) -> Map<Seq<char>, V>
    decreases entries.len(),
{
    if entries.len() == 0 {
        Map::empty()
    } else {
        entries_map(entries.drop_last()).insert(entries.last().0@, entries.last().1)
    }
}

/// Entries at positions `i..` that do not carry `key` leave its lookup to
/// the entries before `i`.
proof fn lemma_entries_tail<V>(s: Seq<(String, V)>, i: int, key: Seq<char>)
    requires
        0 <= i <= s.len(),
        forall|j: int| i <= j < s.len() ==> s[j].0@ != key,
    ensures
        entries_map(s).contains_key(key) == entries_map(s.take(i)).contains_key(key),
        entries_map(s).contains_key(key) ==> entries_map(s)[key] == entries_map(s.take(i))[key],
    decreases s.len(),
{
    if s.len() == i {
        assert(s.take(i) =~= s);
    } else {
        lemma_entries_tail(s.drop_last(), i, key);
        assert(s.drop_last().take(i) =~= s.take(i));
    }
}

/// The entry at `i` decides the lookup of its own name among the first
/// `i + 1` entries.
proof fn lemma_entries_at<V>(s: Seq<(String, V)>, i: int)
    requires
        0 <= i < s.len(),
    ensures
        entries_map(s.take(i + 1)).contains_key(s[i].0@),
        entries_map(s.take(i + 1))[s[i].0@] == s[i].1,
{
    assert(s.take(i + 1).drop_last() =~= s.take(i));
}

/// The denoted map is finite, with no more names than entries.
pub proof fn lemma_entries_finite<V>(s: Seq<(String, V)>)
    ensures
        entries_map(s).dom().finite(),
        entries_map(s).dom().len() <= s.len(),
    decreases s.len(),
{
    if s.len() > 0 {
        lemma_entries_finite(s.drop_last());
    }
}

impl<V> View for NameTable<V> {
    type V = Map<Seq<char>, V>;

    closed spec fn view(&self) -> Map<Seq<char>, V> {
        entries_map(self.entries@)
    }
}

impl<V> NameTable<V> {
    /// The number of entries held, shadowed ones included.
    pub closed spec fn size(&self) -> nat {
        self.entries@.len()
    }

    /// The table maps finitely many names, at most as many as it holds entries.
    pub proof fn lemma_finite(&self)
        ensures
            self@.dom().finite(),
            self@.dom().len() <= self.size(),
    {
        lemma_entries_finite(self.entries@);
    }

    /// An empty table.
    pub fn new() -> (r: Self)
        ensures
            r@ == Map::<Seq<char>, V>::empty(),
            r.size() == 0,
    {
        NameTable { entries: Vec::new() }
    }

    /// Bind `name` to `value`, replacing any earlier binding.
    pub fn insert(&mut self, name: String, value: V)
        ensures
            final(self)@ == old(self)@.insert(name@, value),
            final(self).size() == old(self).size() + 1,
    {
        let ghost prev = self.entries@;
        self.entries.push((name, value));
        assert(self.entries@.drop_last() =~= prev);
    }

    /// The value bound to `name`, if any.
    pub fn get(&self, name: &str) -> (r: Option<&V>)
        ensures
            match r {
                Some(v) => self@.contains_key(name@) && *v == self@[name@],
                None => !self@.contains_key(name@),
            },
    {
        let mut i: usize = self.entries.len();
        while i > 0
            invariant
                i <= self.entries@.len(),
                forall|j: int| i <= j < self.entries@.len() ==> self.entries@[j].0@ != name@,
            decreases i,
        {
            i = i - 1;
            if str_eq(self.entries[i].0.as_str(), name) {
                proof {
                    lemma_entries_tail(self.entries@, i + 1, name@);
                    lemma_entries_at(self.entries@, i as int);
                }
                return Some(&self.entries[i].1);
            }
        }
        proof {
            lemma_entries_tail(self.entries@, 0, name@);
            assert(self.entries@.take(0).len() == 0);
        }
        None
    }

    /// The entries in the order they were inserted; a later entry shadows
    /// earlier ones of the same name.
    pub fn entries(&self) -> (r: &Vec<(String, V)>)
        ensures
            entries_map(r@) == self@,
    {
        &self.entries
    }

    /// Whether `name` is bound.
    pub fn contains_key(&self, name: &str) -> (r: bool)
        ensures
            r == self@.contains_key(name@),
    {
        match self.get(name) {
            Some(_) => true,
            None => false,
        }
    }
}

} // verus!

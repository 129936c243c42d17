use vstd::prelude::*;

verus! {

/// A map keyed by names (strings), compared by their characters.
///
/// Entries are kept in a list; where a name has more than one entry, the
/// later entry is the one that counts.
pub struct NamedMap<V> {
    entries: Vec<(String, V)>,
}

/// The map that a list of entries stands for: a later entry for a name
/// overrides an earlier one.
pub open spec fn entries_map<V>(s: Seq<(String, V)>) -> Map<Seq<char>, V>
    decreases s.len(),
{
    if s.len() == 0 {
        Map::empty()
    } else {
        entries_map(s.drop_last()).insert(s.last().0@, s.last().1)
    }
}

/// No entries stand for the empty map, and a further entry binds its name
/// to its value over what the earlier entries bind: the last entry for a
/// name is the one that counts.
pub proof fn lemma_later_entry_counts<V>(s: Seq<(String, V)>, e: (String, V))
    ensures
        entries_map(Seq::<(String, V)>::empty()) == Map::<Seq<char>, V>::empty(),
        entries_map(s.push(e)) == entries_map(s).insert(e.0@, e.1),
{
    assert(s.push(e).drop_last() =~= s);
}

/// The map holds `k` exactly when some entry is named `k`; the value is that
/// of the last entry named `k`.
proof fn lemma_entries_map_last<V>(s: Seq<(String, V)>, k: Seq<char>, i: int)
    requires
        0 <= i < s.len(),
        s[i].0@ == k,
        forall|j: int| i < j < s.len() ==> s[j].0@ != k,
    ensures
        entries_map(s).contains_key(k),
        entries_map(s)[k] == s[i].1,
    decreases s.len(),
{
    if i < s.len() - 1 {
        lemma_entries_map_last(s.drop_last(), k, i);
    }
}

proof fn lemma_entries_map_absent<V>(s: Seq<(String, V)>, k: Seq<char>)
    requires
        forall|j: int| 0 <= j < s.len() ==> s[j].0@ != k,
    ensures
        !entries_map(s).contains_key(k),
    decreases s.len(),
{
    if s.len() > 0 {
        lemma_entries_map_absent(s.drop_last(), k);
    }
}

/// Replacing the last entry for a name by a new entry for the same name
/// updates that name in the map and nothing else.
proof fn lemma_entries_map_update<V>(s: Seq<(String, V)>, i: int, e: (String, V))
    requires
        0 <= i < s.len(),
        s[i].0@ == e.0@,
        forall|j: int| i < j < s.len() ==> s[j].0@ != e.0@,
    ensures
        entries_map(s.update(i, e)) == entries_map(s).insert(e.0@, e.1),
    decreases s.len(),
{
    let t = s.update(i, e);
    if i == s.len() - 1 {
        assert(t.drop_last() =~= s.drop_last());
        assert(entries_map(t) =~= entries_map(s).insert(e.0@, e.1));
    } else {
        lemma_entries_map_update(s.drop_last(), i, e);
        assert(t.drop_last() =~= s.drop_last().update(i, e));
        assert(entries_map(t) =~= entries_map(s).insert(e.0@, e.1));
    }
}

impl<V> View for NamedMap<V> {
    type V = Map<Seq<char>, V>;

    closed spec fn view(&self) -> Map<Seq<char>, V> {
        entries_map(self.entries@)
    }
}

impl<V> NamedMap<V> {
    /// An empty map.
    pub fn new() -> (r: Self)
        ensures
            r@ == Map::<Seq<char>, V>::empty(),
    {
        NamedMap { entries: Vec::new() }
    }

    /// Position of the last entry named `key`, if any.
    fn position(&self, key: &String) -> (r: Option<usize>)
        ensures
            match r {
                Some(i) => {
                    &&& i < self.entries@.len()
                    &&& self.entries@[i as int].0@ == key@
                    &&& forall|j: int|
                        i < j < self.entries@.len() ==> self.entries@[j].0@ != key@
                },
                None => forall|j: int|
                    0 <= j < self.entries@.len() ==> self.entries@[j].0@ != key@,
            },
    {
        let mut i = self.entries.len();
        while i > 0
            invariant
                i <= self.entries@.len(),
                forall|j: int| i <= j < self.entries@.len() ==> self.entries@[j].0@ != key@,
            decreases i,
        {
            i = i - 1;
            if self.entries[i].0 == *key {
                return Some(i);
            }
        }
        None
    }

    /// A map of the given entries, built without searching them; where a
    /// name has more than one entry, the later one counts.
    pub fn from_entries(entries: Vec<(String, V)>) -> (r: Self)
        ensures
            r@ == entries_map(entries@),
    {
        NamedMap { entries }
    }

    /// Binds `name` to `value`, replacing an earlier binding of the name.
    pub fn insert(&mut self, name: String, value: V)
        ensures
            final(self)@ == old(self)@.insert(name@, value),
    {
        match self.position(&name) {
            Some(i) => {
                proof {
                    lemma_entries_map_update(self.entries@, i as int, (name, value));
                }
                self.entries.set(i, (name, value));
            },
            None => {
                let ghost s = self.entries@;
                self.entries.push((name, value));
                proof {
                    assert(self.entries@.drop_last() =~= s);
                }
            },
        }
    }

    /// The value bound to `name`, if any.
    pub fn get(&self, name: &str) -> (r: Option<&V>)
        ensures
            match r {
                Some(v) => self@.contains_key(name@) && self@[name@] == *v,
                None => !self@.contains_key(name@),
            },
    {
        let key = String::from_str(name);
        match self.position(&key) {
            Some(i) => {
                proof {
                    lemma_entries_map_last(self.entries@, key@, i as int);
                }
                Some(&self.entries[i].1)
            },
            None => {
                proof {
                    lemma_entries_map_absent(self.entries@, key@);
                }
                None
            },
        }
    }
}

/// A read gives back what the last write wrote: after `insert` of a name,
/// the map holds the inserted value under that name, and every other name
/// is bound as before.
pub proof fn lemma_get_after_insert<V>(
    before: NamedMap<V>,
    after: NamedMap<V>,
    name: Seq<char>,
    value: V,
    other: Seq<char>,
)
    requires
        after@ == before@.insert(name, value),
    ensures
        after@.contains_key(name),
        after@[name] == value,
        other != name ==> (after@.contains_key(other) == before@.contains_key(other)),
        other != name && before@.contains_key(other) ==> after@[other] == before@[other],
{
}

} // verus!

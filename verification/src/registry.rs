//! A collection of entries keyed by name, in which no name occurs twice: the
//! provider's namespaces and a namespace's nodes are kept in one.

use vstd::prelude::*;
use crate::text::string_views;

verus! {

/// The names of a sequence of entries.
pub open spec fn entry_names<V>(entries: Seq<(String, V)>) -> Seq<Seq<char>> {
    entries.map_values(|e: (String, V)| e.0@)
}

/// The position of the entry named `name` (meaningful when there is one).
pub open spec fn position_of<V>(entries: Seq<(String, V)>, name: Seq<char>) -> int {
    choose|i: int| 0 <= i < entries.len() && entries[i].0@ == name
}

/// The map from names to values that a sequence of entries stands for.
pub open spec fn entries_map<V>(entries: Seq<(String, V)>) -> Map<Seq<char>, V> {
    Map::new(
        |name: Seq<char>| entry_names(entries).contains(name),
        |name: Seq<char>| entries[position_of(entries, name)].1,
    )
}

/// Entries keyed by name, each name at most once.
pub struct Registry<V> {
    entries: Vec<(String, V)>,
}

impl<V> View for Registry<V> {
    type V = Map<Seq<char>, V>;

    closed spec fn view(&self) -> Map<Seq<char>, V> {
        entries_map(self.entries@)
    }
}

impl<V> Registry<V> {
    #[verifier::type_invariant]
    spec fn names_unique(self) -> bool {
        names_unique_entries(self.entries@)
    }

    /// An empty registry.
    pub fn new() -> (r: Self)
        ensures
            r@ == Map::<Seq<char>, V>::empty(),
    {
        let r = Registry { entries: Vec::new() };
        assert(r@ =~= Map::<Seq<char>, V>::empty());
        r
    }

    /// The position of the entry named `name`, if there is one.
    fn find(&self, name: &str) -> (r: Option<usize>)
        ensures
            match r {
                Some(i) => i < self.entries@.len() && self.entries@[i as int].0@ == name@,
                None => !entry_names(self.entries@).contains(name@),
            },
    {
        let key = name.to_owned();
        let n = self.entries.len();
        let mut i: usize = 0;
        while i < n
            invariant
                i <= n,
                n == self.entries@.len(),
                key@ == name@,
                forall|j: int| 0 <= j < i ==> self.entries@[j].0@ != name@,
            decreases n - i,
        {
            if self.entries[i].0 == key {
                return Some(i);
            }
            i = i + 1;
        }
        assert forall|k: int| 0 <= k < entry_names(self.entries@).len() implies entry_names(
            self.entries@,
        )[k] != name@ by {
            assert(entry_names(self.entries@)[k] == self.entries@[k].0@);
        }
        None
    }

    /// The number of entries.
    pub fn len(&self) -> (n: usize)
        ensures
            n == self@.len(),
    {
        proof {
            use_type_invariant(self);
            lemma_len(self.entries@);
        }
        self.entries.len()
    }

    /// Whether an entry is named `name`.
    pub fn contains(&self, name: &str) -> (b: bool)
        ensures
            b == self@.contains_key(name@),
    {
        let found = self.find(name);
        if let Some(i) = found {
            assert(entry_names(self.entries@)[i as int] == self.entries@[i as int].0@);
        }
        found.is_some()
    }

    /// The value of the entry named `name`.
    pub fn get(&self, name: &str) -> (r: Option<&V>)
        ensures
            match r {
                Some(v) => self@.contains_key(name@) && *v == self@[name@],
                None => !self@.contains_key(name@),
            },
    {
        proof {
            use_type_invariant(self);
        }
        match self.find(name) {
            Some(i) => {
                proof {
                    lemma_position_unique(self.entries@, i as int);
                }
                Some(&self.entries[i].1)
            },
            None => None,
        }
    }

    /// Sets the value of the entry named `name`, and gives back the value it
    /// replaced.
    pub fn insert(&mut self, name: String, value: V) -> (previous: Option<V>)
        ensures
            final(self)@ == old(self)@.insert(name@, value),
            match previous {
                Some(v) => old(self)@.contains_key(name@) && v == old(self)@[name@],
                None => !old(self)@.contains_key(name@),
            },
    {
        proof {
            use_type_invariant(&*self);
        }
        let found = self.find(name.as_str());
        let ghost before = self.entries@;
        let mut entries: Vec<(String, V)> = Vec::new();
        std::mem::swap(&mut entries, &mut self.entries);
        match found {
            Some(i) => {
                proof {
                    lemma_position_unique(before, i as int);
                }
                let (_, old_value) = entries.remove(i);
                proof {
                    lemma_remove_entry(before, i as int);
                }
                let ghost middle = entries@;
                assert(!entries_map(middle).dom().contains(name@));
                entries.push((name, value));
                proof {
                    lemma_push_entry(middle, name, value);
                    assert(entries_map(entries@) =~= entries_map(before).insert(name@, value));
                }
                self.entries = entries;
                Some(old_value)
            },
            None => {
                entries.push((name, value));
                proof {
                    lemma_push_entry(before, name, value);
                    assert(entries_map(entries@) =~= entries_map(before).insert(name@, value));
                }
                self.entries = entries;
                None
            },
        }
    }

    /// Removes the entry named `name`, and gives back its value.
    pub fn remove(&mut self, name: &str) -> (removed: Option<V>)
        ensures
            final(self)@ == old(self)@.remove(name@),
            match removed {
                Some(v) => old(self)@.contains_key(name@) && v == old(self)@[name@],
                None => !old(self)@.contains_key(name@),
            },
    {
        proof {
            use_type_invariant(&*self);
        }
        let found = self.find(name);
        let ghost before = self.entries@;
        match found {
            Some(i) => {
                proof {
                    lemma_position_unique(before, i as int);
                }
                let mut entries: Vec<(String, V)> = Vec::new();
                std::mem::swap(&mut entries, &mut self.entries);
                let (_, old_value) = entries.remove(i);
                proof {
                    lemma_remove_entry(before, i as int);
                    assert(entries_map(entries@) =~= entries_map(before).remove(name@));
                }
                self.entries = entries;
                Some(old_value)
            },
            None => {
                assert(self@ =~= entries_map(before).remove(name@));
                None
            },
        }
    }

    /// Removes every entry whose name is listed.
    pub fn remove_all(&mut self, names: &Vec<String>)
        ensures
            final(self)@ == old(self)@.remove_keys(string_views(names@).to_set()),
    {
        let ghost listed = string_views(names@);
        let n = names.len();
        let mut i: usize = 0;
        while i < n
            invariant
                i <= n,
                n == names@.len(),
                listed == string_views(names@),
                self@ == old(self)@.remove_keys(listed.take(i as int).to_set()),
            decreases n - i,
        {
            self.remove(names[i].as_str());
            proof {
                assert(listed.take(i + 1).to_set() =~= listed.take(i as int).to_set().insert(
                    names@[i as int]@,
                )) by {
                    assert(listed.take(i + 1) =~= listed.take(i as int).push(names@[i as int]@));
                    listed.take(i as int).lemma_push_to_set_commute(names@[i as int]@);
                }
                assert(self@ =~= old(self)@.remove_keys(listed.take(i + 1).to_set()));
            }
            i = i + 1;
        }
        assert(listed.take(n as int) =~= listed);
    }

    /// The names of all entries, each once.
    pub fn names(&self) -> (r: Vec<String>)
        ensures
            string_views(r@).to_set() == self@.dom(),
            string_views(r@).no_duplicates(),
            r@.len() == self@.len(),
    {
        proof {
            use_type_invariant(self);
            lemma_len(self.entries@);
        }
        let n = self.entries.len();
        let mut r: Vec<String> = Vec::new();
        let mut i: usize = 0;
        while i < n
            invariant
                i <= n,
                n == self.entries@.len(),
                string_views(r@) == entry_names(self.entries@).take(i as int),
            decreases n - i,
        {
            let ghost before = r@;
            r.push(self.entries[i].0.clone());
            assert(r@ == before.push(self.entries@[i as int].0));
            assert(entry_names(self.entries@).len() == n);
            assert(string_views(before).len() == before.len());
            assert(before.len() == i);
            assert(r@.len() == i + 1);
            assert forall|k: int| 0 <= k < i + 1 implies #[trigger] string_views(r@)[k]
                == entry_names(self.entries@).take(i + 1)[k] by {
                assert(string_views(r@)[k] == r@[k]@);
                assert(entry_names(self.entries@).take(i + 1)[k] == self.entries@[k].0@);
                if k < i {
                    assert(string_views(before)[k] == entry_names(self.entries@).take(i as int)[k]);
                    assert(string_views(before)[k] == before[k]@);
                    assert(r@[k] == before[k]);
                }
            }
            assert(string_views(r@) =~= entry_names(self.entries@).take(i + 1));
            i = i + 1;
        }
        assert(entry_names(self.entries@).take(n as int) =~= entry_names(self.entries@));
        assert(self@.dom() =~= entry_names(self.entries@).to_set());
        r
    }
}

/// Whether no name occurs twice among `entries`.
pub open spec fn names_unique_entries<V>(entries: Seq<(String, V)>) -> bool {
    entry_names(entries).no_duplicates()
}

proof fn lemma_position_unique<V>(entries: Seq<(String, V)>, i: int)
    requires
        names_unique_entries(entries),
        0 <= i < entries.len(),
    ensures
        entry_names(entries).contains(entries[i].0@),
        position_of(entries, entries[i].0@) == i,
        entries_map(entries)[entries[i].0@] == entries[i].1,
{
    let names = entry_names(entries);
    assert(names[i] == entries[i].0@);
    let p = position_of(entries, entries[i].0@);
    assert(0 <= p < entries.len() && entries[p].0@ == entries[i].0@);
    assert(names[p] == entries[p].0@);
}

proof fn lemma_len<V>(entries: Seq<(String, V)>)
    requires
        names_unique_entries(entries),
    ensures
        entries_map(entries).dom() == entry_names(entries).to_set(),
        entries_map(entries).len() == entries.len(),
{
    assert(entries_map(entries).dom() =~= entry_names(entries).to_set());
    entry_names(entries).unique_seq_to_set();
}

proof fn lemma_remove_entry<V>(entries: Seq<(String, V)>, i: int)
    requires
        names_unique_entries(entries),
        0 <= i < entries.len(),
    ensures
        names_unique_entries(entries.remove(i)),
        entries_map(entries.remove(i)) == entries_map(entries).remove(entries[i].0@),
{
    let rest = entries.remove(i);
    let names = entry_names(entries);
    let rest_names = entry_names(rest);
    assert(rest_names =~= names.remove(i));
    assert forall|a: int, b: int| 0 <= a < b < rest_names.len() implies rest_names[a]
        != rest_names[b] by {
        let a2 = if a < i { a } else { a + 1 };
        let b2 = if b < i { b } else { b + 1 };
        assert(rest_names[a] == names[a2]);
        assert(rest_names[b] == names[b2]);
    }
    let gone = entries[i].0@;
    assert forall|k: Seq<char>| #[trigger] rest_names.contains(k) <==> (names.contains(k) && k
        != gone) by {
        if rest_names.contains(k) {
            let a = choose|a: int| 0 <= a < rest_names.len() && rest_names[a] == k;
            let a2 = if a < i { a } else { a + 1 };
            assert(names[a2] == k);
            assert(names[i] == gone);
        }
        if names.contains(k) && k != gone {
            let a = choose|a: int| 0 <= a < names.len() && names[a] == k;
            assert(a != i);
            let a1 = if a < i { a } else { a - 1 };
            assert(rest_names[a1] == k);
        }
    }
    assert forall|k: Seq<char>| #[trigger] rest_names.contains(k) implies entries_map(rest)[k]
        == entries_map(entries)[k] by {
        let p = position_of(rest, k);
        assert(0 <= p < rest.len() && rest[p].0@ == k);
        let p2 = if p < i { p } else { p + 1 };
        assert(rest[p] == entries[p2]);
        lemma_position_unique(entries, p2);
    }
    assert(entries_map(rest) =~= entries_map(entries).remove(gone));
}

proof fn lemma_push_entry<V>(entries: Seq<(String, V)>, name: String, value: V)
    requires
        names_unique_entries(entries),
        !entry_names(entries).contains(name@),
    ensures
        names_unique_entries(entries.push((name, value))),
        entries_map(entries.push((name, value))) == entries_map(entries).insert(name@, value),
{
    let more = entries.push((name, value));
    let names = entry_names(entries);
    let more_names = entry_names(more);
    assert(more_names =~= names.push(name@));
    assert forall|a: int, b: int| 0 <= a < b < more_names.len() implies more_names[a]
        != more_names[b] by {
        if b == names.len() {
            assert(names[a] == more_names[a]);
        } else {
            assert(names[a] == more_names[a]);
            assert(names[b] == more_names[b]);
        }
    }
    let n = entries.len() as int;
    lemma_position_unique(more, n);
    assert forall|k: Seq<char>| #[trigger] names.contains(k) implies entries_map(more)[k]
        == entries_map(entries)[k] by {
        let p = position_of(entries, k);
        assert(0 <= p < entries.len() && entries[p].0@ == k);
        lemma_position_unique(entries, p);
        assert(more[p] == entries[p]);
        lemma_position_unique(more, p);
    }
    assert forall|k: Seq<char>| #[trigger] more_names.contains(k) <==> (names.contains(k) || k
        == name@) by {
        if more_names.contains(k) {
            let a = choose|a: int| 0 <= a < more_names.len() && more_names[a] == k;
            if a < n {
                assert(names[a] == k);
            }
        }
        if names.contains(k) {
            let a = choose|a: int| 0 <= a < names.len() && names[a] == k;
            assert(more_names[a] == k);
        }
        if k == name@ {
            assert(more_names[n] == k);
        }
    }
    assert(entries_map(more) =~= entries_map(entries).insert(name@, value));
}

/// Removing every listed name from a registry whose names are all listed
/// leaves it empty.
pub proof fn lemma_remove_every_name_empties<V>(m: Map<Seq<char>, V>, listed: Set<Seq<char>>)
    requires
        m.dom().subset_of(listed),
    ensures
        m.remove_keys(listed) == Map::<Seq<char>, V>::empty(),
{
    assert(m.remove_keys(listed) =~= Map::<Seq<char>, V>::empty());
}

} // verus!

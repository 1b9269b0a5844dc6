//! A mapping from template names to values that remembers the order in which
//! the names arrived.

use vstd::prelude::*;
use crate::text::same_text;

verus! {

/// One name with its value.
pub struct Entry<T> {
    pub name: String,
    pub value: T,
}

/// A finite mapping with names as keys. No name occurs twice; a name keeps
/// the place at which it was first inserted.
pub struct NameMap<T> {
    entries: Vec<Entry<T>>,
}

/// The names of a list of entries, in order.
pub open spec fn names_of<T>(entries: Seq<Entry<T>>) -> Seq<Seq<char>> {
    Seq::new(entries.len(), |i: int| entries[i].name@)
}

/// The values of a list of entries, in order.
pub open spec fn values_of<T>(entries: Seq<Entry<T>>) -> Seq<T> {
    Seq::new(entries.len(), |i: int| entries[i].value)
}

impl<T> View for NameMap<T> {
    type V = Map<Seq<char>, T>;

    /// The mapping, without the order.
    open spec fn view(&self) -> Map<Seq<char>, T> {
        Map::new(
            |name: Seq<char>| self.keys().contains(name),
            |name: Seq<char>| self.values()[self.keys().index_of(name)],
        )
    }
}

impl<T> NameMap<T> {
    /// The names, in order of arrival.
    pub closed spec fn keys(&self) -> Seq<Seq<char>> {
        names_of(self.entries@)
    }

    /// The values, each at the index of its name.
    pub closed spec fn values(&self) -> Seq<T> {
        values_of(self.entries@)
    }

    /// There is one value for each name, and no name occurs twice.
    #[verifier::type_invariant]
    pub open spec fn wf(&self) -> bool {
        self.keys().len() == self.values().len() && self.keys().no_duplicates()
    }

    /// In a well-formed mapping the name at an index maps to the value there.
    pub proof fn lemma_value_at(&self, i: int)
        requires
            self.wf(),
            0 <= i < self.keys().len(),
        ensures
            self@.contains_key(self.keys()[i]),
            self@[self.keys()[i]] == self.values()[i],
    {
        let found = self.keys().index_of(self.keys()[i]);
        assert(self.keys()[found] == self.keys()[i]);
    }

    /// The mapping without any name.
    pub fn new() -> (empty: NameMap<T>)
        ensures
            empty.keys() == Seq::<Seq<char>>::empty(),
            empty.values() == Seq::<T>::empty(),
            empty@ == Map::<Seq<char>, T>::empty(),
    {
        NameMap { entries: Vec::new() }
    }

    /// The number of names.
    pub fn len(&self) -> (count: usize)
        ensures
            count == self.keys().len(),
            count == self.values().len(),
    {
        self.entries.len()
    }

    /// The entries, in order of arrival.
    pub fn entries(&self) -> (entries: &Vec<Entry<T>>)
        ensures
            self.wf(),
            names_of(entries@) == self.keys(),
            values_of(entries@) == self.values(),
    {
        proof {
            use_type_invariant(self);
        }
        &self.entries
    }

    /// The names, in order of arrival.
    pub fn names(&self) -> (names: Vec<String>)
        ensures
            self.wf(),
            names.deep_view() == self.keys(),
    {
        proof {
            use_type_invariant(self);
        }
        let mut names: Vec<String> = Vec::new();
        let mut i: usize = 0;
        while i < self.entries.len()
            invariant
                i <= self.entries@.len(),
                names.deep_view() == self.keys().take(i as int),
            decreases self.entries@.len() - i,
        {
            names.push(self.entries[i].name.clone());
            assert(self.keys().take(i + 1) =~= self.keys().take(i as int).push(
                self.keys()[i as int],
            ));
            i += 1;
        }
        names
    }

    /// The entries, in order of arrival, for a caller that takes them over.
    pub fn into_entries(self) -> (entries: Vec<Entry<T>>)
        ensures
            self.wf(),
            names_of(entries@) == self.keys(),
            values_of(entries@) == self.values(),
    {
        proof {
            use_type_invariant(&self);
        }
        self.entries
    }

    /// The index of `name` among the keys.
    pub fn position(&self, name: &str) -> (found: Option<usize>)
        ensures
            match found {
                Some(i) => i < self.keys().len() && self.keys()[i as int] == name@,
                None => !self.keys().contains(name@),
            },
    {
        let mut i: usize = 0;
        while i < self.entries.len()
            invariant
                i <= self.entries@.len(),
                forall|k: int| 0 <= k < i ==> self.keys()[k] != name@,
            decreases self.entries@.len() - i,
        {
            if same_text(self.entries[i].name.as_str(), name) {
                return Some(i);
            }
            i += 1;
        }
        None
    }

    /// The value that `name` maps to.
    pub fn get(&self, name: &str) -> (found: Option<&T>)
        ensures
            self.wf(),
            match found {
                Some(value) => self@.contains_key(name@) && *value == self@[name@],
                None => !self@.contains_key(name@),
            },
    {
        proof {
            use_type_invariant(self);
        }
        match self.position(name) {
            Some(i) => {
                proof {
                    self.lemma_value_at(i as int);
                }
                Some(&self.entries[i].value)
            },
            None => None,
        }
    }

    /// Whether `name` is a key.
    pub fn contains(&self, name: &str) -> (found: bool)
        ensures
            found == self@.contains_key(name@),
            found == self.keys().contains(name@),
    {
        self.position(name).is_some()
    }

    /// Maps `name` to `value`. A name that is already a key keeps its place
    /// and loses its old value; a new name goes to the end.
    pub fn insert(&mut self, name: String, value: T)
        ensures
            final(self).wf(),
            final(self)@ == old(self)@.insert(name@, value),
            old(self).keys().contains(name@) ==> final(self).keys() == old(self).keys()
                && final(self).values() == old(self).values().update(
                old(self).keys().index_of(name@),
                value,
            ),
            !old(self).keys().contains(name@) ==> final(self).keys() == old(self).keys().push(
                name@,
            ) && final(self).values() == old(self).values().push(value),
    {
        proof {
            use_type_invariant(&*self);
        }
        let ghost before = *self;
        let place = self.position(name.as_str());
        let mut entries = Vec::new();
        std::mem::swap(&mut entries, &mut self.entries);
        match place {
            Some(i) => {
                entries.set(i, Entry { name, value });
                assert(names_of(entries@) =~= before.keys());
                self.entries = entries;
                assert(self.values() =~= before.values().update(i as int, value));
            },
            None => {
                entries.push(Entry { name, value });
                assert(names_of(entries@) =~= before.keys().push(name@));
                self.entries = entries;
                assert(self.values() =~= before.values().push(value));
            },
        }
        proof {
            let after = before@.insert(name@, value);
            assert forall|key: Seq<char>| self@.contains_key(key) == after.contains_key(key) by {
                if before.keys().contains(key) {
                    let k = before.keys().index_of(key);
                    assert(self.keys()[k] == key);
                }
                if key == name@ && place is None {
                    assert(self.keys()[self.keys().len() - 1] == name@);
                }
            }
            assert forall|key: Seq<char>| self@.contains_key(key) implies self@[key]
                == after[key] by {
                let k = self.keys().index_of(key);
                assert(self.keys()[k] == key);
                if key != name@ {
                    before.lemma_value_at(k);
                }
            }
            assert(self@ =~= after);
        }
    }
}

} // verus!

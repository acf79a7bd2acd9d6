//! A table keyed by session identity.
//!
//! The table is a list of entries in which no identity occurs twice; to its
//! users it is a finite map from identities to values.

use vstd::prelude::*;
use crate::session_id::{SessionId, SessionIdView};

verus! {

/// A finite map from session identities to values of type `V`.
pub struct SessionTable<V> {
    entries: Vec<(SessionId, V)>,
}

/// Entry `i` of `entries` is the one for `key`.
spec fn entry_for<V>(entries: Seq<(SessionId, V)>, key: SessionIdView, i: int) -> bool {
    0 <= i < entries.len() && entries[i].0@ == key
}

/// No identity occurs in two entries.
spec fn keys_distinct<V>(entries: Seq<(SessionId, V)>) -> bool {
    forall|i: int, j: int| 0 <= i < j < entries.len() ==> entries[i].0@ != entries[j].0@
}

/// The map that a list of entries stands for.
spec fn model<V>(entries: Seq<(SessionId, V)>) -> Map<SessionIdView, V> {
    Map::new(
        |key: SessionIdView| exists|i: int| entry_for(entries, key, i),
        |key: SessionIdView| entries[choose|i: int| entry_for(entries, key, i)].1,
    )
}

proof fn lemma_model_at<V>(entries: Seq<(SessionId, V)>, i: int)
    requires
        keys_distinct(entries),
        0 <= i < entries.len(),
    ensures
        model(entries).contains_key(entries[i].0@),
        model(entries)[entries[i].0@] == entries[i].1,
{
    let key = entries[i].0@;
    assert(entry_for(entries, key, i));
    let chosen = choose|j: int| entry_for(entries, key, j);
    assert(entry_for(entries, key, chosen));
    assert(chosen == i);
}

proof fn lemma_model_absent<V>(entries: Seq<(SessionId, V)>, key: SessionIdView)
    requires
        forall|i: int| 0 <= i < entries.len() ==> entries[i].0@ != key,
    ensures
        !model(entries).contains_key(key),
{
    assert forall|i: int| !entry_for(entries, key, i) by {}
}

proof fn lemma_model_push<V>(entries: Seq<(SessionId, V)>, id: SessionId, value: V)
    requires
        keys_distinct(entries),
        !model(entries).contains_key(id@),
    ensures
        keys_distinct(entries.push((id, value))),
        model(entries.push((id, value))) == model(entries).insert(id@, value),
{
    let grown = entries.push((id, value));
    assert forall|i: int, j: int| 0 <= i < j < grown.len() implies grown[i].0@ != grown[j].0@ by {
        if j == entries.len() {
            assert(entry_for(entries, entries[i].0@, i));
        }
    }
    let last = entries.len() as int;
    assert forall|key: SessionIdView|
        model(grown).contains_key(key) == model(entries).insert(id@, value).contains_key(
            key,
        ) by {
        if model(grown).contains_key(key) {
            let i = choose|i: int| entry_for(grown, key, i);
            if i < last {
                assert(entry_for(entries, key, i));
            }
        }
        if model(entries).contains_key(key) {
            let i = choose|i: int| entry_for(entries, key, i);
            assert(entry_for(grown, key, i));
        }
        if key == id@ {
            assert(entry_for(grown, key, last));
        }
    }
    assert forall|key: SessionIdView| model(grown).contains_key(key) implies model(grown)[key]
        == model(entries).insert(id@, value)[key] by {
        let i = choose|i: int| entry_for(grown, key, i);
        lemma_model_at(grown, i);
        if i < last {
            lemma_model_at(entries, i);
        }
    }
    assert(model(grown) =~= model(entries).insert(id@, value));
}

proof fn lemma_model_remove<V>(entries: Seq<(SessionId, V)>, at: int)
    requires
        keys_distinct(entries),
        0 <= at < entries.len(),
    ensures
        keys_distinct(entries.remove(at)),
        model(entries.remove(at)) == model(entries).remove(entries[at].0@),
{
    let rest = entries.remove(at);
    let gone = entries[at].0@;
    assert forall|i: int| 0 <= i < rest.len() implies rest[i] == entries[if i < at {
        i
    } else {
        i + 1
    }] by {}
    assert forall|i: int, j: int| 0 <= i < j < rest.len() implies rest[i].0@ != rest[j].0@ by {
        let oi = if i < at { i } else { i + 1 };
        let oj = if j < at { j } else { j + 1 };
        assert(rest[i] == entries[oi]);
        assert(rest[j] == entries[oj]);
    }
    assert forall|key: SessionIdView|
        model(rest).contains_key(key) == model(entries).remove(gone).contains_key(key) by {
        if model(rest).contains_key(key) {
            let i = choose|i: int| entry_for(rest, key, i);
            let oi = if i < at { i } else { i + 1 };
            assert(rest[i] == entries[oi]);
            assert(entry_for(entries, key, oi));
            assert(key != gone);
        }
        if model(entries).contains_key(key) && key != gone {
            let oi = choose|i: int| entry_for(entries, key, i);
            let i = if oi < at { oi } else { oi - 1 };
            assert(rest[i] == entries[oi]);
            assert(entry_for(rest, key, i));
        }
    }
    assert forall|key: SessionIdView| model(rest).contains_key(key) implies model(rest)[key]
        == model(entries).remove(gone)[key] by {
        let i = choose|i: int| entry_for(rest, key, i);
        let oi = if i < at { i } else { i + 1 };
        assert(rest[i] == entries[oi]);
        lemma_model_at(rest, i);
        lemma_model_at(entries, oi);
    }
    assert(model(rest) =~= model(entries).remove(gone));
}

impl<V> View for SessionTable<V> {
    type V = Map<SessionIdView, V>;

    closed spec fn view(&self) -> Map<SessionIdView, V> {
        model(self.entries@)
    }
}

impl<V> SessionTable<V> {
    #[verifier::type_invariant]
    spec fn well_formed(self) -> bool {
        keys_distinct(self.entries@)
    }

    /// An empty table.
    pub fn new() -> (table: SessionTable<V>)
        ensures
            table@ == Map::<SessionIdView, V>::empty(),
    {
        let table = SessionTable { entries: Vec::new() };
        proof {
            assert(table@ =~= Map::<SessionIdView, V>::empty()) by {
                assert forall|key: SessionIdView| !table@.contains_key(key) by {
                    lemma_model_absent(table.entries@, key);
                }
            }
        }
        table
    }

    /// Where the entry for `id` stands, if there is one.
    fn position(&self, id: &SessionId) -> (found: Option<usize>)
        ensures
            match found {
                Some(i) => entry_for(self.entries@, id@, i as int),
                None => !self@.contains_key(id@),
            },
    {
        let mut i: usize = 0;
        while i < self.entries.len()
            invariant
                i <= self.entries@.len(),
                forall|j: int| 0 <= j < i ==> self.entries@[j].0@ != id@,
            decreases self.entries@.len() - i,
        {
            if self.entries[i].0.same_session(id) {
                return Some(i);
            }
            i += 1;
        }
        proof {
            lemma_model_absent(self.entries@, id@);
        }
        None
    }

    /// Whether the table has an entry for `id`.
    pub fn contains_key(&self, id: &SessionId) -> (present: bool)
        ensures
            present == self@.contains_key(id@),
    {
        proof {
            use_type_invariant(self);
        }
        match self.position(id) {
            Some(i) => {
                proof {
                    lemma_model_at(self.entries@, i as int);
                }
                true
            },
            None => false,
        }
    }

    /// The value entered for `id`, if there is one.
    pub fn get(&self, id: &SessionId) -> (value: Option<&V>)
        ensures
            value == (if self@.contains_key(id@) {
                Some(&self@[id@])
            } else {
                None
            }),
    {
        proof {
            use_type_invariant(self);
        }
        match self.position(id) {
            Some(i) => {
                proof {
                    lemma_model_at(self.entries@, i as int);
                }
                Some(&self.entries[i].1)
            },
            None => None,
        }
    }

    /// Enters `value` for `id`, in place of any value entered before, which
    /// is handed back.
    pub fn insert(&mut self, id: SessionId, value: V) -> (replaced: Option<V>)
        ensures
            final(self)@ == old(self)@.insert(id@, value),
            replaced == (if old(self)@.contains_key(id@) {
                Some(old(self)@[id@])
            } else {
                None
            }),
    {
        proof {
            use_type_invariant(&*self);
        }
        let found = self.position(&id);
        let mut entries: Vec<(SessionId, V)> = Vec::new();
        std::mem::swap(&mut entries, &mut self.entries);
        let ghost before = entries@;
        let replaced = match found {
            Some(i) => {
                proof {
                    lemma_model_at(before, i as int);
                    lemma_model_remove(before, i as int);
                }
                let entry = entries.remove(i);
                Some(entry.1)
            },
            None => None,
        };
        proof {
            lemma_model_push(entries@, id, value);
            assert(model(before).remove(id@).insert(id@, value) =~= model(before).insert(
                id@,
                value,
            ));
        }
        entries.push((id, value));
        self.entries = entries;
        replaced
    }

    /// Enters `value` for `id` unless `id` has an entry already; says
    /// whether it did.
    pub fn insert_if_absent(&mut self, id: SessionId, value: V) -> (entered: bool)
        ensures
            entered == !old(self)@.contains_key(id@),
            final(self)@ == (if entered {
                old(self)@.insert(id@, value)
            } else {
                old(self)@
            }),
    {
        proof {
            use_type_invariant(&*self);
        }
        match self.position(&id) {
            Some(i) => {
                proof {
                    lemma_model_at(self.entries@, i as int);
                }
                false
            },
            None => {
                let mut entries: Vec<(SessionId, V)> = Vec::new();
                std::mem::swap(&mut entries, &mut self.entries);
                proof {
                    lemma_model_push(entries@, id, value);
                }
                entries.push((id, value));
                self.entries = entries;
                true
            },
        }
    }

    /// Takes the entry for `id` out of the table and hands its value back.
    pub fn remove(&mut self, id: &SessionId) -> (removed: Option<V>)
        ensures
            final(self)@ == old(self)@.remove(id@),
            removed == (if old(self)@.contains_key(id@) {
                Some(old(self)@[id@])
            } else {
                None
            }),
    {
        proof {
            use_type_invariant(&*self);
        }
        match self.position(id) {
            Some(i) => {
                let mut entries: Vec<(SessionId, V)> = Vec::new();
                std::mem::swap(&mut entries, &mut self.entries);
                proof {
                    lemma_model_at(entries@, i as int);
                    lemma_model_remove(entries@, i as int);
                }
                let entry = entries.remove(i);
                self.entries = entries;
                Some(entry.1)
            },
            None => {
                assert(self@.remove(id@) =~= self@);
                None
            },
        }
    }
}

} // verus!

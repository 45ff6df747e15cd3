//! Bindings: which action a key stands for.

use crate::events::Key;
use vstd::prelude::*;

verus! {

/// Whether `key` is one of `keys`.
pub open spec fn bound(keys: Seq<Key>, key: Key) -> bool {
    exists|i: int| 0 <= i < keys.len() && #[trigger] keys[i] == key
}

/// The index at which `key` stands in `keys`.
pub open spec fn slot_of(keys: Seq<Key>, key: Key) -> int {
    choose|i: int| 0 <= i < keys.len() && #[trigger] keys[i] == key
}

/// No key occurs twice.
pub open spec fn unique(keys: Seq<Key>) -> bool {
    forall|i: int, j: int| 0 <= i < j < keys.len() ==> #[trigger] keys[i] != #[trigger] keys[j]
}

/// The map that takes each of `keys` to the action at the same index.
pub open spec fn table_of<A>(keys: Seq<Key>, actions: Seq<A>) -> Map<Key, A> {
    Map::new(|key: Key| bound(keys, key), |key: Key| actions[slot_of(keys, key)])
}

/// Replacing the action at one index replaces what its key maps to.
proof fn lemma_table_update<A>(keys: Seq<Key>, actions: Seq<A>, i: int, action: A)
    requires
        unique(keys),
        keys.len() == actions.len(),
        0 <= i < keys.len(),
    ensures
        table_of(keys, actions.update(i, action)) == table_of(keys, actions).insert(keys[i], action),
        table_of(keys, actions).contains_key(keys[i]),
        table_of(keys, actions)[keys[i]] == actions[i],
{
    assert(bound(keys, keys[i]));
    assert(forall|key: Key| bound(keys, key) && key != keys[i] ==> slot_of(keys, key) != i);
    assert(table_of(keys, actions.update(i, action)) =~= table_of(keys, actions).insert(keys[i], action));
}

/// Adding a new key with its action adds the pair to the map.
proof fn lemma_table_push<A>(keys: Seq<Key>, actions: Seq<A>, key: Key, action: A)
    requires
        unique(keys),
        keys.len() == actions.len(),
        !bound(keys, key),
    ensures
        unique(keys.push(key)),
        table_of(keys.push(key), actions.push(action)) == table_of(keys, actions).insert(key, action),
{
    let after = keys.push(key);
    assert forall|other: Key| bound(after, other) implies (other == key || bound(keys, other))
        && slot_of(after, other) == (if other == key {
        keys.len() as int
    } else {
        slot_of(keys, other)
    }) by {
        let i = slot_of(after, other);
        if i < keys.len() {
            assert(keys[i] == other);
            let j = slot_of(keys, other);
            assert(after[j] == other);
        }
    }
    assert forall|other: Key| bound(keys, other) implies bound(after, other) by {
        let j = slot_of(keys, other);
        assert(after[j] == other);
    }
    assert(after[keys.len() as int] == key);
    assert(table_of(after, actions.push(action)) =~= table_of(keys, actions).insert(key, action));
}

/// A table from keys to actions. A key has at most one action: binding it
/// again replaces the action.
#[derive(Debug)]
pub struct KeyMap<A> {
    keys: Vec<Key>,
    actions: Vec<A>,
}

impl<A> View for KeyMap<A> {
    type V = Map<Key, A>;

    closed spec fn view(&self) -> Map<Key, A> {
        table_of(self.keys@, self.actions@)
    }
}

impl<A> KeyMap<A> {
    #[verifier::type_invariant]
    spec fn paired(&self) -> bool {
        &&& self.keys@.len() == self.actions@.len()
        &&& unique(self.keys@)
    }

    /// The table without bindings.
    pub fn new() -> (table: KeyMap<A>)
        ensures
            table@ == Map::<Key, A>::empty(),
    {
        let table = KeyMap { keys: Vec::new(), actions: Vec::new() };
        assert(table@ =~= Map::<Key, A>::empty());
        table
    }

    /// The index of `key` among the keys.
    fn find(&self, key: Key) -> (found: Option<usize>)
        ensures
            match found {
                Some(i) => i < self.keys@.len() && self.keys@[i as int] == key,
                None => !bound(self.keys@, key),
            },
    {
        let mut i: usize = 0;
        while i < self.keys.len()
            invariant
                i <= self.keys@.len(),
                forall|j: int| 0 <= j < i ==> self.keys@[j] != key,
            decreases self.keys.len() - i,
        {
            if self.keys[i] == key {
                return Some(i);
            }
            i += 1;
        }
        None
    }

    /// Binds `key` to `action`, in place of the action it was bound to.
    pub fn bind(&mut self, key: Key, action: A)
        ensures
            final(self)@ == old(self)@.insert(key, action),
    {
        proof {
            use_type_invariant(&*self);
        }
        match self.find(key) {
            Some(i) => {
                proof {
                    lemma_table_update(self.keys@, self.actions@, i as int, action);
                }
                self.actions[i] = action;
            },
            None => {
                let mut taken = KeyMap::new();
                core::mem::swap(self, &mut taken);
                let KeyMap { mut keys, mut actions } = taken;
                proof {
                    lemma_table_push(keys@, actions@, key, action);
                }
                keys.push(key);
                actions.push(action);
                *self = KeyMap { keys, actions };
            },
        }
    }

    /// The action that `key` is bound to, if it is bound.
    pub fn get(&self, key: Key) -> (action: Option<&A>)
        ensures
            match action {
                Some(action) => self@.contains_key(key) && *action == self@[key],
                None => !self@.contains_key(key),
            },
    {
        proof {
            use_type_invariant(self);
        }
        match self.find(key) {
            Some(i) => {
                proof {
                    lemma_table_update(self.keys@, self.actions@, i as int, self.actions@[i as int]);
                }
                Some(&self.actions[i])
            },
            None => None,
        }
    }
}

} // verus!

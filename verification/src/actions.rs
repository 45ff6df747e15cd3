//! Actions: named commands that change the state store, and the dispatch
//! that takes a key to the action it is bound to.

use crate::bindings::KeyMap;
use crate::error::{Error, Failure};
use crate::events::Key;
use crate::store::{
    distinct, lemma_map_of_push, lemma_map_of_update, map_of, named, position, Model, State,
};
use vstd::prelude::*;
use vstd::string::*;

verus! {

/// What executing an action gives: the store afterwards, or a failure.
pub type Effect = Result<Model, Failure>;

/// The effect that a result of executing stands for.
pub open spec fn effect_of(after: &State, result: Result<(), Error>) -> Effect {
    match result {
        Ok(()) => Ok(after.model()),
        Err(error) => Err(error.failure()),
    }
}

/// A command that changes the state store. An action that fails leaves the
/// store as it found it, so that the application can go on after the
/// failure.
pub trait Action {
    /// Whether `effect` is one that executing the action on a store that
    /// holds `before` may have.
    spec fn effects(&self, before: Model, effect: Effect) -> bool;

    /// Executes the action on `state`. On failure `state` is as before.
    fn execute(&mut self, state: &mut State) -> (result: Result<(), Error>)
        ensures
            old(self).effects(old(state).model(), effect_of(final(state), result)),
            result is Err ==> final(state)@ == old(state)@,
    ;
}

/// The actions of an application under their names. A name has at most one
/// action: registering it again replaces the action.
pub struct Actions<A: Action> {
    names: Vec<String>,
    actions: Vec<A>,
}

impl<A: Action> View for Actions<A> {
    type V = Map<Seq<char>, A>;

    closed spec fn view(&self) -> Map<Seq<char>, A> {
        map_of(self.names@, self.actions@)
    }
}

impl<A: Action> Actions<A> {
    #[verifier::type_invariant]
    spec fn paired(&self) -> bool {
        &&& self.names@.len() == self.actions@.len()
        &&& distinct(self.names@)
    }

    /// The registry without actions.
    pub fn new() -> (registry: Actions<A>)
        ensures
            registry@ == Map::<Seq<char>, A>::empty(),
    {
        let registry = Actions { names: Vec::new(), actions: Vec::new() };
        assert(registry@ =~= Map::<Seq<char>, A>::empty());
        registry
    }

    /// Registers `action` under `name`, in place of the action that was
    /// registered under it.
    pub fn register(&mut self, name: &str, action: A)
        ensures
            final(self)@ == old(self)@.insert(name@, action),
    {
        proof {
            use_type_invariant(&*self);
        }
        match position(&self.names, name) {
            Some(i) => {
                proof {
                    lemma_map_of_update(self.names@, self.actions@, i as int, action);
                }
                self.actions[i] = action;
            },
            None => {
                let mut taken = Actions::new();
                core::mem::swap(self, &mut taken);
                let Actions { mut names, mut actions } = taken;
                let owned = name.to_owned();
                proof {
                    lemma_map_of_push(names@, actions@, owned, action);
                }
                names.push(owned);
                actions.push(action);
                *self = Actions { names, actions };
            },
        }
    }

    /// Whether an action is registered under `name`.
    pub fn contains(&self, name: &str) -> (found: bool)
        ensures
            found == self@.contains_key(name@),
    {
        proof {
            use_type_invariant(self);
        }
        match position(&self.names, name) {
            Some(i) => {
                proof {
                    lemma_map_of_update(self.names@, self.actions@, i as int, self.actions@[i as int]);
                }
                true
            },
            None => false,
        }
    }

    /// The action registered under `name`, to execute it.
    pub fn get_mut(&mut self, name: &str) -> (action: Option<&mut A>)
        ensures
            match action {
                Some(action) => {
                    &&& old(self)@.contains_key(name@)
                    &&& *action == old(self)@[name@]
                    &&& final(self)@ == old(self)@.insert(name@, *final(action))
                },
                None => !old(self)@.contains_key(name@) && final(self)@ == old(self)@,
            },
    {
        proof {
            use_type_invariant(&*self);
        }
        match position(&self.names, name) {
            Some(i) => {
                proof {
                    let names = self.names@;
                    let actions = self.actions@;
                    assert forall|action: A|
                        map_of(names, #[trigger] actions.update(i as int, action)) == map_of(
                            names,
                            actions,
                        ).insert(name@, action) by {
                        lemma_map_of_update(names, actions, i as int, action);
                    }
                    lemma_map_of_update(names, actions, i as int, actions[i as int]);
                }
                Some(&mut self.actions[i])
            },
            None => None,
        }
    }
}

/// What a key press comes to: the action that is registered under the name
/// that the key is bound to, if there is one.
pub open spec fn target<A>(bindings: Map<Key, String>, actions: Map<Seq<char>, A>, key: Key) -> Option<A> {
    if bindings.contains_key(key) && actions.contains_key(bindings[key]@) {
        Some(actions[bindings[key]@])
    } else {
        None
    }
}

/// Executes the action that `key` is bound to. A key that is not bound, or
/// bound to a name under which nothing is registered, is passed over: that
/// is no failure, and the store stays as it is. A failure of the action is
/// handed on, with the store as it was before the key was pressed.
pub fn dispatch<A: Action>(
    bindings: &KeyMap<String>,
    actions: &mut Actions<A>,
    key: Key,
    state: &mut State,
) -> (result: Result<(), Error>)
    ensures
        match target(bindings@, old(actions)@, key) {
            Some(action) => action.effects(old(state).model(), effect_of(final(state), result)),
            None => result is Ok && final(state)@ == old(state)@ && final(actions)@ == old(actions)@,
        },
        result is Err ==> final(state)@ == old(state)@,
        final(actions)@.dom() == old(actions)@.dom(),
{
    match bindings.get(key) {
        Some(name) => match actions.get_mut(name.as_str()) {
            Some(action) => {
                assert(old(actions)@.insert(name@, *final(action)).dom() =~= old(actions)@.dom());
                action.execute(state)
            },
            None => Ok(()),
        },
        None => Ok(()),
    }
}

} // verus!

//! The actions of the dashboard and the keys that they are bound to.

use crate::dashboard::keys::Key;
use vstd::prelude::*;

verus! {

/// What a key asks of the dashboard.
#[derive(Clone, Copy, Debug, PartialEq, Eq, Structural)]
pub enum Action {
    Exit,
    MenuStatus,
    MenuIssues,
    MenuPatches,
    BrowseUp,
    BrowseDown,
    Unknown,
}

/// The bindings of the dashboard, in the order in which they are looked up.
pub open spec fn default_entries() -> Seq<(Key, Action)> {
    seq![
        (Key::Char('q'), Action::Exit),
        (Key::Char('1'), Action::MenuStatus),
        (Key::Char('2'), Action::MenuIssues),
        (Key::Char('3'), Action::MenuPatches),
        (Key::Up, Action::BrowseUp),
        (Key::Down, Action::BrowseDown),
    ]
}

/// The action that `key` is bound to: `q` exits, `1` to `3` choose a menu
/// entry, the arrows browse; any other key is bound to `Unknown`.
pub open spec fn bound_action(key: Key) -> Action {
    match key {
        Key::Char(c) => if c == 'q' {
            Action::Exit
        } else if c == '1' {
            Action::MenuStatus
        } else if c == '2' {
            Action::MenuIssues
        } else if c == '3' {
            Action::MenuPatches
        } else {
            Action::Unknown
        },
        Key::Up => Action::BrowseUp,
        Key::Down => Action::BrowseDown,
        Key::Unknown => Action::Unknown,
    }
}

/// The table of bindings.
#[derive(Debug)]
pub struct Bindings {
    map: Vec<(Key, Action)>,
}

impl Bindings {
    #[verifier::type_invariant]
    spec fn is_default(&self) -> bool {
        self.map@ == default_entries()
    }

    /// The bindings that the table holds.
    pub closed spec fn entries(&self) -> Seq<(Key, Action)> {
        self.map@
    }

    /// The bindings of the dashboard.
    pub fn new() -> (bindings: Bindings)
        ensures
            bindings.entries() == default_entries(),
    {
        let mut map: Vec<(Key, Action)> = Vec::new();
        map.push((Key::Char('q'), Action::Exit));
        map.push((Key::Char('1'), Action::MenuStatus));
        map.push((Key::Char('2'), Action::MenuIssues));
        map.push((Key::Char('3'), Action::MenuPatches));
        map.push((Key::Up, Action::BrowseUp));
        map.push((Key::Down, Action::BrowseDown));
        assert(map@ =~= default_entries());
        Bindings { map }
    }

    /// The action that `key` is bound to.
    pub fn get(&self, key: Key) -> (action: Action)
        ensures
            action == bound_action(key),
    {
        proof {
            use_type_invariant(self);
        }
        let mut i: usize = 0;
        while i < self.map.len()
            invariant
                i <= self.map@.len(),
                self.map@ == default_entries(),
                forall|j: int| 0 <= j < i ==> self.map@[j].0 != key,
            decreases self.map.len() - i,
        {
            if self.map[i].0 == key {
                return self.map[i].1;
            }
            i += 1;
        }
        proof {
            assert(self.map@[0].0 != key);
            assert(self.map@[1].0 != key);
            assert(self.map@[2].0 != key);
            assert(self.map@[3].0 != key);
            assert(self.map@[4].0 != key);
            assert(self.map@[5].0 != key);
        }
        Action::Unknown
    }
}

} // verus!

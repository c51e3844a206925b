//! Key bindings: which action a key triggers.

use crate::input::AppKey;
use std::collections::HashMap;
use vstd::prelude::*;
use vstd::set_lib::lemma_map_size;

verus! {

/// What a key binding can trigger.
#[derive(Debug, Clone, Copy, PartialEq, Eq, Hash, Structural)]
pub enum Action {
    /// Quit the application.
    Quit,
    /// Move focus to the other window.
    ToggleFocus,
    /// Move focus to the next window.
    FocusNext,
    /// Move focus to the previous window.
    FocusPrev,
    /// The key is handled, and nothing happens.
    Noop,
}

/// The first table index above every character's scalar value.
const FIRST_NAMED_CODE: u32 = 0x11_0000;

/// The table index of a key. A character key is stored under its scalar
/// value, the named keys follow after the last character.
spec fn key_code(key: AppKey) -> u32 {
    match key {
        AppKey::Char(c) => c as u32,
        AppKey::Q => FIRST_NAMED_CODE,
        AppKey::Esc => (FIRST_NAMED_CODE + 1) as u32,
        AppKey::Tab => (FIRST_NAMED_CODE + 2) as u32,
        AppKey::Up => (FIRST_NAMED_CODE + 3) as u32,
        AppKey::Down => (FIRST_NAMED_CODE + 4) as u32,
        AppKey::Left => (FIRST_NAMED_CODE + 5) as u32,
        AppKey::Right => (FIRST_NAMED_CODE + 6) as u32,
        AppKey::Enter => (FIRST_NAMED_CODE + 7) as u32,
        AppKey::Backspace => (FIRST_NAMED_CODE + 8) as u32,
        AppKey::Other => (FIRST_NAMED_CODE + 9) as u32,
    }
}

/// The key stored under a table index; the inverse of [`key_code`] on the
/// indices that it produces.
spec fn key_at(code: u32) -> AppKey {
    if code < FIRST_NAMED_CODE {
        AppKey::Char(code as char)
    } else if code == FIRST_NAMED_CODE {
        AppKey::Q
    } else if code == FIRST_NAMED_CODE + 1 {
        AppKey::Esc
    } else if code == FIRST_NAMED_CODE + 2 {
        AppKey::Tab
    } else if code == FIRST_NAMED_CODE + 3 {
        AppKey::Up
    } else if code == FIRST_NAMED_CODE + 4 {
        AppKey::Down
    } else if code == FIRST_NAMED_CODE + 5 {
        AppKey::Left
    } else if code == FIRST_NAMED_CODE + 6 {
        AppKey::Right
    } else if code == FIRST_NAMED_CODE + 7 {
        AppKey::Enter
    } else if code == FIRST_NAMED_CODE + 8 {
        AppKey::Backspace
    } else {
        AppKey::Other
    }
}

/// Whether a table index is the index of some key.
spec fn is_key_code(code: u32) -> bool {
    key_code(key_at(code)) == code
}

/// Distinct keys have distinct table indices.
proof fn lemma_key_code_injective(a: AppKey, b: AppKey)
    ensures
        key_at(key_code(a)) == a,
        is_key_code(key_code(a)),
        key_code(a) == key_code(b) <==> a == b,
{
}

fn code_of(key: AppKey) -> (code: u32)
    ensures
        code == key_code(key),
{
    match key {
        AppKey::Char(c) => c as u32,
        AppKey::Q => FIRST_NAMED_CODE,
        AppKey::Esc => FIRST_NAMED_CODE + 1,
        AppKey::Tab => FIRST_NAMED_CODE + 2,
        AppKey::Up => FIRST_NAMED_CODE + 3,
        AppKey::Down => FIRST_NAMED_CODE + 4,
        AppKey::Left => FIRST_NAMED_CODE + 5,
        AppKey::Right => FIRST_NAMED_CODE + 6,
        AppKey::Enter => FIRST_NAMED_CODE + 7,
        AppKey::Backspace => FIRST_NAMED_CODE + 8,
        AppKey::Other => FIRST_NAMED_CODE + 9,
    }
}

/// A set of key bindings: a finite map from keys to actions.
pub struct Bindings {
    table: HashMap<u32, Action>,
}

impl View for Bindings {
    type V = Map<AppKey, Action>;

    closed spec fn view(&self) -> Map<AppKey, Action> {
        Map::new(
            |key: AppKey| self.table@.contains_key(key_code(key)),
            |key: AppKey| self.table@[key_code(key)],
        )
    }
}

impl Bindings {
    #[verifier::type_invariant]
    spec fn well_formed(self) -> bool {
        forall|code: u32| #[trigger] self.table@.contains_key(code) ==> is_key_code(code)
    }

    /// A set without bindings.
    pub fn new() -> (bindings: Self)
        ensures
            bindings@ == Map::<AppKey, Action>::empty(),
    {
        Bindings { table: HashMap::new() }
    }

    /// The number of keys that are bound.
    pub fn len(&self) -> (count: usize)
        ensures
            self@.dom().finite(),
            count == self@.len(),
    {
        proof {
            use_type_invariant(self);
            broadcast use vstd::std_specs::hash::group_hash_axioms;
            let codes = self.table@.dom();
            let decode = |code: u32| key_at(code);
            assert(codes.map(decode) =~= self@.dom());
            lemma_map_size(codes, self@.dom(), decode);
        }
        self.table.len()
    }

    /// The action bound to a key, if there is one.
    pub fn get(&self, key: &AppKey) -> (action: Option<&Action>)
        ensures
            action == if self@.contains_key(*key) {
                Some(&self@[*key])
            } else {
                None
            },
    {
        proof {
            broadcast use vstd::std_specs::hash::group_hash_axioms;
        }
        let code: u32 = code_of(*key);
        self.table.get(&code)
    }

    /// Whether a key is bound.
    pub fn contains_key(&self, key: &AppKey) -> (bound: bool)
        ensures
            bound == self@.contains_key(*key),
    {
        proof {
            broadcast use vstd::std_specs::hash::group_hash_axioms;
        }
        let code: u32 = code_of(*key);
        self.table.contains_key(&code)
    }

    fn insert(&mut self, key: AppKey, action: Action)
        ensures
            final(self)@ == old(self)@.insert(key, action),
    {
        proof {
            use_type_invariant(&*self);
            broadcast use vstd::std_specs::hash::group_hash_axioms;
            lemma_key_code_injective(key, key);
        }
        let code: u32 = code_of(key);
        let mut table = HashMap::new();
        std::mem::swap(&mut table, &mut self.table);
        table.insert(code, action);
        self.table = table;
    }

    fn remove(&mut self, key: AppKey) -> (removed: Option<Action>)
        ensures
            final(self)@ == old(self)@.remove(key),
            removed == if old(self)@.contains_key(key) {
                Some(old(self)@[key])
            } else {
                None
            },
    {
        proof {
            use_type_invariant(&*self);
            broadcast use vstd::std_specs::hash::group_hash_axioms;
        }
        let code: u32 = code_of(key);
        let mut table = HashMap::new();
        std::mem::swap(&mut table, &mut self.table);
        let removed = table.remove(&code);
        self.table = table;
        removed
    }
}

/// The bindings that a new router starts with: `Q` and `Esc` quit, `Tab`
/// toggles the focus.
pub open spec fn default_bindings() -> Map<AppKey, Action> {
    Map::<AppKey, Action>::empty().insert(AppKey::Q, Action::Quit).insert(
        AppKey::Esc,
        Action::Quit,
    ).insert(AppKey::Tab, Action::ToggleFocus)
}

/// Routes key presses to actions. Its global bindings are active whichever
/// window has the focus.
pub struct KeybindingRouter {
    global: Bindings,
}

impl View for KeybindingRouter {
    type V = Map<AppKey, Action>;

    closed spec fn view(&self) -> Map<AppKey, Action> {
        self.global@
    }
}

impl KeybindingRouter {
    /// A router with the default bindings.
    pub fn new() -> (router: Self)
        ensures
            router@ == default_bindings(),
    {
        let mut router = Self::empty();
        router.register_global(AppKey::Q, Action::Quit);
        router.register_global(AppKey::Esc, Action::Quit);
        router.register_global(AppKey::Tab, Action::ToggleFocus);
        router
    }

    /// A router without bindings.
    pub fn empty() -> (router: Self)
        ensures
            router@ == Map::<AppKey, Action>::empty(),
    {
        KeybindingRouter { global: Bindings::new() }
    }

    /// Binds a key to an action. A binding that the key had before is
    /// replaced.
    pub fn register_global(&mut self, key: AppKey, action: Action)
        ensures
            final(self)@ == old(self)@.insert(key, action),
    {
        self.global.insert(key, action);
    }

    /// Removes the binding of a key and returns the action that it had, if
    /// it had one.
    pub fn unregister_global(&mut self, key: AppKey) -> (removed: Option<Action>)
        ensures
            final(self)@ == old(self)@.remove(key),
            removed == if old(self)@.contains_key(key) {
                Some(old(self)@[key])
            } else {
                None
            },
    {
        self.global.remove(key)
    }

    /// The action that a key press triggers: the one bound to the key, or
    /// nothing where the key is not bound.
    pub fn dispatch(&self, key: AppKey) -> (action: Option<Action>)
        ensures
            action == if self@.contains_key(key) {
                Some(self@[key])
            } else {
                None
            },
    {
        match self.global.get(&key) {
            Some(action) => Some(*action),
            None => None,
        }
    }

    /// Whether a key has a global binding.
    pub fn is_globally_bound(&self, key: AppKey) -> (bound: bool)
        ensures
            bound == self@.contains_key(key),
    {
        self.global.contains_key(&key)
    }

    /// All global bindings.
    pub fn global_bindings(&self) -> (bindings: &Bindings)
        ensures
            bindings@ == self@,
    {
        &self.global
    }
}

impl Default for KeybindingRouter {
    fn default() -> (router: Self)
        ensures
            router@ == default_bindings(),
    {
        Self::new()
    }
}

} // verus!

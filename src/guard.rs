//! The held-key guard: a key kept down fires its action once, on the first
//! press, and only a release of that key arms it again.
use std::collections::HashMap;
use vstd::prelude::*;

verus! {

broadcast use vstd::std_specs::hash::group_hash_axioms;

/// A key with no entry counts as not held.
pub open spec fn is_held(m: Map<u64, bool>, code: u64) -> bool {
    m.contains_key(code) && m[code]
}

/// A press of `code`: whether it may fire its action, and the map after it.
/// Either way the key is held afterwards.
pub open spec fn press_model(m: Map<u64, bool>, code: u64) -> (Map<u64, bool>, bool) {
    (m.insert(code, true), !is_held(m, code))
}

/// A release of `code`: the key is no longer held.
pub open spec fn release_model(m: Map<u64, bool>, code: u64) -> Map<u64, bool> {
    m.insert(code, false)
}

/// Which key codes are held down, as last observed.
pub struct HeldKeys {
    held: HashMap<u64, bool>,
}

impl View for HeldKeys {
    type V = Map<u64, bool>;

    closed spec fn view(&self) -> Map<u64, bool> {
        self.held@
    }
}

impl HeldKeys {
    pub fn new() -> (r: HeldKeys)
        ensures
            r@ == Map::<u64, bool>::empty(),
    {
        HeldKeys { held: HashMap::new() }
    }

    pub fn insert_key_is_held_value(&mut self, code: u64, value: bool)
        ensures
            final(self)@ == old(self)@.insert(code, value),
    {
        self.held.insert(code, value);
    }

    pub fn get_key_is_held_value(&self, code: u64) -> (r: bool)
        ensures
            r == is_held(self@, code),
    {
        match self.held.get(&code) {
            Some(v) => *v,
            None => false,
        }
    }

    pub fn key_held_contains(&self, code: u64) -> (r: bool)
        ensures
            r == self@.contains_key(code),
    {
        self.held.contains_key(&code)
    }

    /// Whether `code` is held; a key seen for the first time gets an entry
    /// that says it is not.
    pub fn check_key_held(&mut self, code: u64) -> (r: bool)
        ensures
            r == is_held(old(self)@, code),
            final(self)@ == if old(self)@.contains_key(code) {
                old(self)@
            } else {
                old(self)@.insert(code, false)
            },
    {
        if !self.key_held_contains(code) {
            self.insert_key_is_held_value(code, false);
            return false;
        }
        self.get_key_is_held_value(code)
    }

    /// Records a press of `code`; true when the press may fire its action,
    /// that is when the key was not already held.
    pub fn press(&mut self, code: u64) -> (allowed: bool)
        ensures
            (final(self)@, allowed) == press_model(old(self)@, code),
    {
        if self.check_key_held(code) {
            proof {
                assert(self@ =~= old(self)@.insert(code, true));
            }
            return false;
        }
        self.insert_key_is_held_value(code, true);
        proof {
            assert(self@ =~= old(self)@.insert(code, true));
        }
        true
    }

    /// Records a release of `code`.
    pub fn release(&mut self, code: u64)
        ensures
            final(self)@ == release_model(old(self)@, code),
    {
        self.insert_key_is_held_value(code, false);
    }
}

/// A press of a key that is held fires nothing and changes nothing.
pub proof fn lemma_held_press_suppressed(m: Map<u64, bool>, code: u64)
    requires
        is_held(m, code),
    ensures
        !press_model(m, code).1,
        press_model(m, code).0 == m,
{
    assert(m.insert(code, true) =~= m);
}

/// After a press the key is held, so every further press is suppressed
/// until a release; one release of the key is enough to arm it again,
/// and a release of another key is not.
pub proof fn lemma_one_release_rearms(m: Map<u64, bool>, code: u64, other: u64)
    requires
        other != code,
    ensures
        is_held(press_model(m, code).0, code),
        !press_model(press_model(m, code).0, code).1,
        !press_model(release_model(press_model(m, code).0, other), code).1,
        press_model(release_model(press_model(m, code).0, code), code).1,
{
}

} // verus!

use std::collections::HashMap;
use vstd::prelude::*;
use vstd::std_specs::hash::*;

verus! {

broadcast use vstd::std_specs::hash::group_hash_axioms;

/// A key of the keyboard, by its code.
pub type KeyCode = u32;

/// One keyboard event as it arrived between two ticks.
#[derive(Clone, Copy, Debug, PartialEq, Eq, Structural)]
pub enum KeyInput {
    KeyDown(KeyCode),
    KeyUp(KeyCode),
}

/// The state of the keyboard within a tick.
pub struct KeyStates {
    /// The keys that are held down.
    pub held: Set<KeyCode>,
    /// The keys that went down during this tick.
    pub down: Set<KeyCode>,
    /// The keys that came up during this tick.
    pub up: Set<KeyCode>,
}

impl KeyStates {
    /// The state after one more event. A key that is already held does not
    /// go down again, and a key that is not held does not come up.
    pub open spec fn applied(self, input: KeyInput) -> KeyStates {
        match input {
            KeyInput::KeyDown(key) => if self.held.contains(key) {
                self
            } else {
                KeyStates { held: self.held.insert(key), down: self.down.insert(key), up: self.up }
            },
            KeyInput::KeyUp(key) => if self.held.contains(key) {
                KeyStates { held: self.held.remove(key), down: self.down, up: self.up.insert(key) }
            } else {
                self
            },
        }
    }

    /// The state after a run of events, first to last.
    pub open spec fn applied_all(self, inputs: Seq<KeyInput>) -> KeyStates
        decreases inputs.len(),
    {
        if inputs.len() == 0 {
            self
        } else {
            self.applied_all(inputs.drop_last()).applied(inputs.last())
        }
    }
}

/// Collects keyboard events between ticks and keeps the state of the keys.
pub struct InputMap {
    /// For each key that has been seen: whether it is held, has gone down
    /// during this tick, has come up during this tick.
    key_states: HashMap<KeyCode, (bool, bool, bool)>,
    /// The keys that `key_states` has an entry for, to walk over them.
    known_keys: Vec<KeyCode>,
    buffered_inputs: Vec<KeyInput>,
}

impl InputMap {
    /// Every key that has a state is among the keys that are walked over
    /// at the end of a tick. This holds of a new map and is kept by every
    /// method.
    pub closed spec fn wf(&self) -> bool {
        forall|key: KeyCode|
            #[trigger] self.key_states@.contains_key(key) ==> self.known_keys@.contains(key)
    }

    /// The state of the keys as of the last tick that began. A key that has
    /// never been seen counts as neither held nor just gone down or come up.
    pub closed spec fn states(&self) -> KeyStates {
        KeyStates {
            held: Set::new(
                |key: KeyCode| self.key_states@.contains_key(key) && self.key_states@[key].0,
            ),
            down: Set::new(
                |key: KeyCode| self.key_states@.contains_key(key) && self.key_states@[key].1,
            ),
            up: Set::new(
                |key: KeyCode| self.key_states@.contains_key(key) && self.key_states@[key].2,
            ),
        }
    }

    /// The events that arrived since the last tick began, first to last.
    pub closed spec fn buffered(&self) -> Seq<KeyInput> {
        self.buffered_inputs@
    }

    /// No key is held and no event is waiting.
    pub fn new() -> (map: Self)
        ensures
            map.states().held == Set::<KeyCode>::empty(),
            map.states().down == Set::<KeyCode>::empty(),
            map.states().up == Set::<KeyCode>::empty(),
            map.buffered() == Seq::<KeyInput>::empty(),
            map.wf(),
    {
        InputMap {
            key_states: HashMap::new(),
            known_keys: Vec::new(),
            buffered_inputs: Vec::new(),
        }
    }

    /// Notes that `key` went down. The state changes when the next tick
    /// begins.
    pub fn buffer_keydown(&mut self, key: KeyCode)
        ensures
            final(self).states() == old(self).states(),
            final(self).buffered() == old(self).buffered().push(KeyInput::KeyDown(key)),
            old(self).wf() ==> final(self).wf(),
    {
        self.buffered_inputs.push(KeyInput::KeyDown(key));
    }

    /// Notes that `key` came up. The state changes when the next tick
    /// begins.
    pub fn buffer_keyup(&mut self, key: KeyCode)
        ensures
            final(self).states() == old(self).states(),
            final(self).buffered() == old(self).buffered().push(KeyInput::KeyUp(key)),
            old(self).wf() ==> final(self).wf(),
    {
        self.buffered_inputs.push(KeyInput::KeyUp(key));
    }

    fn apply_input(&mut self, input: KeyInput)
        ensures
            final(self).states() == old(self).states().applied(input),
            final(self).buffered() == old(self).buffered(),
            old(self).wf() ==> final(self).wf(),
    {
        let key = match input {
            KeyInput::KeyDown(k) => k,
            KeyInput::KeyUp(k) => k,
        };
        let seen = self.key_states.get(&key);
        let entry: (bool, bool, bool) = match seen {
            Some(state) => *state,
            None => (false, false, false),
        };
        let next: (bool, bool, bool) = match input {
            KeyInput::KeyDown(_) => {
                // Don't give a "key just pressed" if the key was already down
                if !entry.0 {
                    (true, true, entry.2)
                } else {
                    entry
                }
            },
            KeyInput::KeyUp(_) => {
                // Similarly here
                if entry.0 {
                    (false, entry.1, true)
                } else {
                    entry
                }
            },
        };
        let ghost earlier = self.known_keys@;
        if seen.is_none() {
            self.known_keys.push(key);
            assert(self.known_keys@.last() == key);
        }
        self.key_states.insert(key, next);
        proof {
            if old(self).wf() {
                assert forall|other: KeyCode|
                    self.key_states@.contains_key(other) implies self.known_keys@.contains(
                    other,
                ) by {
                    if other == key && !old(self).key_states@.contains_key(key) {
                        assert(self.known_keys@[self.known_keys@.len() - 1] == key);
                    } else {
                        assert(old(self).key_states@.contains_key(other));
                        assert(earlier.contains(other));
                        let j = choose|j: int| 0 <= j < earlier.len() && earlier[j] == other;
                        assert(self.known_keys@[j] == other);
                    }
                }
            }
            let before = old(self).states();
            let after = self.states();
            let want = before.applied(input);
            assert(after.held =~= want.held);
            assert(after.down =~= want.down);
            assert(after.up =~= want.up);
        }
    }

    /// To be called at the beginning of a tick: applies the waiting events
    /// in the order in which they arrived, and forgets them.
    pub fn begin_tick(&mut self)
        ensures
            final(self).states() == old(self).states().applied_all(old(self).buffered()),
            final(self).buffered() == Seq::<KeyInput>::empty(),
            old(self).wf() ==> final(self).wf(),
    {
        let mut i: usize = 0;
        assert(self.buffered().take(0) =~= Seq::<KeyInput>::empty());
        while i < self.buffered_inputs.len()
            invariant
                i <= self.buffered_inputs.len(),
                self.buffered() == old(self).buffered(),
                self.states() == old(self).states().applied_all(
                    old(self).buffered().take(i as int),
                ),
                old(self).wf() ==> self.wf(),
            decreases self.buffered_inputs.len() - i,
        {
            let input = self.buffered_inputs[i];
            proof {
                let inputs = old(self).buffered();
                assert(inputs.take(i as int + 1).drop_last() =~= inputs.take(i as int));
                assert(inputs.take(i as int + 1).last() == input);
            }
            self.apply_input(input);
            i += 1;
        }
        proof {
            assert(old(self).buffered().take(i as int) =~= old(self).buffered());
        }
        self.buffered_inputs.clear();
    }

    /// To be called at the end of a tick: no key counts as having just gone
    /// down or come up any more. Which keys are held stays.
    pub fn end_tick(&mut self)
        requires
            old(self).wf(),
        ensures
            final(self).states().held == old(self).states().held,
            final(self).states().down == Set::<KeyCode>::empty(),
            final(self).states().up == Set::<KeyCode>::empty(),
            final(self).buffered() == old(self).buffered(),
            final(self).wf(),
    {
        let mut i: usize = 0;
        while i < self.known_keys.len()
            invariant
                i <= self.known_keys.len(),
                self.known_keys@ == old(self).known_keys@,
                self.buffered_inputs@ == old(self).buffered_inputs@,
                self.key_states@.dom() == old(self).key_states@.dom(),
                forall|key: KeyCode|
                    #[trigger] self.key_states@.contains_key(key) ==> self.known_keys@.contains(
                        key,
                    ),
                forall|key: KeyCode|
                    self.key_states@.contains_key(key) ==> (#[trigger] self.key_states@[key]).0
                        == old(self).key_states@[key].0,
                forall|j: int|
                    0 <= j < i && self.key_states@.contains_key(#[trigger] self.known_keys@[j])
                        ==> !self.key_states@[self.known_keys@[j]].1
                        && !self.key_states@[self.known_keys@[j]].2,
            decreases self.known_keys.len() - i,
        {
            let key = self.known_keys[i];
            let held = match self.key_states.get(&key) {
                Some(state) => Some(state.0),
                None => None,
            };
            match held {
                Some(held) => {
                    self.key_states.insert(key, (held, false, false));
                    assert(self.key_states@.dom() =~= old(self).key_states@.dom());
                },
                None => {},
            }
            i += 1;
        }
        proof {
            assert forall|key: KeyCode| self.key_states@.contains_key(key) implies !(
            #[trigger] self.key_states@[key]).1 && !self.key_states@[key].2 by {
                assert(self.known_keys@.contains(key));
                let j = choose|j: int|
                    0 <= j < self.known_keys@.len() && self.known_keys@[j] == key;
                assert(self.known_keys@[j] == key);
            }
            assert(self.states().held =~= old(self).states().held);
            assert(self.states().down =~= Set::<KeyCode>::empty());
            assert(self.states().up =~= Set::<KeyCode>::empty());
        }
    }

    /// Whether `key` is held down.
    pub fn get_key_pressed(&self, key: KeyCode) -> (held: bool)
        ensures
            held == self.states().held.contains(key),
    {
        match self.key_states.get(&key) {
            Some(state) => state.0,
            None => false,
        }
    }

    /// Whether `key` went down during this tick.
    pub fn get_key_down(&self, key: KeyCode) -> (down: bool)
        ensures
            down == self.states().down.contains(key),
    {
        match self.key_states.get(&key) {
            Some(state) => state.1,
            None => false,
        }
    }

    /// Whether `key` came up during this tick.
    pub fn get_key_up(&self, key: KeyCode) -> (up: bool)
        ensures
            up == self.states().up.contains(key),
    {
        match self.key_states.get(&key) {
            Some(state) => state.2,
            None => false,
        }
    }
}

} // verus!

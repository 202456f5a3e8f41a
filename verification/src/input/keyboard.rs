use vstd::prelude::*;
use std::collections::HashSet;

use super::keys::{KeyCode, ESCAPE};
use super::{JoypadMapping, JoypadState, KeyEvent};

verus! {

broadcast use vstd::std_specs::hash::group_hash_axioms;

pub type JoypadKeyboardMapping = JoypadMapping<KeyCode>;

/// The keys of the keyboard that are held down.
pub struct Keyboards {
    pub pressed_keys: HashSet<KeyCode>,
}

/// The pressed keys after a key event; the escape key never counts as
/// pressed, since it opens and closes the main menu.
pub open spec fn spec_advance(pressed: Set<KeyCode>, event: KeyEvent) -> Set<KeyCode> {
    match event {
        KeyEvent::Pressed(key) => if key != ESCAPE { pressed.insert(key) } else { pressed },
        KeyEvent::Released(key) => if key != ESCAPE { pressed.remove(key) } else { pressed },
        KeyEvent::ModifiersChanged(_) => pressed,
    }
}

/// Pressing and releasing a key leaves the other keys as they were and the key
/// itself released.
pub proof fn lemma_press_release(pressed: Set<KeyCode>, key: KeyCode)
    ensures
        spec_advance(spec_advance(pressed, KeyEvent::Pressed(key)), KeyEvent::Released(key))
            == if key == ESCAPE { pressed } else { pressed.remove(key) },
{
    if key != ESCAPE {
        assert(pressed.insert(key).remove(key) =~= pressed.remove(key));
    }
}

/// Only presses and releases change the held keys: a press adds its key and a
/// release removes it (escape excepted), leaving every other key as it was,
/// and any other event leaves the held keys unchanged.
pub proof fn lemma_only_presses_and_releases_change_keys(pressed: Set<KeyCode>, event: KeyEvent, other: KeyCode)
    ensures
        event is ModifiersChanged ==> spec_advance(pressed, event) == pressed,
        (event matches KeyEvent::Pressed(k) && k != other) ==> (spec_advance(pressed, event).contains(other)
            == pressed.contains(other)),
        (event matches KeyEvent::Released(k) && k != other) ==> (spec_advance(pressed, event).contains(other)
            == pressed.contains(other)),
        event == KeyEvent::Pressed(other) && other != ESCAPE ==> spec_advance(pressed, event).contains(other),
        event == KeyEvent::Released(other) && other != ESCAPE ==> !spec_advance(pressed, event).contains(other),
        spec_advance(pressed, event).contains(ESCAPE) == pressed.contains(ESCAPE),
{
}

impl Keyboards {
    pub fn new() -> (k: Self)
        ensures
            k.pressed_keys@ == Set::<KeyCode>::empty(),
    {
        Keyboards { pressed_keys: HashSet::new() }
    }

    pub fn advance(&mut self, key_event: &KeyEvent)
        ensures
            final(self).pressed_keys@ == spec_advance(old(self).pressed_keys@, *key_event),
    {
        match key_event {
            KeyEvent::Pressed(key) => {
                if *key != ESCAPE {
                    self.pressed_keys.insert(*key);
                }
            },
            KeyEvent::Released(key) => {
                if *key != ESCAPE {
                    self.pressed_keys.remove(key);
                }
            },
            KeyEvent::ModifiersChanged(_) => {},
        }
    }

    pub fn get_joypad(&mut self, mapping: &JoypadKeyboardMapping) -> (state: JoypadState)
        ensures
            state.0 == mapping.spec_state(old(self).pressed_keys@),
            final(self).pressed_keys@ == old(self).pressed_keys@,
    {
        mapping.calculate_state(&self.pressed_keys)
    }
}

} // verus!

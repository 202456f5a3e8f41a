use vstd::prelude::*;

use super::gamepad::JoypadGamepadMapping;
use super::{is_connected, spec_is_connected, InputConfiguration, InputConfigurationKind, InputId};
use crate::MAX_PLAYERS;

verus! {

/// The input configurations the player knows of and the one selected for each player.
#[derive(Debug, Hash)]
pub struct InputSettings {
    pub selected: [InputId; MAX_PLAYERS],
    /// Each configuration under the identifier it is stored by.
    pub configurations: Vec<(InputId, InputConfiguration)>,
    pub default_gamepad_mapping: JoypadGamepadMapping,
}

/// Whether some stored configuration has the key `id`.
pub open spec fn has_key(configs: Seq<(InputId, InputConfiguration)>, id: Seq<char>) -> bool {
    exists|i: int| 0 <= i < configs.len() && #[trigger] configs[i].0@ == id
}

/// The index of the configuration stored under `id`.
pub open spec fn index_of(configs: Seq<(InputId, InputConfiguration)>, id: Seq<char>) -> int {
    choose|i: int| 0 <= i < configs.len() && #[trigger] configs[i].0@ == id
}

impl InputSettings {
    /// No two configurations are stored under the same identifier.
    pub open spec fn wf(&self) -> bool {
        forall|i: int, j: int|
            0 <= i < j < self.configurations@.len() ==> #[trigger] self.configurations@[i].0@
                != #[trigger] self.configurations@[j].0@
    }

    /// The configuration stored under `id`, if any.
    pub open spec fn configuration(&self, id: Seq<char>) -> Option<InputConfiguration> {
        if has_key(self.configurations@, id) {
            Some(self.configurations@[index_of(self.configurations@, id)].1)
        } else {
            None
        }
    }

    /// Finds the position of the configuration stored under `id`.
    pub fn find(&self, id: &InputId) -> (r: Option<usize>)
        requires
            self.wf(),
        ensures
            match r {
                Some(i) => i < self.configurations@.len() && self.configurations@[i as int].0@ == id@
                    && index_of(self.configurations@, id@) == i && has_key(self.configurations@, id@),
                None => !has_key(self.configurations@, id@),
            },
    {
        let n = self.configurations.len();
        let mut i: usize = 0;
        while i < n
            invariant
                self.wf(),
                n == self.configurations@.len(),
                i <= n,
                forall|j: int| 0 <= j < i ==> self.configurations@[j].0@ != id@,
            decreases n - i,
        {
            if self.configurations[i].0 == *id {
                proof {
                    let k = index_of(self.configurations@, id@);
                    assert(self.configurations@[i as int].0@ == id@);
                    assert(0 <= k < n && self.configurations@[k].0@ == id@);
                    if k < i {
                    } else if k > i {
                        assert(self.configurations@[i as int].0@ != self.configurations@[k].0@);
                    }
                }
                return Some(i);
            }
            i = i + 1;
        }
        None
    }

    /// The configuration stored under `id`, stored first as `default` when
    /// there is none.
    pub fn get_or_create_config(&mut self, id: InputId, default: InputConfiguration) -> (conf: &InputConfiguration)
        requires
            old(self).wf(),
        ensures
            final(self).wf(),
            final(self).selected == old(self).selected,
            final(self).default_gamepad_mapping == old(self).default_gamepad_mapping,
            old(self).configuration(id@) matches Some(c) ==> *conf == c
                && final(self).configurations@ == old(self).configurations@,
            old(self).configuration(id@) is None ==> *conf == default
                && final(self).configurations@ == old(self).configurations@.push((id, default)),
            final(self).configuration(id@) == Some(*conf),
    {
        match self.find(&id) {
            Some(i) => &self.configurations[i].1,
            None => {
                let ghost old_configs = self.configurations@;
                self.configurations.push((id, default));
                proof {
                    let s = self.configurations@;
                    let last = (s.len() - 1) as int;
                    assert(s[last].0@ == id@);
                    assert forall|a: int, b: int| 0 <= a < b < s.len() implies #[trigger] s[a].0@ != #[trigger] s[b].0@ by {
                        if b == last {
                            assert(old_configs[a] == s[a]);
                            if s[a].0@ == id@ {
                                assert(has_key(old_configs, id@));
                            }
                        } else {
                            assert(old_configs[a] == s[a] && old_configs[b] == s[b]);
                        }
                    }
                    let k = index_of(s, id@);
                    assert(has_key(s, id@));
                    if k != last {
                        assert(s[k].0@ == s[last].0@);
                        if k < last {} else {}
                    }
                }
                let n = self.configurations.len();
                &self.configurations[n - 1].1
            },
        }
    }

    /// The configuration selected for player `idx`.
    pub fn selected_configuration(&self, idx: usize) -> (conf: &InputConfiguration)
        requires
            self.wf(),
            idx < MAX_PLAYERS,
            self.configuration(self.selected[idx as int]@) is Some,
        ensures
            Some(*conf) == self.configuration(self.selected[idx as int]@),
    {
        let i = self.find(&self.selected[idx]);
        match i {
            Some(i) => &self.configurations[i].1,
            None => {
                assert(false);
                &self.configurations[0].1
            },
        }
    }
    /// The configuration selected for player `idx`, to be changed in place.
    pub fn selected_configuration_mut(&mut self, idx: usize) -> (conf: &mut InputConfiguration)
        requires
            old(self).wf(),
            idx < MAX_PLAYERS,
            old(self).configuration(old(self).selected[idx as int]@) is Some,
        ensures
            Some(*conf) == old(self).configuration(old(self).selected[idx as int]@),
            final(self).selected == old(self).selected,
            final(self).default_gamepad_mapping == old(self).default_gamepad_mapping,
            final(self).configurations@ == old(self).configurations@.update(
                index_of(old(self).configurations@, old(self).selected[idx as int]@),
                (old(self).configurations@[index_of(old(self).configurations@, old(self).selected[idx as int]@)].0, *final(conf)),
            ),
    {
        let i = self.find(&self.selected[idx]);
        match i {
            Some(i) => &mut self.configurations[i].1,
            None => {
                assert(false);
                &mut self.configurations[0].1
            },
        }
    }
    /// Falls back to the default configuration for every player whose
    /// selected configuration is a game controller that is not connected.
    /// `connected_gamepads` are the identifiers of the connected controllers.
    pub fn reset_selected_disconnected_inputs(&mut self, connected_gamepads: &Vec<InputId>, defaults: &[InputId; MAX_PLAYERS])
        requires
            old(self).wf(),
            forall|p: int| 0 <= p < MAX_PLAYERS ==> #[trigger] old(self).configuration(old(self).selected[p]@) is Some,
        ensures
            final(self).configurations@ == old(self).configurations@,
            final(self).default_gamepad_mapping == old(self).default_gamepad_mapping,
            forall|p: int| 0 <= p < MAX_PLAYERS ==> #[trigger] final(self).selected[p]@ == if spec_is_connected(
                old(self).configuration(old(self).selected[p]@)->Some_0, connected_gamepads@) {
                old(self).selected[p]@
            } else {
                defaults[p]@
            },
    {
        let mut player: usize = 0;
        while player < MAX_PLAYERS
            invariant
                self.wf(),
                player <= MAX_PLAYERS,
                self.configurations@ == old(self).configurations@,
                self.default_gamepad_mapping == old(self).default_gamepad_mapping,
                forall|p: int| 0 <= p < MAX_PLAYERS ==> #[trigger] old(self).configuration(old(self).selected[p]@) is Some,
                forall|p: int| player <= p < MAX_PLAYERS ==> #[trigger] self.selected[p] == old(self).selected[p],
                forall|p: int| 0 <= p < player ==> #[trigger] self.selected[p]@ == if spec_is_connected(
                    old(self).configuration(old(self).selected[p]@)->Some_0, connected_gamepads@) {
                    old(self).selected[p]@
                } else {
                    defaults[p]@
                },
            decreases MAX_PLAYERS - player,
        {
            let connected = is_connected(self.selected_configuration(player), connected_gamepads);
            if !connected {
                self.selected[player] = defaults[player].clone();
            }
            player = player + 1;
        }
    }

    /// Selects a newly connected game controller, stored under `id`, for the
    /// first player that is on a keyboard, if any.
    pub fn select_added_gamepad(&mut self, id: InputId)
        requires
            old(self).wf(),
            old(self).configuration(old(self).selected[0]@) is Some,
            old(self).configuration(old(self).selected[0]@)->Some_0.kind is Gamepad
                ==> old(self).configuration(old(self).selected[1]@) is Some,
        ensures
            final(self).configurations@ == old(self).configurations@,
            final(self).default_gamepad_mapping == old(self).default_gamepad_mapping,
            if old(self).configuration(old(self).selected[0]@)->Some_0.kind is Keyboard {
                final(self).selected[0] == id && final(self).selected[1] == old(self).selected[1]
            } else if old(self).configuration(old(self).selected[1]@)->Some_0.kind is Keyboard {
                final(self).selected[0] == old(self).selected[0] && final(self).selected[1] == id
            } else {
                final(self).selected == old(self).selected
            },
    {
        let first_is_keyboard = match self.selected_configuration(0).kind {
            InputConfigurationKind::Keyboard(_) => true,
            InputConfigurationKind::Gamepad(_) => false,
        };
        if first_is_keyboard {
            self.selected[0] = id;
        } else {
            let second_is_keyboard = match self.selected_configuration(1).kind {
                InputConfigurationKind::Keyboard(_) => true,
                InputConfigurationKind::Gamepad(_) => false,
            };
            if second_is_keyboard {
                self.selected[1] = id;
            }
        }
    }
}

} // verus!

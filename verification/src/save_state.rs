use vstd::prelude::*;

use base64::engine::general_purpose::STANDARD_NO_PAD;
use base64::{DecodeError, Engine};

use crate::emulation::is_sram_snapshot_frame;
use crate::input::keys::{KeyCode, F1, F2};

verus! {

#[verifier::external_type_specification]
#[verifier::external_body]
pub struct ExDecodeError(DecodeError);

/// The text that standard base64 without padding makes of `data`.
pub uninterp spec fn base64_no_pad(data: Seq<u8>) -> Seq<char>;

/// The bytes that standard base64 without padding reads from `text`, if it is
/// well-formed.
pub uninterp spec fn base64_no_pad_decoded(text: Seq<char>) -> Option<Seq<u8>>;

/// `base64::Engine::encode` with `STANDARD_NO_PAD`: the base64 text of
/// `data`, with no padding, so of length ceil(4n/3) for n bytes.
#[verifier::external_body]
fn encode_base64(data: &[u8]) -> (text: String)
    requires
        data@.len() * 4 <= usize::MAX,
    ensures
        text@ == base64_no_pad(data@),
        text@.len() == (4 * data@.len() + 2) / 3,
{
    STANDARD_NO_PAD.encode(data)
}

/// `base64::Engine::decode` with `STANDARD_NO_PAD`: the bytes the text
/// encodes, or an error for text that is not canonical unpadded base64. The
/// text that encoding makes of some bytes decodes to exactly those bytes.
#[verifier::external_body]
fn decode_base64(text: &str) -> (r: Result<Vec<u8>, DecodeError>)
    ensures
        r matches Ok(bytes) ==> base64_no_pad_decoded(text@) == Some(bytes@),
        r is Err ==> base64_no_pad_decoded(text@) is None,
        forall|data: Seq<u8>| #[trigger] base64_no_pad(data) == text@ ==> (r is Ok && r->Ok_0@ == data),
{
    STANDARD_NO_PAD.decode(text)
}

/// Why stored state could not be read back.
#[derive(Debug, Clone, Copy, PartialEq, Eq, Structural)]
pub enum SaveStateError {
    /// The stored text is not unpadded standard base64.
    NotBase64,
}

/// A keyboard shortcut for save states.
#[derive(Debug, Clone, Copy, PartialEq, Eq, Structural)]
pub enum SaveStateHotkey {
    /// F1: remember the current state of the game.
    Save,
    /// F2: go back to the remembered state.
    Load,
}

/// The save-state shortcut of a key, if it is one.
pub fn save_state_hotkey(key: KeyCode) -> (hotkey: Option<SaveStateHotkey>)
    ensures
        hotkey == if key == F1 {
            Some(SaveStateHotkey::Save)
        } else if key == F2 {
            Some(SaveStateHotkey::Load)
        } else {
            None
        },
{
    if key == F1 {
        Some(SaveStateHotkey::Save)
    } else if key == F2 {
        Some(SaveStateHotkey::Load)
    } else {
        None
    }
}

/// Remembers the state of the game, if the emulator gave one, as base64 text
/// in the settings; says whether it did (and the settings then need saving).
pub fn remember_save_state(last_save_state: &mut Option<String>, state: Option<&[u8]>) -> (saved: bool)
    requires
        state matches Some(s) ==> s@.len() * 4 <= usize::MAX,
    ensures
        saved == state is Some,
        match state {
            Some(s) => *final(last_save_state) matches Some(text) && text@ == base64_no_pad(s@),
            None => *final(last_save_state) == *old(last_save_state),
        },
{
    match state {
        Some(s) => {
            *last_save_state = Some(encode_base64(s));
            true
        },
        None => false,
    }
}

/// The remembered state of the game to go back to: the bytes of the stored
/// base64 text, if there is text and it is well-formed. Text that
/// [`remember_save_state`] stored gives back exactly the state it was made of.
pub fn save_state_to_load(last_save_state: &Option<String>) -> (state: Option<Vec<u8>>)
    ensures
        match *last_save_state {
            Some(text) => match base64_no_pad_decoded(text@) {
                Some(bytes) => state matches Some(s) && s@ == bytes,
                None => state is None,
            },
            None => state is None,
        },
        forall|data: Seq<u8>| #[trigger] base64_no_pad(data) == last_save_state->Some_0@ && last_save_state is Some
            ==> (state is Some && state->Some_0@ == data),
{
    match last_save_state {
        Some(text) => match decode_base64(text.as_str()) {
            Ok(bytes) => Some(bytes),
            Err(_) => None,
        },
        None => None,
    }
}

/// The battery-backed RAM to store, as base64 text, on this frame: on every
/// snapshot frame, for games that have such RAM.
pub fn sram_snapshot(frame: u32, sram: Option<&[u8]>) -> (text: Option<String>)
    requires
        sram matches Some(s) ==> s@.len() * 4 <= usize::MAX,
    ensures
        match sram {
            Some(s) => if is_snapshot_frame(frame) {
                text matches Some(t) && t@ == base64_no_pad(s@)
            } else {
                text is None
            },
            None => text is None,
        },
{
    match sram {
        Some(s) => if is_sram_snapshot_frame(frame) {
            Some(encode_base64(s))
        } else {
            None
        },
        None => None,
    }
}

pub open spec fn is_snapshot_frame(frame: u32) -> bool {
    frame % crate::emulation::SRAM_SNAPSHOT_INTERVAL_FRAMES == 0
}

/// The battery-backed RAM to restore when a game starts: when restoring was
/// asked for, the game has such RAM and the settings store some. Stored text
/// that is not base64 gives an error.
pub fn sram_to_load(load_sram: bool, battery_backed: bool, stored: &Option<String>) -> (r: Option<Result<Vec<u8>, SaveStateError>>)
    ensures
        !(load_sram && battery_backed && stored is Some) ==> r is None,
        load_sram && battery_backed && stored is Some ==> match base64_no_pad_decoded(stored->Some_0@) {
            Some(bytes) => r matches Some(Ok(s)) && s@ == bytes,
            None => r == Some(Err::<Vec<u8>, SaveStateError>(SaveStateError::NotBase64)),
        },
        forall|data: Seq<u8>| load_sram && battery_backed && stored is Some
            && #[trigger] base64_no_pad(data) == stored->Some_0@ ==> (r is Some && r->Some_0 is Ok
            && r->Some_0->Ok_0@ == data),
{
    if load_sram && battery_backed {
        match stored {
            Some(text) => match decode_base64(text.as_str()) {
                Ok(sram) => Some(Ok(sram)),
                Err(_) => Some(Err(SaveStateError::NotBase64)),
            },
            None => None,
        }
    } else {
        None
    }
}

} // verus!

use std::sync::atomic::AtomicU8;

use nes_bundler::emulation::shared::{read_input_states, write_input_states, SharedEmulatorState};
use nes_bundler::emulation::{copy_frame_with_palette, is_sram_snapshot_frame, NESVideoFrame, NES_HEIGHT, NES_WIDTH, NES_WIDTH_4_3};
use nes_bundler::input::JoypadState;

#[test]
fn nes_dimensions() {
    assert_eq!(NES_WIDTH, 256);
    assert_eq!(NES_HEIGHT, 240);
    assert_eq!(NES_WIDTH_4_3, 341);
    assert_eq!(NESVideoFrame::SIZE, 256 * 240 * 4);
}

#[test]
fn new_frame_is_opaque_black() {
    let frame = NESVideoFrame::new();
    assert_eq!(frame.0.len(), NESVideoFrame::SIZE);
    for (i, b) in frame.0.iter().enumerate() {
        assert_eq!(*b, if i % 4 == 3 { 255 } else { 0 });
    }
    let default = NESVideoFrame::default();
    assert_eq!(default.0, frame.0);
}

#[test]
fn palette_colours_fill_rgb_and_keep_alpha() {
    let palette: Vec<u8> = vec![10, 11, 12, 20, 21, 22, 30, 31, 32];
    let frame_buffer: Vec<u16> = vec![2, 0, 1];
    let mut video = vec![7u8; 16];
    copy_frame_with_palette(&frame_buffer, &palette, &mut video);
    assert_eq!(video, vec![30, 31, 32, 7, 10, 11, 12, 7, 20, 21, 22, 7, 7, 7, 7, 7]);
}

#[test]
fn sram_snapshot_every_hundred_frames() {
    assert!(is_sram_snapshot_frame(0));
    assert!(is_sram_snapshot_frame(300));
    assert!(!is_sram_snapshot_frame(101));
}

#[test]
fn shared_state_round_trips() {
    let shared = SharedEmulatorState::new();
    assert_eq!(shared.frame(), 0);
    shared.set_frame(17);
    assert_eq!(shared.frame(), 17);
    let inputs = [AtomicU8::new(0), AtomicU8::new(0)];
    write_input_states(&inputs, [JoypadState(3), JoypadState(128)]);
    let read = read_input_states(&inputs);
    assert_eq!(read[0].0, 3);
    assert_eq!(read[1].0, 128);
}

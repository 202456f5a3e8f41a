use std::collections::HashSet;

use nes_bundler::input::buttons::GamepadButton;
use nes_bundler::input::gamepad::{
    first_pressed, gamepad_joypad, new_gamepad_configuration, to_gamepad_id, GamepadButtons,
};
use nes_bundler::input::keyboard::Keyboards;
use nes_bundler::input::keys::{ARROW_DOWN, ARROW_LEFT, ARROW_UP, DIGIT1, DIGIT2, ENTER, ESCAPE, SHIFT_RIGHT};
use nes_bundler::input::settings::InputSettings;
use nes_bundler::input::{
    is_connected, joypad_for_configuration, remap_configuration, InputConfiguration, InputConfigurationKind,
    JoypadButton, JoypadMapping, JoypadState, KeyEvent, MapRequest, MappingKey, ToInputId,
};

fn keyboard_mapping() -> JoypadMapping<u32> {
    JoypadMapping {
        up: Some(ARROW_UP),
        down: Some(ARROW_DOWN),
        left: Some(ARROW_LEFT),
        right: None,
        start: Some(ENTER),
        select: Some(SHIFT_RIGHT),
        b: Some(DIGIT1),
        a: Some(DIGIT2),
    }
}

fn gamepad_mapping() -> JoypadMapping<GamepadButton> {
    JoypadMapping {
        up: Some(GamepadButton::DPadUp),
        down: Some(GamepadButton::DPadDown),
        left: Some(GamepadButton::DPadLeft),
        right: Some(GamepadButton::DPadRight),
        start: Some(GamepadButton::Start),
        select: Some(GamepadButton::Back),
        b: Some(GamepadButton::West),
        a: Some(GamepadButton::South),
    }
}

fn keyboard_conf(id: &str) -> InputConfiguration {
    InputConfiguration { id: id.to_string(), name: format!("Keyboard {id}"), kind: InputConfigurationKind::Keyboard(keyboard_mapping()) }
}

fn gamepad_conf(id: &str) -> InputConfiguration {
    InputConfiguration { id: id.to_string(), name: format!("Gamepad {id}"), kind: InputConfigurationKind::Gamepad(gamepad_mapping()) }
}

fn settings() -> InputSettings {
    InputSettings {
        selected: ["kb1".to_string(), "kb2".to_string()],
        configurations: vec![
            ("kb1".to_string(), keyboard_conf("kb1")),
            ("kb2".to_string(), keyboard_conf("kb2")),
            ("pad".to_string(), gamepad_conf("pad")),
        ],
        default_gamepad_mapping: gamepad_mapping(),
    }
}

#[test]
fn joypad_masks_follow_nes_bit_order() {
    assert_eq!(JoypadButton::A.mask(), 0b0000_0001);
    assert_eq!(JoypadButton::B.mask(), 0b0000_0010);
    assert_eq!(JoypadButton::Select.mask(), 0b0000_0100);
    assert_eq!(JoypadButton::Start.mask(), 0b0000_1000);
    assert_eq!(JoypadButton::Up.mask(), 0b0001_0000);
    assert_eq!(JoypadButton::Down.mask(), 0b0010_0000);
    assert_eq!(JoypadButton::Left.mask(), 0b0100_0000);
    assert_eq!(JoypadButton::Right.mask(), 0b1000_0000);
}

#[test]
fn joypad_state_is_pressed() {
    let state = JoypadState(0b1001_0001);
    assert!(state.is_pressed(JoypadButton::A));
    assert!(state.is_pressed(JoypadButton::Up));
    assert!(state.is_pressed(JoypadButton::Right));
    assert!(!state.is_pressed(JoypadButton::B));
    assert!(!state.is_pressed(JoypadButton::Start));
}

#[test]
fn calculate_state_sets_bits_of_pressed_bound_keys() {
    let mapping = keyboard_mapping();
    let pressed: HashSet<u32> = [ARROW_UP, DIGIT2, 999].into_iter().collect();
    let state = mapping.calculate_state(&pressed);
    assert_eq!(state.0, 0b0001_0001);
}

#[test]
fn calculate_state_key_bound_twice_sets_both_bits() {
    let mut mapping = keyboard_mapping();
    mapping.set_binding(&JoypadButton::B, Some(DIGIT2));
    let pressed: HashSet<u32> = [DIGIT2].into_iter().collect();
    assert_eq!(mapping.calculate_state(&pressed).0, 0b0000_0011);
}

#[test]
fn lookup_and_set_binding() {
    let mut mapping = keyboard_mapping();
    assert_eq!(mapping.binding(&JoypadButton::Right), None);
    mapping.set_binding(&JoypadButton::Right, Some(77));
    assert_eq!(mapping.binding(&JoypadButton::Right), Some(77));
    assert_eq!(mapping.binding(&JoypadButton::Up), Some(ARROW_UP));
    *mapping.lookup(&JoypadButton::Start) = Some(5);
    assert_eq!(mapping.binding(&JoypadButton::Start), Some(5));
    assert_eq!(*mapping.lookup(&JoypadButton::Select), Some(SHIFT_RIGHT));
}

#[test]
fn keyboards_track_pressed_keys_but_never_escape() {
    let mut keyboards = Keyboards::new();
    keyboards.advance(&KeyEvent::Pressed(ARROW_UP));
    keyboards.advance(&KeyEvent::Pressed(ESCAPE));
    assert!(keyboards.pressed_keys.contains(&ARROW_UP));
    assert!(!keyboards.pressed_keys.contains(&ESCAPE));
    let state = keyboards.get_joypad(&keyboard_mapping());
    assert_eq!(state.0, 0b0001_0000);
    keyboards.advance(&KeyEvent::Released(ARROW_UP));
    assert!(keyboards.pressed_keys.is_empty());
    assert_eq!(keyboards.get_joypad(&keyboard_mapping()).0, 0);
}

#[test]
fn gamepad_button_codes_round_trip() {
    for code in 0..25u32 {
        let button = GamepadButton::from_code(code).unwrap();
        assert_eq!(button.code(), code);
    }
    assert_eq!(GamepadButton::from_code(25), None);
    assert_eq!(GamepadButton::South.code(), 0);
    assert_eq!(GamepadButton::Misc5.code(), 24);
}

#[test]
fn gamepad_button_labels() {
    assert_eq!(GamepadButton::DPadUp.label(), "Up");
    assert_eq!(GamepadButton::LeftShoulder.label(), "Shoulder Left");
    assert_eq!(GamepadButton::RightStick.label(), "Stick Right");
    assert_eq!(GamepadButton::Guide.label(), "Guide");
    assert_eq!(GamepadButton::Misc3.label(), "Misc3");
}

#[test]
fn gamepad_buttons_toggle() {
    let mut pad = GamepadButtons::new();
    pad.toogle_button(&GamepadButton::South, true);
    pad.toogle_button(&GamepadButton::DPadUp, true);
    assert_eq!(pad.get_pressed_buttons().len(), 2);
    pad.toogle_button(&GamepadButton::South, false);
    assert!(pad.get_pressed_buttons().contains(&GamepadButton::DPadUp.code()));
    assert!(!pad.get_pressed_buttons().contains(&GamepadButton::South.code()));
    assert_eq!(gamepad_joypad(Some(pad.get_pressed_buttons()), &gamepad_mapping()).0, 0b0001_0000);
    assert_eq!(gamepad_joypad(None, &gamepad_mapping()).0, 0);
}

#[test]
fn first_pressed_picks_a_pressed_code() {
    let empty: HashSet<u32> = HashSet::new();
    assert_eq!(first_pressed(&empty), None);
    let pressed: HashSet<u32> = [4, 9].into_iter().collect();
    let k = first_pressed(&pressed).unwrap();
    assert!(k == 4 || k == 9);
}

#[test]
fn get_or_create_config_keeps_existing() {
    let mut s = settings();
    let conf = s.get_or_create_config("kb1".to_string(), gamepad_conf("other"));
    assert_eq!(conf.name, "Keyboard kb1");
    assert_eq!(s.configurations.len(), 3);
}

#[test]
fn get_or_create_config_creates_missing() {
    let mut s = settings();
    let conf = s.get_or_create_config("new".to_string(), gamepad_conf("new"));
    assert_eq!(conf.name, "Gamepad new");
    assert_eq!(s.configurations.len(), 4);
    let again = s.get_or_create_config("new".to_string(), keyboard_conf("x"));
    assert_eq!(again.name, "Gamepad new");
    assert_eq!(s.configurations.len(), 4);
}

#[test]
fn selected_configurations() {
    let mut s = settings();
    assert_eq!(s.selected_configuration(1).id, "kb2");
    s.selected_configuration_mut(0).name = "Renamed".to_string();
    assert_eq!(s.selected_configuration(0).name, "Renamed");
    assert_eq!(s.configurations[0].1.name, "Renamed");
}

#[test]
fn is_connected_for_keyboards_and_gamepads() {
    assert!(is_connected(&keyboard_conf("kb1"), &vec![]));
    assert!(!is_connected(&gamepad_conf("pad"), &vec!["other".to_string()]));
    assert!(is_connected(&gamepad_conf("pad"), &vec!["x".to_string(), "pad".to_string()]));
}

#[test]
fn reset_selected_disconnected_inputs_falls_back_to_defaults() {
    let mut s = settings();
    s.selected = ["pad".to_string(), "kb2".to_string()];
    let defaults = ["kb1".to_string(), "kb1".to_string()];
    s.reset_selected_disconnected_inputs(&vec!["pad".to_string()], &defaults);
    assert_eq!(s.selected, ["pad".to_string(), "kb2".to_string()]);
    s.reset_selected_disconnected_inputs(&vec![], &defaults);
    assert_eq!(s.selected, ["kb1".to_string(), "kb2".to_string()]);
}

#[test]
fn select_added_gamepad_replaces_first_keyboard() {
    let mut s = settings();
    s.select_added_gamepad("pad".to_string());
    assert_eq!(s.selected, ["pad".to_string(), "kb2".to_string()]);
    s.select_added_gamepad("pad".to_string());
    assert_eq!(s.selected, ["pad".to_string(), "pad".to_string()]);
    s.select_added_gamepad("kb1".to_string());
    assert_eq!(s.selected, ["pad".to_string(), "pad".to_string()]);
}

#[test]
fn remap_keyboard_binds_held_key_and_clears_request() {
    let mut s = settings();
    let mut request = Some(MapRequest { input_id: "kb1".to_string(), button: JoypadButton::Right });
    let nothing: HashSet<u32> = HashSet::new();
    remap_configuration(&mut request, &mut s, &nothing, None);
    assert!(request.is_some());
    let held: HashSet<u32> = [42].into_iter().collect();
    remap_configuration(&mut request, &mut s, &held, None);
    assert!(request.is_none());
    match &s.selected_configuration(0).kind {
        InputConfigurationKind::Keyboard(m) => assert_eq!(m.binding(&JoypadButton::Right), Some(42)),
        _ => panic!("keyboard expected"),
    }
}

#[test]
fn remap_gamepad_binds_held_button() {
    let mut s = settings();
    let mut request = Some(MapRequest { input_id: "pad".to_string(), button: JoypadButton::A });
    let keys: HashSet<u32> = [42].into_iter().collect();
    remap_configuration(&mut request, &mut s, &keys, None);
    assert!(request.is_some());
    let buttons: HashSet<u32> = [GamepadButton::North.code()].into_iter().collect();
    remap_configuration(&mut request, &mut s, &keys, Some(&buttons));
    assert!(request.is_none());
    match &s.configurations[2].1.kind {
        InputConfigurationKind::Gamepad(m) => assert_eq!(m.binding(&JoypadButton::A), Some(GamepadButton::North)),
        _ => panic!("gamepad expected"),
    }
}

#[test]
fn remap_unknown_configuration_changes_nothing() {
    let mut s = settings();
    let mut request = Some(MapRequest { input_id: "missing".to_string(), button: JoypadButton::A });
    let held: HashSet<u32> = [42].into_iter().collect();
    remap_configuration(&mut request, &mut s, &held, None);
    assert!(request.is_some());
}

#[test]
fn joypad_for_configuration_uses_the_device() {
    let keys: HashSet<u32> = [DIGIT1].into_iter().collect();
    let buttons: HashSet<u32> = [GamepadButton::Start.code()].into_iter().collect();
    assert_eq!(joypad_for_configuration(&keyboard_conf("k"), &keys, Some(&buttons)).0, 0b0000_0010);
    assert_eq!(joypad_for_configuration(&gamepad_conf("p"), &keys, Some(&buttons)).0, 0b0000_1000);
    assert_eq!(joypad_for_configuration(&gamepad_conf("p"), &keys, None).0, 0);
}

#[test]
fn gamepad_identifiers() {
    assert_eq!(to_gamepad_id(&"3".to_string()), "01-gamepad-3");
    let conf = new_gamepad_configuration(&"3".to_string(), gamepad_mapping());
    assert_eq!(conf.id, "01-gamepad-3");
    assert_eq!(conf.name, "\u{1F3AE} Gamepad 3");
    assert_eq!(7u32.to_input_id(), "7");
    assert_eq!(1234u32.to_input_id(), "1234");
    assert_eq!(0u32.to_input_id(), "0");
    assert_eq!(10u32.to_input_id(), "10");
    assert_eq!(u32::MAX.to_input_id(), "4294967295");
}

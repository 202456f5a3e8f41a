use nes_bundler::input::buttons::GamepadButton;
use nes_bundler::input::gamepad::GamepadEvent;
use nes_bundler::main_view::gui::{MainMenuState, MenuInput, MenuOutcome};
use nes_bundler::main_view::{gamepad_gui_event, to_egui_event, to_egui_key, NavKey};

fn quiet() -> MenuInput {
    MenuInput {
        escape_pressed: false,
        back_clicked: false,
        emulator_item_clicked: false,
        settings_clicked: false,
        quit_clicked: false,
        region_changed: false,
        close_clicked: false,
        emulator_navigation: None,
    }
}

fn outcome(state: MainMenuState, exit_requested: bool, reset_requested: bool) -> MenuOutcome {
    MenuOutcome { state, exit_requested, reset_requested }
}

#[test]
fn escape_opens_and_closes_the_menu() {
    let esc = MenuInput { escape_pressed: true, ..quiet() };
    assert_eq!(MainMenuState::Closed.navigate(true, &esc), outcome(MainMenuState::Main, false, false));
    assert_eq!(MainMenuState::Main.navigate(true, &esc), outcome(MainMenuState::Closed, false, false));
    assert_eq!(MainMenuState::Settings.navigate(true, &esc), outcome(MainMenuState::Main, false, false));
    assert_eq!(MainMenuState::Netplay.navigate(true, &esc), outcome(MainMenuState::Netplay, false, false));
}

#[test]
fn main_page_buttons() {
    let back = MenuInput { back_clicked: true, ..quiet() };
    assert_eq!(MainMenuState::Main.navigate(true, &back), outcome(MainMenuState::Closed, false, false));
    let netplay = MenuInput { emulator_item_clicked: true, ..quiet() };
    assert_eq!(MainMenuState::Main.navigate(true, &netplay), outcome(MainMenuState::Netplay, false, false));
    assert_eq!(MainMenuState::Main.navigate(false, &netplay), outcome(MainMenuState::Main, false, false));
    let settings = MenuInput { settings_clicked: true, ..quiet() };
    assert_eq!(MainMenuState::Main.navigate(true, &settings), outcome(MainMenuState::Settings, false, false));
    let quit = MenuInput { quit_clicked: true, ..quiet() };
    assert_eq!(MainMenuState::Main.navigate(true, &quit), outcome(MainMenuState::Main, true, false));
}

#[test]
fn settings_page() {
    let region = MenuInput { region_changed: true, ..quiet() };
    assert_eq!(MainMenuState::Settings.navigate(true, &region), outcome(MainMenuState::Settings, false, true));
    let close = MenuInput { close_clicked: true, ..quiet() };
    assert_eq!(MainMenuState::Settings.navigate(true, &close), outcome(MainMenuState::Main, false, false));
}

#[test]
fn emulator_page_navigates() {
    let nav = MenuInput { emulator_navigation: Some(MainMenuState::Closed), ..quiet() };
    assert_eq!(MainMenuState::Netplay.navigate(true, &nav), outcome(MainMenuState::Closed, false, false));
    assert_eq!(MainMenuState::Netplay.navigate(false, &nav), outcome(MainMenuState::Netplay, false, false));
}

#[test]
fn closed_menu_ignores_clicks() {
    let clicks = MenuInput { quit_clicked: true, settings_clicked: true, region_changed: true, ..quiet() };
    assert_eq!(MainMenuState::Closed.navigate(true, &clicks), outcome(MainMenuState::Closed, false, false));
    assert!(!MainMenuState::Closed.visible());
    assert!(MainMenuState::Settings.visible());
}

#[test]
fn gamepad_steers_the_menu() {
    assert_eq!(to_egui_key(&GamepadButton::DPadUp), Some(NavKey::ArrowUp));
    assert_eq!(to_egui_key(&GamepadButton::South), Some(NavKey::Enter));
    assert_eq!(to_egui_key(&GamepadButton::Guide), Some(NavKey::Escape));
    assert_eq!(to_egui_key(&GamepadButton::North), None);
    let down = GamepadEvent::ButtonDown { which: "1".to_string(), button: GamepadButton::DPadLeft };
    assert_eq!(to_egui_event(&down), Some((NavKey::ArrowLeft, true)));
    assert_eq!(gamepad_gui_event(&down, true), Some((NavKey::ArrowLeft, true)));
    assert_eq!(gamepad_gui_event(&down, false), None);
    let guide_up = GamepadEvent::ButtonUp { which: "1".to_string(), button: GamepadButton::Guide };
    assert_eq!(gamepad_gui_event(&guide_up, false), Some((NavKey::Escape, false)));
    let added = GamepadEvent::ControllerAdded { which: "1".to_string() };
    assert_eq!(gamepad_gui_event(&added, true), None);
}

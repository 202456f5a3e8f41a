use vstd::prelude::*;

use crate::input::gamepad::GamepadEvent;
use crate::input::KeyEvent;

verus! {

/// Converts a platform event into a [`GuiEvent`].
pub trait ToGuiEvent {
    /// Convert the struct to a GuiEvent
    fn to_gui_event(&self) -> Option<GuiEvent>;
}

/// An input event the user interface handles.
#[derive(Clone, Debug)]
pub enum GuiEvent {
    Keyboard(KeyEvent),
    Gamepad(GamepadEvent),
}

/// Which page of the main menu is shown, if any.
#[derive(Debug, Clone, Copy, PartialEq, Eq, Structural)]
pub enum MainMenuState {
    Closed,
    Main,
    Settings,
    Netplay,
}

/// What the player did in the menu during one frame of the user interface.
#[derive(Debug, Clone, Copy)]
pub struct MenuInput {
    /// The escape key went down (it is taken by the first check that looks at it).
    pub escape_pressed: bool,
    /// "BACK" on the main page was clicked.
    pub back_clicked: bool,
    /// The emulator's entry on the main page was clicked.
    pub emulator_item_clicked: bool,
    /// "SETTINGS" on the main page was clicked.
    pub settings_clicked: bool,
    /// "QUIT GAME" on the main page was clicked.
    pub quit_clicked: bool,
    /// Another NES region was picked on the settings page.
    pub region_changed: bool,
    /// "Close" on the settings page was clicked.
    pub close_clicked: bool,
    /// The page the emulator's own page asked for, if any.
    pub emulator_navigation: Option<MainMenuState>,
}

/// The result of one frame of the menu.
#[derive(Debug, Clone, Copy, PartialEq, Eq, Structural)]
pub struct MenuOutcome {
    pub state: MainMenuState,
    /// The player asked to quit the game.
    pub exit_requested: bool,
    /// The emulator has to restart (hard reset) since the NES region changed.
    pub reset_requested: bool,
}

impl MainMenuState {
    /// Whether any menu page is shown.
    pub open spec fn spec_visible(self) -> bool {
        self != MainMenuState::Closed
    }

    pub fn visible(&self) -> (r: bool)
        ensures
            r == self.spec_visible(),
    {
        match self {
            MainMenuState::Closed => false,
            _ => true,
        }
    }

    /// The menu after one frame: escape opens the closed menu; on the main page
    /// "BACK" or escape closes it, the emulator entry leads to its page and
    /// "SETTINGS" to the settings, "QUIT GAME" asks to quit; on the settings
    /// page "Close" or escape goes back to the main page and a changed region
    /// asks for a reset; the emulator's page may send the menu anywhere. The
    /// emulator entry and page exist only when `has_emulator_page`.
    pub open spec fn spec_navigate(self, has_emulator_page: bool, input: MenuInput) -> MenuOutcome {
        let opened = self == MainMenuState::Closed && input.escape_pressed;
        let escape_left = input.escape_pressed && !opened;
        let state = if opened { MainMenuState::Main } else { self };
        match state {
            MainMenuState::Main => {
                let s1 = if input.back_clicked || escape_left { MainMenuState::Closed } else { state };
                let s2 = if has_emulator_page && input.emulator_item_clicked { MainMenuState::Netplay } else { s1 };
                let s3 = if input.settings_clicked { MainMenuState::Settings } else { s2 };
                MenuOutcome { state: s3, exit_requested: input.quit_clicked, reset_requested: false }
            },
            MainMenuState::Settings => MenuOutcome {
                state: if input.close_clicked || escape_left { MainMenuState::Main } else { state },
                exit_requested: false,
                reset_requested: input.region_changed,
            },
            MainMenuState::Netplay => MenuOutcome {
                state: if has_emulator_page && input.emulator_navigation is Some {
                    input.emulator_navigation->Some_0
                } else {
                    state
                },
                exit_requested: false,
                reset_requested: false,
            },
            MainMenuState::Closed => MenuOutcome { state, exit_requested: false, reset_requested: false },
        }
    }

    /// The menu after one frame of the user interface; see [`Self::spec_navigate`].
    pub fn navigate(&self, has_emulator_page: bool, input: &MenuInput) -> (outcome: MenuOutcome)
        ensures
            outcome == self.spec_navigate(has_emulator_page, *input),
    {
        let mut state = *self;
        let mut escape_left = input.escape_pressed;
        if !state.visible() && escape_left {
            escape_left = false;
            state = MainMenuState::Main;
        }
        let mut exit_requested = false;
        let mut reset_requested = false;
        match state {
            MainMenuState::Main => {
                if input.back_clicked || escape_left {
                    state = MainMenuState::Closed;
                }
                if has_emulator_page && input.emulator_item_clicked {
                    state = MainMenuState::Netplay;
                }
                if input.settings_clicked {
                    state = MainMenuState::Settings;
                }
                if input.quit_clicked {
                    exit_requested = true;
                }
            },
            MainMenuState::Settings => {
                if input.region_changed {
                    reset_requested = true;
                }
                if input.close_clicked || escape_left {
                    state = MainMenuState::Main;
                }
            },
            MainMenuState::Netplay => {
                if has_emulator_page {
                    if let Some(new_state) = input.emulator_navigation {
                        state = new_state;
                    }
                }
            },
            MainMenuState::Closed => {},
        }
        MenuOutcome { state, exit_requested, reset_requested }
    }
}

/// A frame in which nothing but the escape key happens.
pub open spec fn escape_only() -> MenuInput {
    MenuInput {
        escape_pressed: true,
        back_clicked: false,
        emulator_item_clicked: false,
        settings_clicked: false,
        quit_clicked: false,
        region_changed: false,
        close_clicked: false,
        emulator_navigation: None,
    }
}

/// The escape key alone opens the closed menu, closes it from its main page
/// and goes back to the main page from the settings.
pub proof fn lemma_escape_toggles(has_emulator_page: bool)
    ensures
        MainMenuState::Closed.spec_navigate(has_emulator_page, escape_only()).state == MainMenuState::Main,
        MainMenuState::Main.spec_navigate(has_emulator_page, escape_only()).state == MainMenuState::Closed,
        MainMenuState::Settings.spec_navigate(has_emulator_page, escape_only()).state == MainMenuState::Main,
{
}

/// Only "QUIT GAME" on the main page asks to quit, and only a region change on
/// the settings page asks for a reset; while the menu stays closed nothing
/// is asked at all.
pub proof fn lemma_requests_come_from_their_page(state: MainMenuState, has_emulator_page: bool, input: MenuInput)
    ensures
        state.spec_navigate(has_emulator_page, input).exit_requested ==> input.quit_clicked
            && (state == MainMenuState::Main || (state == MainMenuState::Closed && input.escape_pressed)),
        state.spec_navigate(has_emulator_page, input).reset_requested ==> input.region_changed
            && state == MainMenuState::Settings,
        state == MainMenuState::Closed && !input.escape_pressed ==> state.spec_navigate(has_emulator_page, input)
            == (MenuOutcome { state: MainMenuState::Closed, exit_requested: false, reset_requested: false }),
{
}

} // verus!

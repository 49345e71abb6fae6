//! Decisions of the game menu: which label each option carries and which
//! application state each option selects. Button trees, hover styling and
//! spawning are the host's concern.

use vstd::prelude::*;
use crate::ApplicationState;

verus! {

/// The options offered by the main menu.
#[derive(Debug, Clone, Copy, PartialEq, Eq, Structural)]
pub enum MenuOptions {
    Start,
    Resume,
    Exit,
}

/// The label the menu shows for one option.
pub fn menu_label(option: MenuOptions) -> (r: String)
    ensures
        option == MenuOptions::Start ==> r@ == "Start Game"@,
        option == MenuOptions::Resume ==> r@ == "Resume Game"@,
        option == MenuOptions::Exit ==> r@ == "Quit Game"@,
{
    match option {
        MenuOptions::Start => String::from_str("Start Game"),
        MenuOptions::Resume => String::from_str("Resume Game"),
        MenuOptions::Exit => String::from_str("Quit Game"),
    }
}

/// The application state a pressed menu option selects: starting loads a
/// fresh game, resuming returns to the running one, quitting exits.
pub fn interact_game_menu(option: MenuOptions) -> (r: ApplicationState)
    ensures
        option == MenuOptions::Start ==> r == ApplicationState::Loading,
        option == MenuOptions::Resume ==> r == ApplicationState::InGame,
        option == MenuOptions::Exit ==> r == ApplicationState::Exit,
{
    match option {
        MenuOptions::Start => ApplicationState::Loading,
        MenuOptions::Resume => ApplicationState::InGame,
        MenuOptions::Exit => ApplicationState::Exit,
    }
}

} // verus!

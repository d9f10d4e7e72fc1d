//! The phases of a session and the menu buttons that move between them.
use vstd::prelude::*;

verus! {

/// The phase a session is in.
#[derive(Clone, Copy, Debug, PartialEq, Eq, Structural)]
pub enum GameState {
    MainMenu,
    Playing,
    GameOver,
}

/// What a menu button does when pressed.
#[derive(Clone, Copy, Debug, PartialEq, Eq, Structural)]
pub enum MenuButtonAction {
    StartGame,
    RestartGame,
    BackToMainMenu,
}

impl MenuButtonAction {
    /// The phase this button leads to.
    pub open spec fn target_spec(self) -> GameState {
        match self {
            MenuButtonAction::StartGame => GameState::Playing,
            MenuButtonAction::RestartGame => GameState::Playing,
            MenuButtonAction::BackToMainMenu => GameState::MainMenu,
        }
    }
}

/// The phase to switch to after an interaction with a button: its target when
/// the button was pressed, none otherwise.
pub fn click_button(pressed: bool, action: MenuButtonAction) -> (r: Option<GameState>)
    ensures
        r == (if pressed { Some(action.target_spec()) } else { None::<GameState> }),
{
    if !pressed {
        return None;
    }
    match action {
        MenuButtonAction::StartGame => Some(GameState::Playing),
        MenuButtonAction::RestartGame => Some(GameState::Playing),
        MenuButtonAction::BackToMainMenu => Some(GameState::MainMenu),
    }
}

} // verus!

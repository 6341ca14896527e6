//! Main-menu button rules.
//!
//! Clicking a menu button either starts the game — moving the game
//! state to play and opening a combat encounter — or opens the link the
//! button carries. The decision is pure; the surrounding application
//! applies the state change or hands the link to the system browser.

use vstd::prelude::*;
use crate::states::{CombatState, GameState};
use crate::ui::UiInteraction;

verus! {

/// One button of the main menu.
#[derive(Clone, Copy, Debug, PartialEq, Eq, Structural)]
pub enum MainMenuButton {
    Play,
    Settings,
    Exit,
    Github,
    Bevy,
}

/// What a menu interaction asks the application to do.
#[derive(Clone, Copy, Debug, PartialEq)]
pub enum MenuCommand {
    /// Enter play: the game state and combat state to set.
    StartGame(GameState, CombatState),
    /// Open the link attached to the clicked button.
    OpenLink,
    /// Nothing to do.
    Ignore,
}

/// What clicking resolves to: only a press acts; the play button
/// starts the game, and the two link buttons open their link when one
/// is attached.
pub open spec fn spec_click(
    interaction: UiInteraction,
    button: MainMenuButton,
    has_link: bool,
) -> MenuCommand {
    if interaction != UiInteraction::Pressed {
        MenuCommand::Ignore
    } else {
        match button {
            MainMenuButton::Play => MenuCommand::StartGame(GameState::Playing, CombatState::In),
            MainMenuButton::Settings => MenuCommand::Ignore,
            MainMenuButton::Exit => MenuCommand::Ignore,
            MainMenuButton::Github => if has_link {
                MenuCommand::OpenLink
            } else {
                MenuCommand::Ignore
            },
            MainMenuButton::Bevy => if has_link {
                MenuCommand::OpenLink
            } else {
                MenuCommand::Ignore
            },
        }
    }
}

/// Resolve one interaction with a main-menu button. `has_link` says
/// whether the button carries a link to open.
pub fn click_ui_buttons(
    interaction: &UiInteraction,
    button: &MainMenuButton,
    has_link: bool,
) -> (r: MenuCommand)
    ensures
        r == spec_click(*interaction, *button, has_link),
{
    match interaction {
        UiInteraction::Pressed => match button {
            MainMenuButton::Play => MenuCommand::StartGame(GameState::Playing, CombatState::In),
            MainMenuButton::Settings => MenuCommand::Ignore,
            MainMenuButton::Exit => MenuCommand::Ignore,
            MainMenuButton::Github => if has_link {
                MenuCommand::OpenLink
            } else {
                MenuCommand::Ignore
            },
            MainMenuButton::Bevy => if has_link {
                MenuCommand::OpenLink
            } else {
                MenuCommand::Ignore
            },
        },
        UiInteraction::Hovered => MenuCommand::Ignore,
        UiInteraction::Idle => MenuCommand::Ignore,
    }
}

} // verus!

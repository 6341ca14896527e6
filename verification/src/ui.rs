//! UI widget styling rules and button bookkeeping.
//!
//! Buttons carry three colour roles — background, border, text — each a
//! palette entry per interaction phase. The rules here pick the entry
//! for a phase; turning a palette entry into device colour values is
//! the renderer's business. Combat buttons also flip between the two
//! frames of a texture atlas as their key is pressed and released.

use vstd::prelude::*;
use crate::actions::{spec_index, UiButtonAction};

verus! {

/// Where a parent UI node sits.
#[derive(Clone, Copy, Debug, PartialEq, Eq, Structural)]
pub enum UiParentNodePosition {
    Center,
}

/// The fixed colour palette of the game's UI.
#[derive(Clone, Copy, Debug, PartialEq, Eq, Structural)]
pub enum Palette {
    Black,
    Darker,
    Dark,
    Light,
    Lighter,
    White,
}

/// The interaction phase a button is in.
#[derive(Clone, Copy, Debug, PartialEq, Eq, Structural)]
pub enum UiInteraction {
    Pressed,
    Hovered,
    Idle,
}

/// Background palette entries, one per interaction phase.
#[derive(Clone, Copy, Debug, PartialEq, Eq, Structural)]
pub struct UiBackgroundColor {
    pub normal: Palette,
    pub hovered: Palette,
    pub pressed: Palette,
}

/// Border palette entries, one per interaction phase.
#[derive(Clone, Copy, Debug, PartialEq, Eq, Structural)]
pub struct UiBorderColor {
    pub normal: Palette,
    pub hovered: Palette,
    pub pressed: Palette,
}

/// Text palette entries, one per interaction phase.
#[derive(Clone, Copy, Debug, PartialEq, Eq, Structural)]
pub struct UiTextColor {
    pub normal: Palette,
    pub hovered: Palette,
    pub pressed: Palette,
}

/// The three palette entries a button shows in one phase.
#[derive(Clone, Copy, Debug, PartialEq, Eq, Structural)]
pub struct ButtonStyle {
    pub background: Palette,
    pub border: Palette,
    pub text: Palette,
}

/// Marks a combat button and names the row it sits in.
#[derive(Clone, Copy, Debug, PartialEq, Eq, Structural)]
pub struct UiButtonRow(pub usize);

/// A combat button component.
#[derive(Clone, Copy, Debug, PartialEq, Eq, Structural)]
pub struct UiButton(pub UiButtonRow);

impl Default for UiBackgroundColor {
    fn default() -> (c: Self)
        ensures
            c == (UiBackgroundColor {
                normal: Palette::Light,
                hovered: Palette::Lighter,
                pressed: Palette::Dark,
            }),
    {
        UiBackgroundColor {
            normal: Palette::Light,
            hovered: Palette::Lighter,
            pressed: Palette::Dark,
        }
    }
}

impl Default for UiBorderColor {
    fn default() -> (c: Self)
        ensures
            c == (UiBorderColor {
                normal: Palette::Black,
                hovered: Palette::Light,
                pressed: Palette::Darker,
            }),
    {
        UiBorderColor { normal: Palette::Black, hovered: Palette::Light, pressed: Palette::Darker }
    }
}

impl Default for UiTextColor {
    fn default() -> (c: Self)
        ensures
            c == (UiTextColor {
                normal: Palette::Black,
                hovered: Palette::Dark,
                pressed: Palette::Black,
            }),
    {
        UiTextColor { normal: Palette::Black, hovered: Palette::Dark, pressed: Palette::Black }
    }
}

/// The style a menu button shows in the given interaction phase,
/// assembled from the default colour roles.
pub fn button_style(interaction: &UiInteraction) -> (s: ButtonStyle)
    ensures
        *interaction == UiInteraction::Pressed ==> s == (ButtonStyle {
            background: Palette::Dark,
            border: Palette::Darker,
            text: Palette::Black,
        }),
        *interaction == UiInteraction::Hovered ==> s == (ButtonStyle {
            background: Palette::Lighter,
            border: Palette::Light,
            text: Palette::Dark,
        }),
        *interaction == UiInteraction::Idle ==> s == (ButtonStyle {
            background: Palette::Light,
            border: Palette::Black,
            text: Palette::Black,
        }),
{
    let background = UiBackgroundColor::default();
    let border = UiBorderColor::default();
    let text = UiTextColor::default();
    match interaction {
        UiInteraction::Pressed => ButtonStyle {
            background: background.pressed,
            border: border.pressed,
            text: text.pressed,
        },
        UiInteraction::Hovered => ButtonStyle {
            background: background.hovered,
            border: border.hovered,
            text: text.hovered,
        },
        UiInteraction::Idle => ButtonStyle {
            background: background.normal,
            border: border.normal,
            text: text.normal,
        },
    }
}

impl UiButton {
    /// Whether this button is the one the given action addresses.
    pub fn matches_action(&self, action: &UiButtonAction) -> (r: bool)
        ensures
            r == (self.0.0 == spec_index(*action)),
    {
        self.0.0 == action.index()
    }
}

/// The atlas frame a combat button shows once its key goes down: the
/// other of the two frames.
pub fn pressed_atlas_index(index: usize) -> (r: usize)
    requires
        index < usize::MAX,
    ensures
        r == (index + 1) % 2,
{
    (index + 1) % 2
}

/// The atlas frame a combat button shows once its key is released
/// again. The frame index must be positive: the release always follows
/// a press, which moved the index up.
pub fn released_atlas_index(index: usize) -> (r: usize)
    requires
        index >= 1,
    ensures
        r == (index - 1) % 2,
{
    (index - 1) % 2
}

} // verus!

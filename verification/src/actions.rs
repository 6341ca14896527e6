//! Logical input actions for the combat UI buttons.
//!
//! The four combat buttons are addressed by a logical action, decoupled
//! from physical keys; the physical mapping lives with the input layer.
//! Each action owns a fixed slot, used to pair it with the button row
//! spawned at the same position.

use vstd::prelude::*;

verus! {

/// One of the four combat UI buttons.
#[derive(Clone, Copy, Debug, PartialEq, Eq, Hash, Structural)]
pub enum UiButtonAction {
    One,
    Two,
    Three,
    Four,
}

/// The slot an action addresses.
pub open spec fn spec_index(a: UiButtonAction) -> int {
    match a {
        UiButtonAction::One => 0,
        UiButtonAction::Two => 1,
        UiButtonAction::Three => 2,
        UiButtonAction::Four => 3,
    }
}

impl UiButtonAction {
    /// All four actions, in slot order.
    pub fn array() -> (r: [UiButtonAction; 4])
        ensures
            r@ =~= seq![
                UiButtonAction::One,
                UiButtonAction::Two,
                UiButtonAction::Three,
                UiButtonAction::Four,
            ],
    {
        [UiButtonAction::One, UiButtonAction::Two, UiButtonAction::Three, UiButtonAction::Four]
    }

    /// The slot this action addresses.
    pub fn index(&self) -> (i: usize)
        ensures
            i == spec_index(*self),
            i < 4,
    {
        match self {
            UiButtonAction::One => 0,
            UiButtonAction::Two => 1,
            UiButtonAction::Three => 2,
            UiButtonAction::Four => 3,
        }
    }
}

/// Law: each action sits in `array` at its own slot, so addressing by
/// slot and by action agree.
pub proof fn lemma_index_names_slot(a: UiButtonAction)
    ensures
        seq![
            UiButtonAction::One,
            UiButtonAction::Two,
            UiButtonAction::Three,
            UiButtonAction::Four,
        ][spec_index(a)] == a,
{
}

} // verus!

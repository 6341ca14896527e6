//! Character statistics.
//!
//! A character carries one levelled stat per kind; the kinds are the
//! five abilities the combat rules draw on.

use vstd::prelude::*;

verus! {

/// One of the five ability kinds.
#[derive(Clone, Copy, Debug, PartialEq, Eq, Structural)]
pub enum StatKind {
    Constitution,
    Agility,
    Occult,
    Nature,
    Social,
}

/// One levelled ability of a character.
#[derive(Clone, Copy, Debug, PartialEq, Eq, Structural)]
pub struct CharacterStat {
    pub kind: StatKind,
    pub level: u8,
}

} // verus!

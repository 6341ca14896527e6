//! The player entity marker.
//!
//! The player is spawned once while the game loads; this marker is the
//! component that identifies that entity.

use vstd::prelude::*;

verus! {

/// Marks the one player entity.
#[derive(Clone, Copy, Debug, PartialEq, Eq, Structural)]
pub struct Player;

} // verus!

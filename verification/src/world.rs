//! The two world layers and the selector that names the active one.

use crate::change::Watched;
use vstd::prelude::*;

verus! {

/// The world layer that a piece of scenery belongs to.
#[derive(Clone, Copy, Debug, PartialEq, Eq, Structural)]
pub enum InWorld {
    /// The main world, where the game starts.
    W1Main,
    /// The second world.
    W2,
}

/// The active world layer, under change detection.
pub type CurrentWorld = Watched<InWorld>;

} // verus!

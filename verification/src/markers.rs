//! Marker components for specific properties of game entities.
//!
//! These carry the data of each marker; wiring them into an
//! entity-component store is the embedding application's concern.

use vstd::prelude::*;

verus! {

/// An entity that is unable to move until the given duration has elapsed.
#[derive(Debug, Clone, Copy, PartialEq, Eq, Structural)]
pub struct Wait {
    /// How long the entity must wait, in frames.
    pub duration: usize,
    /// How many frames of the wait have already passed.
    pub frames_elapsed: usize,
}

/// The keyboard controlled player. Only one entity should hold this at a
/// given time.
#[derive(Debug, Clone, Copy, PartialEq, Eq, Structural)]
pub struct KeyboardControlled;

/// The entity with this marker and a position is centered in the camera when
/// the scene is rendered. Only one entity should hold this at a given time.
#[derive(Debug, Clone, Copy, PartialEq, Eq, Structural)]
pub struct CameraFocus;

} // verus!

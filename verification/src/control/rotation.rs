//! Rotations that a controller asks its host to perform. Turning a camera by
//! an angle takes trigonometry, which this library leaves to the host: the
//! controller stops at the event, says which rotation it wants, and resumes
//! with the next event once the host has set the rotated view.

use vstd::prelude::*;
use crate::camera::CameraState;

verus! {

/// A rotation of the camera, in whole degrees.
#[derive(Clone, Copy, Debug, PartialEq, Eq, Structural)]
pub enum Rotation {
    /// Orbit about the target, first by `yaw` about the up axis and then by
    /// `pitch` about the right axis: the position moves on the sphere around
    /// the target and the target stays.
    Orbit { yaw: i64, pitch: i64 },
    /// Turn about the camera's own vertical axis: the position stays and the
    /// target moves.
    Turn { yaw: i64 },
}

/// Where a run over a batch of events ends: the state in which it leaves the
/// camera, the index of the first event it has not looked at, and the
/// rotation it stopped for, if any.
pub struct Outcome {
    pub camera: CameraState,
    pub next: int,
    pub rotation: Option<Rotation>,
}

/// How far a controller got through a batch of events.
#[derive(Clone, Copy, Debug, PartialEq, Eq, Structural)]
pub struct Progress {
    /// Whether the controller accepts the camera's projection.
    pub handled: bool,
    /// The index of the first event that has not been looked at yet.
    pub next: usize,
    /// The rotation that the event before `next` asks for, if the controller
    /// stopped for one.
    pub rotation: Option<Rotation>,
}

} // verus!

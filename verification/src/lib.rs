//! Interactive repositioning of a virtual-reality playspace: the tracking-origin
//! transform that maps physical room coordinates to the coordinates the runtime
//! reports to all virtual content.
//!
//! The library computes the next playspace transform and floor offset from the
//! per-frame gesture history; pushing the result to the runtime offset API and
//! polling controllers are left to the caller. All geometry is carried in
//! fixed-point scalars (see [`fixed`]) so that every arithmetic step has an
//! exact, machine-checked meaning.

pub mod fixed;
pub mod geom;
pub mod mover;
pub mod laws;

//! Motion-control core of a CNC / 3D-printer firmware.
//!
//! The library turns discrete move requests (a target displacement plus a
//! feed rate) into a queue of kinematic blocks, computes a trapezoidal
//! velocity profile for each block that respects speed continuity with the
//! previously queued block, and exposes the profile to a periodic
//! step-timing consumer that retires blocks step by step.
//!
//! All rates are whole numbers of steps per second and all step counts are
//! whole steps, so every derived quantity is pinned down exactly by the
//! contracts in this crate.

pub mod boards;
pub mod commandbuffer;
pub mod devices;
pub mod interrupts;
mod muldiv;
pub mod pins;
pub mod planner;

//! A verified character-control core for a keyboard-driven 3D character:
//! an input classifier, countdown timers, and the action state machine that
//! picks animation clips, locks out input while an action is in progress,
//! auto-reverts bounded actions to Idle, and rotates the facing direction
//! in discrete quarter turns synchronized to clip duration.
//!
//! Time is measured in whole milliseconds and angles in thousandths of a
//! degree, so every rule is exact. Each frame the host loop feeds key edges
//! and the frame's delta in, performs the emitted animation commands, and
//! renders the visual yaw the library reports.

pub mod action;
pub mod direction;
pub mod input;
pub mod machine;
pub mod timer;

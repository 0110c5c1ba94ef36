//! Control core of a Bluetooth HID remote: decoding of native input codes, the two-mode
//! dispatch state machine, callback registration slots, handle lifecycles
//! and the status screen layout.
use vstd::prelude::*;

pub mod bridge;
pub mod bt;
pub mod control;
pub mod gui;
pub mod lifecycle;
pub mod render;

verus! {

/// Failure of a foreign call: a null handle, or a radio action that
/// reported `false`.
#[derive(Debug, Clone, Copy, PartialEq, Eq, Structural)]
pub struct Error;

} // verus!

//! A verified core for a keyboard-and-mouse to virtual-gamepad translator.
//!
//! The library is a pure event-translation state machine: raw input events
//! (key presses, mouse buttons, relative mouse motion, timer expiries) go in,
//! and a sequence of virtual-controller commands (element writes, each
//! followed by a synchronization) comes out. All device, window and process
//! I/O lives outside the library, in a thin shell that executes the commands
//! the library emits.

pub mod cursor;
pub mod device;
pub mod elements;
pub mod mapping;
pub mod session;
pub mod shaper;
pub mod timer;

use vstd::prelude::*;

verus! {

} // verus!

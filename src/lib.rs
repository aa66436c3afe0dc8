//! The core of a CHIP-8 emulator: memory, display, stack and timers.
//!
//! Start with `machine::Machine`.
use vstd::prelude::*;

pub mod font;
pub mod machine;

//! A CHIP-8 interpreter core: the machine state, the meaning of each
//! instruction, and the fetch-decode-execute cycle, verified against a
//! mathematical model of the machine.
//!
//! `machine` and `sprite` hold the model, `chip8` the interpreter that is
//! proved to follow it, `laws` what holds of the model, and `input` and
//! `video` the parts of a front end that compute.

pub mod chip8;
pub mod input;
pub mod instruction;
pub mod laws;
pub mod machine;
pub mod sprite;
pub mod video;

pub use crate::chip8::{Chip8, LoadError};
pub use crate::instruction::{decode, Instruction};
pub use crate::machine::{Condition, CycleReport};

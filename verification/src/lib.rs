//! Build orchestration for native libraries: planning the acquisition of a
//! versioned source tree, driving a platform-appropriate toolchain as a
//! linear pipeline of external steps, locating the produced build artifacts,
//! and sanitizing the text encoding of generated headers.
//!
//! The library itself runs no external process and touches no file: it
//! decides, step by step, what the host must do next (which command to run,
//! which directory to check, which bytes to rewrite), and states in its
//! contracts exactly which decision every input leads to.

pub mod acquire;
pub mod artifacts;
pub mod config;
pub mod coordinator;
pub mod errors;
pub mod pathname;
pub mod sanitize;
pub mod toolchain;

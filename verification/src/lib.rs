//! Toolchain driver logic for embedded firmware work: the two-pass link,
//! cancellable supervision of external tools, debug sessions and log capture.
//!
//! Every decision the driver takes is a function from plain values to plain
//! values with a proved contract; starting processes, reading devices and
//! writing files is left to the program around this library.

pub mod cmd;
pub mod config;
pub mod linker;
pub mod log;
pub mod probe;
pub mod process;
pub mod session;
pub mod signal;
pub mod text;
pub mod utils;

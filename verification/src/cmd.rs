//! The commands, as far as they decide: what a command does with the
//! project's configuration before anything is started.

pub mod flash;
pub mod log;
pub mod reset;

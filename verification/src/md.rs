//! Implements platform-specific types.

pub mod macos;
pub mod unix;
pub mod windows;

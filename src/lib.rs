//! Reading a compiler toolchain's version and host triple out of command
//! output, deciding whether that version can be used, and the decisions of a
//! relay that feeds one command's output into another.

pub mod text;
pub mod search;
pub mod version;
pub mod relay;

//! Discovery and assembly of a native compiler build environment.
//!
//! The library holds the decisions: which installation wins, which SDK and
//! runtime versions are picked, and which directories and variables make up
//! the environment. Filesystem, registry and subprocess access stay with the
//! caller, who hands the library what it found as plain values.

pub mod arch;
pub mod text;
pub mod disk;
pub mod detect;
pub mod env;
pub mod format;
pub mod json;
pub mod registry;

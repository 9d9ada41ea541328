//! Files, directories and paths.

pub mod dir;
pub mod file;
pub mod ops;
pub mod path;
pub mod types;

//! System call interface: error codes, call numbers and reply decoding.

pub mod error;
pub mod numbers;

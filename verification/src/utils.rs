//! Small helpers around outside crates.
pub mod regex_utils;

//! Normalizes the loosely structured, multi-line textual diagnostics of
//! several static-analysis tools into one structured record format, and
//! annotates each record with the coding guidelines it violates.
#![verifier::loop_isolation(false)]

pub mod cli;
pub mod errors;
pub mod extract;
pub mod parser;
pub mod segment;
pub mod text;
pub mod tools;
pub mod utils;

pub use errors::Error;

//! The command line's verified part.
pub mod cli;

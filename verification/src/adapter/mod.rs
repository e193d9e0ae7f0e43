//! Adapters between the model and the outside: tokenizers, checkpoints and
//! the command line.
pub mod inbound;
pub mod outbound;

//! Tokenizer and checkpoint adapters.
pub mod checkpoint;
pub mod tokenizer;

pub use crate::byte_pair::tokenizer::BpeTokens;
pub use tokenizer::{BpeTokenizer, ByteLevelTokenizer};

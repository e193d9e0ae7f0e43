//! The tokenizer the model's use cases work against.
use vstd::prelude::*;
use crate::domain::entity::error::TransformerError;
use crate::domain::entity::value_objects::{Text, TokenIds, TokenizerConfig};

verus! {

/// Turns text into token ids and back, and says what a checkpoint records of
/// it. Each implementation states what its methods return.
pub trait TextTokenizer {
    /// What a checkpoint records of this tokenizer.
    fn config(&self) -> TokenizerConfig;

    /// The ids of `text`, framed by the beginning- and end-of-sequence ids
    /// when `add_special_tokens` is set.
    fn encode(&self, text: &Text, add_special_tokens: bool) -> Result<TokenIds, TransformerError>;

    /// The text of `ids`.
    fn decode(&self, ids: &TokenIds) -> Result<Text, TransformerError>;
}

} // verus!

//! Byte-pair-encoding tokenization backed by the `tokenizers` crate: a
//! whitespace-pretokenized BPE vocabulary with `[UNK]`, `[BOS]`, `[EOS]` and
//! `[PAD]`.
pub mod backend;
pub mod fingerprint;
pub mod laws;
pub mod tokenizer;
pub mod trainer;

pub use tokenizer::{
    tokenizer_error, BpeConfig, BpeError, BpeTokenizer, BpeTokens, SPECIAL_TOKENS,
};
pub use trainer::{BpeTrainer, BpeTrainerConfig, OutputFile};

//! Plain values of the model and their invariants.
use vstd::prelude::*;
use vstd::string::*;
use crate::domain::entity::error::TransformerError;

verus! {

/// Vocabulary size of the byte-level tokenizer: 256 bytes and three specials.
pub const BYTE_VOCAB_SIZE: usize = 259;
/// Beginning-of-sequence id of the byte-level tokenizer.
pub const BOS_TOKEN: u32 = 256;
/// End-of-sequence id of the byte-level tokenizer.
pub const EOS_TOKEN: u32 = 257;
/// Padding id of the byte-level tokenizer; loss ignores it.
pub const PAD_TOKEN: u32 = 258;

/// A piece of text.
#[derive(Clone, Debug, PartialEq, Eq)]
pub struct Text(pub String);

/// A sequence of token ids.
#[derive(Clone, Debug, PartialEq, Eq)]
pub struct TokenIds(pub Vec<u32>);

/// Names a stored checkpoint.
#[derive(Clone, Debug, PartialEq, Eq)]
pub struct CheckpointId(pub String);

/// Every id of `ids` lies inside a vocabulary of `vocab_size` tokens.
pub open spec fn ids_in_vocab(ids: Seq<u32>, vocab_size: nat) -> bool {
    forall|i: int| 0 <= i < ids.len() ==> (#[trigger] ids[i]) < vocab_size
}

impl TokenIds {
    /// Wraps `ids` when every one of them lies inside the vocabulary, and
    /// reports invalid data otherwise.
    pub fn new(ids: Vec<u32>, vocab_size: usize) -> (r: Result<Self, TransformerError>)
        ensures
            ids_in_vocab(ids@, vocab_size as nat) ==> (r matches Ok(t) && t.0@ == ids@),
            !ids_in_vocab(ids@, vocab_size as nat) ==> (r matches Err(
                TransformerError::InvalidData(m),
            ) && m@ == "token is outside vocabulary"@),
    {
        let mut i: usize = 0;
        while i < ids.len()
            invariant
                i <= ids.len(),
                ids_in_vocab(ids@.take(i as int), vocab_size as nat),
            decreases ids.len() - i,
        {
            if ids[i] as usize >= vocab_size {
                return Err(TransformerError::InvalidData(String::from_str("token is outside vocabulary")));
            }
            assert(ids_in_vocab(ids@.take(i + 1), vocab_size as nat)) by {
                assert forall|j: int| 0 <= j < i + 1 implies (#[trigger] ids@.take(i + 1)[j]) < vocab_size by {
                    if j < i {
                        assert(ids@.take(i + 1)[j] == ids@.take(i as int)[j]);
                    }
                }
            }
            i = i + 1;
        }
        assert(ids@.take(ids.len() as int) =~= ids@);
        Ok(TokenIds(ids))
    }
}

/// The architecture of a model.
#[derive(Clone, Debug, PartialEq, Eq, Structural)]
pub struct ModelConfig {
    pub vocab_size: usize,
    pub max_seq_len: usize,
    pub d_model: usize,
    pub num_heads: usize,
    pub num_layers: usize,
    pub d_ff: usize,
}

impl Default for ModelConfig {
    fn default() -> (c: Self)
        ensures
            c == (ModelConfig {
                vocab_size: BYTE_VOCAB_SIZE,
                max_seq_len: 128,
                d_model: 64,
                num_heads: 4,
                num_layers: 2,
                d_ff: 128,
            }),
    {
        ModelConfig {
            vocab_size: BYTE_VOCAB_SIZE,
            max_seq_len: 128,
            d_model: 64,
            num_heads: 4,
            num_layers: 2,
            d_ff: 128,
        }
    }
}

impl ModelConfig {
    /// Every dimension is positive and the context holds at least two tokens.
    pub open spec fn dims_positive(&self) -> bool {
        &&& self.vocab_size != 0
        &&& self.max_seq_len >= 2
        &&& self.d_model != 0
        &&& self.num_heads != 0
        &&& self.num_layers != 0
        &&& self.d_ff != 0
    }

    /// A configuration a model can be built from: positive dimensions and a
    /// width that the heads divide evenly.
    pub open spec fn is_valid(&self) -> bool {
        self.dims_positive() && self.d_model % self.num_heads == 0
    }

    /// Accepts exactly the valid configurations; the message says which
    /// requirement failed first.
    pub fn validate(&self) -> (r: Result<(), TransformerError>)
        ensures
            r is Ok <==> self.is_valid(),
            !self.dims_positive() ==> (r matches Err(TransformerError::InvalidConfig(m))
                && m@ == "all dimensions must be positive and max_seq_len >= 2"@),
            self.dims_positive() && !self.is_valid() ==> (r matches Err(
                TransformerError::InvalidConfig(m),
            ) && m@ == "d_model must be divisible by num_heads"@),
    {
        if self.vocab_size == 0 || self.max_seq_len < 2 || self.d_model == 0 || self.num_heads == 0
            || self.num_layers == 0 || self.d_ff == 0 {
            return Err(
                TransformerError::InvalidConfig(
                    String::from_str("all dimensions must be positive and max_seq_len >= 2"),
                ),
            );
        }
        if self.d_model % self.num_heads != 0 {
            return Err(
                TransformerError::InvalidConfig(
                    String::from_str("d_model must be divisible by num_heads"),
                ),
            );
        }
        Ok(())
    }
}

/// What a checkpoint records of the tokenizer it was trained with.
#[derive(Clone, Debug, PartialEq, Eq)]
pub struct TokenizerConfig {
    pub kind: String,
    pub vocab_size: usize,
    pub bos_token: u32,
    pub eos_token: u32,
    pub pad_token: u32,
}

/// Two tokenizer configurations agree in every field.
pub open spec fn same_tokenizer(a: TokenizerConfig, b: TokenizerConfig) -> bool {
    &&& a.kind@ == b.kind@
    &&& a.vocab_size == b.vocab_size
    &&& a.bos_token == b.bos_token
    &&& a.eos_token == b.eos_token
    &&& a.pad_token == b.pad_token
}

impl TokenizerConfig {
    /// Whether `other` describes the same tokenizer, field by field.
    pub fn same_as(&self, other: &TokenizerConfig) -> (b: bool)
        ensures
            b == same_tokenizer(*self, *other),
            b ==> self.kind@ == other.kind@ && self.vocab_size == other.vocab_size && self.bos_token
                == other.bos_token && self.eos_token == other.eos_token && self.pad_token
                == other.pad_token,
            self.kind@ == other.kind@ && self.vocab_size == other.vocab_size && self.bos_token
                == other.bos_token && self.eos_token == other.eos_token && self.pad_token
                == other.pad_token ==> b,
    {
        self.kind == other.kind && self.vocab_size == other.vocab_size && self.bos_token
            == other.bos_token && self.eos_token == other.eos_token && self.pad_token
            == other.pad_token
    }

    /// A field-by-field copy.
    pub fn duplicate(&self) -> (c: Self)
        ensures
            c.kind@ == self.kind@,
            c.vocab_size == self.vocab_size,
            c.bos_token == self.bos_token,
            c.eos_token == self.eos_token,
            c.pad_token == self.pad_token,
    {
        TokenizerConfig {
            kind: self.kind.clone(),
            vocab_size: self.vocab_size,
            bos_token: self.bos_token,
            eos_token: self.eos_token,
            pad_token: self.pad_token,
        }
    }
}

impl Default for TokenizerConfig {
    /// The byte-level tokenizer's configuration.
    fn default() -> (c: Self)
        ensures
            c.kind@ == "byte-level-v1"@,
            c.vocab_size == BYTE_VOCAB_SIZE,
            c.bos_token == BOS_TOKEN,
            c.eos_token == EOS_TOKEN,
            c.pad_token == PAD_TOKEN,
    {
        TokenizerConfig {
            kind: String::from_str("byte-level-v1"),
            vocab_size: BYTE_VOCAB_SIZE,
            bos_token: BOS_TOKEN,
            eos_token: EOS_TOKEN,
            pad_token: PAD_TOKEN,
        }
    }
}

/// Two configurations describe the same tokenizer only when their kinds
/// agree character for character (so two BPE vocabularies of one size but
/// different fingerprints differ) and their size and special ids agree; a
/// configuration describes the same tokenizer as itself.
pub proof fn lemma_same_tokenizer_needs_equal_kinds(a: TokenizerConfig, b: TokenizerConfig)
    ensures
        same_tokenizer(a, b) ==> a.kind@ == b.kind@,
        a.kind@ != b.kind@ || a.vocab_size != b.vocab_size || a.bos_token != b.bos_token
            || a.eos_token != b.eos_token || a.pad_token != b.pad_token ==> !same_tokenizer(a, b),
        same_tokenizer(a, a),
{
}

} // verus!

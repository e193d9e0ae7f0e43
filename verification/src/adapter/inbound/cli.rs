//! What the command line decides on its own: how a BPE failure is reported.
use vstd::prelude::*;
use crate::byte_pair::tokenizer::{bpe_error_text, BpeError};
use crate::domain::entity::error::TransformerError;

verus! {

/// Reports a BPE failure as invalid data carrying the failure's message.
pub fn bpe_error(error: BpeError) -> (e: TransformerError)
    ensures
        e is InvalidData,
        bpe_error_text(error) matches Some(t) ==> (e matches TransformerError::InvalidData(m) && m@ == t),
{
    TransformerError::InvalidData(error.message())
}

} // verus!

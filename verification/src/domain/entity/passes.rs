//! What the model's forward and backward passes accept before any arithmetic.
use vstd::prelude::*;
use vstd::string::*;
use crate::domain::entity::error::TransformerError;

verus! {

/// A forward pass reads between one token and the model's context length.
pub fn check_context(len: usize, max_seq_len: usize) -> (r: Result<(), TransformerError>)
    ensures
        r is Ok <==> 1 <= len <= max_seq_len,
        r matches Err(e) ==> (e matches TransformerError::InvalidData(m) && m@
            == "sequence length outside model context"@),
{
    if len == 0 || len > max_seq_len {
        return Err(
            TransformerError::InvalidData(String::from_str("sequence length outside model context")),
        );
    }
    Ok(())
}

/// A backward pass takes one loss gradient per logit: `rows * vocab` of them.
pub fn check_loss_gradient(gradient_len: usize, rows: usize, vocab: usize) -> (r: Result<
    (),
    TransformerError,
>)
    ensures
        r is Ok <==> gradient_len == rows * vocab,
        r matches Err(e) ==> (e matches TransformerError::InvalidData(m) && m@
            == "loss gradient shape mismatch"@),
{
    let same = match rows.checked_mul(vocab) {
        Some(n) => n == gradient_len,
        None => false,
    };
    if !same {
        return Err(TransformerError::InvalidData(String::from_str("loss gradient shape mismatch")));
    }
    Ok(())
}

} // verus!

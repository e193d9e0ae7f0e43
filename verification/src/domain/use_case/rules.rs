//! What the training, evaluation and generation use cases refuse before and
//! after their model work.
use vstd::prelude::*;
use vstd::string::*;
use crate::domain::entity::error::TransformerError;
use crate::domain::entity::value_objects::{same_tokenizer, TokenizerConfig};

verus! {

/// Training runs for at least one epoch.
pub fn check_epochs(epochs: usize) -> (r: Result<(), TransformerError>)
    ensures
        r is Ok <==> epochs > 0,
        r matches Err(e) ==> (e matches TransformerError::InvalidConfig(m) && m@
            == "epochs must be positive"@),
{
    if epochs == 0 {
        return Err(TransformerError::InvalidConfig(String::from_str("epochs must be positive")));
    }
    Ok(())
}

/// Training needs a text of at least two tokens: one to read, one to predict.
pub fn check_training_tokens(count: usize) -> (r: Result<(), TransformerError>)
    ensures
        r is Ok <==> count >= 2,
        r matches Err(e) ==> (e matches TransformerError::InvalidData(m) && m@
            == "training text needs at least two tokens"@),
{
    if count < 2 {
        return Err(
            TransformerError::InvalidData(String::from_str("training text needs at least two tokens")),
        );
    }
    Ok(())
}

/// A pass over a dataset must score at least one token; the message names
/// the pass.
pub fn check_scored(count: usize, training: bool) -> (r: Result<(), TransformerError>)
    ensures
        r is Ok <==> count > 0,
        r matches Err(e) ==> (e matches TransformerError::InvalidData(m) && m@ == if training {
            "dataset produced no training windows"@
        } else {
            "dataset produced no evaluation windows"@
        }),
{
    if count == 0 {
        if training {
            return Err(
                TransformerError::InvalidData(String::from_str("dataset produced no training windows")),
            );
        }
        return Err(
            TransformerError::InvalidData(String::from_str("dataset produced no evaluation windows")),
        );
    }
    Ok(())
}

/// A checkpoint is used only with the tokenizer it was trained with.
pub fn check_tokenizer(stored: &TokenizerConfig, current: &TokenizerConfig) -> (r: Result<
    (),
    TransformerError,
>)
    ensures
        r is Ok <==> same_tokenizer(*stored, *current),
        r is Ok ==> stored.kind@ == current.kind@,
        stored.kind@ != current.kind@ ==> (r matches Err(e) && e matches TransformerError::Checkpoint(m) && m@
            == "tokenizer configuration mismatch"@),
        r matches Err(e) ==> (e matches TransformerError::Checkpoint(m) && m@
            == "tokenizer configuration mismatch"@),
{
    if !stored.same_as(current) {
        return Err(TransformerError::Checkpoint(String::from_str("tokenizer configuration mismatch")));
    }
    Ok(())
}

} // verus!

//! Decisions of the training, evaluation and generation use cases.
pub mod evaluate;
pub mod generation;
pub mod rules;
pub mod windows;

pub use evaluate::EvaluateTextQuery;

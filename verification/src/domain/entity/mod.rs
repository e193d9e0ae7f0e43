//! Values, invariants and the integer side of the model.
pub mod error;
pub mod layout;
pub mod loss;
pub mod passes;
pub mod shape;
pub mod snapshot;
pub mod tokenizer;
pub mod value_objects;

pub use error::TransformerError;
pub use tokenizer::TextTokenizer;

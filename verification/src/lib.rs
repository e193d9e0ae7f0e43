//! A small decoder-only Transformer's verified core: tokenizers, value
//! objects, checkpoint and parameter-layout validation, and the integer
//! decisions of training, evaluation and generation.
pub mod adapter;
pub mod byte_pair;
pub mod domain;
pub mod embedding;
pub mod platform;
pub mod text;

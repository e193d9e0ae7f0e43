//! The model's entities and the use cases that drive them.
pub mod entity;
pub mod use_case;

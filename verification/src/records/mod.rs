//! The record builders, one module per record kind of the grammar.

pub mod common;
pub mod effect;
pub mod galaxy;
pub mod outfit;
pub mod planet;
pub mod start;
pub mod system;

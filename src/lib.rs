//! Cost estimation for text-generation requests: token counting through a
//! byte-pair-encoding tokenizer and an exact fixed-point price table.

pub mod model;
pub mod pricing;
pub mod tokens;
pub mod text;
pub mod report;
pub mod invocation;

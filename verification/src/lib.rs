//! Syntax trees for a small expression language, with a canonical text form.
//!
//! [`ast`] holds the node types and their rendering; [`decimal`] holds the
//! decimal notation of integers that number literals are rendered in.

pub mod ast;
pub mod decimal;

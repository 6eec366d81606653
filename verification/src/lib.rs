//! A filter compiler: it turns a nested query-filter expression — scalar
//! comparisons combined through AND, OR and NOT, plus filters over related
//! records — into a normalized boolean condition tree that a downstream
//! renderer can turn into a WHERE clause.
//!
//! The whole compilation is a pure transformation and is verified: every
//! public function carries a contract that pins its result down over the
//! mathematical models of the input and output types.

pub mod compile;
pub mod filter;
pub mod laws;
pub mod text;
pub mod tree;
pub mod value;

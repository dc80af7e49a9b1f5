//! A compile-time translator from a compact utility-class markup language
//! into deduplicated, stable-named CSS class rules.
//!
//! The pipeline has four stages: a lexer turns source text into tokens, a
//! recursive-descent parser builds an AST of nested scoped expressions, a
//! flattener expands the tree into independent style requests, and a
//! dedup store assigns each canonical request a stable class name. A
//! stylesheet emitter renders every stored request into CSS text in a
//! deterministic order.

pub mod ast;
pub mod compiler;
pub mod css_writer;
pub mod error;
pub mod laws;
pub mod lexer;
pub mod flatten;
pub mod numeric;
pub mod order;
pub mod parser;
pub mod text;
pub mod token;
pub mod utils;





//! A tree-walking interpreter for the Lace scripting language.
//!
//! The crate is a pipeline: [`lexer`] turns source text into tokens,
//! [`parser`] turns tokens into an abstract syntax tree, and [`eval`] walks
//! that tree against a chain of scopes. Each stage is specified by a
//! mathematical model of what it computes, and proved to compute it.
pub mod bytecode;
pub mod cli;
pub mod eval;
pub mod lexer;
pub mod parser;
pub mod repl;
pub mod text;

//! Front end of a compiler for a statically typed functional language.
//!
//! The crate holds what lies between the grammar and the type checker:
//!
//! - [`ast`]: the syntax tree, the positions attached to its nodes, and the
//!   mathematical model over which every contract is stated;
//! - [`parser`]: the rewriting steps that the grammar calls to give a tree
//!   its canonical shape;
//! - [`indexed_module`]: a module with its declarations grouped by name;
//! - [`rename`]: the pass that resolves every variable to a local binding
//!   or to the absolute name of a declaration;
//! - [`token`]: the tokens that the lexer hands to the grammar.
//!
//! Symbols and module names are handles into an interner that the caller
//! owns: no function here needs more of it than the handles.

pub mod ast;
pub mod indexed_module;
pub mod parser;
pub mod rename;
pub mod token;

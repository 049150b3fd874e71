//! A WebIDL parser library: a lexer, a recursive-descent parser, a typed
//! abstract syntax tree, and a visitor for traversing it.
//!
//! The lexer and the parser are each mirrored by specification functions over
//! the input's character sequence; every executable function's contract states
//! that its result equals the model's, so parsing is a pure, deterministic
//! function of the input text.

pub mod ast;
pub mod lexer;
pub mod parser;
pub mod visitor;

pub use crate::parser::ParseError;
pub use crate::parser::ParseResult;
pub use crate::parser::Parser;

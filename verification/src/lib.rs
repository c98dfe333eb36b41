//! A small interpreted scripting language: source text is scanned into tokens,
//! parsed into a syntax tree and evaluated against a table of variables.
//!
//! Every stage is stated against a mathematical model. A token, a tree or a
//! value is described by its view; scanning by the token grammar in
//! [`lexer::rules`], parsing by the grammar in [`parser::grammar`], and
//! evaluation by the definitional interpreter in [`interpreter::semantics`].
//! What holds of every source, token sequence and program is proved in the
//! `laws` module of each stage.
//!
//! - [`lexer`]: [`lexer::Lexer::tokenize`], from text to tokens.
//! - [`parser`]: [`parser::Parser::parse`], from tokens to a tree.
//! - [`interpreter`]: [`interpreter::Interpreter::interpret`], from a tree to
//!   a value.
//! - [`runner`] and [`repl`]: the three stages in a row, for a script and for
//!   the lines of an interactive session.
//! - [`number`]: the numbers of the language, IEEE 754 doubles held by their
//!   bits.
//! - [`shared_types`], [`error`], [`text`], [`fun`]: values and types, the
//!   error, helpers on strings, and flavour for the console.
pub mod error;
pub mod fun;
pub mod interpreter;
pub mod lexer;
pub mod number;
pub mod parser;
pub mod repl;
pub mod runner;
pub mod shared_types;
pub mod text;

//! A tree-walking interpreter front end for a small expression language.
//!
//! Source text is scanned into tokens ([`lexer`]), the tokens are parsed
//! into a syntax tree ([`parser`], [`ast`]), and the tree is evaluated to a
//! runtime value ([`evaluator`], [`object`], [`environment`]).
//!
//! Every step is stated over plain sequences of characters and over models
//! of the tree and of the values: what the next token of a text is, what a
//! text parses to and with which diagnostics, how a tree prints, and what a
//! tree evaluates to. The executable code is proved to compute exactly that.

#![allow(non_snake_case)]
#![allow(non_camel_case_types)]

pub mod ast;
pub mod decimal;
pub mod environment;
pub mod evaluator;
pub mod lexer;
pub mod object;
pub mod parser;
pub mod text;
pub mod token;

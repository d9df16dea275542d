//! The shapes that a parsed program is made of.

pub mod ast;

//! Verilog IR: the syntax tree of the generated hardware description and its text.

pub mod decl;
pub mod expr;
pub mod module;
pub mod ops;
pub mod shape;
pub mod stmt;
pub mod text;
pub mod wiring;

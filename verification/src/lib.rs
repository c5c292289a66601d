//! The abstract syntax tree of shell programs, the way a shell prints it, and the source
//! locations of its nodes.

pub mod ast;
pub mod decimal;
pub mod declaration;
pub mod layout;
pub mod layout_laws;
pub mod render;
pub mod source;
pub mod tokenizer;

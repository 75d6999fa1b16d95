pub mod alias;
pub mod ast;
pub mod expr;
pub mod parse;
pub mod pretty;
pub mod syntax;
pub mod type_check;

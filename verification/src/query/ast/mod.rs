pub mod error;
pub mod location;
pub mod pair;
pub mod number;
pub mod literal;
pub mod ident;
pub mod traits;
pub mod expr;
pub mod func;
pub mod clause;
pub mod select;
pub mod insert;
pub mod update;
pub mod delete;
pub mod query;

//! Yukino: the query language front end of an ORM framework, verified with Verus.
//!
//! The library holds the lexer and the token stream of the query language,
//! the recursive-descent expression parser built on them, the syntax tree of
//! queries together with the passes that collect and check its aliases and fold
//! its constants, the annotations that entities declare, and the repository in
//! which a transaction keeps the entities it has loaded.

pub mod annotations;
pub mod association;
pub mod query;
pub mod repository;

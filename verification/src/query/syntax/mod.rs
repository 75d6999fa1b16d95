pub mod error;
pub mod expression;
pub mod select;

pub mod binary;
pub mod error;
pub mod expression;
pub mod float;
pub mod function;
pub mod ident;
pub mod literal;
pub mod precedence;
pub mod unary;

pub use binary::{BinaryExpression, BinaryOperator};
pub use error::ExprParseError;
pub use expression::{ExprV, Expression};
pub use function::FunctionCall;
pub use ident::DatabaseIdent;
pub use literal::{FloatLit, Literal, LiteralV};
pub use precedence::Precedence;
pub use unary::{UnaryExpression, UnaryOperator};

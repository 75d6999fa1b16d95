use vstd::prelude::*;

use crate::query::parse::text::push_str;

verus! {

/// Errors of the expression parser.
#[derive(Debug)]
pub enum ExprParseError {
    CannotParseIntoIdent,
    UnexpectedAny,
    CannotParseIntoLit,
    CannotParseIntoFunction,
    CannotParseFloat(String),
    CannotParseIntoUnaryOperator,
    CannotParseIntoBinaryOperator,
    CannotParseIntoExpression,
    CannotFindRightParen,
}

pub open spec fn ident_message() -> Seq<char> {
    "Cannot parse token stream into DatabaseIdent"@
}

pub open spec fn any_message() -> Seq<char> {
    "Unexpected '*' in database ident"@
}

pub open spec fn lit_message() -> Seq<char> {
    "Cannot parse token stream into Literal"@
}

pub open spec fn function_message() -> Seq<char> {
    "Cannot parse token stream into Function"@
}

pub open spec fn float_message(s: Seq<char>) -> Seq<char> {
    "Cannot parse \""@ + s + "\" into string"@
}

pub open spec fn unary_message() -> Seq<char> {
    "Expect an unary operator here"@
}

pub open spec fn binary_message() -> Seq<char> {
    "Expect a binary operator here"@
}

pub open spec fn expression_message() -> Seq<char> {
    "Expect some token"@
}

pub open spec fn paren_message() -> Seq<char> {
    "Unmatched parenthesis missing ')'"@
}

impl ExprParseError {
    /// The message of the error.
    pub open spec fn message_spec(&self) -> Seq<char> {
        match self {
            ExprParseError::CannotParseIntoIdent => ident_message(),
            ExprParseError::UnexpectedAny => any_message(),
            ExprParseError::CannotParseIntoLit => lit_message(),
            ExprParseError::CannotParseIntoFunction => function_message(),
            ExprParseError::CannotParseFloat(s) => float_message(s@),
            ExprParseError::CannotParseIntoUnaryOperator => unary_message(),
            ExprParseError::CannotParseIntoBinaryOperator => binary_message(),
            ExprParseError::CannotParseIntoExpression => expression_message(),
            ExprParseError::CannotFindRightParen => paren_message(),
        }
    }

    pub fn message(&self) -> (r: String)
        ensures
            r@ == self.message_spec(),
    {
        let mut r = String::new();
        match self {
            ExprParseError::CannotParseIntoIdent => push_str(
                &mut r,
                "Cannot parse token stream into DatabaseIdent",
            ),
            ExprParseError::UnexpectedAny => push_str(&mut r, "Unexpected '*' in database ident"),
            ExprParseError::CannotParseIntoLit => push_str(
                &mut r,
                "Cannot parse token stream into Literal",
            ),
            ExprParseError::CannotParseIntoFunction => push_str(
                &mut r,
                "Cannot parse token stream into Function",
            ),
            ExprParseError::CannotParseFloat(s) => {
                push_str(&mut r, "Cannot parse \"");
                push_str(&mut r, s.as_str());
                push_str(&mut r, "\" into string");
            },
            ExprParseError::CannotParseIntoUnaryOperator => push_str(
                &mut r,
                "Expect an unary operator here",
            ),
            ExprParseError::CannotParseIntoBinaryOperator => push_str(
                &mut r,
                "Expect a binary operator here",
            ),
            ExprParseError::CannotParseIntoExpression => push_str(&mut r, "Expect some token"),
            ExprParseError::CannotFindRightParen => push_str(
                &mut r,
                "Unmatched parenthesis missing ')'",
            ),
        }
        assert(r@ =~= self.message_spec());
        r
    }
}

} // verus!

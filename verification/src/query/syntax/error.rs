use vstd::prelude::*;

use crate::query::parse::text::push_str;

verus! {

/// Errors of reading the clauses of a query.
#[derive(Debug, Clone, Copy, PartialEq, Eq)]
pub enum SyntaxError {
    UnexpectedAlias,
    CannotParseIntoOrder,
    UnexpectedEntityName,
}

/// The message of an error.
pub open spec fn syntax_error_message(e: SyntaxError) -> Seq<char> {
    match e {
        SyntaxError::UnexpectedAlias => "Unexpected alias"@,
        SyntaxError::CannotParseIntoOrder => "Order method must be \"asc\" or \"desc\""@,
        SyntaxError::UnexpectedEntityName => "Unexpected entity name"@,
    }
}

impl SyntaxError {
    pub fn message(&self) -> (r: String)
        ensures
            r@ == syntax_error_message(*self),
    {
        let mut r = String::new();
        match self {
            SyntaxError::UnexpectedAlias => push_str(&mut r, "Unexpected alias"),
            SyntaxError::CannotParseIntoOrder => push_str(
                &mut r,
                "Order method must be \"asc\" or \"desc\"",
            ),
            SyntaxError::UnexpectedEntityName => push_str(&mut r, "Unexpected entity name"),
        }
        assert(r@ =~= syntax_error_message(*self));
        r
    }
}

} // verus!

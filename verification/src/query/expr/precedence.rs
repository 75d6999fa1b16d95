use vstd::prelude::*;

use crate::query::expr::binary::{binary_operator_of, binary_precedence, BinaryOperator};
use crate::query::expr::function::{fn_peek, FunctionCall};
use crate::query::expr::ident::{ident_peek_from, DatabaseIdent};
use crate::query::expr::literal::{lit_peek, Literal};
use crate::query::expr::unary::{unary_operator_of, unary_precedence, UnaryOperator};
use crate::query::parse::lex::TokenV;
use crate::query::parse::parser::ParseBuffer;

verus! {

/// How tightly an item of an expression binds, from `Lowest` (loosest) to `Lit`.
#[derive(Clone, Copy, Debug, PartialEq, Eq, Structural, PartialOrd, Ord)]
pub enum Precedence {
    Lowest,
    Or,
    Xor,
    And,
    Not,
    Comparison,
    BitOr,
    BitAnd,
    BitShift,
    Add,
    Term,
    BitXor,
    BitReverse,
    Ident,
    FunctionCall,
    Lit,
}

/// The place of a precedence in the order in which the enum lists them.
pub open spec fn rank(p: Precedence) -> int {
    match p {
        Precedence::Lowest => 0,
        Precedence::Or => 1,
        Precedence::Xor => 2,
        Precedence::And => 3,
        Precedence::Not => 4,
        Precedence::Comparison => 5,
        Precedence::BitOr => 6,
        Precedence::BitAnd => 7,
        Precedence::BitShift => 8,
        Precedence::Add => 9,
        Precedence::Term => 10,
        Precedence::BitXor => 11,
        Precedence::BitReverse => 12,
        Precedence::Ident => 13,
        Precedence::FunctionCall => 14,
        Precedence::Lit => 15,
    }
}

impl Precedence {
    pub fn rank(&self) -> (r: u8)
        ensures
            r == rank(*self),
    {
        match self {
            Precedence::Lowest => 0,
            Precedence::Or => 1,
            Precedence::Xor => 2,
            Precedence::And => 3,
            Precedence::Not => 4,
            Precedence::Comparison => 5,
            Precedence::BitOr => 6,
            Precedence::BitAnd => 7,
            Precedence::BitShift => 8,
            Precedence::Add => 9,
            Precedence::Term => 10,
            Precedence::BitXor => 11,
            Precedence::BitReverse => 12,
            Precedence::Ident => 13,
            Precedence::FunctionCall => 14,
            Precedence::Lit => 15,
        }
    }

    /// `self` binds no more tightly than `other` (the order of the enum).
    pub fn at_most(&self, other: &Precedence) -> (r: bool)
        ensures
            r == (rank(*self) <= rank(*other)),
    {
        self.rank() <= other.rank()
    }
}

/// The precedence of what stands at `c`: a literal, a function call, a dotted
/// name, or a unary or binary operator.
pub open spec fn peek_precedence(ts: Seq<TokenV>, c: int) -> Option<Precedence> {
    if lit_peek(ts, c, false) {
        Some(Precedence::Lit)
    } else if fn_peek(ts, c) {
        Some(Precedence::FunctionCall)
    } else if ident_peek_from(ts, c) {
        Some(Precedence::Ident)
    } else if c < ts.len() && unary_operator_of(ts[c]) is Some {
        Some(unary_precedence(unary_operator_of(ts[c]).unwrap()))
    } else if c < ts.len() && binary_operator_of(ts[c]) is Some {
        Some(binary_precedence(binary_operator_of(ts[c]).unwrap()))
    } else {
        None
    }
}

impl Precedence {
    /// The precedence of what stands at the cursor.
    pub fn peek(buffer: &ParseBuffer) -> (r: Option<Precedence>)
        ensures
            r == peek_precedence(buffer.tokens(), buffer.cursor_at()),
    {
        if buffer.peek::<Literal>() {
            Some(Precedence::Lit)
        } else if buffer.peek::<FunctionCall>() {
            Some(Precedence::FunctionCall)
        } else if buffer.peek::<DatabaseIdent>() {
            Some(Precedence::Ident)
        } else if buffer.peek::<UnaryOperator>() {
            match UnaryOperator::peek_operator(buffer) {
                Ok(op) => Some(op.precedence()),
                Err(_) => None,
            }
        } else if buffer.peek::<BinaryOperator>() {
            match BinaryOperator::peek_operator(buffer) {
                Ok(op) => Some(op.precedence()),
                Err(_) => None,
            }
        } else {
            None
        }
    }
}

} // verus!

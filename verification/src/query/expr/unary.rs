use vstd::prelude::*;

use crate::query::expr::error::{expression_message, unary_message, ExprParseError};
use crate::query::expr::expression::{item, item_view, unary_parse, unary_view, ExprV, Expression};
use crate::query::expr::precedence::Precedence;
use crate::query::parse::error::{Error, ErrorV};
use crate::query::parse::lex::{Keyword, Symbol, Token, TokenV};
use crate::query::parse::parser::{error_at, offset_error, result_view, Parse, ParseBuffer, Peek};

verus! {

/// An operator that stands before its operand.
#[derive(Clone, Copy, Debug, PartialEq, Eq, Structural)]
pub enum UnaryOperator {
    BitInverse,
    Not,
}

impl View for UnaryOperator {
    type V = UnaryOperator;

    open spec fn view(&self) -> UnaryOperator {
        *self
    }
}

/// The unary operator that a token is: `~` or `not`.
pub open spec fn unary_operator_of(t: TokenV) -> Option<UnaryOperator> {
    match t {
        TokenV::Symbol(Symbol::Tilde) => Some(UnaryOperator::BitInverse),
        TokenV::Keyword(Keyword::Not) => Some(UnaryOperator::Not),
        _ => None,
    }
}

/// How tightly a unary operator binds.
pub open spec fn unary_precedence(op: UnaryOperator) -> Precedence {
    match op {
        UnaryOperator::BitInverse => Precedence::BitReverse,
        UnaryOperator::Not => Precedence::Not,
    }
}

/// Reading a unary operator at `c`: the operator or the error, and the cursor after.
pub open spec fn unary_operator_parse(ts: Seq<TokenV>, c: int) -> (Result<UnaryOperator, ErrorV>, int) {
    if c < ts.len() {
        match unary_operator_of(ts[c]) {
            Some(op) => (Ok(op), c + 1),
            None => (Err(error_at(ts, unary_message(), c)), c + 1),
        }
    } else {
        (Err(offset_error(ts, c, 1)), c)
    }
}

impl Parse for UnaryOperator {
    open spec fn parse_spec(tokens: Seq<TokenV>, cursor: int) -> Option<
        (Result<UnaryOperator, ErrorV>, int),
    > {
        Some(unary_operator_parse(tokens, cursor))
    }

    fn parse(buffer: &mut ParseBuffer) -> (r: Result<UnaryOperator, Error>) {
        let cursor = buffer.cursor();
        let n = buffer.bounds();
        match buffer.pop_token() {
            Ok(Token::Symbol(Symbol::Tilde)) => Ok(UnaryOperator::BitInverse),
            Ok(Token::Keyword(Keyword::Not)) => Ok(UnaryOperator::Not),
            Ok(_) => Err(
                buffer.error_at(ExprParseError::CannotParseIntoUnaryOperator.message(), cursor),
            ),
            Err(e) => Err(e),
        }
    }
}

impl Peek for UnaryOperator {
    open spec fn peek_spec(tokens: Seq<TokenV>, cursor: int) -> bool {
        cursor < tokens.len() && unary_operator_of(tokens[cursor]) is Some
    }

    fn peek(buffer: &ParseBuffer) -> (r: bool) {
        buffer.peek_token(&Token::Symbol(Symbol::Tilde)) || buffer.peek_token(
            &Token::Keyword(Keyword::Not),
        )
    }
}

impl UnaryOperator {
    pub fn precedence(&self) -> (r: Precedence)
        ensures
            r == unary_precedence(*self),
    {
        match self {
            UnaryOperator::BitInverse => Precedence::BitReverse,
            UnaryOperator::Not => Precedence::Not,
        }
    }

    /// The unary operator at the cursor, read without moving the cursor.
    pub fn peek_operator(buffer: &ParseBuffer) -> (r: Result<UnaryOperator, Error>)
        ensures
            result_view(r) == unary_operator_parse(buffer.tokens(), buffer.cursor_at()).0,
    {
        let mut buffer_cloned = buffer.copy();
        buffer_cloned.parse::<UnaryOperator>()
    }

    /// The unary expression of this operator applied to `expr`.
    pub fn with_expr(&self, expr: Expression) -> (r: UnaryExpression)
        ensures
            r@ == ExprV::Unary(*self, Box::new(expr@)),
    {
        let boxed = Box::new(expr);
        match self {
            UnaryOperator::BitInverse => UnaryExpression::BitInverse(boxed),
            UnaryOperator::Not => UnaryExpression::Not(boxed),
        }
    }
}

/// An operator applied to the expression after it.
#[derive(Debug, PartialEq, Eq)]
pub enum UnaryExpression {
    BitInverse(Box<Expression>),
    Not(Box<Expression>),
}

impl View for UnaryExpression {
    type V = ExprV;

    open spec fn view(&self) -> ExprV {
        unary_view(*self)
    }
}

impl UnaryExpression {
    /// Parses a unary operator and the item after it that binds at least as
    /// tightly as the operator.
    pub fn parse_unary(buffer: &mut ParseBuffer) -> (r: Option<Result<UnaryExpression, Error>>)
        ensures
            final(buffer).tokens() == old(buffer).tokens(),
            match r {
                Some(res) => old(buffer).cursor_at() <= final(buffer).cursor_at() && unary_parse(
                    old(buffer).tokens(),
                    old(buffer).cursor_at(),
                ) == Some((result_view(res), final(buffer).cursor_at())),
                None => unary_parse(old(buffer).tokens(), old(buffer).cursor_at()) is None,
            },
        decreases old(buffer).tokens().len() - old(buffer).cursor_at(), 1int,
    {
        let ghost ts = buffer.tokens();
        let head = buffer.cursor();
        let n = buffer.bounds();
        let operator: UnaryOperator = match buffer.parse::<UnaryOperator>() {
            Ok(op) => op,
            Err(e) => {
                return Some(Err(e));
            },
        };
        let n2 = buffer.bounds();
        let right = match Expression::parse_item_with_precedence(buffer, operator.precedence()) {
            Some(Ok(Some(right))) => right,
            Some(Ok(None)) => {
                return Some(
                    Err(buffer.error_at(ExprParseError::CannotParseIntoExpression.message(), head)),
                );
            },
            Some(Err(e)) => {
                return Some(Err(e));
            },
            None => {
                return None;
            },
        };
        Some(Ok(operator.with_expr(right)))
    }
}

impl Parse for UnaryExpression {
    open spec fn parse_spec(tokens: Seq<TokenV>, cursor: int) -> Option<(Result<ExprV, ErrorV>, int)> {
        unary_parse(tokens, cursor)
    }

    fn parse(buffer: &mut ParseBuffer) -> (r: Result<UnaryExpression, Error>) {
        match UnaryExpression::parse_unary(buffer) {
            Some(r) => r,
            None => {
                proof {
                    assert(false);
                }
                Err(Error::head(String::new(), String::new()))
            },
        }
    }
}

impl Peek for UnaryExpression {
    open spec fn peek_spec(tokens: Seq<TokenV>, cursor: int) -> bool {
        cursor < tokens.len() && unary_operator_of(tokens[cursor]) is Some
    }

    fn peek(buffer: &ParseBuffer) -> (r: bool) {
        buffer.peek::<UnaryOperator>()
    }
}

/// A unary operator is seen at the cursor exactly when reading one succeeds, and
/// reading it moves the cursor past one token.
pub proof fn law_unary_operator_peek_parses(ts: Seq<TokenV>, c: int)
    ensures
        UnaryOperator::peek_spec(ts, c) <==> UnaryOperator::parse_spec(ts, c) matches Some(
            (Ok(_), _),
        ),
        UnaryOperator::peek_spec(ts, c) ==> (UnaryOperator::parse_spec(ts, c) matches Some((_, c2)) && c2 == c
            + 1),
{
}

/// Reading a unary operator at a token gives the operator that the token writes:
/// `~` reads as `BitInverse` and the keyword `not` as `Not`, nothing else reads
/// as one, and the cursor moves past the token.
pub proof fn law_unary_operator_tokens(ts: Seq<TokenV>, c: int)
    requires
        0 <= c < ts.len(),
    ensures
        ts[c] == TokenV::Symbol(Symbol::Tilde) ==> UnaryOperator::parse_spec(ts, c) == Some(
            (Ok::<UnaryOperator, ErrorV>(UnaryOperator::BitInverse), c + 1),
        ),
        ts[c] == TokenV::Keyword(Keyword::Not) ==> UnaryOperator::parse_spec(ts, c) == Some(
            (Ok::<UnaryOperator, ErrorV>(UnaryOperator::Not), c + 1),
        ),
        UnaryOperator::parse_spec(ts, c) matches Some((Ok(_), _)) ==> (ts[c] == TokenV::Symbol(
            Symbol::Tilde,
        ) || ts[c] == TokenV::Keyword(Keyword::Not)),
{
}

} // verus!

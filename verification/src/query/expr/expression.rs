use vstd::prelude::*;

use crate::query::expr::binary::{
    binary_operator_of, binary_precedence, BinaryExpression, BinaryOperator,
};
use crate::query::expr::error::{
    expression_message, function_message, paren_message, ExprParseError,
};
use crate::query::expr::function::{fn_peek, FunctionCall};
use crate::query::expr::ident::{ident_parse_from, ident_peek_from, DatabaseIdent};
use crate::query::expr::literal::{lit_parse, lit_peek, Literal, LiteralV};
use crate::query::expr::precedence::{rank, Precedence};
use crate::query::expr::unary::{
    unary_operator_of, unary_precedence, UnaryExpression, UnaryOperator,
};
use crate::query::parse::error::{Error, ErrorV};
use crate::query::parse::lex::{token_values, Symbol, Token, TokenV};
use crate::query::parse::parser::{error_at, offset_error, result_view, Parse, ParseBuffer};

verus! {

/// An expression of the query language.
#[derive(Debug, PartialEq, Eq)]
pub enum Expression {
    Unary(UnaryExpression),
    Binary(BinaryExpression),
    Ident(DatabaseIdent),
    Function(FunctionCall),
    Literal(Literal),
}

/// The value of an expression: its syntax tree.
pub enum ExprV {
    Unary(UnaryOperator, Box<ExprV>),
    Binary(BinaryOperator, Box<ExprV>, Box<ExprV>),
    Ident(Seq<Seq<char>>),
    Function(Seq<char>, Seq<ExprV>),
    Literal(LiteralV),
}

/// The value of an expression.
pub open spec fn expr_view(e: Expression) -> ExprV
    decreases e,
{
    match e {
        Expression::Unary(u) => unary_view(u),
        Expression::Binary(b) => binary_view(b),
        Expression::Ident(i) => ExprV::Ident(i@),
        Expression::Function(f) => call_view(f),
        Expression::Literal(l) => ExprV::Literal(l@),
    }
}

/// The value of a unary expression.
pub open spec fn unary_view(u: UnaryExpression) -> ExprV
    decreases u,
{
    match u {
        UnaryExpression::BitInverse(e) => ExprV::Unary(
            UnaryOperator::BitInverse,
            Box::new(expr_view(*e)),
        ),
        UnaryExpression::Not(e) => ExprV::Unary(UnaryOperator::Not, Box::new(expr_view(*e))),
    }
}

/// The value of a binary expression.
pub open spec fn binary_view(b: BinaryExpression) -> ExprV
    decreases b,
{
    match b {
        BinaryExpression::BitXor(l, r) => ExprV::Binary(
            BinaryOperator::BitXor,
            Box::new(expr_view(*l)),
            Box::new(expr_view(*r)),
        ),
        BinaryExpression::Multi(l, r) => ExprV::Binary(
            BinaryOperator::Multi,
            Box::new(expr_view(*l)),
            Box::new(expr_view(*r)),
        ),
        BinaryExpression::Mod(l, r) => ExprV::Binary(
            BinaryOperator::Mod,
            Box::new(expr_view(*l)),
            Box::new(expr_view(*r)),
        ),
        BinaryExpression::Div(l, r) => ExprV::Binary(
            BinaryOperator::Div,
            Box::new(expr_view(*l)),
            Box::new(expr_view(*r)),
        ),
        BinaryExpression::Add(l, r) => ExprV::Binary(
            BinaryOperator::Add,
            Box::new(expr_view(*l)),
            Box::new(expr_view(*r)),
        ),
        BinaryExpression::Sub(l, r) => ExprV::Binary(
            BinaryOperator::Sub,
            Box::new(expr_view(*l)),
            Box::new(expr_view(*r)),
        ),
        BinaryExpression::BitLeftShift(l, r) => ExprV::Binary(
            BinaryOperator::BitLeftShift,
            Box::new(expr_view(*l)),
            Box::new(expr_view(*r)),
        ),
        BinaryExpression::BitRightShift(l, r) => ExprV::Binary(
            BinaryOperator::BitRightShift,
            Box::new(expr_view(*l)),
            Box::new(expr_view(*r)),
        ),
        BinaryExpression::BitAnd(l, r) => ExprV::Binary(
            BinaryOperator::BitAnd,
            Box::new(expr_view(*l)),
            Box::new(expr_view(*r)),
        ),
        BinaryExpression::BitOr(l, r) => ExprV::Binary(
            BinaryOperator::BitOr,
            Box::new(expr_view(*l)),
            Box::new(expr_view(*r)),
        ),
        BinaryExpression::GT(l, r) => ExprV::Binary(
            BinaryOperator::GT,
            Box::new(expr_view(*l)),
            Box::new(expr_view(*r)),
        ),
        BinaryExpression::LT(l, r) => ExprV::Binary(
            BinaryOperator::LT,
            Box::new(expr_view(*l)),
            Box::new(expr_view(*r)),
        ),
        BinaryExpression::GTE(l, r) => ExprV::Binary(
            BinaryOperator::GTE,
            Box::new(expr_view(*l)),
            Box::new(expr_view(*r)),
        ),
        BinaryExpression::LTE(l, r) => ExprV::Binary(
            BinaryOperator::LTE,
            Box::new(expr_view(*l)),
            Box::new(expr_view(*r)),
        ),
        BinaryExpression::EQ(l, r) => ExprV::Binary(
            BinaryOperator::EQ,
            Box::new(expr_view(*l)),
            Box::new(expr_view(*r)),
        ),
        BinaryExpression::NEQ(l, r) => ExprV::Binary(
            BinaryOperator::NEQ,
            Box::new(expr_view(*l)),
            Box::new(expr_view(*r)),
        ),
        BinaryExpression::And(l, r) => ExprV::Binary(
            BinaryOperator::And,
            Box::new(expr_view(*l)),
            Box::new(expr_view(*r)),
        ),
        BinaryExpression::Or(l, r) => ExprV::Binary(
            BinaryOperator::Or,
            Box::new(expr_view(*l)),
            Box::new(expr_view(*r)),
        ),
        BinaryExpression::Xor(l, r) => ExprV::Binary(
            BinaryOperator::Xor,
            Box::new(expr_view(*l)),
            Box::new(expr_view(*r)),
        ),
    }
}

/// The value of a function call.
pub open spec fn call_view(f: FunctionCall) -> ExprV
    decreases f,
{
    ExprV::Function(f.ident@, exprs_view(f.parameters@))
}

/// The values of a sequence of expressions.
pub open spec fn exprs_view(s: Seq<Expression>) -> Seq<ExprV>
    decreases s,
{
    if s.len() == 0 {
        seq![]
    } else {
        exprs_view(s.drop_last()).push(expr_view(s.last()))
    }
}

impl View for Expression {
    type V = ExprV;

    open spec fn view(&self) -> ExprV {
        expr_view(*self)
    }
}

pub proof fn lemma_exprs_view_push(s: Seq<Expression>, x: Expression)
    ensures
        exprs_view(s.push(x)) == exprs_view(s).push(x@),
{
    assert(s.push(x).drop_last() =~= s);
}

/// The position of the first `)` at or after `i`.
pub open spec fn find_paren_right(ts: Seq<TokenV>, i: int) -> Option<int>
    decreases ts.len() - i,
{
    if 0 <= i < ts.len() {
        if ts[i] == TokenV::Symbol(Symbol::ParenRight) {
            Some(i)
        } else {
            find_paren_right(ts, i + 1)
        }
    } else {
        None
    }
}

pub proof fn lemma_find_paren_right(ts: Seq<TokenV>, i: int)
    ensures
        find_paren_right(ts, i) matches Some(k) ==> i <= k < ts.len() && ts[k] == TokenV::Symbol(
            Symbol::ParenRight,
        ),
    decreases ts.len() - i,
{
    if 0 <= i < ts.len() && ts[i] != TokenV::Symbol(Symbol::ParenRight) {
        lemma_find_paren_right(ts, i + 1);
    }
}

/// The view of what an item parser gives.
pub open spec fn item_view(r: Result<Option<Expression>, Error>) -> Result<Option<ExprV>, ErrorV> {
    match r {
        Ok(Some(e)) => Ok(Some(e@)),
        Ok(None) => Ok(None),
        Err(e) => Err(e@),
    }
}

// The expression grammar, as a recursive-descent parser over the tokens `ts` from
// the cursor `c`. Each function gives what the parser yields (a value or an
// error) and where it leaves the cursor; `None` where the parser panics. The
// measure is the number of tokens left, then the place of the function in the
// order in which they call one another at one cursor.

/// An expression at `c`: an item of any precedence.
pub open spec fn expr_parse(ts: Seq<TokenV>, c: int) -> Option<(Result<ExprV, ErrorV>, int)>
    decreases ts.len() - c, 4int,
{
    match item(ts, c, Precedence::Lowest) {
        Some((Ok(Some(x)), c1)) => Some((Ok(x), c1)),
        Some((Ok(None), c1)) => Some((Err(error_at(ts, expression_message(), c)), c1)),
        Some((Err(e), c1)) => Some((Err(e), c1)),
        None => None,
    }
}

/// An item at `c` that binds at least as tightly as `p`, and the binary operators
/// of at least that precedence that follow it.
pub open spec fn item(ts: Seq<TokenV>, c: int, p: Precedence) -> Option<
    (Result<Option<ExprV>, ErrorV>, int),
>
    decreases ts.len() - c, 3int,
{
    match item_head(ts, c, p) {
        Some((Ok(Some(x)), c1)) => if c <= c1 <= ts.len() {
            bin_loop(ts, c1, p, x)
        } else {
            None
        },
        other => other,
    }
}

/// The item at `c` that binds at least as tightly as `p`: a parenthesised
/// expression, a literal, a function call, a dotted name, or a unary operator and
/// its operand; a unary operator that binds less tightly than `p` gives no item
/// (`Ok(None)`).
pub open spec fn item_head(ts: Seq<TokenV>, c: int, p: Precedence) -> Option<
    (Result<Option<ExprV>, ErrorV>, int),
>
    decreases ts.len() - c, 2int,
{
if c < ts.len() && ts[c]
        == TokenV::Symbol(Symbol::ParenLeft) {
        match find_paren_right(ts, c + 1) {
            None => Some((Err(error_at(ts, paren_message(), c)), c + 1)),
            Some(k) => {
                proof {
                    lemma_find_paren_right(ts, c + 1);
                }
                match expr_parse(ts.take(k), c + 1) {
                    Some((Ok(x), c2)) => if c2 == k {
                        Some((Ok(Some(x)), k + 1))
                    } else {
                        None
                    },
                    Some((Err(e), _)) => Some((Err(e), k)),
                    None => None,
                }
            },
        }
    } else if rank(p) <= rank(Precedence::Lit) && lit_peek(ts, c, false) {
        match lit_parse(ts, c) {
            Some((Ok(l), c1)) => Some((Ok(Some(ExprV::Literal(l))), c1)),
            Some((Err(e), c1)) => Some((Err(e), c1)),
            None => None,
        }
    } else if rank(p) <= rank(Precedence::FunctionCall) && fn_peek(ts, c) {
        match fn_parse(ts, c) {
            Some((Ok(f), c1)) => Some((Ok(Some(f)), c1)),
            Some((Err(e), c1)) => Some((Err(e), c1)),
            None => None,
        }
    } else if rank(p) <= rank(Precedence::Ident) && ident_peek_from(ts, c) {
        match ident_parse_from(ts, c, c, seq![]) {
            (Ok(segs), c1) => Some((Ok(Some(ExprV::Ident(segs))), c1)),
            (Err(e), c1) => Some((Err(e), c1)),
        }
    } else if c < ts.len() && unary_operator_of(ts[c]) is Some {
        if rank(p) <= rank(unary_precedence(unary_operator_of(ts[c]).unwrap())) {
            match unary_parse(ts, c) {
                Some((Ok(u), c1)) => Some((Ok(Some(u)), c1)),
                Some((Err(e), c1)) => Some((Err(e), c1)),
                None => None,
            }
        } else {
            Some((Ok(None), c))
        }
    } else {
        Some((Err(error_at(ts, expression_message(), c)), c))
    }
}

/// The binary operators of at least precedence `p` at `c` and after, with `left`
/// read so far. Operators of equal precedence group to the right, since the
/// operand after an operator takes in the operators of that operator's own
/// precedence: `1 - 2 - 3` reads as `1 - (2 - 3)`.
pub open spec fn bin_loop(ts: Seq<TokenV>, c: int, p: Precedence, left: ExprV) -> Option<
    (Result<Option<ExprV>, ErrorV>, int),
>
    decreases ts.len() - c, 2int,
{
    if c < ts.len() && binary_operator_of(ts[c]) is Some && rank(p) <= rank(
        binary_precedence(binary_operator_of(ts[c]).unwrap()),
    ) {
        match right_side(ts, c, left) {
            Some((Ok(x), c2)) => if c < c2 <= ts.len() {
                bin_loop(ts, c2, p, x)
            } else {
                None
            },
            Some((Err(e), c2)) => Some((Err(e), c2)),
            None => None,
        }
    } else {
        Some((Ok(Some(left)), c))
    }
}

/// A binary operator at `c` and the item after it that binds at least as tightly
/// as the operator, with `left` as the left operand.
pub open spec fn right_side(ts: Seq<TokenV>, c: int, left: ExprV) -> Option<
    (Result<ExprV, ErrorV>, int),
>
    decreases ts.len() - c, 1int,
{
    if c < ts.len() {
        match binary_operator_of(ts[c]) {
            Some(op) => match item(ts, c + 1, binary_precedence(op)) {
                Some((Ok(Some(r)), c2)) => Some(
                    (Ok(ExprV::Binary(op, Box::new(left), Box::new(r))), c2),
                ),
                Some((Ok(None), c2)) => Some((Err(error_at(ts, expression_message(), c)), c2)),
                Some((Err(e), c2)) => Some((Err(e), c2)),
                None => None,
            },
            None => Some((Err(error_at(ts, crate::query::expr::error::binary_message(), c)), c + 1)),
        }
    } else {
        Some((Err(offset_error(ts, c, 1)), c))
    }
}

/// A unary operator at `c` and the item after it that binds at least as tightly
/// as the operator.
pub open spec fn unary_parse(ts: Seq<TokenV>, c: int) -> Option<(Result<ExprV, ErrorV>, int)>
    decreases ts.len() - c, 1int,
{
    if c < ts.len() {
        match unary_operator_of(ts[c]) {
            Some(op) => match item(ts, c + 1, unary_precedence(op)) {
                Some((Ok(Some(r)), c2)) => Some((Ok(ExprV::Unary(op, Box::new(r))), c2)),
                Some((Ok(None), c2)) => Some((Err(error_at(ts, expression_message(), c)), c2)),
                Some((Err(e), c2)) => Some((Err(e), c2)),
                None => None,
            },
            None => Some((Err(error_at(ts, crate::query::expr::error::unary_message(), c)), c + 1)),
        }
    } else {
        Some((Err(offset_error(ts, c, 1)), c))
    }
}

/// A function call at `c`: a name, `(`, and its arguments.
pub open spec fn fn_parse(ts: Seq<TokenV>, c: int) -> Option<(Result<ExprV, ErrorV>, int)>
    decreases ts.len() - c, 1int,
{
    if c < ts.len() {
        match ts[c] {
            TokenV::Ident(name) => if c + 1 < ts.len() {
                if ts[c + 1] == TokenV::Symbol(Symbol::ParenLeft) {
                    match fn_params(ts, c + 2, c, seq![]) {
                        Some((Ok(ps), c2)) => Some((Ok(ExprV::Function(name, ps)), c2)),
                        Some((Err(e), c2)) => Some((Err(e), c2)),
                        None => None,
                    }
                } else {
                    Some((Err(error_at(ts, function_message(), c)), c + 2))
                }
            } else {
                Some((Err(offset_error(ts, c + 1, 1)), c + 1))
            },
            _ => Some((Err(error_at(ts, function_message(), c)), c + 1)),
        }
    } else {
        Some((Err(offset_error(ts, c, 1)), c))
    }
}

/// The arguments of a function call from `c` on, each followed by `,` or by the
/// closing `)`; `ps` are those read so far, `head` is where the call starts.
pub open spec fn fn_params(ts: Seq<TokenV>, c: int, head: int, ps: Seq<ExprV>) -> Option<
    (Result<Seq<ExprV>, ErrorV>, int),
>
    decreases ts.len() - c, 5int,
{
    match expr_parse(ts, c) {
        Some((Ok(x), c2)) => if c <= c2 < ts.len() {
            if ts[c2] == TokenV::Symbol(Symbol::Comma) {
                fn_params(ts, c2 + 1, head, ps.push(x))
            } else if ts[c2] == TokenV::Symbol(Symbol::ParenRight) {
                Some((Ok(ps.push(x)), c2 + 1))
            } else {
                Some((Err(error_at(ts, function_message(), head)), c2 + 1))
            }
        } else if c2 == ts.len() {
            Some((Err(offset_error(ts, c2, 1)), c2))
        } else {
            None
        },
        Some((Err(e), c2)) => Some((Err(e), c2)),
        None => None,
    }
}

/// The first `)` at or after `i` tokens past the cursor: its distance from the
/// cursor.
pub fn paren_right_after(buffer: &ParseBuffer, i: usize) -> (r: Option<usize>)
    ensures
        match find_paren_right(buffer.tokens(), buffer.cursor_at() + i) {
            Some(k) => r == Some((k - buffer.cursor_at()) as usize),
            None => r is None,
        },
{
    let ghost ts = buffer.tokens();
    let ghost c = buffer.cursor_at();
    let n = buffer.bounds();
    let tokens = buffer.get_tokens();
    assert(token_values(tokens@).len() == tokens@.len());
    assert forall|j: int| 0 <= j < tokens@.len() implies tokens@[j]@ == ts[c + j] by {
        assert(token_values(tokens@)[j] == tokens@[j]@);
    }
    let mut j = i;
    while j < tokens.len()
        invariant
            ts == buffer.tokens(),
            c == buffer.cursor_at(),
            0 <= c <= ts.len(),
            tokens@.len() == ts.len() - c,
            forall|m: int| 0 <= m < tokens@.len() ==> tokens@[m]@ == ts[c + m],
            i <= j,
            find_paren_right(ts, c + i) == find_paren_right(ts, c + j),
        decreases tokens@.len() - j,
    {
        match &tokens[j] {
            Token::Symbol(Symbol::ParenRight) => {
                return Some(j);
            },
            _ => {},
        }
        j = j + 1;
    }
    None
}

impl Expression {
    /// The item at the cursor that binds at least as tightly as `precedence`.
    #[verifier::rlimit(60)]
    #[verifier::spinoff_prover]
    fn parse_item_head(buffer: &mut ParseBuffer, precedence: Precedence) -> (r: Option<
        Result<Option<Expression>, Error>,
    >)
        ensures
            final(buffer).tokens() == old(buffer).tokens(),
            match r {
                Some(res) => old(buffer).cursor_at() <= final(buffer).cursor_at() && item_head(
                    old(buffer).tokens(),
                    old(buffer).cursor_at(),
                    precedence,
                ) == Some((item_view(res), final(buffer).cursor_at())),
                None => item_head(old(buffer).tokens(), old(buffer).cursor_at(), precedence) is None,
            },
        decreases old(buffer).tokens().len() - old(buffer).cursor_at(), 2int,
    {
        let ghost ts = buffer.tokens();
        let ghost c = buffer.cursor_at();
        let head = buffer.cursor();
        let n = buffer.bounds();
        let result: Expression;
        if buffer.peek_token(&Token::Symbol(Symbol::ParenLeft)) {
            match buffer.pop_token() {
                Ok(_) => {},
                Err(e) => {
                    return Some(Err(e));
                },
            }
            let offset = match paren_right_after(buffer, 0) {
                Some(o) => o,
                None => {
                    return Some(
                        Err(buffer.error_at(ExprParseError::CannotFindRightParen.message(), head)),
                    );
                },
            };
            proof {
                lemma_find_paren_right(ts, c + 1);
            }
            let mut new_buffer = buffer.split_at(offset);
            let expr = match Expression::parse_expression(&mut new_buffer) {
                Some(Ok(expr)) => expr,
                Some(Err(e)) => {
                    return Some(Err(e));
                },
                None => {
                    return None;
                },
            };
            if !new_buffer.is_empty() {
                return None;
            }
            match buffer.pop_token() {
                Ok(_) => {},
                Err(e) => {
                    return Some(Err(e));
                },
            }
            result = expr;
        } else if precedence.at_most(&Precedence::Lit) && buffer.peek::<Literal>() {
            result = Expression::Literal(
                match Literal::parse_literal(buffer) {
                    Some(Ok(l)) => l,
                    Some(Err(e)) => {
                        return Some(Err(e));
                    },
                    None => {
                        return None;
                    },
                },
            );
        } else if precedence.at_most(&Precedence::FunctionCall) && buffer.peek::<FunctionCall>() {
            result = Expression::Function(
                match FunctionCall::parse_call(buffer) {
                    Some(Ok(f)) => f,
                    Some(Err(e)) => {
                        return Some(Err(e));
                    },
                    None => {
                        return None;
                    },
                },
            );
        } else if precedence.at_most(&Precedence::Ident) && buffer.peek::<DatabaseIdent>() {
            result = Expression::Ident(
                match buffer.parse::<DatabaseIdent>() {
                    Ok(i) => i,
                    Err(e) => {
                        return Some(Err(e));
                    },
                },
            );
        } else if buffer.peek::<UnaryOperator>() {
            let operator = match UnaryOperator::peek_operator(buffer) {
                Ok(op) => op,
                Err(e) => {
                    return Some(Err(e));
                },
            };
            if precedence.at_most(&operator.precedence()) {
                result = Expression::Unary(
                    match UnaryExpression::parse_unary(buffer) {
                        Some(Ok(u)) => u,
                        Some(Err(e)) => {
                            return Some(Err(e));
                        },
                        None => {
                            return None;
                        },
                    },
                );
            } else {
                return Some(Ok(None));
            }
        } else {
            return Some(
                Err(buffer.error_at(ExprParseError::CannotParseIntoExpression.message(), head)),
            );
        }
        Some(Ok(Some(result)))
    }

    /// Parses an item that binds at least as tightly as `precedence`, and the
    /// binary operators of at least that precedence that follow it.
    pub fn parse_item_with_precedence(buffer: &mut ParseBuffer, precedence: Precedence) -> (r:
        Option<Result<Option<Expression>, Error>>)
        ensures
            final(buffer).tokens() == old(buffer).tokens(),
            match r {
                Some(res) => old(buffer).cursor_at() <= final(buffer).cursor_at() && item(
                    old(buffer).tokens(),
                    old(buffer).cursor_at(),
                    precedence,
                ) == Some((item_view(res), final(buffer).cursor_at())),
                None => item(old(buffer).tokens(), old(buffer).cursor_at(), precedence) is None,
            },
        decreases old(buffer).tokens().len() - old(buffer).cursor_at(), 3int,
    {
        let ghost ts = buffer.tokens();
        let ghost c = buffer.cursor_at();
        let mut result = match Expression::parse_item_head(buffer, precedence) {
            Some(Ok(Some(result))) => result,
            Some(Ok(None)) => {
                return Some(Ok(None));
            },
            Some(Err(e)) => {
                return Some(Err(e));
            },
            None => {
                return None;
            },
        };
        let n1 = buffer.bounds();
        loop
            invariant
                buffer.tokens() == ts,
                ts == old(buffer).tokens(),
                c == old(buffer).cursor_at(),
                c <= buffer.cursor_at() <= ts.len(),
                item(ts, c, precedence) == bin_loop(ts, buffer.cursor_at(), precedence, result@),
            decreases ts.len() - buffer.cursor_at(),
        {
            let operator = match BinaryOperator::peek_operator(buffer) {
                Ok(op) => op,
                Err(_) => {
                    return Some(Ok(Some(result)));
                },
            };
            if precedence.at_most(&operator.precedence()) {
                let b = match BinaryExpression::parse_right_side(buffer, result) {
                    Some(Ok(b)) => b,
                    Some(Err(e)) => {
                        return Some(Err(e));
                    },
                    None => {
                        return None;
                    },
                };
                let n2 = buffer.bounds();
                result = Expression::Binary(b);
            } else {
                return Some(Ok(Some(result)));
            }
        }
    }

    /// Parses an expression: an item of any precedence.
    pub fn parse_expression(buffer: &mut ParseBuffer) -> (r: Option<Result<Expression, Error>>)
        ensures
            final(buffer).tokens() == old(buffer).tokens(),
            match r {
                Some(res) => old(buffer).cursor_at() <= final(buffer).cursor_at() && expr_parse(
                    old(buffer).tokens(),
                    old(buffer).cursor_at(),
                ) == Some((result_view(res), final(buffer).cursor_at())),
                None => expr_parse(old(buffer).tokens(), old(buffer).cursor_at()) is None,
            },
        decreases old(buffer).tokens().len() - old(buffer).cursor_at(), 4int,
    {
        let head = buffer.cursor();
        let n = buffer.bounds();
        match Expression::parse_item_with_precedence(buffer, Precedence::Lowest) {
            Some(Ok(Some(e))) => Some(Ok(e)),
            Some(Ok(None)) => Some(
                Err(buffer.error_at(ExprParseError::CannotParseIntoExpression.message(), head)),
            ),
            Some(Err(e)) => Some(Err(e)),
            None => None,
        }
    }
}

impl Parse for Expression {
    open spec fn parse_spec(tokens: Seq<TokenV>, cursor: int) -> Option<(Result<ExprV, ErrorV>, int)> {
        expr_parse(tokens, cursor)
    }

    fn parse(buffer: &mut ParseBuffer) -> (r: Result<Expression, Error>) {
        match Expression::parse_expression(buffer) {
            Some(r) => r,
            None => {
                proof {
                    assert(false);
                }
                Err(Error::head(String::new(), String::new()))
            },
        }
    }
}

} // verus!

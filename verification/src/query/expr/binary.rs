use vstd::prelude::*;

use crate::query::expr::error::{binary_message, expression_message, ExprParseError};
use crate::query::expr::expression::{
    bin_loop, binary_view, expr_parse, item, item_head, item_view, right_side, ExprV, Expression,
};
use crate::query::expr::function::fn_peek;
use crate::query::expr::ident::{ident_parse_from, ident_peek_from};
use crate::query::expr::literal::lit_peek;
use crate::query::expr::precedence::Precedence;
use crate::query::parse::error::{Error, ErrorV};
use crate::query::parse::lex::{token_text, Keyword, Symbol, Token, TokenV};
use crate::query::parse::parser::{error_at, offset_error, result_view, Parse, ParseBuffer, Peek};

verus! {

/// An operator that stands between its two operands.
#[derive(Clone, Copy, Debug, PartialEq, Eq, Structural)]
pub enum BinaryOperator {
    BitXor,
    Multi,
    Mod,
    Div,
    Add,
    Sub,
    BitLeftShift,
    BitRightShift,
    BitAnd,
    BitOr,
    GT,
    LT,
    GTE,
    LTE,
    EQ,
    NEQ,
    And,
    Or,
    Xor,
}

impl View for BinaryOperator {
    type V = BinaryOperator;

    open spec fn view(&self) -> BinaryOperator {
        *self
    }
}

/// The binary operator that a token is.
pub open spec fn binary_operator_of(t: TokenV) -> Option<BinaryOperator> {
    match t {
        TokenV::Symbol(Symbol::Caret) => Some(BinaryOperator::BitXor),
        TokenV::Symbol(Symbol::Mul) => Some(BinaryOperator::Multi),
        TokenV::Symbol(Symbol::Mod) => Some(BinaryOperator::Mod),
        TokenV::Symbol(Symbol::Div) => Some(BinaryOperator::Div),
        TokenV::Symbol(Symbol::Add) => Some(BinaryOperator::Add),
        TokenV::Symbol(Symbol::Minus) => Some(BinaryOperator::Sub),
        TokenV::Symbol(Symbol::LeftShift) => Some(BinaryOperator::BitLeftShift),
        TokenV::Symbol(Symbol::RightShift) => Some(BinaryOperator::BitRightShift),
        TokenV::Symbol(Symbol::And) => Some(BinaryOperator::BitAnd),
        TokenV::Symbol(Symbol::Or) => Some(BinaryOperator::BitOr),
        TokenV::Symbol(Symbol::Greater) => Some(BinaryOperator::GT),
        TokenV::Symbol(Symbol::Less) => Some(BinaryOperator::LT),
        TokenV::Symbol(Symbol::GreaterEqual) => Some(BinaryOperator::GTE),
        TokenV::Symbol(Symbol::LessEqual) => Some(BinaryOperator::LTE),
        TokenV::Symbol(Symbol::Equal) => Some(BinaryOperator::EQ),
        TokenV::Symbol(Symbol::NotEqual) => Some(BinaryOperator::NEQ),
        TokenV::Keyword(Keyword::And) => Some(BinaryOperator::And),
        TokenV::Keyword(Keyword::Or) => Some(BinaryOperator::Or),
        TokenV::Keyword(Keyword::Xor) => Some(BinaryOperator::Xor),
        _ => None,
    }
}

/// How tightly a binary operator binds.
pub open spec fn binary_precedence(op: BinaryOperator) -> Precedence {
    match op {
        BinaryOperator::BitXor => Precedence::BitXor,
        BinaryOperator::Multi => Precedence::Term,
        BinaryOperator::Mod => Precedence::Term,
        BinaryOperator::Div => Precedence::Term,
        BinaryOperator::Add => Precedence::Add,
        BinaryOperator::Sub => Precedence::Add,
        BinaryOperator::BitLeftShift => Precedence::BitShift,
        BinaryOperator::BitRightShift => Precedence::BitShift,
        BinaryOperator::BitAnd => Precedence::BitAnd,
        BinaryOperator::BitOr => Precedence::BitOr,
        BinaryOperator::GT => Precedence::Comparison,
        BinaryOperator::LT => Precedence::Comparison,
        BinaryOperator::GTE => Precedence::Comparison,
        BinaryOperator::LTE => Precedence::Comparison,
        BinaryOperator::EQ => Precedence::Comparison,
        BinaryOperator::NEQ => Precedence::Comparison,
        BinaryOperator::And => Precedence::And,
        BinaryOperator::Or => Precedence::Or,
        BinaryOperator::Xor => Precedence::Xor,
    }
}

/// Reading a binary operator at `c`: the operator or the error, and the cursor after.
pub open spec fn binary_operator_parse(ts: Seq<TokenV>, c: int) -> (Result<BinaryOperator, ErrorV>, int) {
    if c < ts.len() {
        match binary_operator_of(ts[c]) {
            Some(op) => (Ok(op), c + 1),
            None => (Err(error_at(ts, binary_message(), c)), c + 1),
        }
    } else {
        (Err(offset_error(ts, c, 1)), c)
    }
}

impl Parse for BinaryOperator {
    open spec fn parse_spec(tokens: Seq<TokenV>, cursor: int) -> Option<
        (Result<BinaryOperator, ErrorV>, int),
    > {
        Some(binary_operator_parse(tokens, cursor))
    }

    fn parse(buffer: &mut ParseBuffer) -> (r: Result<BinaryOperator, Error>) {
        let cursor = buffer.cursor();
        let n = buffer.bounds();
        match buffer.pop_token() {
            Ok(Token::Symbol(Symbol::Caret)) => Ok(BinaryOperator::BitXor),
            Ok(Token::Symbol(Symbol::Mul)) => Ok(BinaryOperator::Multi),
            Ok(Token::Symbol(Symbol::Mod)) => Ok(BinaryOperator::Mod),
            Ok(Token::Symbol(Symbol::Div)) => Ok(BinaryOperator::Div),
            Ok(Token::Symbol(Symbol::Add)) => Ok(BinaryOperator::Add),
            Ok(Token::Symbol(Symbol::Minus)) => Ok(BinaryOperator::Sub),
            Ok(Token::Symbol(Symbol::LeftShift)) => Ok(BinaryOperator::BitLeftShift),
            Ok(Token::Symbol(Symbol::RightShift)) => Ok(BinaryOperator::BitRightShift),
            Ok(Token::Symbol(Symbol::And)) => Ok(BinaryOperator::BitAnd),
            Ok(Token::Symbol(Symbol::Or)) => Ok(BinaryOperator::BitOr),
            Ok(Token::Symbol(Symbol::Greater)) => Ok(BinaryOperator::GT),
            Ok(Token::Symbol(Symbol::Less)) => Ok(BinaryOperator::LT),
            Ok(Token::Symbol(Symbol::GreaterEqual)) => Ok(BinaryOperator::GTE),
            Ok(Token::Symbol(Symbol::LessEqual)) => Ok(BinaryOperator::LTE),
            Ok(Token::Symbol(Symbol::Equal)) => Ok(BinaryOperator::EQ),
            Ok(Token::Symbol(Symbol::NotEqual)) => Ok(BinaryOperator::NEQ),
            Ok(Token::Keyword(Keyword::And)) => Ok(BinaryOperator::And),
            Ok(Token::Keyword(Keyword::Or)) => Ok(BinaryOperator::Or),
            Ok(Token::Keyword(Keyword::Xor)) => Ok(BinaryOperator::Xor),
            Ok(_) => Err(
                buffer.error_at(ExprParseError::CannotParseIntoBinaryOperator.message(), cursor),
            ),
            Err(e) => Err(e),
        }
    }
}

impl Peek for BinaryOperator {
    open spec fn peek_spec(tokens: Seq<TokenV>, cursor: int) -> bool {
        cursor < tokens.len() && binary_operator_of(tokens[cursor]) is Some
    }

    fn peek(buffer: &ParseBuffer) -> (r: bool) {
        let mut buffer_cloned = buffer.copy();
        match buffer_cloned.parse::<BinaryOperator>() {
            Ok(_) => true,
            Err(_) => false,
        }
    }
}

impl BinaryOperator {
    pub fn precedence(&self) -> (r: Precedence)
        ensures
            r == binary_precedence(*self),
    {
        match self {
            BinaryOperator::BitXor => Precedence::BitXor,
            BinaryOperator::Multi => Precedence::Term,
            BinaryOperator::Mod => Precedence::Term,
            BinaryOperator::Div => Precedence::Term,
            BinaryOperator::Add => Precedence::Add,
            BinaryOperator::Sub => Precedence::Add,
            BinaryOperator::BitLeftShift => Precedence::BitShift,
            BinaryOperator::BitRightShift => Precedence::BitShift,
            BinaryOperator::BitAnd => Precedence::BitAnd,
            BinaryOperator::BitOr => Precedence::BitOr,
            BinaryOperator::GT => Precedence::Comparison,
            BinaryOperator::LT => Precedence::Comparison,
            BinaryOperator::GTE => Precedence::Comparison,
            BinaryOperator::LTE => Precedence::Comparison,
            BinaryOperator::EQ => Precedence::Comparison,
            BinaryOperator::NEQ => Precedence::Comparison,
            BinaryOperator::And => Precedence::And,
            BinaryOperator::Or => Precedence::Or,
            BinaryOperator::Xor => Precedence::Xor,
        }
    }

    /// The binary operator at the cursor, read without moving the cursor.
    pub fn peek_operator(buffer: &ParseBuffer) -> (r: Result<BinaryOperator, Error>)
        ensures
            result_view(r) == binary_operator_parse(buffer.tokens(), buffer.cursor_at()).0,
    {
        let mut buffer_cloned = buffer.copy();
        buffer_cloned.parse::<BinaryOperator>()
    }

    /// The binary expression of this operator applied to `left` and `right`.
    pub fn with_expr(&self, left: Expression, right: Expression) -> (r: BinaryExpression)
        ensures
            r@ == ExprV::Binary(*self, Box::new(left@), Box::new(right@)),
    {
        let boxed_left = Box::new(left);
        let boxed_right = Box::new(right);
        match self {
            BinaryOperator::BitXor => BinaryExpression::BitXor(boxed_left, boxed_right),
            BinaryOperator::Multi => BinaryExpression::Multi(boxed_left, boxed_right),
            BinaryOperator::Mod => BinaryExpression::Mod(boxed_left, boxed_right),
            BinaryOperator::Div => BinaryExpression::Div(boxed_left, boxed_right),
            BinaryOperator::Add => BinaryExpression::Add(boxed_left, boxed_right),
            BinaryOperator::Sub => BinaryExpression::Sub(boxed_left, boxed_right),
            BinaryOperator::BitLeftShift => BinaryExpression::BitLeftShift(boxed_left, boxed_right),
            BinaryOperator::BitRightShift => BinaryExpression::BitRightShift(boxed_left, boxed_right),
            BinaryOperator::BitAnd => BinaryExpression::BitAnd(boxed_left, boxed_right),
            BinaryOperator::BitOr => BinaryExpression::BitOr(boxed_left, boxed_right),
            BinaryOperator::GT => BinaryExpression::GT(boxed_left, boxed_right),
            BinaryOperator::LT => BinaryExpression::LT(boxed_left, boxed_right),
            BinaryOperator::GTE => BinaryExpression::GTE(boxed_left, boxed_right),
            BinaryOperator::LTE => BinaryExpression::LTE(boxed_left, boxed_right),
            BinaryOperator::EQ => BinaryExpression::EQ(boxed_left, boxed_right),
            BinaryOperator::NEQ => BinaryExpression::NEQ(boxed_left, boxed_right),
            BinaryOperator::And => BinaryExpression::And(boxed_left, boxed_right),
            BinaryOperator::Or => BinaryExpression::Or(boxed_left, boxed_right),
            BinaryOperator::Xor => BinaryExpression::Xor(boxed_left, boxed_right),
        }
    }
}

/// An operator applied to the expressions on either side of it.
#[derive(Debug, PartialEq, Eq)]
pub enum BinaryExpression {
    BitXor(Box<Expression>, Box<Expression>),
    Multi(Box<Expression>, Box<Expression>),
    Mod(Box<Expression>, Box<Expression>),
    Div(Box<Expression>, Box<Expression>),
    Add(Box<Expression>, Box<Expression>),
    Sub(Box<Expression>, Box<Expression>),
    BitLeftShift(Box<Expression>, Box<Expression>),
    BitRightShift(Box<Expression>, Box<Expression>),
    BitAnd(Box<Expression>, Box<Expression>),
    BitOr(Box<Expression>, Box<Expression>),
    GT(Box<Expression>, Box<Expression>),
    LT(Box<Expression>, Box<Expression>),
    GTE(Box<Expression>, Box<Expression>),
    LTE(Box<Expression>, Box<Expression>),
    EQ(Box<Expression>, Box<Expression>),
    NEQ(Box<Expression>, Box<Expression>),
    And(Box<Expression>, Box<Expression>),
    Or(Box<Expression>, Box<Expression>),
    Xor(Box<Expression>, Box<Expression>),
}

impl View for BinaryExpression {
    type V = ExprV;

    open spec fn view(&self) -> ExprV {
        binary_view(*self)
    }
}

impl BinaryExpression {
    /// The operator of the expression.
    pub fn operator(&self) -> (r: BinaryOperator)
        ensures
            self@ matches ExprV::Binary(op, _, _) && op == r,
    {
        match self {
            BinaryExpression::BitXor(_, _) => BinaryOperator::BitXor,
            BinaryExpression::Multi(_, _) => BinaryOperator::Multi,
            BinaryExpression::Mod(_, _) => BinaryOperator::Mod,
            BinaryExpression::Div(_, _) => BinaryOperator::Div,
            BinaryExpression::Add(_, _) => BinaryOperator::Add,
            BinaryExpression::Sub(_, _) => BinaryOperator::Sub,
            BinaryExpression::BitLeftShift(_, _) => BinaryOperator::BitLeftShift,
            BinaryExpression::BitRightShift(_, _) => BinaryOperator::BitRightShift,
            BinaryExpression::BitAnd(_, _) => BinaryOperator::BitAnd,
            BinaryExpression::BitOr(_, _) => BinaryOperator::BitOr,
            BinaryExpression::GT(_, _) => BinaryOperator::GT,
            BinaryExpression::LT(_, _) => BinaryOperator::LT,
            BinaryExpression::GTE(_, _) => BinaryOperator::GTE,
            BinaryExpression::LTE(_, _) => BinaryOperator::LTE,
            BinaryExpression::EQ(_, _) => BinaryOperator::EQ,
            BinaryExpression::NEQ(_, _) => BinaryOperator::NEQ,
            BinaryExpression::And(_, _) => BinaryOperator::And,
            BinaryExpression::Or(_, _) => BinaryOperator::Or,
            BinaryExpression::Xor(_, _) => BinaryOperator::Xor,
        }
    }

    /// Parses a binary operator at the cursor and the item after it that binds at
    /// least as tightly as the operator, with `left` as the left operand.
    pub fn parse_right_side(buffer: &mut ParseBuffer, left: Expression) -> (r: Option<
        Result<BinaryExpression, Error>,
    >)
        ensures
            final(buffer).tokens() == old(buffer).tokens(),
            match r {
                Some(res) => (old(buffer).cursor_at() < final(buffer).cursor_at() || res is Err)
                    && old(buffer).cursor_at() <= final(buffer).cursor_at() && right_side(
                    old(buffer).tokens(),
                    old(buffer).cursor_at(),
                    left@,
                ) == Some((result_view(res), final(buffer).cursor_at())),
                None => right_side(old(buffer).tokens(), old(buffer).cursor_at(), left@) is None,
            },
        decreases old(buffer).tokens().len() - old(buffer).cursor_at(), 1int,
    {
        let ghost ts = buffer.tokens();
        let head = buffer.cursor();
        let n = buffer.bounds();
        let operator: BinaryOperator = match buffer.parse::<BinaryOperator>() {
            Ok(op) => op,
            Err(e) => {
                return Some(Err(e));
            },
        };
        let n2 = buffer.bounds();
        let right = match Expression::parse_item_with_precedence(buffer, operator.precedence()) {
            Some(Ok(Some(right))) => right,
            Some(Ok(None)) => {
                return Some(
                    Err(buffer.error_at(ExprParseError::CannotParseIntoExpression.message(), head)),
                );
            },
            Some(Err(e)) => {
                return Some(Err(e));
            },
            None => {
                return None;
            },
        };
        Some(Ok(operator.with_expr(left, right)))
    }
}

/// A binary operator is seen at the cursor exactly when reading one succeeds, and
/// reading it moves the cursor past one token.
pub proof fn law_binary_operator_peek_parses(ts: Seq<TokenV>, c: int)
    ensures
        BinaryOperator::peek_spec(ts, c) <==> BinaryOperator::parse_spec(ts, c) matches Some(
            (Ok(_), _),
        ),
        BinaryOperator::peek_spec(ts, c) ==> (BinaryOperator::parse_spec(ts, c) matches Some((_, c2)) && c2 == c
            + 1),
{
}

/// The text that writes a binary operator in a query (keywords in lower case).
pub open spec fn binary_operator_text(op: BinaryOperator) -> Seq<char> {
    match op {
        BinaryOperator::BitXor => seq!['^'],
        BinaryOperator::Multi => seq!['*'],
        BinaryOperator::Mod => seq!['%'],
        BinaryOperator::Div => seq!['/'],
        BinaryOperator::Add => seq!['+'],
        BinaryOperator::Sub => seq!['-'],
        BinaryOperator::BitLeftShift => seq!['<', '<'],
        BinaryOperator::BitRightShift => seq!['>', '>'],
        BinaryOperator::BitAnd => seq!['&'],
        BinaryOperator::BitOr => seq!['|'],
        BinaryOperator::GT => seq!['>'],
        BinaryOperator::LT => seq!['<'],
        BinaryOperator::GTE => seq!['>', '='],
        BinaryOperator::LTE => seq!['<', '='],
        BinaryOperator::EQ => seq!['='],
        BinaryOperator::NEQ => seq!['!', '='],
        BinaryOperator::And => seq!['a', 'n', 'd'],
        BinaryOperator::Or => seq!['o', 'r'],
        BinaryOperator::Xor => seq!['x', 'o', 'r'],
    }
}

/// Reading a binary operator at a token gives the operator that the token
/// writes, and moves past the token: the operator's text is the token's text,
/// the token is a symbol or a keyword, and the keywords `or`, `and` and `xor` read
/// as `Or`, `And` and `Xor`.
pub proof fn law_binary_operator_tokens(ts: Seq<TokenV>, c: int)
    requires
        0 <= c < ts.len(),
    ensures
        BinaryOperator::parse_spec(ts, c) matches Some((Ok(op), c2)) ==> (token_text(ts[c])
            == binary_operator_text(op) && c2 == c + 1 && (ts[c] is Symbol || ts[c] is Keyword)),
        ts[c] == TokenV::Keyword(Keyword::Or) ==> BinaryOperator::parse_spec(ts, c) == Some(
            (Ok::<BinaryOperator, ErrorV>(BinaryOperator::Or), c + 1),
        ),
        ts[c] == TokenV::Keyword(Keyword::And) ==> BinaryOperator::parse_spec(ts, c) == Some(
            (Ok::<BinaryOperator, ErrorV>(BinaryOperator::And), c + 1),
        ),
        ts[c] == TokenV::Keyword(Keyword::Xor) ==> BinaryOperator::parse_spec(ts, c) == Some(
            (Ok::<BinaryOperator, ErrorV>(BinaryOperator::Xor), c + 1),
        ),
{
}

/// Two names joined by a keyword operator parse as that operator applied to the
/// two names: `a or b` is `Or(a, b)`, `a and b` is `And(a, b)`, `a xor b` is
/// `Xor(a, b)`.
pub proof fn law_keyword_operator_expressions(a: Seq<char>, b: Seq<char>)
    ensures
        expr_parse(seq![TokenV::Ident(a), TokenV::Keyword(Keyword::Or), TokenV::Ident(b)], 0)
            == Some(
            (
                Ok::<ExprV, ErrorV>(
                    ExprV::Binary(
                        BinaryOperator::Or,
                        Box::new(ExprV::Ident(seq![a])),
                        Box::new(ExprV::Ident(seq![b])),
                    ),
                ),
                3int,
            ),
        ),
        expr_parse(seq![TokenV::Ident(a), TokenV::Keyword(Keyword::And), TokenV::Ident(b)], 0)
            == Some(
            (
                Ok::<ExprV, ErrorV>(
                    ExprV::Binary(
                        BinaryOperator::And,
                        Box::new(ExprV::Ident(seq![a])),
                        Box::new(ExprV::Ident(seq![b])),
                    ),
                ),
                3int,
            ),
        ),
        expr_parse(seq![TokenV::Ident(a), TokenV::Keyword(Keyword::Xor), TokenV::Ident(b)], 0)
            == Some(
            (
                Ok::<ExprV, ErrorV>(
                    ExprV::Binary(
                        BinaryOperator::Xor,
                        Box::new(ExprV::Ident(seq![a])),
                        Box::new(ExprV::Ident(seq![b])),
                    ),
                ),
                3int,
            ),
        ),
{
    lemma_name_op_name(a, b, Keyword::Or, BinaryOperator::Or);
    lemma_name_op_name(a, b, Keyword::And, BinaryOperator::And);
    lemma_name_op_name(a, b, Keyword::Xor, BinaryOperator::Xor);
}

proof fn lemma_name_op_name(a: Seq<char>, b: Seq<char>, k: Keyword, op: BinaryOperator)
    requires
        binary_operator_of(TokenV::Keyword(k)) == Some(op),
    ensures
        expr_parse(seq![TokenV::Ident(a), TokenV::Keyword(k), TokenV::Ident(b)], 0) == Some(
            (
                Ok::<ExprV, ErrorV>(
                    ExprV::Binary(op, Box::new(ExprV::Ident(seq![a])), Box::new(ExprV::Ident(seq![b]))),
                ),
                3int,
            ),
        ),
{
    let ts = seq![TokenV::Ident(a), TokenV::Keyword(k), TokenV::Ident(b)];
    reveal_with_fuel(ident_parse_from, 2);
    reveal_with_fuel(ident_peek_from, 2);
    assert(!lit_peek(ts, 0, false));
    assert(!lit_peek(ts, 2, false));
    assert(!fn_peek(ts, 0));
    assert(!fn_peek(ts, 2));
    assert(ident_peek_from(ts, 0));
    assert(ident_peek_from(ts, 2));
    assert(ident_parse_from(ts, 0, 0, seq![]) == (Ok::<Seq<Seq<char>>, ErrorV>(seq![a]), 1int));
    assert(ident_parse_from(ts, 2, 2, seq![]) == (Ok::<Seq<Seq<char>>, ErrorV>(seq![b]), 3int));
    assert(item_head(ts, 0, Precedence::Lowest) == Some(
        (Ok::<Option<ExprV>, ErrorV>(Some(ExprV::Ident(seq![a]))), 1int),
    ));
    let p = binary_precedence(op);
    assert(item_head(ts, 2, p) == Some(
        (Ok::<Option<ExprV>, ErrorV>(Some(ExprV::Ident(seq![b]))), 3int),
    ));
    assert(bin_loop(ts, 3, p, ExprV::Ident(seq![b])) == Some(
        (Ok::<Option<ExprV>, ErrorV>(Some(ExprV::Ident(seq![b]))), 3int),
    ));
    assert(item(ts, 2, p) == Some((Ok::<Option<ExprV>, ErrorV>(Some(ExprV::Ident(seq![b]))), 3int)));
    let x = ExprV::Binary(op, Box::new(ExprV::Ident(seq![a])), Box::new(ExprV::Ident(seq![b])));
    assert(right_side(ts, 1, ExprV::Ident(seq![a])) == Some((Ok::<ExprV, ErrorV>(x), 3int)));
    assert(bin_loop(ts, 3, Precedence::Lowest, x) == Some(
        (Ok::<Option<ExprV>, ErrorV>(Some(x)), 3int),
    ));
    assert(bin_loop(ts, 1, Precedence::Lowest, ExprV::Ident(seq![a])) == Some(
        (Ok::<Option<ExprV>, ErrorV>(Some(x)), 3int),
    ));
    assert(item(ts, 0, Precedence::Lowest) == Some((Ok::<Option<ExprV>, ErrorV>(Some(x)), 3int)));
}

} // verus!

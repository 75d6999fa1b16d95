use vstd::prelude::*;

use crate::query::expr::error::{float_message, ident_message, ExprParseError};
use crate::query::expr::float::{float_text, is_float_text};
use crate::query::parse::error::{Error, ErrorV};
use crate::query::parse::lex::{token_values, Lit, LitV, Symbol, Token, TokenV};
use crate::query::parse::parser::{error_at, offset_error, Parse, ParseBuffer, Peek};

verus! {

/// A floating-point literal, held as the text that the query wrote (a text that
/// std reads as an `f64`) and whether it is negated.
#[derive(Debug, PartialEq, Eq)]
pub struct FloatLit {
    pub negative: bool,
    pub text: String,
}

/// A literal of an expression.
#[derive(Debug, PartialEq, Eq)]
pub enum Literal {
    Bool(bool),
    Int(i64),
    Float(FloatLit),
    Str(String),
    Char(char),
    External(String),
}

/// The value of a literal; a float is whether it is negated and its text.
pub enum LiteralV {
    Bool(bool),
    Int(i64),
    Float(bool, Seq<char>),
    Str(Seq<char>),
    Char(char),
    External(Seq<char>),
}

impl View for Literal {
    type V = LiteralV;

    open spec fn view(&self) -> LiteralV {
        match self {
            Literal::Bool(b) => LiteralV::Bool(*b),
            Literal::Int(v) => LiteralV::Int(*v),
            Literal::Float(f) => LiteralV::Float(f.negative, f.text@),
            Literal::Str(s) => LiteralV::Str(s@),
            Literal::Char(c) => LiteralV::Char(*c),
            Literal::External(s) => LiteralV::External(s@),
        }
    }
}

/// The literal of a literal token; the error is the text of a float literal that
/// is no `f64`.
pub open spec fn from_lit_spec(l: LitV) -> Result<LiteralV, Seq<char>> {
    match l {
        LitV::Int(v) => Ok(LiteralV::Int(v as i64)),
        LitV::Float(t) => if float_text(t) {
            Ok(LiteralV::Float(false, t))
        } else {
            Err(t)
        },
        LitV::Bool(b) => Ok(LiteralV::Bool(b)),
        LitV::String(s) => Ok(LiteralV::Str(s)),
        LitV::Char(c) => Ok(LiteralV::Char(c)),
        LitV::External(s) => Ok(LiteralV::External(s)),
    }
}

/// Parsing a literal at `c`: a literal token, or `-` and a literal (whose number
/// it negates); `None` where the negation overflows.
pub open spec fn lit_parse(ts: Seq<TokenV>, c: int) -> Option<(Result<LiteralV, ErrorV>, int)>
    decreases ts.len() - c,
{
    if c < ts.len() {
        match ts[c] {
            TokenV::Lit(l) => match from_lit_spec(l) {
                Ok(v) => Some((Ok(v), c + 1)),
                Err(t) => Some((Err(error_at(ts, float_message(t), c)), c + 1)),
            },
            TokenV::Symbol(Symbol::Minus) => match lit_parse(ts, c + 1) {
                Some((Ok(LiteralV::Int(v)), c2)) => if v == i64::MIN {
                    None
                } else {
                    Some((Ok(LiteralV::Int((-v) as i64)), c2))
                },
                Some((Ok(LiteralV::Float(neg, t)), c2)) => Some((Ok(LiteralV::Float(!neg, t)), c2)),
                Some((Ok(_), c2)) => Some((Err(error_at(ts, ident_message(), c)), c2)),
                other => other,
            },
            _ => Some((Err(error_at(ts, ident_message(), c)), c + 1)),
        }
    } else {
        Some((Err(offset_error(ts, c, 1)), c))
    }
}

/// A literal stands at `i`: any number of `-` and a literal token, which is a
/// number where a `-` stands before it (`minus`).
pub open spec fn lit_peek(ts: Seq<TokenV>, i: int, minus: bool) -> bool
    decreases ts.len() - i,
{
    if 0 <= i < ts.len() {
        match ts[i] {
            TokenV::Symbol(Symbol::Minus) => lit_peek(ts, i + 1, true),
            TokenV::Lit(l) => !minus || l is Int || l is Float,
            _ => false,
        }
    } else {
        false
    }
}

impl Literal {
    /// The literal of a literal token.
    pub fn from_lit(lit: Lit) -> (r: Result<Literal, ExprParseError>)
        ensures
            match from_lit_spec(lit@) {
                Ok(v) => r matches Ok(x) && x@ == v,
                Err(t) => r matches Err(ExprParseError::CannotParseFloat(s)) && s@ == t,
            },
    {
        match lit {
            Lit::Int(v) => Ok(Literal::Int(v as i64)),
            Lit::Float(v) => {
                if is_float_text(v.as_str()) {
                    Ok(Literal::Float(FloatLit { negative: false, text: v }))
                } else {
                    Err(ExprParseError::CannotParseFloat(v))
                }
            },
            Lit::Bool(v) => Ok(Literal::Bool(v)),
            Lit::String(s) => Ok(Literal::Str(s)),
            Lit::Char(c) => Ok(Literal::Char(c)),
            Lit::External(i) => Ok(Literal::External(i.to_string())),
        }
    }

    /// Reads a literal: a literal token, or `-` and a literal (whose number it
    /// negates); `None` where the negation overflows.
    pub fn parse_literal(buffer: &mut ParseBuffer) -> (r: Option<Result<Literal, Error>>)
        ensures
            final(buffer).tokens() == old(buffer).tokens(),
            match r {
                Some(res) => old(buffer).cursor_at() <= final(buffer).cursor_at() && lit_parse(
                    old(buffer).tokens(),
                    old(buffer).cursor_at(),
                ) == Some(
                    (
                        match res {
                            Ok(v) => Ok::<LiteralV, ErrorV>(v@),
                            Err(e) => Err(e@),
                        },
                        final(buffer).cursor_at(),
                    ),
                ),
                None => lit_parse(old(buffer).tokens(), old(buffer).cursor_at()) is None,
            },
        decreases old(buffer).tokens().len() - old(buffer).cursor_at(),
    {
        let ghost ts = buffer.tokens();
        let before_cursor = buffer.cursor();
        let n = buffer.bounds();
        let first = match buffer.pop_token() {
            Ok(t) => t,
            Err(e) => {
                return Some(Err(e));
            },
        };
        match first {
            Token::Lit(lit) => match Literal::from_lit(lit) {
                Ok(v) => Some(Ok(v)),
                Err(e) => Some(Err(buffer.error_at(e.message(), before_cursor))),
            },
            Token::Symbol(Symbol::Minus) => {
                let next = match Literal::parse_literal(buffer) {
                    Some(Ok(v)) => v,
                    Some(Err(e)) => {
                        return Some(Err(e));
                    },
                    None => {
                        return None;
                    },
                };
                match next {
                    Literal::Int(value) => if value == i64::MIN {
                        None
                    } else {
                        Some(Ok(Literal::Int(-value)))
                    },
                    Literal::Float(value) => Some(
                        Ok(Literal::Float(FloatLit { negative: !value.negative, text: value.text })),
                    ),
                    _ => Some(
                        Err(
                            buffer.error_at(
                                ExprParseError::CannotParseIntoIdent.message(),
                                before_cursor,
                            ),
                        ),
                    ),
                }
            },
            _ => Some(
                Err(
                    buffer.error_at(ExprParseError::CannotParseIntoIdent.message(), before_cursor),
                ),
            ),
        }
    }
}

impl Parse for Literal {
    open spec fn parse_spec(tokens: Seq<TokenV>, cursor: int) -> Option<
        (Result<LiteralV, ErrorV>, int),
    > {
        lit_parse(tokens, cursor)
    }

    fn parse(buffer: &mut ParseBuffer) -> (r: Result<Literal, Error>) {
        match Literal::parse_literal(buffer) {
            Some(r) => r,
            None => {
                proof {
                    assert(false);
                }
                Err(Error::head(String::new(), String::new()))
            },
        }
    }
}

impl Peek for Literal {
    open spec fn peek_spec(tokens: Seq<TokenV>, cursor: int) -> bool {
        lit_peek(tokens, cursor, false)
    }

    fn peek(buffer: &ParseBuffer) -> (r: bool) {
        let ghost ts = buffer.tokens();
        let ghost c = buffer.cursor_at();
        let n = buffer.bounds();
        let tokens = buffer.get_tokens();
        assert(token_values(tokens@).len() == tokens@.len());
        assert forall|j: int| 0 <= j < tokens@.len() implies tokens@[j]@ == ts[c + j] by {
            assert(token_values(tokens@)[j] == tokens@[j]@);
        }
        let mut i: usize = 0;
        let mut minus = false;
        while i < tokens.len()
            invariant
                ts == buffer.tokens(),
                c == buffer.cursor_at(),
                0 <= c <= ts.len(),
                c + i <= ts.len(),
                tokens@.len() == ts.len() - c,
                forall|j: int| 0 <= j < tokens@.len() ==> tokens@[j]@ == ts[c + j],
                lit_peek(ts, c, false) == lit_peek(ts, c + i, minus),
            decreases tokens@.len() - i,
        {
            match &tokens[i] {
                Token::Symbol(Symbol::Minus) => {
                    minus = true;
                    i = i + 1;
                },
                Token::Lit(lit) => {
                    return !minus || matches!(lit, Lit::Int(_) | Lit::Float(_));
                },
                _ => {
                    return false;
                },
            }
        }
        false
    }
}

/// Where the token of a literal stands that begins at `i`: after its `-` signs.
pub open spec fn lit_token_at(ts: Seq<TokenV>, i: int) -> int
    decreases ts.len() - i,
{
    if 0 <= i < ts.len() && ts[i] == TokenV::Symbol(Symbol::Minus) {
        lit_token_at(ts, i + 1)
    } else {
        i
    }
}

/// A float token whose text std does not read as an `f64`.
pub open spec fn unreadable_float(t: TokenV) -> bool {
    t matches TokenV::Lit(LitV::Float(text)) && !float_text(text)
}

proof fn lemma_lit_peek_parses(ts: Seq<TokenV>, i: int, minus: bool)
    requires
        lit_peek(ts, i, minus),
    ensures
        match lit_parse(ts, i) {
            Some((Ok(v), _)) => !minus || v is Int || v is Float,
            Some((Err(_), _)) => unreadable_float(ts[lit_token_at(ts, i)]),
            None => true,
        },
    decreases ts.len() - i,
{
    if ts[i] == TokenV::Symbol(Symbol::Minus) {
        lemma_lit_peek_parses(ts, i + 1, true);
    }
}

/// Where a literal is seen at the cursor, reading it fails only on a float whose
/// text std does not read (or panics on negating the least integer).
pub proof fn law_literal_peek_parses(ts: Seq<TokenV>, c: int)
    requires
        Literal::peek_spec(ts, c),
    ensures
        Literal::parse_spec(ts, c) matches Some((Err(_), _)) ==> unreadable_float(
            ts[lit_token_at(ts, c)],
        ),
{
    lemma_lit_peek_parses(ts, c, false);
}

} // verus!

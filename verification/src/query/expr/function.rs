use vstd::prelude::*;

use crate::query::expr::error::{function_message, ExprParseError};
use crate::query::expr::expression::{
    call_view, expr_parse, exprs_view, find_paren_right, fn_params, fn_parse,
    lemma_exprs_view_push, paren_right_after, ExprV, Expression,
};
use crate::query::parse::error::{Error, ErrorV};
use crate::query::parse::lex::{token_values, Symbol, Token, TokenV};
use crate::query::parse::parser::{result_view, Parse, ParseBuffer, Peek};

verus! {

/// A call of a function of the database: its name and its arguments.
#[derive(Debug, PartialEq, Eq)]
pub struct FunctionCall {
    pub ident: String,
    pub parameters: Vec<Expression>,
}

impl View for FunctionCall {
    type V = ExprV;

    open spec fn view(&self) -> ExprV {
        call_view(*self)
    }
}

/// A function call stands at `c`: a name, `(`, and a `)` somewhere after.
pub open spec fn fn_peek(ts: Seq<TokenV>, c: int) -> bool {
    &&& 0 <= c
    &&& c + 1 < ts.len()
    &&& ts[c] is Ident
    &&& ts[c + 1] == TokenV::Symbol(Symbol::ParenLeft)
    &&& find_paren_right(ts, c + 2) is Some
}

impl FunctionCall {
    /// Parses a name, `(`, and arguments separated by `,` up to `)`.
    pub fn parse_call(buffer: &mut ParseBuffer) -> (r: Option<Result<FunctionCall, Error>>)
        ensures
            final(buffer).tokens() == old(buffer).tokens(),
            match r {
                Some(res) => old(buffer).cursor_at() <= final(buffer).cursor_at() && fn_parse(
                    old(buffer).tokens(),
                    old(buffer).cursor_at(),
                ) == Some((result_view(res), final(buffer).cursor_at())),
                None => fn_parse(old(buffer).tokens(), old(buffer).cursor_at()) is None,
            },
        decreases old(buffer).tokens().len() - old(buffer).cursor_at(), 1int,
    {
        let ghost ts = buffer.tokens();
        let cursor = buffer.cursor();
        let n = buffer.bounds();
        let ident = match buffer.pop_token() {
            Ok(Token::Ident(ident)) => ident.to_string(),
            Ok(_) => {
                return Some(Err(buffer.error_at(ExprParseError::CannotParseIntoFunction.message(), cursor)));
            },
            Err(e) => {
                return Some(Err(e));
            },
        };
        match buffer.pop_token() {
            Ok(Token::Symbol(Symbol::ParenLeft)) => {},
            Ok(_) => {
                return Some(Err(buffer.error_at(ExprParseError::CannotParseIntoFunction.message(), cursor)));
            },
            Err(e) => {
                return Some(Err(e));
            },
        }
        let mut parameters: Vec<Expression> = Vec::new();
        assert(exprs_view(parameters@) =~= seq![]);
        loop
            invariant
                buffer.tokens() == ts,
                ts == old(buffer).tokens(),
                cursor == old(buffer).cursor_at(),
                n == ts.len(),
                cursor + 2 <= buffer.cursor_at() <= ts.len(),
                fn_parse(ts, cursor as int) == match fn_params(
                    ts,
                    buffer.cursor_at(),
                    cursor as int,
                    exprs_view(parameters@),
                ) {
                    Some((Ok(ps), c2)) => Some((Ok::<ExprV, ErrorV>(ExprV::Function(ident@, ps)), c2)),
                    Some((Err(e), c2)) => Some((Err(e), c2)),
                    None => None,
                },
            decreases ts.len() - buffer.cursor_at(),
        {
            let ghost c0 = buffer.cursor_at();
            let ghost ps0 = exprs_view(parameters@);
            let expr = match Expression::parse_expression(buffer) {
                Some(Ok(expr)) => expr,
                Some(Err(e)) => {
                    return Some(Err(e));
                },
                None => {
                    return None;
                },
            };
            let n2 = buffer.bounds();
            proof {
                lemma_exprs_view_push(parameters@, expr);
            }
            parameters.push(expr);
            match buffer.pop_token() {
                Ok(Token::Symbol(Symbol::Comma)) => {},
                Ok(Token::Symbol(Symbol::ParenRight)) => {
                    return Some(Ok(FunctionCall { ident, parameters }));
                },
                Ok(_) => {
                    return Some(
                        Err(buffer.error_at(ExprParseError::CannotParseIntoFunction.message(), cursor)),
                    );
                },
                Err(e) => {
                    return Some(Err(e));
                },
            }
        }
    }
}

impl Parse for FunctionCall {
    open spec fn parse_spec(tokens: Seq<TokenV>, cursor: int) -> Option<(Result<ExprV, ErrorV>, int)> {
        fn_parse(tokens, cursor)
    }

    fn parse(buffer: &mut ParseBuffer) -> (r: Result<FunctionCall, Error>) {
        match FunctionCall::parse_call(buffer) {
            Some(r) => r,
            None => {
                proof {
                    assert(false);
                }
                Err(Error::head(String::new(), String::new()))
            },
        }
    }
}

impl Peek for FunctionCall {
    open spec fn peek_spec(tokens: Seq<TokenV>, cursor: int) -> bool {
        fn_peek(tokens, cursor)
    }

    fn peek(buffer: &ParseBuffer) -> (r: bool) {
        let ghost ts = buffer.tokens();
        let ghost c = buffer.cursor_at();
        let n = buffer.bounds();
        let tokens = buffer.get_tokens();
        assert(token_values(tokens@).len() == tokens@.len());
        assert forall|j: int| 0 <= j < tokens@.len() implies tokens@[j]@ == ts[c + j] by {
            assert(token_values(tokens@)[j] == tokens@[j]@);
        }
        if tokens.len() < 2 {
            return false;
        }
        match &tokens[0] {
            Token::Ident(_) => {},
            _ => {
                return false;
            },
        }
        match &tokens[1] {
            Token::Symbol(Symbol::ParenLeft) => {},
            _ => {
                return false;
            },
        }
        paren_right_after(buffer, 2).is_some()
    }
}

} // verus!

use vstd::prelude::*;

use crate::query::parse::error::{Error, ErrorV};
use crate::query::parse::lex::{Token, TokenV};
use crate::query::parse::parser::{error_at, offset_error, Parse, ParseBuffer};
use crate::query::syntax::error::{syntax_error_message, SyntaxError};

verus! {

/// The order of an `ORDER BY` item.
#[derive(Debug, Clone, Copy, PartialEq, Eq)]
pub enum Order {
    Desc,
    Asc,
}

/// The `FROM` of a query: an entity and its alias.
#[derive(Debug, PartialEq, Eq)]
pub struct From {
    pub entity: String,
    pub alias: String,
}

impl View for From {
    type V = (Seq<char>, Seq<char>);

    open spec fn view(&self) -> (Seq<char>, Seq<char>) {
        (self.entity@, self.alias@)
    }
}

/// Reading a `FROM` at `c`: two names, the entity and its alias.
pub open spec fn from_parse(ts: Seq<TokenV>, c: int) -> (Result<(Seq<char>, Seq<char>), ErrorV>, int) {
    if c < ts.len() {
        match ts[c] {
            TokenV::Ident(entity) => if c + 1 < ts.len() {
                match ts[c + 1] {
                    TokenV::Ident(alias) => (Ok((entity, alias)), c + 2),
                    _ => (
                        Err(error_at(ts, syntax_error_message(SyntaxError::UnexpectedAlias), c)),
                        c + 2,
                    ),
                }
            } else {
                (Err(offset_error(ts, c + 1, 1)), c + 1)
            },
            _ => (
                Err(error_at(ts, syntax_error_message(SyntaxError::UnexpectedEntityName), c)),
                c + 1,
            ),
        }
    } else {
        (Err(offset_error(ts, c, 1)), c)
    }
}

impl Parse for From {
    open spec fn parse_spec(tokens: Seq<TokenV>, cursor: int) -> Option<
        (Result<(Seq<char>, Seq<char>), ErrorV>, int),
    > {
        Some(from_parse(tokens, cursor))
    }

    fn parse(buffer: &mut ParseBuffer) -> (r: Result<From, Error>) {
        let cursor = buffer.cursor();
        let n = buffer.bounds();
        let entity = match buffer.pop_token() {
            Ok(Token::Ident(entity)) => entity,
            Ok(_) => {
                return Err(buffer.error_at(SyntaxError::UnexpectedEntityName.message(), cursor));
            },
            Err(e) => {
                return Err(e);
            },
        };
        let n2 = buffer.bounds();
        match buffer.pop_token() {
            Ok(Token::Ident(alias)) => Ok(From { entity: entity.to_string(), alias: alias.to_string() }),
            Ok(_) => Err(buffer.error_at(SyntaxError::UnexpectedAlias.message(), cursor)),
            Err(e) => Err(e),
        }
    }
}

} // verus!

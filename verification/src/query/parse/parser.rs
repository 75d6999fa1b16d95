use vstd::prelude::*;

use crate::query::expr::expression::{expr_parse, Expression};
use crate::query::parse::error::{parse_error_message, Error, ErrorV, ParseError, ParseErrorV};
use crate::query::parse::lex::{lex, token_text, token_values, Lexer, Lit, Token, TokenV};
use crate::query::parse::text::{byte_len, chars_byte_len, chars_of};

verus! {

/// The text of a sequence of tokens; with `with_whitespace`, each token is
/// followed by a space.
pub open spec fn tokens_text(ts: Seq<TokenV>, with_whitespace: bool) -> Seq<char>
    decreases ts.len(),
{
    if ts.len() == 0 {
        seq![]
    } else {
        tokens_text(ts.drop_last(), with_whitespace) + token_text(ts.last()) + if with_whitespace {
            seq![' ']
        } else {
            seq![]
        }
    }
}

pub fn tokens_to_string(tokens: &[Token], with_whitespace: bool) -> (r: String)
    ensures
        r@ == tokens_text(token_values(tokens@), with_whitespace),
{
    let mut r = String::new();
    let mut i: usize = 0;
    while i < tokens.len()
        invariant
            i <= tokens.len(),
            r@ == tokens_text(token_values(tokens@.take(i as int)), with_whitespace),
        decreases tokens.len() - i,
    {
        proof {
            let t = token_values(tokens@.take(i + 1));
            assert(t.drop_last() =~= token_values(tokens@.take(i as int)));
            assert(t.last() == tokens@[i as int]@);
        }
        tokens[i].write_to(&mut r);
        if with_whitespace {
            crate::query::parse::text::push_char(&mut r, ' ');
        }
        i = i + 1;
    }
    assert(tokens@.take(tokens.len() as int) =~= tokens@);
    r
}

/// The error with message `msg` at `cursor` in `tokens`: its text is that of the
/// tokens from two before the cursor on, its position the byte offset of the
/// cursor's token in that text.
pub open spec fn error_at(tokens: Seq<TokenV>, msg: Seq<char>, cursor: int) -> ErrorV {
    let start = if cursor < 2 {
        0
    } else {
        cursor - 2
    };
    ErrorV {
        msg,
        content: tokens_text(tokens.subrange(start, tokens.len() as int), false),
        pos: byte_len(tokens_text(tokens.subrange(start, cursor), false)),
    }
}

/// What is left of the tokens at `cursor`.
pub open spec fn rest(tokens: Seq<TokenV>, cursor: int) -> Seq<TokenV> {
    tokens.subrange(cursor, tokens.len() as int)
}

/// The error of taking `len` tokens at `cursor` where fewer are left.
pub open spec fn offset_error(tokens: Seq<TokenV>, cursor: int, len: usize) -> ErrorV {
    error_at(
        tokens,
        parse_error_message(ParseErrorV::UnexpectTokenOffset(tokens.len() as usize, len)),
        cursor,
    )
}

/// A view of the tokens of a query from a cursor on.
pub struct ParseBuffer<'a> {
    tokens: &'a [Token],
    cursor: usize,
}

/// The view of the outcome of a parser.
pub open spec fn result_view<T: View>(r: Result<T, Error>) -> Result<T::V, ErrorV> {
    match r {
        Ok(v) => Ok(v@),
        Err(e) => Err(e@),
    }
}

impl<'a> ParseBuffer<'a> {
    #[verifier::type_invariant]
    spec fn inv(&self) -> bool {
        self.cursor <= self.tokens.len()
    }

    /// The tokens.
    pub closed spec fn tokens(&self) -> Seq<TokenV> {
        token_values(self.tokens@)
    }

    /// The cursor.
    pub closed spec fn cursor_at(&self) -> int {
        self.cursor as int
    }

    /// A buffer over `tokens` at `cursor`.
    pub fn new(tokens: &'a [Token], cursor: usize) -> (r: ParseBuffer<'a>)
        requires
            cursor <= tokens.len(),
        ensures
            r.tokens() == token_values(tokens@),
            r.cursor_at() == cursor,
    {
        ParseBuffer { tokens, cursor }
    }

    /// The cursor is within the tokens.
    pub fn bounds(&self) -> (r: usize)
        ensures
            r == self.tokens().len(),
            0 <= self.cursor_at() <= self.tokens().len(),
    {
        proof {
            use_type_invariant(self);
        }
        self.tokens.len()
    }

    /// A copy of the buffer.
    pub fn copy(&self) -> (r: ParseBuffer<'a>)
        ensures
            r.tokens() == self.tokens(),
            r.cursor_at() == self.cursor_at(),
    {
        proof {
            use_type_invariant(self);
        }
        ParseBuffer { tokens: self.tokens, cursor: self.cursor }
    }

    /// The tokens from the cursor on.
    pub fn get_tokens(&self) -> (r: &[Token])
        ensures
            token_values(r@) == rest(self.tokens(), self.cursor_at()),
    {
        proof {
            use_type_invariant(self);
        }
        let r = self.tokens.split_at(self.cursor).1;
        assert(token_values(r@) =~= rest(self.tokens(), self.cursor_at()));
        r
    }

    /// The token at the cursor.
    pub fn get_token(&self) -> (r: Option<&Token>)
        ensures
            self.cursor_at() < self.tokens().len() ==> (r matches Some(t) && t@ == self.tokens()[self.cursor_at()]),
            self.cursor_at() >= self.tokens().len() ==> r is None,
    {
        proof {
            use_type_invariant(self);
        }
        if self.cursor < self.tokens.len() {
            Some(&self.tokens[self.cursor])
        } else {
            None
        }
    }

    /// Whether the token at the cursor is `token`.
    pub fn peek_token(&self, token: &Token) -> (r: bool)
        ensures
            r == (self.cursor_at() < self.tokens().len() && self.tokens()[self.cursor_at()] == token@),
    {
        match self.get_token() {
            Some(t) => same_token(t, token),
            None => false,
        }
    }

    /// Whether the next item is a `E`.
    pub fn peek<E: Peek>(&self) -> (r: bool)
        ensures
            r == E::peek_spec(self.tokens(), self.cursor_at()),
    {
        E::peek(self)
    }

    /// Parses a `E` at the cursor.
    pub fn parse<E: Parse>(&mut self) -> (r: Result<E, Error>)
        requires
            E::parse_spec(old(self).tokens(), old(self).cursor_at()) is Some,
        ensures
            final(self).tokens() == old(self).tokens(),
            old(self).cursor_at() <= final(self).cursor_at(),
            E::parse_spec(old(self).tokens(), old(self).cursor_at()) == Some(
                (result_view(r), final(self).cursor_at()),
            ),
    {
        E::parse(self)
    }

    /// Takes `len` tokens at the cursor; fails where fewer are left.
    pub fn pop_tokens(&mut self, len: usize) -> (r: Result<Vec<Token>, Error>)
        ensures
            final(self).tokens() == old(self).tokens(),
            ({
                let ts = old(self).tokens();
                let c = old(self).cursor_at();
                if c + len <= ts.len() {
                    r matches Ok(v) && token_values(v@) == ts.subrange(c, c + len)
                        && final(self).cursor_at() == c + len
                } else {
                    r matches Err(e) && e@ == offset_error(ts, c, len) && final(self).cursor_at()
                        == c
                }
            }),
    {
        proof {
            use_type_invariant(&*self);
        }
        if len > self.tokens.len() - self.cursor {
            let e = ParseError::UnexpectTokenOffset(self.tokens.len(), len);
            Err(self.error_head(e.message()))
        } else {
            let mut result: Vec<Token> = Vec::new();
            let mut i: usize = 0;
            while i < len
                invariant
                    self.cursor + len <= self.tokens.len(),
                    i <= len,
                    token_values(result@) == token_values(self.tokens@).subrange(
                        self.cursor as int,
                        self.cursor + i,
                    ),
                decreases len - i,
            {
                let t = self.tokens[self.cursor + i].duplicate();
                proof {
                    assert(token_values(result@.push(t)) =~= token_values(result@).push(t@));
                    assert(token_values(result@.push(t)) =~= token_values(self.tokens@).subrange(
                        self.cursor as int,
                        self.cursor + i + 1,
                    ));
                }
                result.push(t);
                i = i + 1;
            }
            self.cursor = self.cursor + len;
            Ok(result)
        }
    }

    /// Takes the token at the cursor; fails where none is left.
    pub fn pop_token(&mut self) -> (r: Result<Token, Error>)
        ensures
            final(self).tokens() == old(self).tokens(),
            ({
                let ts = old(self).tokens();
                let c = old(self).cursor_at();
                if c < ts.len() {
                    r matches Ok(t) && t@ == ts[c] && final(self).cursor_at() == c + 1
                } else {
                    r matches Err(e) && e@ == offset_error(ts, c, 1) && final(self).cursor_at() == c
                }
            }),
    {
        match self.pop_tokens(1) {
            Ok(list) => {
                assert(token_values(list@).len() == list@.len());
                assert(list@.len() == 1);
                assert(token_values(list@)[0] == list@[0]@);
                let t = list[0].duplicate();
                Ok(t)
            },
            Err(e) => Err(e),
        }
    }

    /// No token is left.
    pub fn is_empty(&self) -> (r: bool)
        ensures
            r == (self.cursor_at() == self.tokens().len()),
    {
        self.cursor == self.tokens.len()
    }

    /// The error with message `message` at `cursor`.
    pub fn error_at(&self, message: String, cursor: usize) -> (e: Error)
        requires
            cursor <= self.tokens().len(),
        ensures
            e@ == error_at(self.tokens(), message@, cursor as int),
    {
        let start = if cursor < 2 {
            0
        } else {
            cursor - 2
        };
        let tokens = self.tokens.split_at(start).1;
        let pre = tokens.split_at(cursor - start).0;
        let content = tokens_to_string(tokens, false);
        let pre_text = chars_of(tokens_to_string(pre, false).as_str());
        let pos = chars_byte_len(&pre_text, 0, pre_text.len());
        proof {
            assert(token_values(tokens@) =~= self.tokens().subrange(start as int, self.tokens().len() as int));
            assert(token_values(pre@) =~= self.tokens().subrange(start as int, cursor as int));
            assert(pre_text@.subrange(0, pre_text@.len() as int) =~= pre_text@);
        }
        Error::new(message, content, pos)
    }

    /// The error with message `message` at the cursor.
    pub fn error_head(&self, message: String) -> (e: Error)
        ensures
            e@ == error_at(self.tokens(), message@, self.cursor_at()),
    {
        proof {
            use_type_invariant(self);
        }
        self.error_at(message, self.cursor)
    }

    /// The error with message `message` at `offset` tokens from the cursor.
    pub fn error_offset(&self, message: String, offset: isize) -> (e: Error)
        requires
            self.cursor_at() + offset <= isize::MAX,
            self.cursor_at() <= isize::MAX,
            0 <= self.cursor_at() + offset <= self.tokens().len(),
        ensures
            e@ == error_at(self.tokens(), message@, self.cursor_at() + offset),
    {
        let c = ((self.cursor as isize) + offset) as usize;
        self.error_at(message, c)
    }

    /// The cursor.
    pub fn cursor(&self) -> (r: usize)
        ensures
            r == self.cursor_at(),
    {
        self.cursor
    }

    /// Splits off the `offset` tokens at the cursor: the result is a buffer over the
    /// tokens up to them, at the cursor; this buffer moves past them.
    pub fn split_at(&mut self, offset: usize) -> (r: ParseBuffer<'a>)
        requires
            old(self).cursor_at() + offset <= old(self).tokens().len(),
        ensures
            final(self).tokens() == old(self).tokens(),
            final(self).cursor_at() == old(self).cursor_at() + offset,
            r.tokens() == old(self).tokens().take(old(self).cursor_at() + offset),
            r.cursor_at() == old(self).cursor_at(),
    {
        assert(token_values(self.tokens@).len() == self.tokens@.len());
        let n = self.tokens.len();
        assert(self.cursor + offset <= n);
        let end = self.cursor + offset;
        let head = self.tokens.split_at(end).0;
        let r = ParseBuffer { tokens: head, cursor: self.cursor };
        assert(token_values(head@) =~= token_values(self.tokens@).take(end as int));
        self.cursor = end;
        r
    }
}

/// Whether two tokens are the same.
pub fn same_token(a: &Token, b: &Token) -> (r: bool)
    ensures
        r == (a@ == b@),
{
    match (a, b) {
        (Token::Symbol(x), Token::Symbol(y)) => *x == *y,
        (Token::Keyword(x), Token::Keyword(y)) => *x == *y,
        (Token::Ident(x), Token::Ident(y)) => x.to_string().eq(&y.to_string()),
        (Token::Lit(x), Token::Lit(y)) => match (x, y) {
            (Lit::Int(p), Lit::Int(q)) => *p == *q,
            (Lit::Float(p), Lit::Float(q)) => p.eq(q),
            (Lit::Bool(p), Lit::Bool(q)) => *p == *q,
            (Lit::String(p), Lit::String(q)) => p.eq(q),
            (Lit::Char(p), Lit::Char(q)) => *p == *q,
            (Lit::External(p), Lit::External(q)) => p.to_string().eq(&q.to_string()),
            _ => false,
        },
        _ => false,
    }
}

/// A lexed query: its tokens and a cursor into them.
pub struct TokenStream {
    tokens: Vec<Token>,
    cursor: usize,
}

impl TokenStream {
    #[verifier::type_invariant]
    spec fn inv(&self) -> bool {
        self.cursor <= self.tokens.len()
    }

    /// The tokens.
    pub closed spec fn tokens(&self) -> Seq<TokenV> {
        token_values(self.tokens@)
    }

    /// The cursor.
    pub closed spec fn cursor(&self) -> int {
        self.cursor as int
    }

    pub fn new(tokens: Vec<Token>) -> (r: TokenStream)
        ensures
            r.tokens() == token_values(tokens@),
            r.cursor() == 0,
    {
        TokenStream { tokens, cursor: 0 }
    }

    /// The tokens of the text `s`, or the error at the first token that the lexer
    /// refuses.
    pub fn from_str(s: &str) -> (r: Result<TokenStream, Error>)
        requires
            lex(s@) is Some,
        ensures
            r matches Ok(ts) ==> lex(s@) == Some(Ok::<Seq<TokenV>, ErrorV>(ts.tokens())) && ts.cursor() == 0,
            r matches Err(e) ==> lex(s@) == Some(Err::<Seq<TokenV>, ErrorV>(e@)),
    {
        Lexer::new(s).exec()
    }

    /// The tokens of the text `s`, the error at the first token that the lexer
    /// refuses, or `None` where `s` holds an integer literal whose digits are not
    /// all ASCII or that `usize` cannot hold (on which `from_str` panics).
    pub fn try_from_str(s: &str) -> (r: Option<Result<TokenStream, Error>>)
        ensures
            r is None <==> lex(s@) is None,
            r matches Some(Ok(ts)) ==> lex(s@) == Some(Ok::<Seq<TokenV>, ErrorV>(ts.tokens()))
                && ts.cursor() == 0,
            r matches Some(Err(e)) ==> lex(s@) == Some(Err::<Seq<TokenV>, ErrorV>(e@)),
    {
        Lexer::new(s).try_exec()
    }

    /// A buffer over the tokens at the cursor.
    fn get_buffer(&self) -> (r: ParseBuffer<'_>)
        ensures
            r.tokens() == self.tokens(),
            r.cursor_at() == self.cursor(),
    {
        proof {
            use_type_invariant(self);
        }
        ParseBuffer { tokens: self.tokens.as_slice(), cursor: self.cursor }
    }

    /// Whether the next item is a `E`.
    pub fn peek<E: Peek>(&self) -> (r: bool)
        ensures
            r == E::peek_spec(self.tokens(), self.cursor()),
    {
        self.get_buffer().peek::<E>()
    }

    /// Parses an expression at the cursor and moves the cursor to where the parser
    /// stopped; `None` where the parser panics (a parenthesised expression that
    /// stops before its `)`, or the negation of the least integer), the stream
    /// then left as it was.
    pub fn try_parse_expression(&mut self) -> (r: Option<Result<Expression, Error>>)
        ensures
            final(self).tokens() == old(self).tokens(),
            match r {
                Some(res) => old(self).cursor() <= final(self).cursor() && expr_parse(
                    old(self).tokens(),
                    old(self).cursor(),
                ) == Some((result_view(res), final(self).cursor())),
                None => expr_parse(old(self).tokens(), old(self).cursor()) is None
                    && final(self).cursor() == old(self).cursor(),
            },
    {
        proof {
            use_type_invariant(&*self);
        }
        let mut buffer = ParseBuffer { tokens: self.tokens.as_slice(), cursor: self.cursor };
        match Expression::parse_expression(&mut buffer) {
            Some(result) => {
                let cursor = buffer.cursor();
                proof {
                    use_type_invariant(&buffer);
                    assert(token_values(buffer.tokens@).len() == buffer.tokens@.len());
                }
                self.cursor = cursor;
                Some(result)
            },
            None => None,
        }
    }

    /// Parses a `E` at the cursor, and moves the cursor to where the parser stopped.
    pub fn parse<E: Parse>(&mut self) -> (r: Result<E, Error>)
        requires
            E::parse_spec(old(self).tokens(), old(self).cursor()) is Some,
        ensures
            final(self).tokens() == old(self).tokens(),
            old(self).cursor() <= final(self).cursor(),
            E::parse_spec(old(self).tokens(), old(self).cursor()) == Some(
                (result_view(r), final(self).cursor()),
            ),
    {
        proof {
            use_type_invariant(&*self);
        }
        let mut buffer = ParseBuffer { tokens: self.tokens.as_slice(), cursor: self.cursor };
        let result = buffer.parse::<E>();
        let cursor = buffer.cursor();
        proof {
            use_type_invariant(&buffer);
            assert(token_values(buffer.tokens@).len() == buffer.tokens@.len());
        }
        self.cursor = cursor;
        result
    }

    /// No token is left.
    pub fn is_empty(&self) -> (r: bool)
        ensures
            r == (self.cursor() == self.tokens().len()),
    {
        self.cursor == self.tokens.len()
    }

    /// The number of tokens.
    pub fn len(&self) -> (r: usize)
        ensures
            r == self.tokens().len(),
    {
        self.tokens.len()
    }

    /// The tokens' text, each token followed by a space.
    pub fn to_string(&self) -> (r: String)
        ensures
            r@ == tokens_text(self.tokens(), true),
    {
        tokens_to_string(self.tokens.as_slice(), true)
    }
}

/// An item that a parser reads from a token stream.
pub trait Parse: Sized + View {
    /// What parsing an item at `cursor` in `tokens` gives: the item's value or the
    /// error, and where the cursor stands after; `None` where the parser panics.
    spec fn parse_spec(tokens: Seq<TokenV>, cursor: int) -> Option<(Result<Self::V, ErrorV>, int)>;

    fn parse(buffer: &mut ParseBuffer) -> (r: Result<Self, Error>)
        requires
            Self::parse_spec(old(buffer).tokens(), old(buffer).cursor_at()) is Some,
        ensures
            final(buffer).tokens() == old(buffer).tokens(),
            old(buffer).cursor_at() <= final(buffer).cursor_at(),
            Self::parse_spec(old(buffer).tokens(), old(buffer).cursor_at()) == Some(
                (result_view(r), final(buffer).cursor_at()),
            ),
    ;
}

/// An item whose start a parser can recognise without reading it.
pub trait Peek {
    /// Whether an item stands at `cursor` in `tokens`.
    spec fn peek_spec(tokens: Seq<TokenV>, cursor: int) -> bool;

    fn peek(buffer: &ParseBuffer) -> (r: bool)
        ensures
            r == Self::peek_spec(buffer.tokens(), buffer.cursor_at()),
    ;
}

} // verus!

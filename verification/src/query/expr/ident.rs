use vstd::prelude::*;

use crate::query::expr::error::{any_message, ident_message, ExprParseError};
use crate::query::parse::error::{Error, ErrorV};
use crate::query::parse::lex::{token_values, Symbol, Token, TokenV};
use crate::query::parse::parser::{error_at, Parse, ParseBuffer, Peek};

verus! {

/// A dotted name of the database: `table.column`, `alias.*`, `column`.
#[derive(Debug, PartialEq, Eq)]
pub struct DatabaseIdent {
    pub segments: Vec<String>,
}

/// The texts of a sequence of strings.
pub open spec fn strings_view(v: Seq<String>) -> Seq<Seq<char>> {
    v.map_values(|s: String| s@)
}

impl View for DatabaseIdent {
    type V = Seq<Seq<char>>;

    open spec fn view(&self) -> Seq<Seq<char>> {
        strings_view(self.segments@)
    }
}

/// What a token gives a dotted name: the segment, and whether it is the `*` that
/// stands for every column.
pub open spec fn ident_segment(t: TokenV) -> Option<(Seq<char>, bool)> {
    match t {
        TokenV::Ident(s) => Some((s, false)),
        TokenV::Symbol(Symbol::Mul) => Some((seq!['*'], true)),
        _ => None,
    }
}

/// Reading a dotted name on from `c`, with the segments `segs` read so far and
/// the name starting at `head`: the segments or the error, and the cursor after.
pub open spec fn ident_parse_from(ts: Seq<TokenV>, c: int, head: int, segs: Seq<Seq<char>>) -> (
    Result<Seq<Seq<char>>, ErrorV>,
    int,
)
    decreases ts.len() - c,
{
    if c < ts.len() {
        match ident_segment(ts[c]) {
            None => (Err(error_at(ts, ident_message(), head)), c),
            Some((seg, any)) => {
                if c + 1 < ts.len() && ts[c + 1] == TokenV::Symbol(Symbol::Dot) {
                    if any {
                        (Err(error_at(ts, any_message(), head)), c + 2)
                    } else {
                        ident_parse_from(ts, c + 2, head, segs.push(seg))
                    }
                } else {
                    (Ok(segs.push(seg)), c + 1)
                }
            },
        }
    } else {
        (Err(error_at(ts, ident_message(), head)), c)
    }
}

/// A dotted name stands at `i`: names joined by dots, the last of which may be
/// `*`, not followed by a dot.
pub open spec fn ident_peek_from(ts: Seq<TokenV>, i: int) -> bool
    decreases ts.len() - i,
{
    if i < ts.len() {
        match ident_segment(ts[i]) {
            None => false,
            Some((_, any)) => {
                if i + 1 < ts.len() && ts[i + 1] == TokenV::Symbol(Symbol::Dot) {
                    !any && ident_peek_from(ts, i + 2)
                } else {
                    true
                }
            },
        }
    } else {
        false
    }
}

proof fn lemma_strings_view_push(v: Seq<String>, s: String)
    ensures
        strings_view(v.push(s)) == strings_view(v).push(s@),
{
    assert(strings_view(v.push(s)) =~= strings_view(v).push(s@));
}

/// A copy of a sequence of strings.
pub fn copy_strings(v: &Vec<String>) -> (r: Vec<String>)
    ensures
        strings_view(r@) == strings_view(v@),
{
    let mut r: Vec<String> = Vec::new();
    let mut i: usize = 0;
    while i < v.len()
        invariant
            i <= v@.len(),
            strings_view(r@) == strings_view(v@.take(i as int)),
        decreases v@.len() - i,
    {
        let s = v[i].clone();
        proof {
            lemma_strings_view_push(r@, s);
            assert(v@.take(i + 1) =~= v@.take(i as int).push(v@[i as int]));
            lemma_strings_view_push(v@.take(i as int), v@[i as int]);
        }
        r.push(s);
        i = i + 1;
    }
    assert(v@.take(v@.len() as int) =~= v@);
    r
}

impl Parse for DatabaseIdent {
    open spec fn parse_spec(tokens: Seq<TokenV>, cursor: int) -> Option<
        (Result<Seq<Seq<char>>, ErrorV>, int),
    > {
        Some(ident_parse_from(tokens, cursor, cursor, seq![]))
    }

    fn parse(buffer: &mut ParseBuffer) -> (r: Result<DatabaseIdent, Error>) {
        let ghost ts = buffer.tokens();
        let cursor = buffer.cursor();
        let n = buffer.bounds();
        let mut segments: Vec<String> = Vec::new();
        let dot = Token::Symbol(Symbol::Dot);
        assert(strings_view(segments@) =~= seq![]);
        if !buffer.is_empty() {
            loop
                invariant
                    buffer.tokens() == ts,
                    ts == old(buffer).tokens(),
                    cursor == old(buffer).cursor_at(),
                    n == ts.len(),
                    cursor <= buffer.cursor_at() <= ts.len(),
                    dot@ == TokenV::Symbol(Symbol::Dot),
                    ident_parse_from(ts, cursor as int, cursor as int, seq![]) == ident_parse_from(
                        ts,
                        buffer.cursor_at(),
                        cursor as int,
                        strings_view(segments@),
                    ),
                ensures
                    buffer.tokens() == ts,
                    cursor <= buffer.cursor_at() <= ts.len(),
                    ident_parse_from(ts, cursor as int, cursor as int, seq![]) == (
                        Err::<Seq<Seq<char>>, ErrorV>(error_at(ts, ident_message(), cursor as int)),
                        buffer.cursor_at(),
                    ),
                decreases ts.len() - buffer.cursor_at(),
            {
                let ghost c0 = buffer.cursor_at();
                let ghost segs0 = strings_view(segments@);
                let any: bool;
                let segment: String;
                match buffer.get_token() {
                    Some(Token::Ident(ident)) => {
                        segment = ident.to_string();
                        any = false;
                    },
                    Some(Token::Symbol(Symbol::Mul)) => {
                        segment = "*".to_owned();
                        proof {
                            reveal_strlit("*");
                        }
                        any = true;
                    },
                    _ => {
                        break ;
                    },
                }
                proof {
                    lemma_strings_view_push(segments@, segment);
                }
                segments.push(segment);
                match buffer.pop_token() {
                    Ok(_) => {},
                    Err(e) => {
                        return Err(e);
                    },
                }
                assert(ident_segment(ts[c0]) == Some((segment@, any)));
                assert(strings_view(segments@) == segs0.push(segment@));
                if buffer.is_empty() {
                    assert(ident_parse_from(ts, c0, cursor as int, segs0) == (Ok::<Seq<Seq<char>>, ErrorV>(segs0.push(segment@)), c0 + 1));
                    return Ok(DatabaseIdent { segments });
                } else if buffer.peek_token(&dot) {
                    match buffer.pop_token() {
                        Ok(_) => {},
                        Err(e) => {
                            return Err(e);
                        },
                    }
                    if any {
                        return Err(buffer.error_at(ExprParseError::UnexpectedAny.message(), cursor));
                    }
                } else {
                    return Ok(DatabaseIdent { segments });
                }
            }
        }
        Err(buffer.error_at(ExprParseError::CannotParseIntoIdent.message(), cursor))
    }
}

impl Peek for DatabaseIdent {
    open spec fn peek_spec(tokens: Seq<TokenV>, cursor: int) -> bool {
        ident_peek_from(tokens, cursor)
    }

    fn peek(buffer: &ParseBuffer) -> (r: bool) {
        let ghost ts = buffer.tokens();
        let ghost c = buffer.cursor_at();
        let n = buffer.bounds();
        let tokens = buffer.get_tokens();
        assert(token_values(tokens@).len() == tokens@.len());
        assert forall|j: int| 0 <= j < tokens@.len() implies tokens@[j]@ == ts[c + j] by {
            assert(token_values(tokens@)[j] == tokens@[j]@);
        }
        let mut i: usize = 0;
        if buffer.is_empty() {
            return false;
        }
        loop
            invariant
                ts == buffer.tokens(),
                c == buffer.cursor_at(),
                0 <= c <= ts.len(),
                c + i <= ts.len(),
                tokens@.len() == ts.len() - c,
                forall|j: int| 0 <= j < tokens@.len() ==> tokens@[j]@ == ts[c + j],
                ident_peek_from(ts, c) == ident_peek_from(ts, c + i),
            decreases tokens@.len() - i,
        {
            if i >= tokens.len() {
                return false;
            }
            let any = match &tokens[i] {
                Token::Ident(_) => false,
                Token::Symbol(Symbol::Mul) => true,
                _ => {
                    return false;
                },
            };
            if i + 1 < tokens.len() {
                match &tokens[i + 1] {
                    Token::Symbol(Symbol::Dot) => {
                        if any {
                            return false;
                        }
                        i = i + 2;
                    },
                    _ => {
                        return true;
                    },
                }
            } else {
                return true;
            }
        }
    }
}

proof fn lemma_ident_peek_parses(ts: Seq<TokenV>, i: int, head: int, segs: Seq<Seq<char>>)
    requires
        ident_peek_from(ts, i),
    ensures
        ident_parse_from(ts, i, head, segs).0 is Ok,
    decreases ts.len() - i,
{
    if i < ts.len() {
        match ident_segment(ts[i]) {
            Some((seg, any)) => {
                if i + 1 < ts.len() && ts[i + 1] == TokenV::Symbol(Symbol::Dot) {
                    lemma_ident_peek_parses(ts, i + 2, head, segs.push(seg));
                }
            },
            None => {},
        }
    }
}

/// Where a dotted name is seen at the cursor, reading one succeeds.
pub proof fn law_ident_peek_parses(ts: Seq<TokenV>, c: int)
    requires
        DatabaseIdent::peek_spec(ts, c),
    ensures
        DatabaseIdent::parse_spec(ts, c) matches Some((Ok(_), _)),
{
    lemma_ident_peek_parses(ts, c, c, seq![]);
}

} // verus!

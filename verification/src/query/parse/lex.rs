use vstd::prelude::*;

use crate::query::parse::error::{parse_error_message, Error, ErrorV, ParseError, ParseErrorV};
use crate::query::parse::parser::TokenStream;
use crate::query::parse::text::{
    ascii_digit, ascii_letter, byte_len, chars_byte_len, chars_of, decimal, digit_char,
    ident_char, is_ascii_digit, is_ascii_letter, is_digit_char, is_ident_char, is_white_space,
    is_word_char, lemma_utf8_len_ge, push_char, push_decimal, push_str, string_of, utf8_len,
    white_space, word_char,
};

verus! {

/// The symbols of the query language.
#[derive(Clone, Copy, Debug, PartialEq, Eq, Structural)]
pub enum Symbol {
    Add,
    Minus,
    Mul,
    Dot,
    Comma,
    ParenLeft,
    ParenRight,
    Tilde,
    Caret,
    Mod,
    Div,
    LeftShift,
    RightShift,
    LessEqual,
    GreaterEqual,
    NotEqual,
    And,
    Or,
    Less,
    Greater,
    Equal,
}

/// The text of a symbol.
pub open spec fn symbol_text(s: Symbol) -> Seq<char> {
    match s {
        Symbol::Add => seq!['+'],
        Symbol::Minus => seq!['-'],
        Symbol::Mul => seq!['*'],
        Symbol::Dot => seq!['.'],
        Symbol::Comma => seq![','],
        Symbol::ParenLeft => seq!['('],
        Symbol::ParenRight => seq![')'],
        Symbol::Tilde => seq!['~'],
        Symbol::Caret => seq!['^'],
        Symbol::Mod => seq!['%'],
        Symbol::Div => seq!['/'],
        Symbol::LeftShift => seq!['<', '<'],
        Symbol::RightShift => seq!['>', '>'],
        Symbol::LessEqual => seq!['<', '='],
        Symbol::GreaterEqual => seq!['>', '='],
        Symbol::NotEqual => seq!['!', '='],
        Symbol::And => seq!['&'],
        Symbol::Or => seq!['|'],
        Symbol::Less => seq!['<'],
        Symbol::Greater => seq!['>'],
        Symbol::Equal => seq!['='],
    }
}

/// The order in which the lexer tries the symbols: a symbol whose text starts
/// with the text of another stands before it.
pub open spec fn symbol_order() -> Seq<Symbol> {
    seq![
        Symbol::Add,
        Symbol::Minus,
        Symbol::Mul,
        Symbol::Dot,
        Symbol::Comma,
        Symbol::ParenLeft,
        Symbol::ParenRight,
        Symbol::Tilde,
        Symbol::Caret,
        Symbol::Mod,
        Symbol::Div,
        Symbol::LeftShift,
        Symbol::RightShift,
        Symbol::LessEqual,
        Symbol::GreaterEqual,
        Symbol::NotEqual,
        Symbol::And,
        Symbol::Or,
        Symbol::Less,
        Symbol::Greater,
        Symbol::Equal,
    ]
}

impl Symbol {
    pub fn text(&self) -> (r: Vec<char>)
        ensures
            r@ == symbol_text(*self),
    {
        let r = match self {
            Symbol::Add => vec!['+'],
            Symbol::Minus => vec!['-'],
            Symbol::Mul => vec!['*'],
            Symbol::Dot => vec!['.'],
            Symbol::Comma => vec![','],
            Symbol::ParenLeft => vec!['('],
            Symbol::ParenRight => vec![')'],
            Symbol::Tilde => vec!['~'],
            Symbol::Caret => vec!['^'],
            Symbol::Mod => vec!['%'],
            Symbol::Div => vec!['/'],
            Symbol::LeftShift => vec!['<', '<'],
            Symbol::RightShift => vec!['>', '>'],
            Symbol::LessEqual => vec!['<', '='],
            Symbol::GreaterEqual => vec!['>', '='],
            Symbol::NotEqual => vec!['!', '='],
            Symbol::And => vec!['&'],
            Symbol::Or => vec!['|'],
            Symbol::Less => vec!['<'],
            Symbol::Greater => vec!['>'],
            Symbol::Equal => vec!['='],
        };
        assert(r@ =~= symbol_text(*self));
        r
    }

    fn order() -> (r: Vec<Symbol>)
        ensures
            r@ == symbol_order(),
    {
        let r = vec![
            Symbol::Add,
            Symbol::Minus,
            Symbol::Mul,
            Symbol::Dot,
            Symbol::Comma,
            Symbol::ParenLeft,
            Symbol::ParenRight,
            Symbol::Tilde,
            Symbol::Caret,
            Symbol::Mod,
            Symbol::Div,
            Symbol::LeftShift,
            Symbol::RightShift,
            Symbol::LessEqual,
            Symbol::GreaterEqual,
            Symbol::NotEqual,
            Symbol::And,
            Symbol::Or,
            Symbol::Less,
            Symbol::Greater,
            Symbol::Equal,
        ];
        assert(r@ =~= symbol_order());
        r
    }
}

/// The keywords of the query language.
#[derive(Clone, Copy, Debug, PartialEq, Eq, Structural)]
pub enum Keyword {
    Not,
    And,
    Or,
    Xor,
    Select,
}

/// The text of a keyword (lower case; the lexer reads it in any case).
pub open spec fn keyword_text(k: Keyword) -> Seq<char> {
    match k {
        Keyword::Not => seq!['n', 'o', 't'],
        Keyword::And => seq!['a', 'n', 'd'],
        Keyword::Or => seq!['o', 'r'],
        Keyword::Xor => seq!['x', 'o', 'r'],
        Keyword::Select => seq!['s', 'e', 'l', 'e', 'c', 't'],
    }
}

/// The order in which the lexer tries the keywords.
pub open spec fn keyword_order() -> Seq<Keyword> {
    seq![Keyword::Not, Keyword::And, Keyword::Or, Keyword::Xor, Keyword::Select]
}

impl Keyword {
    pub fn text(&self) -> (r: Vec<char>)
        ensures
            r@ == keyword_text(*self),
    {
        let r = match self {
            Keyword::Not => vec!['n', 'o', 't'],
            Keyword::And => vec!['a', 'n', 'd'],
            Keyword::Or => vec!['o', 'r'],
            Keyword::Xor => vec!['x', 'o', 'r'],
            Keyword::Select => vec!['s', 'e', 'l', 'e', 'c', 't'],
        };
        assert(r@ =~= keyword_text(*self));
        r
    }

    fn order() -> (r: Vec<Keyword>)
        ensures
            r@ == keyword_order(),
    {
        let r = vec![Keyword::Not, Keyword::And, Keyword::Or, Keyword::Xor, Keyword::Select];
        assert(r@ =~= keyword_order());
        r
    }
}

/// An identifier token.
#[derive(Clone, Debug, PartialEq, Eq)]
pub struct Ident {
    inner: String,
}

impl View for Ident {
    type V = Seq<char>;

    closed spec fn view(&self) -> Seq<char> {
        self.inner@
    }
}

impl Ident {
    pub fn new(inner: String) -> (r: Ident)
        ensures
            r@ == inner@,
    {
        Ident { inner }
    }

    /// The text of the identifier.
    pub fn to_string(&self) -> (r: String)
        ensures
            r@ == self@,
    {
        self.inner.clone()
    }

    pub fn duplicate(&self) -> (r: Ident)
        ensures
            r@ == self@,
    {
        Ident { inner: self.inner.clone() }
    }
}

/// A literal token.
#[derive(Clone, Debug, PartialEq, Eq)]
pub enum Lit {
    Int(usize),
    Float(String),
    Bool(bool),
    String(String),
    Char(char),
    External(Ident),
}

/// The value of a literal token.
pub enum LitV {
    Int(usize),
    Float(Seq<char>),
    Bool(bool),
    String(Seq<char>),
    Char(char),
    External(Seq<char>),
}

impl View for Lit {
    type V = LitV;

    open spec fn view(&self) -> LitV {
        match self {
            Lit::Int(v) => LitV::Int(*v),
            Lit::Float(s) => LitV::Float(s@),
            Lit::Bool(b) => LitV::Bool(*b),
            Lit::String(s) => LitV::String(s@),
            Lit::Char(c) => LitV::Char(*c),
            Lit::External(i) => LitV::External(i@),
        }
    }
}

impl Lit {
    pub fn duplicate(&self) -> (r: Lit)
        ensures
            r@ == self@,
    {
        match self {
            Lit::Int(v) => Lit::Int(*v),
            Lit::Float(s) => Lit::Float(s.clone()),
            Lit::Bool(b) => Lit::Bool(*b),
            Lit::String(s) => Lit::String(s.clone()),
            Lit::Char(c) => Lit::Char(*c),
            Lit::External(i) => Lit::External(i.duplicate()),
        }
    }
}

/// A token of the query language.
#[derive(Clone, Debug, PartialEq, Eq)]
pub enum Token {
    Symbol(Symbol),
    Ident(Ident),
    Keyword(Keyword),
    Lit(Lit),
}

/// The value of a token.
pub enum TokenV {
    Symbol(Symbol),
    Ident(Seq<char>),
    Keyword(Keyword),
    Lit(LitV),
}

impl View for Token {
    type V = TokenV;

    open spec fn view(&self) -> TokenV {
        match self {
            Token::Symbol(s) => TokenV::Symbol(*s),
            Token::Ident(i) => TokenV::Ident(i@),
            Token::Keyword(k) => TokenV::Keyword(*k),
            Token::Lit(l) => TokenV::Lit(l@),
        }
    }
}

impl Token {
    pub fn duplicate(&self) -> (r: Token)
        ensures
            r@ == self@,
    {
        match self {
            Token::Symbol(s) => Token::Symbol(*s),
            Token::Ident(i) => Token::Ident(i.duplicate()),
            Token::Keyword(k) => Token::Keyword(*k),
            Token::Lit(l) => Token::Lit(l.duplicate()),
        }
    }
}

/// The values of a sequence of tokens.
pub open spec fn token_values(s: Seq<Token>) -> Seq<TokenV> {
    s.map_values(|t: Token| t@)
}

/// The text of a literal, as the query language writes it.
pub open spec fn lit_text(l: LitV) -> Seq<char> {
    match l {
        LitV::Int(v) => decimal(v as nat),
        LitV::Float(s) => s,
        LitV::Bool(b) => if b {
            seq!['t', 'r', 'u', 'e']
        } else {
            seq!['f', 'a', 'l', 's', 'e']
        },
        LitV::String(s) => seq!['"'] + s + seq!['"'],
        LitV::Char(c) => seq!['\'', c, '\''],
        LitV::External(s) => seq!['$'] + s,
    }
}

/// The text of a token, as the query language writes it.
pub open spec fn token_text(t: TokenV) -> Seq<char> {
    match t {
        TokenV::Symbol(s) => symbol_text(s),
        TokenV::Ident(s) => s,
        TokenV::Keyword(k) => keyword_text(k),
        TokenV::Lit(l) => lit_text(l),
    }
}

fn push_chars(s: &mut String, v: &Vec<char>)
    ensures
        final(s)@ == old(s)@ + v@,
{
    let mut i: usize = 0;
    while i < v.len()
        invariant
            i <= v.len(),
            s@ == old(s)@ + v@.take(i as int),
        decreases v.len() - i,
    {
        push_char(s, v[i]);
        i = i + 1;
        assert(s@ =~= old(s)@ + v@.take(i as int));
    }
    assert(v@.take(v.len() as int) =~= v@);
}

impl Lit {
    /// Appends the text of the literal to `s`.
    pub fn write_to(&self, s: &mut String)
        ensures
            final(s)@ == old(s)@ + lit_text(self@),
    {
        match self {
            Lit::Int(v) => push_decimal(s, *v as u128),
            Lit::Float(t) => push_str(s, t.as_str()),
            Lit::Bool(b) => {
                if *b {
                    push_chars(s, &vec!['t', 'r', 'u', 'e']);
                } else {
                    push_chars(s, &vec!['f', 'a', 'l', 's', 'e']);
                }
            },
            Lit::String(t) => {
                push_char(s, '"');
                push_str(s, t.as_str());
                push_char(s, '"');
            },
            Lit::Char(c) => {
                push_char(s, '\'');
                push_char(s, *c);
                push_char(s, '\'');
            },
            Lit::External(i) => {
                push_char(s, '$');
                push_str(s, i.inner.as_str());
            },
        }
        assert(s@ =~= old(s)@ + lit_text(self@));
    }
}

impl Token {
    /// Appends the text of the token to `s`.
    pub fn write_to(&self, s: &mut String)
        ensures
            final(s)@ == old(s)@ + token_text(self@),
    {
        match self {
            Token::Symbol(y) => push_chars(s, &y.text()),
            Token::Ident(i) => push_str(s, i.inner.as_str()),
            Token::Keyword(k) => push_chars(s, &k.text()),
            Token::Lit(l) => l.write_to(s),
        }
    }

    /// The text of the token.
    pub fn to_string(&self) -> (r: String)
        ensures
            r@ == token_text(self@),
    {
        let mut r = String::new();
        self.write_to(&mut r);
        assert(r@ =~= token_text(self@));
        r
    }
}

// ---------------------------------------------------------------------------
// The token grammar, over a text `s` read from position `p`.
// ---------------------------------------------------------------------------

/// `pat` stands in `s` at position `p`.
pub open spec fn prefix_at(s: Seq<char>, p: int, pat: Seq<char>) -> bool {
    &&& 0 <= p
    &&& p + pat.len() <= s.len()
    &&& forall|i: int| 0 <= i < pat.len() ==> s[p + i] == pat[i]
}

/// `c` read without regard to the case of an ASCII letter is the lower-case `pc`.
pub open spec fn same_letter(c: char, pc: char) -> bool {
    c == pc || (97 <= pc as u32 <= 122 && c as u32 == (pc as u32) - 32)
}

/// `pat` stands in `s` at position `p`, read without regard to the case of ASCII letters.
pub open spec fn prefix_at_ci(s: Seq<char>, p: int, pat: Seq<char>) -> bool {
    &&& 0 <= p
    &&& p + pat.len() <= s.len()
    &&& forall|i: int| 0 <= i < pat.len() ==> same_letter(s[p + i], pat[i])
}

/// The classes of characters whose runs the token grammar reads.
pub enum CharClass {
    /// `\d`: Unicode decimal digits.
    Digit,
    /// `\w`: Unicode word characters.
    Word,
    /// `[a-zA-Z0-9_]`.
    Ident,
    /// The letter `w`.
    LetterW,
}

pub open spec fn in_class(cls: CharClass, c: char) -> bool {
    match cls {
        CharClass::Digit => is_digit_char(c),
        CharClass::Word => is_word_char(c),
        CharClass::Ident => is_ident_char(c),
        CharClass::LetterW => c == 'w',
    }
}

/// The length of the longest run of characters of `cls` that starts at `i` in `s`.
pub open spec fn run(s: Seq<char>, i: int, cls: CharClass) -> nat
    decreases s.len() - i,
{
    if 0 <= i < s.len() && in_class(cls, s[i]) {
        1 + run(s, i + 1, cls)
    } else {
        0
    }
}

/// The position of the first non-white-space character at or after `p`.
pub open spec fn ws_end(s: Seq<char>, p: int) -> int
    decreases s.len() - p,
{
    if 0 <= p < s.len() && is_white_space(s[p]) {
        ws_end(s, p + 1)
    } else {
        p
    }
}

/// The position of the first `_` at or after `p`.
pub open spec fn first_underscore(s: Seq<char>, p: int) -> Option<int>
    decreases s.len() - p,
{
    if p < 0 || p >= s.len() {
        None
    } else if s[p] == '_' {
        Some(p)
    } else {
        first_underscore(s, p + 1)
    }
}

/// The first keyword of `keyword_order()`, from the `i`-th on, that stands at `p`.
pub open spec fn keyword_from(s: Seq<char>, p: int, i: int) -> Option<Keyword>
    decreases 5 - i,
{
    if i < 0 || i >= 5 {
        None
    } else if prefix_at_ci(s, p, keyword_text(keyword_order()[i])) {
        Some(keyword_order()[i])
    } else {
        keyword_from(s, p, i + 1)
    }
}

/// The first symbol of `symbol_order()`, from the `i`-th on, that stands at `p`.
pub open spec fn symbol_from(s: Seq<char>, p: int, i: int) -> Option<Symbol>
    decreases 21 - i,
{
    if i < 0 || i >= 21 {
        None
    } else if prefix_at(s, p, symbol_text(symbol_order()[i])) {
        Some(symbol_order()[i])
    } else {
        symbol_from(s, p, i + 1)
    }
}

/// All characters of `d` are ASCII digits.
pub open spec fn ascii_digits(d: Seq<char>) -> bool {
    forall|i: int| 0 <= i < d.len() ==> is_ascii_digit(d[i])
}

/// The value of the decimal number `d` (ASCII digits).
pub open spec fn decimal_value(d: Seq<char>) -> int
    decreases d.len(),
{
    if d.len() == 0 {
        0
    } else {
        decimal_value(d.drop_last()) * 10 + (d.last() as u32 - 48)
    }
}

/// One step of the lexer.
pub enum LexStep {
    /// A token, and the number of characters it takes.
    Emit(TokenV, nat),
    /// A token that the lexer refuses.
    Fail(ParseErrorV),
    /// An integer literal that `usize` cannot hold, or whose digits are not all ASCII.
    Crash,
}

/// No identifier character (`[a-zA-Z0-9_]`) stands at `q`.
pub open spec fn word_ends_at(s: Seq<char>, q: int) -> bool {
    !(0 <= q < s.len() && is_ident_char(s[q]))
}

/// A literal at `p`: `\d+\.\d+`, `true` or `false` where no identifier character
/// follows, `"\w+"`, a refused character literal, or `\d+`.
pub open spec fn lit_step(s: Seq<char>, p: int) -> Option<LexStep> {
    let d1 = run(s, p, CharClass::Digit);
    let d2 = run(s, p + d1 + 1, CharClass::Digit);
    let w = run(s, p + 1, CharClass::Word);
    let k = run(s, p + 2, CharClass::LetterW);
    if d1 >= 1 && p + d1 < s.len() && s[p + d1] == '.' && d2 >= 1 {
        let inner = s.subrange(p, p + d1 + 1 + d2);
        Some(LexStep::Emit(TokenV::Lit(LitV::Float(inner)), byte_len(inner) as nat))
    } else if prefix_at(s, p, seq!['t', 'r', 'u', 'e']) && word_ends_at(s, p + 4) {
        Some(LexStep::Emit(TokenV::Lit(LitV::Bool(true)), 4))
    } else if prefix_at(s, p, seq!['f', 'a', 'l', 's', 'e']) && word_ends_at(s, p + 5) {
        Some(LexStep::Emit(TokenV::Lit(LitV::Bool(false)), 5))
    } else if s[p] == '"' && w >= 1 && p + 1 + w < s.len() && s[p + 1 + w] == '"' {
        Some(LexStep::Emit(TokenV::Lit(LitV::String(s.subrange(p + 1, p + 1 + w))), w + 2))
    } else if s[p] == '\'' && p + 1 < s.len() && s[p + 1] == '\\' && k >= 1 && p + 2 + k < s.len()
        && s[p + 2 + k] == '\'' {
        Some(LexStep::Fail(ParseErrorV::UnexpectChar(s.subrange(p + 1, p + 2 + k))))
    } else if d1 >= 1 {
        let digits = s.subrange(p, p + d1);
        if ascii_digits(digits) && decimal_value(digits) <= usize::MAX {
            Some(LexStep::Emit(TokenV::Lit(LitV::Int(decimal_value(digits) as usize)), d1))
        } else {
            Some(LexStep::Crash)
        }
    } else {
        None
    }
}

/// An identifier at `p`: `[a-zA-Z][a-zA-Z0-9_]*` at `p`, or else `_[a-zA-Z0-9_]*`
/// anywhere at or after `p`; the lexer then takes as many characters from `p`
/// on as the identifier has.
pub open spec fn ident_step(s: Seq<char>, p: int) -> Option<LexStep> {
    let start = if is_ascii_letter(s[p]) {
        Some(p)
    } else {
        first_underscore(s, p)
    };
    match start {
        Some(q) => {
            let inner = s.subrange(q, q + run(s, q, CharClass::Ident));
            Some(LexStep::Emit(TokenV::Ident(inner), inner.len()))
        },
        None => None,
    }
}

/// The step of the lexer at `p` (`p < s.len()`): a keyword, else a symbol, else a
/// literal, else an identifier, else an unknown token.
pub open spec fn lex_step(s: Seq<char>, p: int) -> LexStep {
    match keyword_from(s, p, 0) {
        Some(k) => LexStep::Emit(TokenV::Keyword(k), keyword_text(k).len()),
        None => match symbol_from(s, p, 0) {
            Some(y) => LexStep::Emit(TokenV::Symbol(y), symbol_text(y).len()),
            None => match lit_step(s, p) {
                Some(r) => r,
                None => match ident_step(s, p) {
                    Some(r) => r,
                    None => LexStep::Fail(ParseErrorV::UnknownToken),
                },
            },
        },
    }
}

/// Where the lexer stands after a token of `n` characters at `p`: past the token
/// and the white space that follows it.
pub open spec fn after(s: Seq<char>, p: int, n: nat) -> int {
    ws_end(s, if p + n <= s.len() {
        p + n
    } else {
        s.len() as int
    })
}

/// The outcome of lexing `s` from `p` on: the tokens, or the error at the first
/// token that the lexer refuses; `None` where the lexer panics (an integer
/// literal that `usize` cannot hold or that has other digits than ASCII ones).
pub open spec fn lex_from(s: Seq<char>, p: int) -> Option<Result<Seq<TokenV>, ErrorV>>
    decreases s.len() - p,
{
    if p < 0 || p >= s.len() {
        Some(Ok(seq![]))
    } else {
        match lex_step(s, p) {
            LexStep::Emit(t, n) => {
                proof {
                    lemma_lex_step_progress(s, p);
                    lemma_ws_end(s, if p + n <= s.len() {
                        p + n
                    } else {
                        s.len() as int
                    });
                }
                match lex_from(s, after(s, p, n)) {
                    Some(Ok(ts)) => Some(Ok(seq![t] + ts)),
                    other => other,
                }
            },
            LexStep::Fail(e) => Some(
                Err(
                    ErrorV {
                        msg: s.subrange(p, s.len() as int),
                        content: parse_error_message(e),
                        pos: 0,
                    },
                ),
            ),
            LexStep::Crash => None,
        }
    }
}

/// The outcome of lexing the text `s`.
pub open spec fn lex(s: Seq<char>) -> Option<Result<Seq<TokenV>, ErrorV>> {
    lex_from(s, ws_end(s, 0))
}

pub proof fn lemma_ws_end(s: Seq<char>, p: int)
    ensures
        ws_end(s, p) >= p,
        p >= 0 ==> ws_end(s, p) <= s.len() || ws_end(s, p) == p,
    decreases s.len() - p,
{
    if 0 <= p < s.len() && is_white_space(s[p]) {
        lemma_ws_end(s, p + 1);
    }
}

pub proof fn lemma_first_underscore(s: Seq<char>, p: int)
    ensures
        first_underscore(s, p) matches Some(q) ==> p <= q < s.len() && s[q] == '_' && q >= 0,
    decreases s.len() - p,
{
    if 0 <= p < s.len() && s[p] != '_' {
        lemma_first_underscore(s, p + 1);
    }
}

pub proof fn lemma_keyword_from(s: Seq<char>, p: int, i: int)
    ensures
        keyword_from(s, p, i) matches Some(k) ==> keyword_text(k).len() >= 1,
    decreases 5 - i,
{
    if 0 <= i < 5 && !prefix_at_ci(s, p, keyword_text(keyword_order()[i])) {
        lemma_keyword_from(s, p, i + 1);
    }
}

pub proof fn lemma_symbol_from(s: Seq<char>, p: int, i: int)
    ensures
        symbol_from(s, p, i) matches Some(y) ==> symbol_text(y).len() >= 1,
    decreases 21 - i,
{
    if 0 <= i < 21 && !prefix_at(s, p, symbol_text(symbol_order()[i])) {
        lemma_symbol_from(s, p, i + 1);
    }
}

/// A token that the lexer emits takes at least one character.
pub proof fn lemma_lex_step_progress(s: Seq<char>, p: int)
    requires
        0 <= p < s.len(),
    ensures
        lex_step(s, p) matches LexStep::Emit(_, n) ==> n >= 1,
{
    lemma_keyword_from(s, p, 0);
    lemma_symbol_from(s, p, 0);
    lemma_first_underscore(s, p);
    let d1 = run(s, p, CharClass::Digit);
    let d2 = run(s, p + d1 + 1, CharClass::Digit);
    if d1 >= 1 && p + d1 < s.len() && s[p + d1] == '.' && d2 >= 1 {
        lemma_run_bound(s, p + d1 + 1, CharClass::Digit);
        let inner = s.subrange(p, p + d1 + 1 + d2);
        lemma_utf8_len_ge(inner);
    }
    let start = if is_ascii_letter(s[p]) {
        Some(p)
    } else {
        first_underscore(s, p)
    };
    if let Some(q) = start {
        assert(in_class(CharClass::Ident, s[q]));
        assert(run(s, q, CharClass::Ident) >= 1);
        lemma_run_bound(s, q, CharClass::Ident);
    }
}

/// A run ends within the text.
pub proof fn lemma_run_bound(s: Seq<char>, i: int, cls: CharClass)
    ensures
        0 <= i ==> i + run(s, i, cls) <= s.len() || run(s, i, cls) == 0,
    decreases s.len() - i,
{
    if 0 <= i < s.len() && in_class(cls, s[i]) {
        lemma_run_bound(s, i + 1, cls);
    }
}

proof fn lemma_run_facts(s: Seq<char>, i: int, cls: CharClass)
    requires
        0 <= i,
    ensures
        forall|j: int| i <= j < i + run(s, i, cls) ==> 0 <= j < s.len() && in_class(cls, s[j]),
        !(i + run(s, i, cls) < s.len() && in_class(cls, s[i + run(s, i, cls)])),
    decreases s.len() - i,
{
    lemma_run_bound(s, i, cls);
    if 0 <= i < s.len() && in_class(cls, s[i]) {
        lemma_run_facts(s, i + 1, cls);
        assert forall|j: int| i <= j < i + run(s, i, cls) implies 0 <= j < s.len() && in_class(
            cls,
            s[j],
        ) by {
            if j > i {
                assert(i + 1 <= j < i + 1 + run(s, i + 1, cls));
            }
        }
    }
}

proof fn lemma_symbol_from_prefix(s: Seq<char>, p: int, i: int)
    ensures
        symbol_from(s, p, i) matches Some(y) ==> prefix_at(s, p, symbol_text(y)),
    decreases 21 - i,
{
    if 0 <= i < 21 && !prefix_at(s, p, symbol_text(symbol_order()[i])) {
        lemma_symbol_from_prefix(s, p, i + 1);
    }
}

proof fn lemma_keyword_from_prefix(s: Seq<char>, p: int, i: int)
    ensures
        keyword_from(s, p, i) matches Some(k) ==> prefix_at_ci(s, p, keyword_text(k)),
    decreases 5 - i,
{
    if 0 <= i < 5 && !prefix_at_ci(s, p, keyword_text(keyword_order()[i])) {
        lemma_keyword_from_prefix(s, p, i + 1);
    }
}

/// The lexer reads a keyword, a symbol or an integer from the characters that
/// write it: a keyword token takes the keyword's letters in any case, a symbol
/// token takes the symbol's characters, and an integer token takes the longest
/// run of ASCII digits there and has their decimal value.
pub proof fn law_lexed_token_text(s: Seq<char>, p: int)
    requires
        0 <= p < s.len(),
    ensures
        lex_step(s, p) matches LexStep::Emit(TokenV::Keyword(k), n) ==> (n == keyword_text(k).len()
            && prefix_at_ci(s, p, keyword_text(k))),
        lex_step(s, p) matches LexStep::Emit(TokenV::Symbol(y), n) ==> (n == symbol_text(y).len()
            && prefix_at(s, p, symbol_text(y))),
        lex_step(s, p) matches LexStep::Emit(TokenV::Lit(LitV::Int(v)), n) ==> ({
            let d = s.subrange(p, p + n);
            &&& p + n <= s.len()
            &&& n >= 1
            &&& ascii_digits(d)
            &&& v as int == decimal_value(d)
            &&& !(p + n < s.len() && is_digit_char(s[p + n]))
        }),
{
    lemma_keyword_from_prefix(s, p, 0);
    lemma_symbol_from_prefix(s, p, 0);
    lemma_run_facts(s, p, CharClass::Digit);
    lemma_run_bound(s, p, CharClass::Digit);
    let d1 = run(s, p, CharClass::Digit);
    let digits = s.subrange(p, p + d1);
    if d1 >= 1 && ascii_digits(digits) {
        lemma_decimal_value_prefix(digits, 0);
    }
}

/// A float literal is the longest `\d+\.\d+` that stands at its place: its text
/// is the characters there, made of digits and one dot that is neither first nor
/// last, and no digit follows it; the lexer moves on by exactly that text's length.
pub proof fn law_float_literal_text(s: Seq<char>, p: int)
    requires
        0 <= p < s.len(),
    ensures
        lit_step(s, p) matches Some(LexStep::Emit(TokenV::Lit(LitV::Float(t)), n)) ==> {
            &&& n == byte_len(t)
            &&& p + t.len() <= s.len()
            &&& t == s.subrange(p, p + t.len())
            &&& t.len() >= 3
            &&& forall|j: int| 0 <= j < t.len() ==> (is_digit_char(t[j]) || t[j] == '.')
            &&& t[0] != '.' && t[t.len() - 1] != '.'
            &&& exists|i: int| 0 <= i < t.len() && t[i] == '.'
            &&& forall|i: int, j: int| 0 <= i < j < t.len() && t[i] == '.' ==> t[j] != '.'
            &&& !(p + t.len() < s.len() && is_digit_char(s[p + t.len()]))
        },
{
    let d1 = run(s, p, CharClass::Digit);
    let d2 = run(s, p + d1 + 1, CharClass::Digit);
    lemma_run_facts(s, p, CharClass::Digit);
    lemma_run_facts(s, p + d1 + 1, CharClass::Digit);
    lemma_run_bound(s, p + d1 + 1, CharClass::Digit);
    if d1 >= 1 && p + d1 < s.len() && s[p + d1] == '.' && d2 >= 1 {
        let t = s.subrange(p, p + d1 + 1 + d2);
        assert(t.len() == d1 + 1 + d2);
        assert(!is_digit_char('.'));
        assert(t[d1 as int] == '.');
        assert forall|j: int| 0 <= j < t.len() implies (is_digit_char(t[j]) || t[j] == '.') by {
            if j < d1 {
                assert(t[j] == s[p + j]);
            } else if j > d1 {
                assert(t[j] == s[p + j]);
            }
        }
        assert forall|i: int, j: int| 0 <= i < j < t.len() && t[i] == '.' implies t[j] != '.' by {
            assert(t[i] == s[p + i]);
            assert(t[j] == s[p + j]);
            if i < d1 {
                assert(is_digit_char(s[p + i]));
            }
            assert(i == d1);
            assert(is_digit_char(s[p + j]));
        }
        assert(t[0] == s[p]);
        assert(t[t.len() - 1] == s[p + d1 + d2]);
    }
}

// ---------------------------------------------------------------------------
// The lexer.
// ---------------------------------------------------------------------------

/// The text that the lexer reads, and the position it has reached.
pub struct LexBuffer {
    content: Vec<char>,
    pos: usize,
}

/// One step of the lexer as it runs.
pub enum Scanned {
    Token(Token),
    Failed(ParseError),
    Overflow,
}

impl LexBuffer {
    #[verifier::type_invariant]
    spec fn inv(&self) -> bool {
        self.pos <= self.content.len()
    }

    /// The whole text.
    pub closed spec fn chars(&self) -> Seq<char> {
        self.content@
    }

    /// The position reached.
    pub closed spec fn position(&self) -> int {
        self.pos as int
    }

    /// The text that is left.
    pub fn rest(&self) -> (r: String)
        ensures
            0 <= self.position() <= self.chars().len(),
            r@ == self.chars().subrange(self.position(), self.chars().len() as int),
    {
        proof {
            use_type_invariant(self);
        }
        string_of(&self.content, self.pos, self.content.len())
    }

    /// Takes `n` characters (as many as are left if fewer), then the white space
    /// that follows.
    pub fn eat(&mut self, n: usize)
        ensures
            final(self).chars() == old(self).chars(),
            final(self).position() == after(old(self).chars(), old(self).position(), n as nat),
    {
        proof {
            use_type_invariant(&*self);
        }
        let len = self.content.len();
        let mut p = if n <= len - self.pos {
            self.pos + n
        } else {
            len
        };
        while p < len && white_space(self.content[p])
            invariant
                len == self.content.len(),
                p <= len,
                ws_end(self.content@, p as int) == after(
                    self.content@,
                    old(self).position(),
                    n as nat,
                ),
            decreases len - p,
        {
            p = p + 1;
        }
        self.pos = p;
    }

    /// The error `error` at the text that is left: the error's message is the
    /// text that is left, and its content is the message of `error`.
    pub fn error_head(&self, error: ParseError) -> (e: Error)
        ensures
            e@ == (ErrorV {
                msg: self.chars().subrange(self.position(), self.chars().len() as int),
                content: parse_error_message(error@),
                pos: 0,
            }),
    {
        Error::head(self.rest(), error.message())
    }

    /// No text is left.
    pub fn end(&self) -> (r: bool)
        ensures
            0 <= self.position() <= self.chars().len(),
            r == (self.position() >= self.chars().len()),
    {
        proof {
            use_type_invariant(self);
        }
        self.pos >= self.content.len()
    }

    fn at_ci(&self, pat: &Vec<char>) -> (r: bool)
        ensures
            r == prefix_at_ci(self.chars(), self.position(), pat@),
    {
        proof {
            use_type_invariant(self);
        }
        if pat.len() > self.content.len() - self.pos {
            return false;
        }
        let mut i: usize = 0;
        while i < pat.len()
            invariant
                self.pos + pat.len() <= self.content.len(),
                i <= pat.len(),
                forall|j: int| 0 <= j < i ==> same_letter(self.content@[self.pos + j], pat@[j]),
            decreases pat.len() - i,
        {
            let c = self.content[self.pos + i];
            let pc = pat[i];
            let pu = pc as u32;
            if !(c == pc || (97 <= pu && pu <= 122 && c as u32 == pu - 32)) {
                return false;
            }
            i = i + 1;
        }
        true
    }

    fn ident_char_at(&self, q: usize) -> (r: bool)
        ensures
            r == !word_ends_at(self.chars(), q as int),
    {
        q < self.content.len() && ident_char(self.content[q])
    }

    fn at(&self, pat: &Vec<char>) -> (r: bool)
        ensures
            r == prefix_at(self.chars(), self.position(), pat@),
    {
        proof {
            use_type_invariant(self);
        }
        if pat.len() > self.content.len() - self.pos {
            return false;
        }
        let mut i: usize = 0;
        while i < pat.len()
            invariant
                self.pos + pat.len() <= self.content.len(),
                i <= pat.len(),
                forall|j: int| 0 <= j < i ==> self.content@[self.pos + j] == pat@[j],
            decreases pat.len() - i,
        {
            if self.content[self.pos + i] != pat[i] {
                return false;
            }
            i = i + 1;
        }
        true
    }

    fn run_at(&self, i: usize, cls: &CharClass) -> (n: usize)
        requires
            i <= self.chars().len(),
        ensures
            n == run(self.chars(), i as int, *cls),
            i + n <= self.chars().len(),
    {
        let mut j = i;
        while j < self.content.len() && self.in_class(cls, self.content[j])
            invariant
                i <= j <= self.content.len(),
                run(self.content@, i as int, *cls) == (j - i) + run(self.content@, j as int, *cls),
            decreases self.content.len() - j,
        {
            j = j + 1;
        }
        j - i
    }

    fn in_class(&self, cls: &CharClass, c: char) -> (r: bool)
        ensures
            r == in_class(*cls, c),
    {
        match cls {
            CharClass::Digit => digit_char(c),
            CharClass::Word => word_char(c),
            CharClass::Ident => ident_char(c),
            CharClass::LetterW => c == 'w',
        }
    }

    fn first_underscore(&self) -> (r: Option<usize>)
        ensures
            r matches Some(q) ==> first_underscore(self.chars(), self.position()) == Some(q as int),
            r is None ==> first_underscore(self.chars(), self.position()) is None,
    {
        proof {
            use_type_invariant(self);
        }
        let mut q = self.pos;
        while q < self.content.len() && self.content[q] != '_'
            invariant
                self.pos <= q <= self.content.len(),
                first_underscore(self.content@, self.pos as int) == first_underscore(
                    self.content@,
                    q as int,
                ),
            decreases self.content.len() - q,
        {
            q = q + 1;
        }
        if q < self.content.len() {
            Some(q)
        } else {
            None
        }
    }
}


/// A kind of token that the lexer tries to read at the position it has reached.
pub trait ReadableToken {
    /// The step of reading a token of this kind at `p` in `s`; `None` where none
    /// stands there.
    spec fn read_spec(s: Seq<char>, p: int) -> Option<LexStep>;

    fn read(buffer: &mut LexBuffer) -> (r: Option<Scanned>)
        requires
            old(buffer).position() < old(buffer).chars().len(),
        ensures
            final(buffer).chars() == old(buffer).chars(),
            match Self::read_spec(old(buffer).chars(), old(buffer).position()) {
                None => r is None && final(buffer).position() == old(buffer).position(),
                Some(step) => r matches Some(sc) && scanned_as(
                    sc,
                    step,
                    old(buffer).chars(),
                    old(buffer).position(),
                    final(buffer).position(),
                ),
            },
    ;
}

impl ReadableToken for Keyword {
    open spec fn read_spec(s: Seq<char>, p: int) -> Option<LexStep> {
        match keyword_from(s, p, 0) {
            Some(k) => Some(LexStep::Emit(TokenV::Keyword(k), keyword_text(k).len())),
            None => None,
        }
    }

    fn read(buffer: &mut LexBuffer) -> (r: Option<Scanned>) {
        match buffer.read_keyword() {
            Some(k) => Some(Scanned::Token(Token::Keyword(k))),
            None => None,
        }
    }
}

impl ReadableToken for Symbol {
    open spec fn read_spec(s: Seq<char>, p: int) -> Option<LexStep> {
        match symbol_from(s, p, 0) {
            Some(y) => Some(LexStep::Emit(TokenV::Symbol(y), symbol_text(y).len())),
            None => None,
        }
    }

    fn read(buffer: &mut LexBuffer) -> (r: Option<Scanned>) {
        match buffer.read_symbol() {
            Some(y) => Some(Scanned::Token(Token::Symbol(y))),
            None => None,
        }
    }
}

impl ReadableToken for Lit {
    open spec fn read_spec(s: Seq<char>, p: int) -> Option<LexStep> {
        lit_step(s, p)
    }

    fn read(buffer: &mut LexBuffer) -> (r: Option<Scanned>) {
        buffer.read_lit()
    }
}

impl ReadableToken for Ident {
    open spec fn read_spec(s: Seq<char>, p: int) -> Option<LexStep> {
        match ident_step(s, p) {
            Some(LexStep::Emit(t, n)) => Some(LexStep::Emit(t, n)),
            _ => None,
        }
    }

    fn read(buffer: &mut LexBuffer) -> (r: Option<Scanned>) {
        match buffer.read_ident() {
            Some(t) => Some(Scanned::Token(t)),
            None => None,
        }
    }
}

impl ReadableToken for Token {
    open spec fn read_spec(s: Seq<char>, p: int) -> Option<LexStep> {
        Some(lex_step(s, p))
    }

    fn read(buffer: &mut LexBuffer) -> (r: Option<Scanned>) {
        Some(buffer.scan())
    }
}

/// `r` is what the lexer yields for the step `step` taken at `before` in `s`,
/// leaving the buffer at `after_pos`.
pub open spec fn scanned_as(r: Scanned, step: LexStep, s: Seq<char>, before: int, after_pos: int) -> bool {
    match step {
        LexStep::Emit(t, n) => r matches Scanned::Token(tok) && tok@ == t && after_pos == after(s, before, n),
        LexStep::Fail(e) => r matches Scanned::Failed(pe) && pe@ == e && after_pos == before,
        LexStep::Crash => r is Overflow,
    }
}

/// `dv(d) >= dv(d[..k])` for a decimal number `d`.
pub proof fn lemma_decimal_value_prefix(d: Seq<char>, k: int)
    requires
        ascii_digits(d),
        0 <= k <= d.len(),
    ensures
        decimal_value(d) >= decimal_value(d.take(k)) >= 0,
    decreases d.len(),
{
    if d.len() > 0 {
        assert(ascii_digits(d.drop_last()));
        if k == d.len() {
            assert(d.take(k) =~= d);
            lemma_decimal_value_prefix(d.drop_last(), k - 1);
        } else {
            assert(d.drop_last().take(k) =~= d.take(k));
            lemma_decimal_value_prefix(d.drop_last(), k);
        }
    } else {
        assert(d.take(k) =~= d);
    }
}

/// The value of the decimal number `v[from..to]`, if its digits are ASCII and
/// `usize` holds it.
fn parse_usize(v: &Vec<char>, from: usize, to: usize) -> (r: Option<usize>)
    requires
        from <= to <= v.len(),
    ensures
        ({
            let d = v@.subrange(from as int, to as int);
            if ascii_digits(d) && decimal_value(d) <= usize::MAX {
                r == Some(decimal_value(d) as usize)
            } else {
                r is None
            }
        }),
{
    let ghost full = v@.subrange(from as int, to as int);
    let mut acc: usize = 0;
    let mut i = from;
    assert(v@.subrange(from as int, from as int) =~= Seq::<char>::empty());
    while i < to
        invariant
            from <= i <= to <= v.len(),
            full == v@.subrange(from as int, to as int),
            ascii_digits(v@.subrange(from as int, i as int)),
            acc == decimal_value(v@.subrange(from as int, i as int)),
        decreases to - i,
    {
        let c = v[i];
        assert(full[i - from] == c);
        if !ascii_digit(c) {
            return None;
        }
        let ghost next = v@.subrange(from as int, i + 1);
        assert(next.drop_last() =~= v@.subrange(from as int, i as int));
        assert(ascii_digits(next));
        assert(full.take(i + 1 - from) =~= next);
        let d = (c as u32 - 48) as usize;
        match acc.checked_mul(10) {
            Some(m) => match m.checked_add(d) {
                Some(a) => {
                    acc = a;
                },
                None => {
                    proof {
                        if ascii_digits(full) {
                            lemma_decimal_value_prefix(full, i + 1 - from);
                        }
                    }
                    return None;
                },
            },
            None => {
                proof {
                    if ascii_digits(full) {
                        lemma_decimal_value_prefix(full, i + 1 - from);
                    }
                }
                return None;
            },
        }
        i = i + 1;
    }
    Some(acc)
}

impl LexBuffer {
    /// The first keyword that stands at the position reached; the buffer takes it.
    fn read_keyword(&mut self) -> (r: Option<Keyword>)
        ensures
            final(self).chars() == old(self).chars(),
            r == keyword_from(old(self).chars(), old(self).position(), 0),
            r matches Some(k) ==> final(self).position() == after(
                old(self).chars(),
                old(self).position(),
                keyword_text(k).len(),
            ),
            r is None ==> final(self).position() == old(self).position(),
    {
        let order = Keyword::order();
        let mut i: usize = 0;
        while i < order.len()
            invariant
                order@ == keyword_order(),
                i <= 5,
                self.chars() == old(self).chars(),
                self.position() == old(self).position(),
                keyword_from(self.chars(), self.position(), 0) == keyword_from(
                    self.chars(),
                    self.position(),
                    i as int,
                ),
            decreases 5 - i,
        {
            let k = order[i];
            let text = k.text();
            if self.at_ci(&text) {
                self.eat(text.len());
                return Some(k);
            }
            i = i + 1;
        }
        None
    }

    /// The first symbol that stands at the position reached; the buffer takes it.
    fn read_symbol(&mut self) -> (r: Option<Symbol>)
        ensures
            final(self).chars() == old(self).chars(),
            r == symbol_from(old(self).chars(), old(self).position(), 0),
            r matches Some(y) ==> final(self).position() == after(
                old(self).chars(),
                old(self).position(),
                symbol_text(y).len(),
            ),
            r is None ==> final(self).position() == old(self).position(),
    {
        let order = Symbol::order();
        let mut i: usize = 0;
        while i < order.len()
            invariant
                order@ == symbol_order(),
                i <= 21,
                self.chars() == old(self).chars(),
                self.position() == old(self).position(),
                symbol_from(self.chars(), self.position(), 0) == symbol_from(
                    self.chars(),
                    self.position(),
                    i as int,
                ),
            decreases 21 - i,
        {
            let y = order[i];
            let text = y.text();
            if self.at(&text) {
                self.eat(text.len());
                return Some(y);
            }
            i = i + 1;
        }
        None
    }

    /// The literal that stands at the position reached, if any.
    fn read_lit(&mut self) -> (r: Option<Scanned>)
        requires
            old(self).position() < old(self).chars().len(),
        ensures
            final(self).chars() == old(self).chars(),
            match lit_step(old(self).chars(), old(self).position()) {
                None => r is None && final(self).position() == old(self).position(),
                Some(step) => r matches Some(sc) && scanned_as(
                    sc,
                    step,
                    old(self).chars(),
                    old(self).position(),
                    final(self).position(),
                ),
            },
    {
        proof {
            use_type_invariant(&*self);
        }
        let p = self.pos;
        let len = self.content.len();
        let d1 = self.run_at(p, &CharClass::Digit);
        if d1 >= 1 && p + d1 < len && self.content[p + d1] == '.' {
            let d2 = self.run_at(p + d1 + 1, &CharClass::Digit);
            if d2 >= 1 {
                let end = p + d1 + 1 + d2;
                let inner = string_of(&self.content, p, end);
                let n = chars_byte_len(&self.content, p, end);
                self.eat(n);
                return Some(Scanned::Token(Token::Lit(Lit::Float(inner))));
            }
        }
        let tv = vec!['t', 'r', 'u', 'e'];
        assert(tv@ =~= seq!['t', 'r', 'u', 'e']);
        if self.at(&tv) && !self.ident_char_at(p + 4) {
            self.eat(4);
            return Some(Scanned::Token(Token::Lit(Lit::Bool(true))));
        }
        let fv = vec!['f', 'a', 'l', 's', 'e'];
        assert(fv@ =~= seq!['f', 'a', 'l', 's', 'e']);
        if self.at(&fv) && !self.ident_char_at(p + 5) {
            self.eat(5);
            return Some(Scanned::Token(Token::Lit(Lit::Bool(false))));
        }
        if self.content[p] == '"' {
            let w = self.run_at(p + 1, &CharClass::Word);
            if w >= 1 && p + 1 + w < len && self.content[p + 1 + w] == '"' {
                let inner = string_of(&self.content, p + 1, p + 1 + w);
                self.eat(w + 2);
                return Some(Scanned::Token(Token::Lit(Lit::String(inner))));
            }
        }
        if self.content[p] == '\'' && p + 1 < len && self.content[p + 1] == '\\' {
            let k = self.run_at(p + 2, &CharClass::LetterW);
            if k >= 1 && p + 2 + k < len && self.content[p + 2 + k] == '\'' {
                let text = string_of(&self.content, p + 1, p + 2 + k);
                return Some(Scanned::Failed(ParseError::UnexpectChar(text)));
            }
        }
        if d1 >= 1 {
            match parse_usize(&self.content, p, p + d1) {
                Some(v) => {
                    self.eat(d1);
                    Some(Scanned::Token(Token::Lit(Lit::Int(v))))
                },
                None => Some(Scanned::Overflow),
            }
        } else {
            None
        }
    }

    /// The identifier that the lexer reads at the position reached, if any.
    fn read_ident(&mut self) -> (r: Option<Token>)
        requires
            old(self).position() < old(self).chars().len(),
        ensures
            final(self).chars() == old(self).chars(),
            match ident_step(old(self).chars(), old(self).position()) {
                Some(LexStep::Emit(t, n)) => r matches Some(tok) && tok@ == t
                    && final(self).position() == after(old(self).chars(), old(self).position(), n),
                _ => r is None && final(self).position() == old(self).position(),
            },
    {
        proof {
            use_type_invariant(&*self);
            lemma_first_underscore(self.chars(), self.position());
        }
        let p = self.pos;
        let start = if ascii_letter(self.content[p]) {
            Some(p)
        } else {
            self.first_underscore()
        };
        match start {
            Some(q) => {
                let n = self.run_at(q, &CharClass::Ident);
                let inner = string_of(&self.content, q, q + n);
                self.eat(n);
                Some(Token::Ident(Ident { inner }))
            },
            None => None,
        }
    }

    /// One step of the lexer at the position reached.
    pub fn scan(&mut self) -> (r: Scanned)
        requires
            old(self).position() < old(self).chars().len(),
        ensures
            final(self).chars() == old(self).chars(),
            scanned_as(
                r,
                lex_step(old(self).chars(), old(self).position()),
                old(self).chars(),
                old(self).position(),
                final(self).position(),
            ),
    {
        if let Some(k) = self.read_keyword() {
            return Scanned::Token(Token::Keyword(k));
        }
        if let Some(y) = self.read_symbol() {
            return Scanned::Token(Token::Symbol(y));
        }
        if let Some(r) = self.read_lit() {
            return r;
        }
        if let Some(t) = self.read_ident() {
            return Scanned::Token(t);
        }
        Scanned::Failed(ParseError::UnknownToken)
    }
}

/// `ts` put in front of the tokens of an outcome of the lexer.
pub open spec fn prepend(
    ts: Seq<TokenV>,
    r: Option<Result<Seq<TokenV>, ErrorV>>,
) -> Option<Result<Seq<TokenV>, ErrorV>> {
    match r {
        Some(Ok(x)) => Some(Ok(ts + x)),
        other => other,
    }
}

pub proof fn lemma_prepend_assoc(a: Seq<TokenV>, b: Seq<TokenV>, r: Option<Result<Seq<TokenV>, ErrorV>>)
    ensures
        prepend(a, prepend(b, r)) == prepend(a + b, r),
{
    if let Some(Ok(x)) = r {
        assert(a + (b + x) =~= (a + b) + x);
    }
}

/// One step of `lex_from`.
pub proof fn lemma_lex_from_step(s: Seq<char>, p: int)
    requires
        0 <= p < s.len(),
    ensures
        match lex_step(s, p) {
            LexStep::Emit(t, n) => lex_from(s, p) == prepend(seq![t], lex_from(s, after(s, p, n))),
            LexStep::Fail(e) => lex_from(s, p) == Some(
                Err::<Seq<TokenV>, ErrorV>(
                    ErrorV {
                        msg: s.subrange(p, s.len() as int),
                        content: parse_error_message(e),
                        pos: 0,
                    },
                ),
            ),
            LexStep::Crash => lex_from(s, p) is None,
        },
{
}

/// The lexer of the query language.
pub struct Lexer {
    buffer: LexBuffer,
}

impl Lexer {
    /// The whole text.
    pub closed spec fn chars(&self) -> Seq<char> {
        self.buffer.chars()
    }

    /// The position reached.
    pub closed spec fn position(&self) -> int {
        self.buffer.position()
    }

    /// A lexer at the start of `content`, past its leading white space.
    pub fn new(content: &str) -> (l: Lexer)
        ensures
            l.chars() == content@,
            l.position() == ws_end(content@, 0),
    {
        let mut buffer = LexBuffer { content: chars_of(content), pos: 0 };
        buffer.eat(0);
        Lexer { buffer }
    }

    /// The tokens of the text, or the error at the first token that the lexer
    /// refuses; `None` on an integer literal that `usize` cannot hold or whose
    /// digits are not all ASCII.
    pub fn try_exec(self) -> (r: Option<Result<TokenStream, Error>>)
        ensures
            r is None <==> lex_from(self.chars(), self.position()) is None,
            r matches Some(Ok(ts)) ==> lex_from(self.chars(), self.position()) == Some(
                Ok::<Seq<TokenV>, ErrorV>(ts.tokens()),
            ) && ts.cursor() == 0,
            r matches Some(Err(e)) ==> lex_from(self.chars(), self.position()) == Some(
                Err::<Seq<TokenV>, ErrorV>(e@),
            ),
    {
        let mut buffer = self.buffer;
        let ghost s = buffer.chars();
        let ghost p0 = buffer.position();
        let mut tokens: Vec<Token> = Vec::new();
        proof {
            use_type_invariant(&buffer);
            assert(token_values(tokens@) =~= Seq::<TokenV>::empty());
            assert(prepend(Seq::<TokenV>::empty(), lex_from(s, p0)) == lex_from(s, p0)) by {
                match lex_from(s, p0) {
                    Some(Ok(x)) => {
                        assert(Seq::<TokenV>::empty() + x =~= x);
                    },
                    _ => {},
                }
            }
        }
        while !buffer.end()
            invariant
                buffer.chars() == s,
                s == self.chars(),
                p0 == self.position(),
                0 <= buffer.position() <= s.len(),
                lex_from(s, p0) == prepend(token_values(tokens@), lex_from(s, buffer.position())),
            decreases s.len() - buffer.position(),
        {
            let ghost p = buffer.position();
            let ghost ts = token_values(tokens@);
            proof {
                lemma_lex_step_progress(s, p);
                lemma_lex_from_step(s, p);
            }
            let sc = buffer.scan();
            proof {
                use_type_invariant(&buffer);
            }
            match sc {
                Scanned::Token(t) => {
                    proof {
                        if let LexStep::Emit(_, n) = lex_step(s, p) {
                            lemma_ws_end(s, if p + n <= s.len() { p + n } else { s.len() as int });
                        }
                        lemma_prepend_assoc(ts, seq![t@], lex_from(s, buffer.position()));
                        assert(token_values(tokens@.push(t)) =~= ts + seq![t@]);
                    }
                    tokens.push(t);
                },
                Scanned::Failed(e) => {
                    let err = buffer.error_head(e);
                    proof {
                        assert(lex_step(s, p) == LexStep::Fail(e@));
                        assert(lex_from(s, p) == Some(Err::<Seq<TokenV>, ErrorV>(err@)));
                    }
                    return Some(Err(err));
                },
                Scanned::Overflow => {
                    return None;
                },
            }
        }
        proof {
            assert(token_values(tokens@) + Seq::<TokenV>::empty() =~= token_values(tokens@));
        }
        Some(Ok(TokenStream::new(tokens)))
    }

    /// The tokens of the text, or the error at the first token that the lexer
    /// refuses.
    pub fn exec(self) -> (r: Result<TokenStream, Error>)
        requires
            lex_from(self.chars(), self.position()) is Some,
        ensures
            r matches Ok(ts) ==> lex_from(self.chars(), self.position()) == Some(
                Ok::<Seq<TokenV>, ErrorV>(ts.tokens()),
            ) && ts.cursor() == 0,
            r matches Err(e) ==> lex_from(self.chars(), self.position()) == Some(
                Err::<Seq<TokenV>, ErrorV>(e@),
            ),
    {
        match self.try_exec() {
            Some(r) => r,
            None => {
                assert(false);
                Err(Error::head(String::new(), String::new()))
            },
        }
    }
}

} // verus!

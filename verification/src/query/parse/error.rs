use vstd::prelude::*;

use crate::query::parse::text::{push_decimal, push_str, decimal};

verus! {

/// An error of the lexer or of the parser: a message, the text it is about and a
/// byte position in that text.
#[derive(Debug)]
pub struct Error {
    msg: String,
    content: String,
    pos: usize,
}

/// The value of an `Error`.
pub struct ErrorV {
    pub msg: Seq<char>,
    pub content: Seq<char>,
    pub pos: usize,
}

impl View for Error {
    type V = ErrorV;

    closed spec fn view(&self) -> ErrorV {
        ErrorV { msg: self.msg@, content: self.content@, pos: self.pos }
    }
}

impl Error {
    /// An error at the head (position 0) of `content`.
    pub fn head(msg: String, content: String) -> (e: Error)
        ensures
            e@ == (ErrorV { msg: msg@, content: content@, pos: 0 }),
    {
        Error { msg, content, pos: 0 }
    }

    pub fn new(msg: String, content: String, pos: usize) -> (e: Error)
        ensures
            e@ == (ErrorV { msg: msg@, content: content@, pos }),
    {
        Error { msg, content, pos }
    }

    pub fn msg(&self) -> (r: &String)
        ensures
            r@ == self@.msg,
    {
        &self.msg
    }

    pub fn content(&self) -> (r: &String)
        ensures
            r@ == self@.content,
    {
        &self.content
    }

    pub fn pos(&self) -> (r: usize)
        ensures
            r == self@.pos,
    {
        self.pos
    }

    /// The text `Error: {msg} at pos {pos} in `{content}``.
    pub fn to_string(&self) -> (r: String)
        ensures
            r@ == "Error: "@ + self@.msg + " at pos "@ + decimal(self@.pos as nat) + " in `"@
                + self@.content + "`"@,
    {
        let mut r = String::new();
        push_str(&mut r, "Error: ");
        push_str(&mut r, self.msg.as_str());
        push_str(&mut r, " at pos ");
        push_decimal(&mut r, self.pos as u128);
        push_str(&mut r, " in `");
        push_str(&mut r, self.content.as_str());
        push_str(&mut r, "`");
        r
    }
}

/// Errors of the lexer and of the token stream.
#[derive(Debug)]
pub enum ParseError {
    UnknownToken,
    UnexpectTokenOffset(usize, usize),
    UnexpectChar(String),
}

/// The value of a `ParseError`.
pub enum ParseErrorV {
    UnknownToken,
    UnexpectTokenOffset(usize, usize),
    UnexpectChar(Seq<char>),
}

impl View for ParseError {
    type V = ParseErrorV;

    open spec fn view(&self) -> ParseErrorV {
        match self {
            ParseError::UnknownToken => ParseErrorV::UnknownToken,
            ParseError::UnexpectTokenOffset(a, b) => ParseErrorV::UnexpectTokenOffset(*a, *b),
            ParseError::UnexpectChar(s) => ParseErrorV::UnexpectChar(s@),
        }
    }
}

/// The message of a `ParseError`.
pub open spec fn parse_error_message(e: ParseErrorV) -> Seq<char> {
    match e {
        ParseErrorV::UnknownToken => "Unknown token"@,
        ParseErrorV::UnexpectTokenOffset(len, offset) => "Cannot take "@ + decimal(offset as nat)
            + " tokens from a stream of "@ + decimal(len as nat) + " tokens"@,
        ParseErrorV::UnexpectChar(s) => "Unexpected char \""@ + s + "\""@,
    }
}

impl ParseError {
    pub fn message(&self) -> (r: String)
        ensures
            r@ == parse_error_message(self@),
    {
        let mut r = String::new();
        match self {
            ParseError::UnknownToken => {
                push_str(&mut r, "Unknown token");
            },
            ParseError::UnexpectTokenOffset(len, offset) => {
                push_str(&mut r, "Cannot take ");
                push_decimal(&mut r, *offset as u128);
                push_str(&mut r, " tokens from a stream of ");
                push_decimal(&mut r, *len as u128);
                push_str(&mut r, " tokens");
            },
            ParseError::UnexpectChar(s) => {
                push_str(&mut r, "Unexpected char \"");
                push_str(&mut r, s.as_str());
                push_str(&mut r, "\"");
            },
        }
        r
    }
}

} // verus!

use vstd::prelude::*;

use crate::query::ast::error::{SyntaxError, SyntaxErrorWithPos};
use crate::query::parse::text::{decimal, push_decimal, push_str};

verus! {

/// Where a node of a query stands: a byte offset, or the span between two.
#[derive(Debug, Copy, Clone, PartialEq, Eq)]
pub enum Location {
    Pos(usize),
    Span(usize, usize),
}

/// Where a location starts.
pub open spec fn loc_start(l: Location) -> usize {
    match l {
        Location::Pos(p) => p,
        Location::Span(s, _) => s,
    }
}

/// Where a location ends.
pub open spec fn loc_end(l: Location) -> usize {
    match l {
        Location::Pos(p) => p,
        Location::Span(_, e) => e,
    }
}

/// The text of a location: the offset, or the two ends joined by `_`.
pub open spec fn loc_text(l: Location) -> Seq<char> {
    match l {
        Location::Pos(p) => decimal(p as nat),
        Location::Span(s, e) => decimal(s as nat) + "_"@ + decimal(e as nat),
    }
}

/// The debug text of a location: `Pos(p)` or `Span(s, e)`.
pub open spec fn loc_debug(l: Location) -> Seq<char> {
    match l {
        Location::Pos(p) => "Pos("@ + decimal(p as nat) + ")"@,
        Location::Span(s, e) => "Span("@ + decimal(s as nat) + ", "@ + decimal(e as nat) + ")"@,
    }
}

impl Location {
    pub fn pos(pos: usize) -> (r: Location)
        ensures
            r == Location::Pos(pos),
    {
        Location::Pos(pos)
    }

    pub fn span(start: usize, end: usize) -> (r: Location)
        ensures
            r == Location::Span(start, end),
    {
        Location::Span(start, end)
    }

    /// The error `error` at this location.
    pub fn error(&self, error: SyntaxError) -> (r: SyntaxErrorWithPos)
        ensures
            r.error == error,
            r.location == *self,
    {
        SyntaxErrorWithPos { error, location: *self }
    }

    pub fn start(&self) -> (r: usize)
        ensures
            r == loc_start(*self),
    {
        match self {
            Location::Pos(p) => *p,
            Location::Span(s, _) => *s,
        }
    }

    pub fn end(&self) -> (r: usize)
        ensures
            r == loc_end(*self),
    {
        match self {
            Location::Pos(p) => *p,
            Location::Span(_, e) => *e,
        }
    }

    /// The text of the location.
    pub fn to_string(&self) -> (r: String)
        ensures
            r@ == loc_text(*self),
    {
        let mut r = String::new();
        match self {
            Location::Pos(p) => push_decimal(&mut r, *p as u128),
            Location::Span(s, e) => {
                push_decimal(&mut r, *s as u128);
                push_str(&mut r, "_");
                push_decimal(&mut r, *e as u128);
            },
        }
        assert(r@ =~= loc_text(*self));
        r
    }

    /// The debug text of the location.
    pub fn debug_string(&self) -> (r: String)
        ensures
            r@ == loc_debug(*self),
    {
        let mut r = String::new();
        match self {
            Location::Pos(p) => {
                push_str(&mut r, "Pos(");
                push_decimal(&mut r, *p as u128);
                push_str(&mut r, ")");
            },
            Location::Span(s, e) => {
                push_str(&mut r, "Span(");
                push_decimal(&mut r, *s as u128);
                push_str(&mut r, ", ");
                push_decimal(&mut r, *e as u128);
                push_str(&mut r, ")");
            },
        }
        assert(r@ =~= loc_debug(*self));
        r
    }
}

} // verus!

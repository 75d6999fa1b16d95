use vstd::prelude::*;

use crate::query::ast::location::{loc_debug, Location};
use crate::query::parse::text::push_str;

verus! {

/// The errors of building and checking the syntax tree of a query.
#[derive(Debug)]
pub enum SyntaxError {
    UnexpectedPair(&'static str),
    CannotParseIntoInteger(String),
    CannotParseIntoFloat(String),
    UnexpectedExpr,
    ConflictAlias(String),
    TypeError(String, String),
    ConflictValueAssertion(String),
    UnimplementedOperationForType(String, String),
    LitOverflow(String),
    UnknownAlias(String),
    UnknownField(String, String),
    UnknownResolverName(String),
    CannotBeWrappedInto(String),
    TypeInferError,
}

/// The value of a `SyntaxError`.
pub enum SyntaxErrorV {
    UnexpectedPair(Seq<char>),
    CannotParseIntoInteger(Seq<char>),
    CannotParseIntoFloat(Seq<char>),
    UnexpectedExpr,
    ConflictAlias(Seq<char>),
    TypeError(Seq<char>, Seq<char>),
    ConflictValueAssertion(Seq<char>),
    UnimplementedOperationForType(Seq<char>, Seq<char>),
    LitOverflow(Seq<char>),
    UnknownAlias(Seq<char>),
    UnknownField(Seq<char>, Seq<char>),
    UnknownResolverName(Seq<char>),
    CannotBeWrappedInto(Seq<char>),
    TypeInferError,
}

impl View for SyntaxError {
    type V = SyntaxErrorV;

    open spec fn view(&self) -> SyntaxErrorV {
        match self {
            SyntaxError::UnexpectedPair(a) => SyntaxErrorV::UnexpectedPair(a@),
            SyntaxError::CannotParseIntoInteger(a) => SyntaxErrorV::CannotParseIntoInteger(a@),
            SyntaxError::CannotParseIntoFloat(a) => SyntaxErrorV::CannotParseIntoFloat(a@),
            SyntaxError::UnexpectedExpr => SyntaxErrorV::UnexpectedExpr,
            SyntaxError::ConflictAlias(a) => SyntaxErrorV::ConflictAlias(a@),
            SyntaxError::TypeError(a, b) => SyntaxErrorV::TypeError(a@, b@),
            SyntaxError::ConflictValueAssertion(a) => SyntaxErrorV::ConflictValueAssertion(a@),
            SyntaxError::UnimplementedOperationForType(a, b) => SyntaxErrorV::UnimplementedOperationForType(a@, b@),
            SyntaxError::LitOverflow(a) => SyntaxErrorV::LitOverflow(a@),
            SyntaxError::UnknownAlias(a) => SyntaxErrorV::UnknownAlias(a@),
            SyntaxError::UnknownField(a, b) => SyntaxErrorV::UnknownField(a@, b@),
            SyntaxError::UnknownResolverName(a) => SyntaxErrorV::UnknownResolverName(a@),
            SyntaxError::CannotBeWrappedInto(a) => SyntaxErrorV::CannotBeWrappedInto(a@),
            SyntaxError::TypeInferError => SyntaxErrorV::TypeInferError,
        }
    }
}

/// The message of a syntax error.
pub open spec fn syntax_message(e: SyntaxErrorV) -> Seq<char> {
    match e {
        SyntaxErrorV::UnexpectedPair(a) => "Expected pair to be a '"@ + a + "'"@,
        SyntaxErrorV::CannotParseIntoInteger(a) => "Cannot parse \""@ + a + "\" into Integer"@,
        SyntaxErrorV::CannotParseIntoFloat(a) => "Cannot parse \""@ + a + "\" into Float"@,
        SyntaxErrorV::UnexpectedExpr => "Unexpected expr"@,
        SyntaxErrorV::ConflictAlias(a) => "Conflict alias \""@ + a + "\""@,
        SyntaxErrorV::TypeError(a, b) => "Mismatched type: expected \""@ + a + "\", found \""@ + b + "\""@,
        SyntaxErrorV::ConflictValueAssertion(a) => "Conflict external value type assertion for \"#"@ + a + "\""@,
        SyntaxErrorV::UnimplementedOperationForType(a, b) => "Unimplemented operation \""@ + a + "\" for type \""@ + b + "\""@,
        SyntaxErrorV::LitOverflow(a) => "Literal out of range for \""@ + a + "\""@,
        SyntaxErrorV::UnknownAlias(a) => "Unknown alias \""@ + a + "\""@,
        SyntaxErrorV::UnknownField(a, b) => "Unknown field \""@ + b + "\" of \""@ + a + "\""@,
        SyntaxErrorV::UnknownResolverName(a) => "Unknown resolver name \""@ + a + "\""@,
        SyntaxErrorV::CannotBeWrappedInto(a) => "Cannot be wrapped into \""@ + a + "\""@,
        SyntaxErrorV::TypeInferError => "Unable to infer a suitable type"@,
    }
}

impl SyntaxError {
    pub fn message(&self) -> (r: String)
        ensures
            r@ == syntax_message(self@),
    {
        let mut r = String::new();
        match self {
            SyntaxError::UnexpectedPair(a) => {
                push_str(&mut r, "Expected pair to be a '");
                push_str(&mut r, a);
                push_str(&mut r, "'");
            },
            SyntaxError::CannotParseIntoInteger(a) => {
                push_str(&mut r, "Cannot parse \"");
                push_str(&mut r, a.as_str());
                push_str(&mut r, "\" into Integer");
            },
            SyntaxError::CannotParseIntoFloat(a) => {
                push_str(&mut r, "Cannot parse \"");
                push_str(&mut r, a.as_str());
                push_str(&mut r, "\" into Float");
            },
            SyntaxError::UnexpectedExpr => {
                push_str(&mut r, "Unexpected expr");
            },
            SyntaxError::ConflictAlias(a) => {
                push_str(&mut r, "Conflict alias \"");
                push_str(&mut r, a.as_str());
                push_str(&mut r, "\"");
            },
            SyntaxError::TypeError(a, b) => {
                push_str(&mut r, "Mismatched type: expected \"");
                push_str(&mut r, a.as_str());
                push_str(&mut r, "\", found \"");
                push_str(&mut r, b.as_str());
                push_str(&mut r, "\"");
            },
            SyntaxError::ConflictValueAssertion(a) => {
                push_str(&mut r, "Conflict external value type assertion for \"#");
                push_str(&mut r, a.as_str());
                push_str(&mut r, "\"");
            },
            SyntaxError::UnimplementedOperationForType(a, b) => {
                push_str(&mut r, "Unimplemented operation \"");
                push_str(&mut r, a.as_str());
                push_str(&mut r, "\" for type \"");
                push_str(&mut r, b.as_str());
                push_str(&mut r, "\"");
            },
            SyntaxError::LitOverflow(a) => {
                push_str(&mut r, "Literal out of range for \"");
                push_str(&mut r, a.as_str());
                push_str(&mut r, "\"");
            },
            SyntaxError::UnknownAlias(a) => {
                push_str(&mut r, "Unknown alias \"");
                push_str(&mut r, a.as_str());
                push_str(&mut r, "\"");
            },
            SyntaxError::UnknownField(a, b) => {
                push_str(&mut r, "Unknown field \"");
                push_str(&mut r, b.as_str());
                push_str(&mut r, "\" of \"");
                push_str(&mut r, a.as_str());
                push_str(&mut r, "\"");
            },
            SyntaxError::UnknownResolverName(a) => {
                push_str(&mut r, "Unknown resolver name \"");
                push_str(&mut r, a.as_str());
                push_str(&mut r, "\"");
            },
            SyntaxError::CannotBeWrappedInto(a) => {
                push_str(&mut r, "Cannot be wrapped into \"");
                push_str(&mut r, a.as_str());
                push_str(&mut r, "\"");
            },
            SyntaxError::TypeInferError => {
                push_str(&mut r, "Unable to infer a suitable type");
            },
        }
        assert(r@ =~= syntax_message(self@));
        r
    }
}

/// A syntax error and where it stands.
#[derive(Debug)]
pub struct SyntaxErrorWithPos {
    pub error: SyntaxError,
    pub location: Location,
}

/// The value of a `SyntaxErrorWithPos`.
pub struct SyntaxErrorWithPosV {
    pub error: SyntaxErrorV,
    pub location: Location,
}

impl View for SyntaxErrorWithPos {
    type V = SyntaxErrorWithPosV;

    open spec fn view(&self) -> SyntaxErrorWithPosV {
        SyntaxErrorWithPosV { error: self.error@, location: self.location }
    }
}

/// The error that a node does not have the expected rule `what`.
pub open spec fn unexpected_pair(location: Location, what: Seq<char>) -> SyntaxErrorWithPosV {
    SyntaxErrorWithPosV { error: SyntaxErrorV::UnexpectedPair(what), location }
}

/// The error of a missing or unexpected operand.
pub open spec fn unexpected_expr(location: Location) -> SyntaxErrorWithPosV {
    SyntaxErrorWithPosV { error: SyntaxErrorV::UnexpectedExpr, location }
}

impl SyntaxErrorWithPos {
    /// The text `Error: {error} at {location:?}`.
    pub fn to_string(&self) -> (r: String)
        ensures
            r@ == "Error: "@ + syntax_message(self@.error) + " at "@ + loc_debug(self.location),
    {
        let mut r = String::new();
        push_str(&mut r, "Error: ");
        let m = self.error.message();
        push_str(&mut r, m.as_str());
        push_str(&mut r, " at ");
        let l = self.location.debug_string();
        push_str(&mut r, l.as_str());
        r
    }
}

} // verus!

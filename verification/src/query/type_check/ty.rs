use vstd::prelude::*;

verus! {

/// The kinds of value that a query works with.
#[derive(Debug, Clone, Copy, PartialEq, Eq)]
pub enum QueryType {
    Integer,
    Float,
    String,
    Char,
    Boolean,
}

} // verus!

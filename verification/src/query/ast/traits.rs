use vstd::prelude::*;

use crate::query::ast::location::Location;

verus! {

/// A node of the syntax tree that knows where it stands in the query.
pub trait Locatable {
    /// Where the node stands.
    spec fn located_at(&self) -> Location;

    fn location(&self) -> (r: Location)
        ensures
            r == self.located_at(),
    ;
}

} // verus!

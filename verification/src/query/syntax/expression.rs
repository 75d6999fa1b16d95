use vstd::prelude::*;

verus! {

/// The type of a name of an expression: resolved to a type of the database
/// (`T`), or not resolved yet.
pub enum TypeFlag<T> {
    Resolved(T),
    Unresolved,
}

impl<T> Default for TypeFlag<T> {
    /// A type not resolved yet.
    fn default() -> (r: TypeFlag<T>)
        ensures
            r is Unresolved,
    {
        TypeFlag::Unresolved
    }
}

} // verus!

use std::collections::HashMap;
use vstd::prelude::*;

verus! {

/// What an entity declares of itself: the name of its table (derived from the
/// struct's name where it is absent) and its indexes by name.
pub struct Entity {
    pub name: Option<String>,
    pub indexes: Option<HashMap<String, Index>>,
}

/// An index of an entity: the fields it covers, its method (`b_tree` unless
/// given) and whether it is unique (not unless given).
pub struct Index {
    pub fields: Vec<String>,
    pub method: IndexMethod,
    pub unique: bool,
}

/// The method of an index.
#[derive(Copy, Clone, Debug, PartialEq, Eq, Structural)]
pub enum IndexMethod {
    BTree,
}

} // verus!

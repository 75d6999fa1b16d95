pub mod ty;
pub mod type_kind;

pub use ty::QueryType;
pub use type_kind::TypeKind;

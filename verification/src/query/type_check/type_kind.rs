use vstd::prelude::*;

use crate::query::ast::literal::{LitNode, Literal};
use crate::query::parse::text::push_str;

verus! {

/// The kind of a value of an expression, as type errors name it.
#[derive(Clone, Eq, PartialEq, Debug)]
pub enum TypeKind {
    Numeric,
    String,
    Boolean,
    Object(String),
    Others(String),
}

/// The value of a `TypeKind`.
pub enum TypeKindV {
    Numeric,
    String,
    Boolean,
    Object(Seq<char>),
    Others(Seq<char>),
}

impl View for TypeKind {
    type V = TypeKindV;

    open spec fn view(&self) -> TypeKindV {
        match self {
            TypeKind::Numeric => TypeKindV::Numeric,
            TypeKind::String => TypeKindV::String,
            TypeKind::Boolean => TypeKindV::Boolean,
            TypeKind::Object(s) => TypeKindV::Object(s@),
            TypeKind::Others(s) => TypeKindV::Others(s@),
        }
    }
}

/// The text of a kind: its name, `Object(name)`, or the text of another kind.
pub open spec fn kind_text(k: TypeKindV) -> Seq<char> {
    match k {
        TypeKindV::Numeric => "Numeric"@,
        TypeKindV::String => "String"@,
        TypeKindV::Boolean => "Boolean"@,
        TypeKindV::Object(name) => "Object("@ + name + ")"@,
        TypeKindV::Others(s) => s,
    }
}

/// The kind of a literal.
pub open spec fn literal_kind(l: LitNode) -> TypeKindV {
    match l {
        LitNode::Boolean(_, _) => TypeKindV::Boolean,
        LitNode::Float(_, _) => TypeKindV::Numeric,
        LitNode::Integer(_, _) => TypeKindV::Numeric,
        LitNode::Str(_, _) => TypeKindV::String,
        LitNode::External(ident, _) => TypeKindV::Others("External Value: "@ + ident),
        LitNode::Null(_) => TypeKindV::Others("Null"@),
    }
}

impl TypeKind {
    /// The text of the kind.
    pub fn to_string(&self) -> (r: String)
        ensures
            r@ == kind_text(self@),
    {
        let mut r = String::new();
        match self {
            TypeKind::Numeric => push_str(&mut r, "Numeric"),
            TypeKind::String => push_str(&mut r, "String"),
            TypeKind::Boolean => push_str(&mut r, "Boolean"),
            TypeKind::Object(name) => {
                push_str(&mut r, "Object(");
                push_str(&mut r, name.as_str());
                push_str(&mut r, ")");
            },
            TypeKind::Others(s) => push_str(&mut r, s.as_str()),
        }
        assert(r@ =~= kind_text(self@));
        r
    }

    /// The kind of a literal.
    pub fn from_literal(lit: &Literal) -> (r: TypeKind)
        ensures
            r@ == literal_kind(lit@),
    {
        match lit {
            Literal::Boolean(_) => TypeKind::Boolean,
            Literal::Float(_) | Literal::Integer(_) => TypeKind::Numeric,
            Literal::String(_) => TypeKind::String,
            Literal::External(e) => {
                let mut s = String::new();
                push_str(&mut s, "External Value: ");
                push_str(&mut s, e.ident.as_str());
                TypeKind::Others(s)
            },
            Literal::Null(_) => {
                let mut s = String::new();
                push_str(&mut s, "Null");
                TypeKind::Others(s)
            },
        }
    }
}

} // verus!

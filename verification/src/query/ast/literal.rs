use vstd::prelude::*;

use crate::query::ast::error::{
    unexpected_pair, SyntaxError, SyntaxErrorV, SyntaxErrorWithPos, SyntaxErrorWithPosV,
};
use crate::query::ast::location::Location;
use crate::query::ast::number::{i128_of_text, parse_i128};
use crate::query::ast::pair::{arity, child, next_child, pair_location, QueryPair, Rule};
use crate::query::ast::traits::Locatable;
use crate::query::expr::float::{float_text, is_float_text};
use vstd::std_specs::cmp::PartialEqSpecImpl;

verus! {

/// The value of a literal of the syntax tree, with its location.
pub enum LitNode {
    Boolean(bool, Location),
    Integer(i128, Location),
    Float(Seq<char>, Location),
    Str(Seq<char>, Location),
    External(Seq<char>, Location),
    Null(Location),
}

/// Where a literal stands.
pub open spec fn lit_location(l: LitNode) -> Location {
    match l {
        LitNode::Boolean(_, loc) => loc,
        LitNode::Integer(_, loc) => loc,
        LitNode::Float(_, loc) => loc,
        LitNode::Str(_, loc) => loc,
        LitNode::External(_, loc) => loc,
        LitNode::Null(loc) => loc,
    }
}

/// The view of the outcome of building a node of the syntax tree.
pub open spec fn ast_result<T: View>(r: Result<T, SyntaxErrorWithPos>) -> Result<
    T::V,
    SyntaxErrorWithPosV,
> {
    match r {
        Ok(v) => Ok(v@),
        Err(e) => Err(e@),
    }
}

/// A node that the parser panics on: a `bool` without a child.
pub open spec fn bool_valued(p: QueryPair) -> bool {
    p.rule == Rule::bool ==> arity(p) > 0
}

/// Every `bool` node of the tree has a child.
pub open spec fn tree_bools_valued(p: QueryPair) -> bool
    decreases p,
{
    bool_valued(p) && all_bools_valued(p.inner@)
}

/// Every `bool` node of the trees `s` has a child.
pub open spec fn all_bools_valued(s: Seq<QueryPair>) -> bool
    decreases s,
{
    s.len() == 0 || (all_bools_valued(s.drop_last()) && tree_bools_valued(s.last()))
}

pub proof fn lemma_child_bools_valued(p: QueryPair, i: int)
    requires
        tree_bools_valued(p),
        0 <= i < arity(p),
    ensures
        tree_bools_valued(child(p, i)),
{
    lemma_all_bools_valued(p.inner@, i);
}

proof fn lemma_all_bools_valued(s: Seq<QueryPair>, i: int)
    requires
        all_bools_valued(s),
        0 <= i < s.len(),
    ensures
        tree_bools_valued(s[i]),
    decreases s.len(),
{
    if i < s.len() - 1 {
        assert(s.drop_last()[i] == s[i]);
        lemma_all_bools_valued(s.drop_last(), i);
    }
}

#[derive(Debug, Clone)]
pub struct Boolean {
    pub value: bool,
    pub location: Location,
}

impl View for Boolean {
    type V = LitNode;

    open spec fn view(&self) -> LitNode {
        LitNode::Boolean(self.value, self.location)
    }
}

/// A `bool` node: its child is `bool_true` or `bool_false`.
pub open spec fn boolean_of(p: QueryPair) -> Result<LitNode, SyntaxErrorWithPosV> {
    let loc = pair_location(p);
    if p.rule == Rule::bool {
        match child(p, 0).rule {
            Rule::bool_true => Ok(LitNode::Boolean(true, loc)),
            Rule::bool_false => Ok(LitNode::Boolean(false, loc)),
            _ => Err(unexpected_pair(loc, "bool"@)),
        }
    } else {
        Err(unexpected_pair(loc, "bool"@))
    }
}

impl Boolean {
    pub fn from_pair(pair: QueryPair) -> (r: Result<Boolean, SyntaxErrorWithPos>)
        requires
            bool_valued(pair),
        ensures
            ast_result(r) == boolean_of(pair),
    {
        let ghost gp = pair;
        let location = pair.location();
        match pair.as_rule() {
            Rule::bool => {
                let mut inner = pair.into_inner();
                let value = match next_child(&mut inner) {
                    Some(first) => match first.as_rule() {
                        Rule::bool_true => true,
                        Rule::bool_false => false,
                        _ => {
                            return Err(location.error(SyntaxError::UnexpectedPair("bool")));
                        },
                    },
                    None => {
                        return Err(location.error(SyntaxError::UnexpectedPair("bool")));
                    },
                };
                proof {
                    reveal_strlit("bool");
                }
                Ok(Boolean { value, location })
            },
            _ => {
                proof {
                    reveal_strlit("bool");
                }
                Err(location.error(SyntaxError::UnexpectedPair("bool")))
            },
        }
    }
}

#[derive(Debug, Clone)]
pub struct Integer {
    pub value: i128,
    pub location: Location,
}

impl View for Integer {
    type V = LitNode;

    open spec fn view(&self) -> LitNode {
        LitNode::Integer(self.value, self.location)
    }
}

/// An `int` node: its text is an `i128`.
pub open spec fn integer_of(p: QueryPair) -> Result<LitNode, SyntaxErrorWithPosV> {
    let loc = pair_location(p);
    if p.rule == Rule::integer {
        match i128_of_text(p.text@) {
            Some(v) => Ok(LitNode::Integer(v, loc)),
            None => Err(
                SyntaxErrorWithPosV {
                    error: SyntaxErrorV::CannotParseIntoInteger(p.text@),
                    location: loc,
                },
            ),
        }
    } else {
        Err(unexpected_pair(loc, "int"@))
    }
}

impl Integer {
    pub fn from_pair(pair: QueryPair) -> (r: Result<Integer, SyntaxErrorWithPos>)
        ensures
            ast_result(r) == integer_of(pair),
    {
        let location = pair.location();
        proof {
            reveal_strlit("int");
        }
        match pair.as_rule() {
            Rule::integer => match parse_i128(pair.text.as_str()) {
                Some(value) => Ok(Integer { value, location }),
                None => Err(location.error(SyntaxError::CannotParseIntoInteger(pair.text))),
            },
            _ => Err(location.error(SyntaxError::UnexpectedPair("int"))),
        }
    }
}

/// A floating-point literal, held as its text (a text that std reads as an
/// `f64`).
#[derive(Debug, Clone)]
pub struct Float {
    pub value: String,
    pub location: Location,
}

impl View for Float {
    type V = LitNode;

    open spec fn view(&self) -> LitNode {
        LitNode::Float(self.value@, self.location)
    }
}

/// A `float` node: its text is an `f64`.
pub open spec fn float_of(p: QueryPair) -> Result<LitNode, SyntaxErrorWithPosV> {
    let loc = pair_location(p);
    if p.rule == Rule::float {
        if float_text(p.text@) {
            Ok(LitNode::Float(p.text@, loc))
        } else {
            Err(
                SyntaxErrorWithPosV {
                    error: SyntaxErrorV::CannotParseIntoFloat(p.text@),
                    location: loc,
                },
            )
        }
    } else {
        Err(unexpected_pair(loc, "float"@))
    }
}

impl Float {
    pub fn from_pair(pair: QueryPair) -> (r: Result<Float, SyntaxErrorWithPos>)
        ensures
            ast_result(r) == float_of(pair),
    {
        let location = pair.location();
        proof {
            reveal_strlit("float");
        }
        match pair.as_rule() {
            Rule::float => {
                if is_float_text(pair.text.as_str()) {
                    Ok(Float { value: pair.text, location })
                } else {
                    Err(location.error(SyntaxError::CannotParseIntoFloat(pair.text)))
                }
            },
            _ => Err(location.error(SyntaxError::UnexpectedPair("float"))),
        }
    }
}

#[derive(Debug, Clone)]
pub struct Str {
    pub value: String,
    pub location: Location,
}

impl View for Str {
    type V = LitNode;

    open spec fn view(&self) -> LitNode {
        LitNode::Str(self.value@, self.location)
    }
}

/// A `string` node: its first child is the `string_inner` that holds the text.
pub open spec fn str_of(p: QueryPair) -> Result<LitNode, SyntaxErrorWithPosV> {
    let loc = pair_location(p);
    if p.rule == Rule::string {
        if arity(p) == 0 || child(p, 0).rule != Rule::string_inner {
            Err(unexpected_pair(loc, "string_inner"@))
        } else {
            Ok(LitNode::Str(child(p, 0).text@, loc))
        }
    } else {
        Err(unexpected_pair(loc, "string"@))
    }
}

impl Str {
    pub fn from_pair(pair: QueryPair) -> (r: Result<Str, SyntaxErrorWithPos>)
        ensures
            ast_result(r) == str_of(pair),
    {
        let location = pair.location();
        proof {
            reveal_strlit("string");
            reveal_strlit("string_inner");
        }
        match pair.as_rule() {
            Rule::string => {
                let mut inner = pair.into_inner();
                let inner_pair = match next_child(&mut inner) {
                    Some(p) => p,
                    None => {
                        return Err(location.error(SyntaxError::UnexpectedPair("string_inner")));
                    },
                };
                match inner_pair.as_rule() {
                    Rule::string_inner => Ok(Str { value: inner_pair.text, location }),
                    _ => Err(location.error(SyntaxError::UnexpectedPair("string_inner"))),
                }
            },
            _ => Err(location.error(SyntaxError::UnexpectedPair("string"))),
        }
    }
}

#[derive(Debug, Clone)]
pub struct ExternalValue {
    pub ident: String,
    pub location: Location,
}

impl View for ExternalValue {
    type V = LitNode;

    open spec fn view(&self) -> LitNode {
        LitNode::External(self.ident@, self.location)
    }
}

/// An `external_ident` node: its first child is the `ident` that names the value.
pub open spec fn external_of(p: QueryPair) -> Result<LitNode, SyntaxErrorWithPosV> {
    let loc = pair_location(p);
    if p.rule == Rule::external_ident {
        if arity(p) == 0 || child(p, 0).rule != Rule::ident {
            Err(unexpected_pair(loc, "ident"@))
        } else {
            Ok(LitNode::External(child(p, 0).text@, loc))
        }
    } else {
        Err(unexpected_pair(loc, "external_ident"@))
    }
}

impl ExternalValue {
    pub fn from_pair(pair: QueryPair) -> (r: Result<ExternalValue, SyntaxErrorWithPos>)
        ensures
            ast_result(r) == external_of(pair),
    {
        let location = pair.location();
        proof {
            reveal_strlit("ident");
            reveal_strlit("external_ident");
        }
        match pair.as_rule() {
            Rule::external_ident => {
                let mut inner = pair.into_inner();
                let inner_pair = match next_child(&mut inner) {
                    Some(p) => p,
                    None => {
                        return Err(location.error(SyntaxError::UnexpectedPair("ident")));
                    },
                };
                match inner_pair.as_rule() {
                    Rule::ident => Ok(ExternalValue { ident: inner_pair.text, location }),
                    _ => Err(location.error(SyntaxError::UnexpectedPair("ident"))),
                }
            },
            _ => Err(location.error(SyntaxError::UnexpectedPair("external_ident"))),
        }
    }
}

#[derive(Debug, Clone)]
pub struct Null {
    pub location: Location,
}

impl View for Null {
    type V = LitNode;

    open spec fn view(&self) -> LitNode {
        LitNode::Null(self.location)
    }
}

/// A `null` node.
pub open spec fn null_of(p: QueryPair) -> Result<LitNode, SyntaxErrorWithPosV> {
    let loc = pair_location(p);
    if p.rule == Rule::null {
        Ok(LitNode::Null(loc))
    } else {
        Err(unexpected_pair(loc, "null"@))
    }
}

impl Null {
    pub fn from_pair(pair: QueryPair) -> (r: Result<Null, SyntaxErrorWithPos>)
        ensures
            ast_result(r) == null_of(pair),
    {
        let location = pair.location();
        proof {
            reveal_strlit("null");
        }
        match pair.as_rule() {
            Rule::null => Ok(Null { location }),
            _ => Err(location.error(SyntaxError::UnexpectedPair("null"))),
        }
    }
}

/// A literal of the syntax tree.
#[derive(Debug, Clone, PartialEq, Eq)]
pub enum Literal {
    Boolean(Boolean),
    Integer(Integer),
    Float(Float),
    String(Str),
    External(ExternalValue),
    Null(Null),
}

impl View for Literal {
    type V = LitNode;

    open spec fn view(&self) -> LitNode {
        match self {
            Literal::Boolean(l) => l@,
            Literal::Integer(l) => l@,
            Literal::Float(l) => l@,
            Literal::String(l) => l@,
            Literal::External(l) => l@,
            Literal::Null(l) => l@,
        }
    }
}

/// A `literal` node: its first child is one of the literals.
pub open spec fn literal_of(p: QueryPair) -> Result<LitNode, SyntaxErrorWithPosV> {
    let loc = pair_location(p);
    if p.rule == Rule::literal && arity(p) > 0 {
        let q = child(p, 0);
        match q.rule {
            Rule::bool => boolean_of(q),
            Rule::integer => integer_of(q),
            Rule::float => float_of(q),
            Rule::string => str_of(q),
            Rule::external_ident => external_of(q),
            Rule::null => null_of(q),
            _ => Err(unexpected_pair(loc, "literal"@)),
        }
    } else {
        Err(unexpected_pair(loc, "literal"@))
    }
}

impl Literal {
    pub fn from_pair(pair: QueryPair) -> (r: Result<Literal, SyntaxErrorWithPos>)
        requires
            tree_bools_valued(pair),
        ensures
            ast_result(r) == literal_of(pair),
    {
        let ghost gp = pair;
        let location = pair.location();
        proof {
            reveal_strlit("literal");
        }
        match pair.as_rule() {
            Rule::literal => {
                let mut inner = pair.into_inner();
                let q = match next_child(&mut inner) {
                    Some(q) => q,
                    None => {
                        return Err(location.error(SyntaxError::UnexpectedPair("literal")));
                    },
                };
                proof {
                    assert(arity(gp) > 0);
                    lemma_child_bools_valued(gp, 0);
                }
                match q.as_rule() {
                    Rule::bool => match Boolean::from_pair(q) {
                        Ok(v) => Ok(Literal::Boolean(v)),
                        Err(e) => Err(e),
                    },
                    Rule::integer => match Integer::from_pair(q) {
                        Ok(v) => Ok(Literal::Integer(v)),
                        Err(e) => Err(e),
                    },
                    Rule::float => match Float::from_pair(q) {
                        Ok(v) => Ok(Literal::Float(v)),
                        Err(e) => Err(e),
                    },
                    Rule::string => match Str::from_pair(q) {
                        Ok(v) => Ok(Literal::String(v)),
                        Err(e) => Err(e),
                    },
                    Rule::external_ident => match ExternalValue::from_pair(q) {
                        Ok(v) => Ok(Literal::External(v)),
                        Err(e) => Err(e),
                    },
                    Rule::null => match Null::from_pair(q) {
                        Ok(v) => Ok(Literal::Null(v)),
                        Err(e) => Err(e),
                    },
                    _ => Err(location.error(SyntaxError::UnexpectedPair("literal"))),
                }
            },
            _ => Err(location.error(SyntaxError::UnexpectedPair("literal"))),
        }
    }
}

impl Locatable for Boolean {
    open spec fn located_at(&self) -> Location {
        self.location
    }

    fn location(&self) -> (r: Location) {
        self.location
    }
}

impl Locatable for Integer {
    open spec fn located_at(&self) -> Location {
        self.location
    }

    fn location(&self) -> (r: Location) {
        self.location
    }
}

impl Locatable for Float {
    open spec fn located_at(&self) -> Location {
        self.location
    }

    fn location(&self) -> (r: Location) {
        self.location
    }
}

impl Locatable for Str {
    open spec fn located_at(&self) -> Location {
        self.location
    }

    fn location(&self) -> (r: Location) {
        self.location
    }
}

impl Locatable for ExternalValue {
    open spec fn located_at(&self) -> Location {
        self.location
    }

    fn location(&self) -> (r: Location) {
        self.location
    }
}

impl Locatable for Null {
    open spec fn located_at(&self) -> Location {
        self.location
    }

    fn location(&self) -> (r: Location) {
        self.location
    }
}

impl Locatable for Literal {
    open spec fn located_at(&self) -> Location {
        lit_location(self@)
    }

    fn location(&self) -> (r: Location) {
        match self {
            Literal::Boolean(lit) => lit.location(),
            Literal::Integer(lit) => lit.location(),
            Literal::Float(lit) => lit.location(),
            Literal::String(lit) => lit.location(),
            Literal::External(lit) => lit.location(),
            Literal::Null(lit) => lit.location(),
        }
    }
}

impl Literal {
    /// A copy of the literal.
    pub fn duplicate(&self) -> (r: Literal)
        ensures
            r@ == self@,
    {
        match self {
            Literal::Boolean(b) => Literal::Boolean(Boolean { value: b.value, location: b.location }),
            Literal::Integer(i) => Literal::Integer(Integer { value: i.value, location: i.location }),
            Literal::Float(f) => Literal::Float(Float { value: f.value.clone(), location: f.location }),
            Literal::String(s) => Literal::String(Str { value: s.value.clone(), location: s.location }),
            Literal::External(e) => Literal::External(
                ExternalValue { ident: e.ident.clone(), location: e.location },
            ),
            Literal::Null(n) => Literal::Null(Null { location: n.location }),
        }
    }
}


// Literals are equal where their values are; where they stand does not count.

impl PartialEq for Boolean {
    fn eq(&self, other: &Self) -> (r: bool) {
        self.value == other.value
    }
}

impl PartialEqSpecImpl for Boolean {
    open spec fn obeys_eq_spec() -> bool {
        true
    }

    open spec fn eq_spec(&self, other: &Self) -> bool {
        self.value == other.value
    }
}

impl Eq for Boolean {}

impl PartialEq for Integer {
    fn eq(&self, other: &Self) -> (r: bool) {
        self.value == other.value
    }
}

impl PartialEqSpecImpl for Integer {
    open spec fn obeys_eq_spec() -> bool {
        true
    }

    open spec fn eq_spec(&self, other: &Self) -> bool {
        self.value == other.value
    }
}

impl Eq for Integer {}

impl PartialEq for Float {
    fn eq(&self, other: &Self) -> (r: bool) {
        self.value == other.value
    }
}

impl PartialEqSpecImpl for Float {
    open spec fn obeys_eq_spec() -> bool {
        true
    }

    open spec fn eq_spec(&self, other: &Self) -> bool {
        self.value@ == other.value@
    }
}

impl Eq for Float {}

impl PartialEq for Str {
    fn eq(&self, other: &Self) -> (r: bool) {
        self.value == other.value
    }
}

impl PartialEqSpecImpl for Str {
    open spec fn obeys_eq_spec() -> bool {
        true
    }

    open spec fn eq_spec(&self, other: &Self) -> bool {
        self.value@ == other.value@
    }
}

impl Eq for Str {}

impl PartialEq for ExternalValue {
    fn eq(&self, other: &Self) -> (r: bool) {
        self.ident == other.ident
    }
}

impl PartialEqSpecImpl for ExternalValue {
    open spec fn obeys_eq_spec() -> bool {
        true
    }

    open spec fn eq_spec(&self, other: &Self) -> bool {
        self.ident@ == other.ident@
    }
}

impl Eq for ExternalValue {}

impl PartialEq for Null {
    fn eq(&self, other: &Self) -> (r: bool) {
        true
    }
}

impl PartialEqSpecImpl for Null {
    open spec fn obeys_eq_spec() -> bool {
        true
    }

    open spec fn eq_spec(&self, other: &Self) -> bool {
        true
    }
}

impl Eq for Null {}

} // verus!

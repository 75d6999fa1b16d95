use vstd::prelude::*;

use crate::query::ast::location::Location;

verus! {

/// The rules of the query grammar that a node of a parse tree can have matched.
#[allow(non_camel_case_types)]
#[derive(Clone, Copy, Debug, PartialEq, Eq, Structural)]
pub enum Rule {
    expr,
    expr_factor,
    literal,
    function_call,
    column_ident,
    xor_expr,
    and_expr,
    cmp_expr,
    bit_or_expr,
    bit_and_expr,
    bit_shift_expr,
    add_expr,
    term_expr,
    bit_xor_expr,
    not_expr,
    bit_reverse_expr,
    plus,
    minus,
    multi,
    div,
    modulo,
    left_shift,
    right_shift,
    bit_and,
    bit_or,
    bit_xor,
    less_than,
    less_than_or_equal,
    bigger_than,
    bigger_than_or_equal,
    equal,
    not_equal,
    bool_and,
    bool_or,
    bool_xor,
    bit_reverse,
    bool_not,
    any,
    ident,
    any_ident,
    bool,
    bool_true,
    bool_false,
    integer,
    float,
    string,
    string_inner,
    external_ident,
    null,
    table_reference,
    join_type,
    keyword_inner,
    keyword_outer,
    keyword_left,
    keyword_right,
    keyword_full,
    join_clause,
    natural_join,
    cross_join,
    join_on,
    from_clause,
    select_clause,
    select_item,
    select_query,
    group_by_clause,
    order_by_clause,
    order_by_item,
    keyword_asc,
    keyword_desc,
    limit_clause,
    offset_clause,
    insert_query,
    column_list,
    set_clause,
    assignments,
    value_item,
    keyword_default,
    update_query,
    delete_query,
    query,
}

/// A node of the parse tree of a query: the rule it matched, the text it spans,
/// the byte offsets where that text starts and ends, and its children in order.
#[derive(Debug)]
pub struct QueryPair {
    pub rule: Rule,
    pub text: String,
    pub start: usize,
    pub end: usize,
    pub inner: Vec<QueryPair>,
}

/// Where a node stands in the query.
pub open spec fn pair_location(p: QueryPair) -> Location {
    Location::Span(p.start, p.end)
}

/// The `i`-th child of a node.
pub open spec fn child(p: QueryPair, i: int) -> QueryPair {
    p.inner@[i]
}

/// The number of children of a node.
pub open spec fn arity(p: QueryPair) -> int {
    p.inner@.len() as int
}

impl QueryPair {
    /// The rule that the node matched.
    pub fn as_rule(&self) -> (r: Rule)
        ensures
            r == self.rule,
    {
        self.rule
    }

    /// Where the node stands in the query.
    pub fn location(&self) -> (r: Location)
        ensures
            r == pair_location(*self),
    {
        Location::Span(self.start, self.end)
    }

    /// The children of the node, taking it apart.
    pub fn into_inner(self) -> (r: Vec<QueryPair>)
        ensures
            r@ == self.inner@,
    {
        self.inner
    }
}

/// Takes the first of `children`, if any.
pub fn next_child(children: &mut Vec<QueryPair>) -> (r: Option<QueryPair>)
    ensures
        old(children)@.len() == 0 ==> r is None && final(children)@ == old(children)@,
        old(children)@.len() > 0 ==> r == Some(old(children)@[0]) && final(children)@
            == old(children)@.drop_first(),
{
    if children.len() == 0 {
        None
    } else {
        let c = children.remove(0);
        assert(children@ =~= old(children)@.drop_first());
        Some(c)
    }
}

} // verus!

use vstd::prelude::*;

use crate::query::ast::clause::{from_clause_of, FromClause, FromV};
use crate::query::ast::error::{
    unexpected_pair, SyntaxError, SyntaxErrorV, SyntaxErrorWithPos, SyntaxErrorWithPosV,
};
use crate::query::ast::expr::{expr_of, Expr, ExprNode};
use crate::query::ast::literal::{ast_result, lemma_child_bools_valued, tree_bools_valued};
use crate::query::ast::location::Location;
use crate::query::ast::number::{parse_usize_text, usize_of_text};
use crate::query::ast::pair::{next_child, pair_location, QueryPair, Rule};
use crate::query::ast::traits::Locatable;

verus! {

/// The value of an optional expression.
pub open spec fn opt_expr(o: Option<Expr>) -> Option<ExprNode> {
    match o {
        Some(e) => Some(e@),
        None => None,
    }
}

/// The `SELECT` clause of a query: its expressions and their aliases.
#[derive(Debug, PartialEq, Eq)]
pub struct SelectClause {
    pub items: Vec<(Expr, Option<String>)>,
    pub location: Location,
}

/// The value of a select item.
pub open spec fn item_view(i: (Expr, Option<String>)) -> (ExprNode, Option<Seq<char>>) {
    (
        i.0@,
        match i.1 {
            Some(s) => Some(s@),
            None => None,
        },
    )
}

/// The value of a `SelectClause`.
pub struct SelectClauseV {
    pub items: Seq<(ExprNode, Option<Seq<char>>)>,
    pub location: Location,
}

impl View for SelectClause {
    type V = SelectClauseV;

    open spec fn view(&self) -> SelectClauseV {
        SelectClauseV { items: self.items@.map_values(|i| item_view(i)), location: self.location }
    }
}

impl Locatable for SelectClause {
    open spec fn located_at(&self) -> Location {
        self.location
    }

    fn location(&self) -> (r: Location) {
        self.location
    }
}

/// A `select_item` node: an expression and, from a second child, its alias.
pub open spec fn select_item_of(q: QueryPair) -> Result<
    (ExprNode, Option<Seq<char>>),
    SyntaxErrorWithPosV,
> {
    let loc = pair_location(q);
    if q.rule == Rule::select_item && q.inner@.len() > 0 {
        match expr_of(q.inner@[0]) {
            Err(e) => Err(e),
            Ok(e) => if q.inner@.len() == 1 {
                Ok((e, None))
            } else {
                let a = q.inner@[1];
                if a.rule == Rule::ident || a.rule == Rule::any_ident {
                    Ok((e, Some(a.text@)))
                } else {
                    Err(unexpected_pair(pair_location(a), "expr_alias"@))
                }
            },
        }
    } else {
        Err(unexpected_pair(loc, "select_item"@))
    }
}

/// The items of a `select_clause` node from its `j`-th child on, after `acc`.
pub open spec fn select_items(p: QueryPair, j: int, acc: Seq<(ExprNode, Option<Seq<char>>)>) -> Result<
    Seq<(ExprNode, Option<Seq<char>>)>,
    SyntaxErrorWithPosV,
>
    decreases p.inner@.len() - j,
{
    if j < 0 || j >= p.inner@.len() {
        Ok(acc)
    } else {
        match select_item_of(p.inner@[j]) {
            Ok(i) => select_items(p, j + 1, acc.push(i)),
            Err(e) => Err(e),
        }
    }
}

/// A `select_clause` node: its `select_item` children.
pub open spec fn select_clause_of(p: QueryPair) -> Result<SelectClauseV, SyntaxErrorWithPosV> {
    let loc = pair_location(p);
    if p.rule == Rule::select_clause {
        match select_items(p, 0, seq![]) {
            Ok(items) => Ok(SelectClauseV { items, location: loc }),
            Err(e) => Err(e),
        }
    } else {
        Err(unexpected_pair(loc, "select_clause"@))
    }
}

fn select_item_from_pair(item: QueryPair) -> (r: Result<(Expr, Option<String>), SyntaxErrorWithPos>)
    requires
        tree_bools_valued(item),
    ensures
        match r {
            Ok(i) => select_item_of(item) == Ok::<_, SyntaxErrorWithPosV>(item_view(i)),
            Err(e) => select_item_of(item) == Err::<(ExprNode, Option<Seq<char>>), _>(e@),
        },
{
    let ghost gq = item;
    let item_location = item.location();
    proof {
        reveal_strlit("select_item");
        reveal_strlit("expr_alias");
    }
    match item.as_rule() {
        Rule::select_item => {
            let mut inner = item.into_inner();
            let e = match next_child(&mut inner) {
                Some(p) => {
                    proof {
                        lemma_child_bools_valued(gq, 0);
                    }
                    match Expr::from_pair(p) {
                        Ok(e) => e,
                        Err(e) => {
                            return Err(e);
                        },
                    }
                },
                None => {
                    return Err(item_location.error(SyntaxError::UnexpectedPair("select_item")));
                },
            };
            let alias = match next_child(&mut inner) {
                Some(inner_pair) => {
                    let inner_location = inner_pair.location();
                    match inner_pair.as_rule() {
                        Rule::ident | Rule::any_ident => Some(inner_pair.text),
                        _ => {
                            return Err(
                                inner_location.error(SyntaxError::UnexpectedPair("expr_alias")),
                            );
                        },
                    }
                },
                None => None,
            };
            Ok((e, alias))
        },
        _ => Err(item_location.error(SyntaxError::UnexpectedPair("select_item"))),
    }
}

impl SelectClause {
    pub fn from_pair(pair: QueryPair) -> (r: Result<SelectClause, SyntaxErrorWithPos>)
        requires
            tree_bools_valued(pair),
        ensures
            ast_result(r) == select_clause_of(pair),
    {
        let ghost gp = pair;
        let location = pair.location();
        proof {
            reveal_strlit("select_clause");
        }
        match pair.as_rule() {
            Rule::select_clause => {
                let mut inner = pair.into_inner();
                let mut items: Vec<(Expr, Option<String>)> = Vec::new();
                let ghost mut k: int = 0;
                assert(items@.map_values(|i| item_view(i)) =~= seq![]);
                assert(inner@ =~= gp.inner@.skip(0));
                loop
                    invariant
                        gp == pair,
                        gp.rule == Rule::select_clause,
                        tree_bools_valued(gp),
                        0 <= k <= gp.inner@.len(),
                        inner@ == gp.inner@.skip(k),
                        location == pair_location(gp),
                        select_items(gp, 0, seq![]) == select_items(
                            gp,
                            k,
                            items@.map_values(|i| item_view(i)),
                        ),
                    decreases gp.inner@.len() - k,
                {
                    let item = match next_child(&mut inner) {
                        Some(item) => item,
                        None => {
                            return Ok(SelectClause { items, location });
                        },
                    };
                    proof {
                        assert(item == gp.inner@[k]);
                        lemma_child_bools_valued(gp, k);
                    }
                    let i = match select_item_from_pair(item) {
                        Ok(i) => i,
                        Err(e) => {
                            return Err(e);
                        },
                    };
                    let ghost before = items@.map_values(|i| item_view(i));
                    let ghost iv = item_view(i);
                    items.push(i);
                    proof {
                        assert(items@.map_values(|i| item_view(i)) =~= before.push(iv));
                        assert(inner@ =~= gp.inner@.skip(k + 1));
                        k = k + 1;
                    }
                }
            },
            _ => Err(location.error(SyntaxError::UnexpectedPair("select_clause"))),
        }
    }
}

/// The order of an `ORDER BY` item.
#[derive(Copy, Clone, Eq, PartialEq, Debug, Structural)]
pub enum Order {
    Asc,
    Desc,
}

/// The `GROUP BY` clause of a query: the expression it groups by and the
/// condition of its `HAVING`.
#[derive(Debug, PartialEq, Eq)]
pub struct GroupByClause {
    pub by: Expr,
    pub having: Option<Expr>,
    pub location: Location,
}

/// The value of a `GroupByClause`.
pub struct GroupByV {
    pub by: ExprNode,
    pub having: Option<ExprNode>,
    pub location: Location,
}

impl View for GroupByClause {
    type V = GroupByV;

    open spec fn view(&self) -> GroupByV {
        GroupByV { by: self.by@, having: opt_expr(self.having), location: self.location }
    }
}

/// A `group_by_clause` node: the expression grouped by and, from a second child,
/// the condition of `HAVING`.
pub open spec fn group_by_of(p: QueryPair) -> Result<GroupByV, SyntaxErrorWithPosV> {
    let loc = pair_location(p);
    if p.rule == Rule::group_by_clause && p.inner@.len() > 0 {
        match expr_of(p.inner@[0]) {
            Err(e) => Err(e),
            Ok(by) => if p.inner@.len() == 1 {
                Ok(GroupByV { by, having: None, location: loc })
            } else {
                match expr_of(p.inner@[1]) {
                    Ok(h) => Ok(GroupByV { by, having: Some(h), location: loc }),
                    Err(e) => Err(e),
                }
            },
        }
    } else {
        Err(unexpected_pair(loc, "group_by_clause"@))
    }
}

impl GroupByClause {
    pub fn from_pair(pair: QueryPair) -> (r: Result<GroupByClause, SyntaxErrorWithPos>)
        requires
            tree_bools_valued(pair),
        ensures
            ast_result(r) == group_by_of(pair),
    {
        let ghost gp = pair;
        let location = pair.location();
        proof {
            reveal_strlit("group_by_clause");
        }
        match pair.as_rule() {
            Rule::group_by_clause => {
                let mut inner = pair.into_inner();
                let by = match next_child(&mut inner) {
                    Some(p) => {
                        proof {
                            lemma_child_bools_valued(gp, 0);
                        }
                        match Expr::from_pair(p) {
                            Ok(e) => e,
                            Err(e) => {
                                return Err(e);
                            },
                        }
                    },
                    None => {
                        return Err(location.error(SyntaxError::UnexpectedPair("group_by_clause")));
                    },
                };
                let having = match next_child(&mut inner) {
                    Some(p) => {
                        proof {
                            lemma_child_bools_valued(gp, 1);
                        }
                        match Expr::from_pair(p) {
                            Ok(e) => Some(e),
                            Err(e) => {
                                return Err(e);
                            },
                        }
                    },
                    None => None,
                };
                Ok(GroupByClause { by, having, location })
            },
            _ => Err(location.error(SyntaxError::UnexpectedPair("group_by_clause"))),
        }
    }
}

/// The `ORDER BY` clause of a query: the expressions it orders by, each with its
/// order.
#[derive(Debug, PartialEq, Eq)]
pub struct OrderByClause {
    pub items: Vec<(Expr, Order)>,
    pub location: Location,
}

/// The value of an `OrderByClause`.
pub struct OrderByV {
    pub items: Seq<(ExprNode, Order)>,
    pub location: Location,
}

impl View for OrderByClause {
    type V = OrderByV;

    open spec fn view(&self) -> OrderByV {
        OrderByV {
            items: self.items@.map_values(|i: (Expr, Order)| (i.0@, i.1)),
            location: self.location,
        }
    }
}

/// An `order_by_item` node: an expression and, from a second child,
/// `keyword_asc` or `keyword_desc` (ascending where there is none).
pub open spec fn order_item_of(q: QueryPair) -> Result<(ExprNode, Order), SyntaxErrorWithPosV> {
    if q.rule == Rule::order_by_item && q.inner@.len() > 0 {
        match expr_of(q.inner@[0]) {
            Err(e) => Err(e),
            Ok(e) => if q.inner@.len() == 1 {
                Ok((e, Order::Asc))
            } else {
                match q.inner@[1].rule {
                    Rule::keyword_asc => Ok((e, Order::Asc)),
                    Rule::keyword_desc => Ok((e, Order::Desc)),
                    _ => Err(unexpected_pair(pair_location(q.inner@[1]), "order"@)),
                }
            },
        }
    } else {
        Err(unexpected_pair(pair_location(q), "order_by_item"@))
    }
}

/// The items of an `order_by_clause` node from its `j`-th child on, after `acc`.
pub open spec fn order_items(p: QueryPair, j: int, acc: Seq<(ExprNode, Order)>) -> Result<
    Seq<(ExprNode, Order)>,
    SyntaxErrorWithPosV,
>
    decreases p.inner@.len() - j,
{
    if j < 0 || j >= p.inner@.len() {
        Ok(acc)
    } else {
        match order_item_of(p.inner@[j]) {
            Ok(i) => order_items(p, j + 1, acc.push(i)),
            Err(e) => Err(e),
        }
    }
}

/// An `order_by_clause` node: its `order_by_item` children.
pub open spec fn order_by_of(p: QueryPair) -> Result<OrderByV, SyntaxErrorWithPosV> {
    let loc = pair_location(p);
    if p.rule == Rule::order_by_clause {
        match order_items(p, 0, seq![]) {
            Ok(items) => Ok(OrderByV { items, location: loc }),
            Err(e) => Err(e),
        }
    } else {
        Err(unexpected_pair(loc, "order_by_clause"@))
    }
}

fn order_item_from_pair(item: QueryPair) -> (r: Result<(Expr, Order), SyntaxErrorWithPos>)
    requires
        tree_bools_valued(item),
    ensures
        match r {
            Ok(i) => order_item_of(item) == Ok::<_, SyntaxErrorWithPosV>((i.0@, i.1)),
            Err(e) => order_item_of(item) == Err::<(ExprNode, Order), _>(e@),
        },
{
    let ghost gq = item;
    let item_location = item.location();
    proof {
        reveal_strlit("order_by_item");
        reveal_strlit("order");
    }
    match item.as_rule() {
        Rule::order_by_item => {
            let mut inner = item.into_inner();
            let e = match next_child(&mut inner) {
                Some(p) => {
                    proof {
                        lemma_child_bools_valued(gq, 0);
                    }
                    match Expr::from_pair(p) {
                        Ok(e) => e,
                        Err(e) => {
                            return Err(e);
                        },
                    }
                },
                None => {
                    return Err(item_location.error(SyntaxError::UnexpectedPair("order_by_item")));
                },
            };
            let order = match next_child(&mut inner) {
                Some(p) => match p.as_rule() {
                    Rule::keyword_asc => Order::Asc,
                    Rule::keyword_desc => Order::Desc,
                    _ => {
                        let l = p.location();
                        return Err(l.error(SyntaxError::UnexpectedPair("order")));
                    },
                },
                None => Order::Asc,
            };
            Ok((e, order))
        },
        _ => Err(item_location.error(SyntaxError::UnexpectedPair("order_by_item"))),
    }
}

impl OrderByClause {
    pub fn from_pair(pair: QueryPair) -> (r: Result<OrderByClause, SyntaxErrorWithPos>)
        requires
            tree_bools_valued(pair),
        ensures
            ast_result(r) == order_by_of(pair),
    {
        let ghost gp = pair;
        let location = pair.location();
        proof {
            reveal_strlit("order_by_clause");
        }
        match pair.as_rule() {
            Rule::order_by_clause => {
                let mut inner = pair.into_inner();
                let mut items: Vec<(Expr, Order)> = Vec::new();
                let ghost mut k: int = 0;
                assert(items@.map_values(|i: (Expr, Order)| (i.0@, i.1)) =~= seq![]);
                assert(inner@ =~= gp.inner@.skip(0));
                loop
                    invariant
                        gp == pair,
                        gp.rule == Rule::order_by_clause,
                        tree_bools_valued(gp),
                        0 <= k <= gp.inner@.len(),
                        inner@ == gp.inner@.skip(k),
                        location == pair_location(gp),
                        order_items(gp, 0, seq![]) == order_items(
                            gp,
                            k,
                            items@.map_values(|i: (Expr, Order)| (i.0@, i.1)),
                        ),
                    decreases gp.inner@.len() - k,
                {
                    let item = match next_child(&mut inner) {
                        Some(item) => item,
                        None => {
                            return Ok(OrderByClause { items, location });
                        },
                    };
                    proof {
                        assert(item == gp.inner@[k]);
                        lemma_child_bools_valued(gp, k);
                    }
                    let i = match order_item_from_pair(item) {
                        Ok(i) => i,
                        Err(e) => {
                            return Err(e);
                        },
                    };
                    let ghost before = items@.map_values(|i: (Expr, Order)| (i.0@, i.1));
                    let ghost iv = (i.0@, i.1);
                    items.push(i);
                    proof {
                        assert(items@.map_values(|i: (Expr, Order)| (i.0@, i.1)) =~= before.push(
                            iv,
                        ));
                        assert(inner@ =~= gp.inner@.skip(k + 1));
                        k = k + 1;
                    }
                }
            },
            _ => Err(location.error(SyntaxError::UnexpectedPair("order_by_clause"))),
        }
    }
}

/// A `SELECT` query.
#[derive(Debug, PartialEq, Eq)]
pub struct SelectQuery {
    pub select_clause: SelectClause,
    pub from: FromClause,
    pub where_clause: Option<Expr>,
    pub group_by_clause: Option<GroupByClause>,
    pub order_by_clause: Option<OrderByClause>,
    pub limit: Option<usize>,
    pub offset: Option<usize>,
    pub location: Location,
}

/// The value of a `SelectQuery`.
pub struct SelectQueryV {
    pub select_clause: SelectClauseV,
    pub from: FromV,
    pub where_clause: Option<ExprNode>,
    pub group_by_clause: Option<GroupByV>,
    pub order_by_clause: Option<OrderByV>,
    pub limit: Option<usize>,
    pub offset: Option<usize>,
    pub location: Location,
}

impl View for SelectQuery {
    type V = SelectQueryV;

    open spec fn view(&self) -> SelectQueryV {
        SelectQueryV {
            select_clause: self.select_clause@,
            from: self.from@,
            where_clause: opt_expr(self.where_clause),
            group_by_clause: match self.group_by_clause {
                Some(g) => Some(g@),
                None => None,
            },
            order_by_clause: match self.order_by_clause {
                Some(o) => Some(o@),
                None => None,
            },
            limit: self.limit,
            offset: self.offset,
            location: self.location,
        }
    }
}

impl Locatable for SelectQuery {
    open spec fn located_at(&self) -> Location {
        self.location
    }

    fn location(&self) -> (r: Location) {
        self.location
    }
}

/// A `limit_clause` or `offset_clause` node (`rule`, named `what`): its `int`
/// child, a number that `usize` holds.
pub open spec fn count_of(q: QueryPair, rule: Rule, what: Seq<char>) -> Result<
    usize,
    SyntaxErrorWithPosV,
> {
    let loc = pair_location(q);
    if q.rule == rule {
        if q.inner@.len() > 0 && q.inner@[0].rule == Rule::integer {
            let content = q.inner@[0].text@;
            match usize_of_text(content) {
                Some(v) => Ok(v),
                None => Err(
                    SyntaxErrorWithPosV {
                        error: SyntaxErrorV::CannotParseIntoInteger(content),
                        location: loc,
                    },
                ),
            }
        } else {
            Err(unexpected_pair(loc, "int"@))
        }
    } else {
        Err(unexpected_pair(loc, what))
    }
}

fn count_from_pair(pair: QueryPair, rule: Rule, what: &'static str) -> (r: Result<
    usize,
    SyntaxErrorWithPos,
>)
    ensures
        match r {
            Ok(v) => count_of(pair, rule, what@) == Ok::<usize, SyntaxErrorWithPosV>(v),
            Err(e) => count_of(pair, rule, what@) == Err::<usize, SyntaxErrorWithPosV>(e@),
        },
{
    let inner_location = pair.location();
    proof {
        reveal_strlit("int");
    }
    if pair.as_rule() == rule {
        let mut inner = pair.into_inner();
        match next_child(&mut inner) {
            Some(int_pair) => match int_pair.as_rule() {
                Rule::integer => match parse_usize_text(int_pair.text.as_str()) {
                    Some(v) => Ok(v),
                    None => Err(
                        inner_location.error(SyntaxError::CannotParseIntoInteger(int_pair.text)),
                    ),
                },
                _ => Err(inner_location.error(SyntaxError::UnexpectedPair("int"))),
            },
            None => Err(inner_location.error(SyntaxError::UnexpectedPair("int"))),
        }
    } else {
        Err(inner_location.error(SyntaxError::UnexpectedPair(what)))
    }
}

/// A `select_query` node: a select clause, a from clause, then optionally, in
/// this order, an `expr` (the `WHERE` condition), a group by clause, an order by
/// clause, a limit clause and an offset clause.
pub open spec fn select_query_of(p: QueryPair) -> Result<SelectQueryV, SyntaxErrorWithPosV> {
    let loc = pair_location(p);
    let ch = p.inner@;
    let n = ch.len();
    if p.rule != Rule::select_query {
        Err(unexpected_pair(loc, "select_query"@))
    } else if n < 1 {
        Err(unexpected_pair(loc, "select_clause"@))
    } else {
        match select_clause_of(ch[0]) {
            Err(e) => Err(e),
            Ok(select_clause) => if n < 2 {
                Err(unexpected_pair(loc, "from_clause"@))
            } else {
                match from_clause_of(ch[1]) {
                    Err(e) => Err(e),
                    Ok(from) => {
                        let i0: int = 2;
                        let has_where = i0 < n && ch[i0].rule == Rule::expr;
                        let where_result = if has_where {
                            match expr_of(ch[i0]) {
                                Ok(w) => Ok(Some(w)),
                                Err(e) => Err(e),
                            }
                        } else {
                            Ok(None)
                        };
                        let i1 = if has_where {
                            i0 + 1
                        } else {
                            i0
                        };
                        let has_group = i1 < n && ch[i1].rule == Rule::group_by_clause;
                        let group_result = if has_group {
                            match group_by_of(ch[i1]) {
                                Ok(g) => Ok(Some(g)),
                                Err(e) => Err(e),
                            }
                        } else {
                            Ok(None)
                        };
                        let i2 = if has_group {
                            i1 + 1
                        } else {
                            i1
                        };
                        let has_order = i2 < n && ch[i2].rule == Rule::order_by_clause;
                        let order_result = if has_order {
                            match order_by_of(ch[i2]) {
                                Ok(o) => Ok(Some(o)),
                                Err(e) => Err(e),
                            }
                        } else {
                            Ok(None)
                        };
                        let i3 = if has_order {
                            i2 + 1
                        } else {
                            i2
                        };
                        let has_limit = i3 < n && ch[i3].rule == Rule::limit_clause;
                        let limit_result = if has_limit {
                            match count_of(ch[i3], Rule::limit_clause, "limit_clause"@) {
                                Ok(v) => Ok(Some(v)),
                                Err(e) => Err(e),
                            }
                        } else {
                            Ok(None)
                        };
                        let i4 = if has_limit {
                            i3 + 1
                        } else {
                            i3
                        };
                        let offset_result = if i4 < n {
                            match count_of(ch[i4], Rule::offset_clause, "offset_clause"@) {
                                Ok(v) => Ok(Some(v)),
                                Err(e) => Err(e),
                            }
                        } else {
                            Ok(None)
                        };
                        match (where_result, group_result, order_result, limit_result, offset_result) {
                            (Err(e), _, _, _, _) => Err(e),
                            (Ok(_), Err(e), _, _, _) => Err(e),
                            (Ok(_), Ok(_), Err(e), _, _) => Err(e),
                            (Ok(_), Ok(_), Ok(_), Err(e), _) => Err(e),
                            (Ok(_), Ok(_), Ok(_), Ok(_), Err(e)) => Err(e),
                            (Ok(w), Ok(g), Ok(o), Ok(l), Ok(f)) => Ok(
                                SelectQueryV {
                                    select_clause,
                                    from,
                                    where_clause: w,
                                    group_by_clause: g,
                                    order_by_clause: o,
                                    limit: l,
                                    offset: f,
                                    location: loc,
                                },
                            ),
                        }
                    },
                }
            },
        }
    }
}

impl SelectQuery {
    pub fn from_pair(pair: QueryPair) -> (r: Result<SelectQuery, SyntaxErrorWithPos>)
        requires
            tree_bools_valued(pair),
        ensures
            ast_result(r) == select_query_of(pair),
    {
        let ghost gp = pair;
        let location = pair.location();
        proof {
            reveal_strlit("select_query");
            reveal_strlit("select_clause");
            reveal_strlit("from_clause");
            reveal_strlit("limit_clause");
            reveal_strlit("offset_clause");
        }
        if pair.as_rule() != Rule::select_query {
            return Err(location.error(SyntaxError::UnexpectedPair("select_query")));
        }
        let mut inner = pair.into_inner();
        let select_clause = match next_child(&mut inner) {
            Some(p) => {
                proof {
                    lemma_child_bools_valued(gp, 0);
                }
                match SelectClause::from_pair(p) {
                    Ok(s) => s,
                    Err(e) => {
                        return Err(e);
                    },
                }
            },
            None => {
                return Err(location.error(SyntaxError::UnexpectedPair("select_clause")));
            },
        };
        let from = match next_child(&mut inner) {
            Some(p) => {
                proof {
                    lemma_child_bools_valued(gp, 1);
                }
                match FromClause::from_pair(p) {
                    Ok(f) => f,
                    Err(e) => {
                        return Err(e);
                    },
                }
            },
            None => {
                return Err(location.error(SyntaxError::UnexpectedPair("from_clause")));
            },
        };
        let ghost mut k: int = 2;
        assert(inner@ =~= gp.inner@.skip(2));
        let mut current = next_child(&mut inner);
        let where_clause = match current {
            Some(p) if p.rule == Rule::expr => {
                proof {
                    lemma_child_bools_valued(gp, k);
                }
                let w = match Expr::from_pair(p) {
                    Ok(e) => e,
                    Err(e) => {
                        return Err(e);
                    },
                };
                proof {
                    k = k + 1;
                    assert(inner@ =~= gp.inner@.skip(k));
                }
                current = next_child(&mut inner);
                Some(w)
            },
            other => {
                current = other;
                None
            },
        };
        let group_by_clause = match current {
            Some(p) if p.rule == Rule::group_by_clause => {
                proof {
                    lemma_child_bools_valued(gp, k);
                }
                let g = match GroupByClause::from_pair(p) {
                    Ok(g) => g,
                    Err(e) => {
                        return Err(e);
                    },
                };
                proof {
                    k = k + 1;
                    assert(inner@ =~= gp.inner@.skip(k));
                }
                current = next_child(&mut inner);
                Some(g)
            },
            other => {
                current = other;
                None
            },
        };
        let order_by_clause = match current {
            Some(p) if p.rule == Rule::order_by_clause => {
                proof {
                    lemma_child_bools_valued(gp, k);
                }
                let o = match OrderByClause::from_pair(p) {
                    Ok(o) => o,
                    Err(e) => {
                        return Err(e);
                    },
                };
                proof {
                    k = k + 1;
                    assert(inner@ =~= gp.inner@.skip(k));
                }
                current = next_child(&mut inner);
                Some(o)
            },
            other => {
                current = other;
                None
            },
        };
        let limit = match current {
            Some(p) if p.rule == Rule::limit_clause => {
                let l = match count_from_pair(p, Rule::limit_clause, "limit_clause") {
                    Ok(l) => l,
                    Err(e) => {
                        return Err(e);
                    },
                };
                proof {
                    k = k + 1;
                    assert(inner@ =~= gp.inner@.skip(k));
                }
                current = next_child(&mut inner);
                Some(l)
            },
            other => {
                current = other;
                None
            },
        };
        let offset = match current {
            Some(p) => match count_from_pair(p, Rule::offset_clause, "offset_clause") {
                Ok(v) => Some(v),
                Err(e) => {
                    return Err(e);
                },
            },
            None => None,
        };
        Ok(
            SelectQuery {
                select_clause,
                from,
                where_clause,
                group_by_clause,
                order_by_clause,
                limit,
                offset,
                location,
            },
        )
    }
}

} // verus!

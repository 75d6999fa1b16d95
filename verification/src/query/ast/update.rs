use vstd::prelude::*;

use crate::query::ast::clause::{table_ref_of, TableRefV, TableReference};
use crate::query::ast::error::{unexpected_pair, SyntaxError, SyntaxErrorWithPos, SyntaxErrorWithPosV};
use crate::query::ast::expr::{expr_of, Expr, ExprNode};
use crate::query::ast::ident::{column_ident_of, ColumnIdent};
use crate::query::ast::literal::{ast_result, lemma_child_bools_valued, tree_bools_valued};
use crate::query::ast::location::Location;
use crate::query::ast::pair::{next_child, pair_location, QueryPair, Rule};
use crate::query::ast::select::opt_expr;
use crate::query::ast::traits::Locatable;

verus! {

/// The value assigned to a column: its default, or an expression.
#[derive(Debug, PartialEq, Eq)]
pub enum ValueItem {
    Default,
    Expr(Expr),
}

/// The value of a `ValueItem`.
pub enum ValueItemV {
    Default,
    Expr(ExprNode),
}

impl View for ValueItem {
    type V = ValueItemV;

    open spec fn view(&self) -> ValueItemV {
        match self {
            ValueItem::Default => ValueItemV::Default,
            ValueItem::Expr(e) => ValueItemV::Expr(e@),
        }
    }
}

/// A `value_item` node: its child is `keyword_default` or an `expr`.
pub open spec fn value_item_of(q: QueryPair) -> Result<ValueItemV, SyntaxErrorWithPosV> {
    let loc = pair_location(q);
    if q.rule == Rule::value_item && q.inner@.len() > 0 {
        let c = q.inner@[0];
        match c.rule {
            Rule::keyword_default => Ok(ValueItemV::Default),
            Rule::expr => match expr_of(c) {
                Ok(e) => Ok(ValueItemV::Expr(e)),
                Err(e) => Err(e),
            },
            _ => Err(unexpected_pair(loc, "value_item"@)),
        }
    } else {
        Err(unexpected_pair(loc, "value_item"@))
    }
}

impl ValueItem {
    pub fn from_pair(pair: QueryPair) -> (r: Result<ValueItem, SyntaxErrorWithPos>)
        requires
            tree_bools_valued(pair),
        ensures
            ast_result(r) == value_item_of(pair),
    {
        let ghost gp = pair;
        let location = pair.location();
        proof {
            reveal_strlit("value_item");
        }
        if pair.as_rule() != Rule::value_item {
            return Err(location.error(SyntaxError::UnexpectedPair("value_item")));
        }
        let mut inner = pair.into_inner();
        match next_child(&mut inner) {
            Some(c) => match c.as_rule() {
                Rule::keyword_default => Ok(ValueItem::Default),
                Rule::expr => {
                    proof {
                        lemma_child_bools_valued(gp, 0);
                    }
                    match Expr::from_pair(c) {
                        Ok(e) => Ok(ValueItem::Expr(e)),
                        Err(e) => Err(e),
                    }
                },
                _ => Err(location.error(SyntaxError::UnexpectedPair("value_item"))),
            },
            None => Err(location.error(SyntaxError::UnexpectedPair("value_item"))),
        }
    }
}

/// The `SET` clause of an `UPDATE` query: each column and its value.
#[derive(Debug, PartialEq, Eq)]
pub struct SetClause {
    pub items: Vec<(ColumnIdent, ValueItem)>,
    pub location: Location,
}

/// The value of an assignment of a `SET` clause.
pub open spec fn assignment_view(i: (ColumnIdent, ValueItem)) -> (
    (Seq<Seq<char>>, Location),
    ValueItemV,
) {
    (i.0@, i.1@)
}

/// The value of a `SetClause`.
pub struct SetClauseV {
    pub items: Seq<((Seq<Seq<char>>, Location), ValueItemV)>,
    pub location: Location,
}

impl View for SetClause {
    type V = SetClauseV;

    open spec fn view(&self) -> SetClauseV {
        SetClauseV {
            items: self.items@.map_values(|i| assignment_view(i)),
            location: self.location,
        }
    }
}

impl Locatable for SetClause {
    open spec fn located_at(&self) -> Location {
        self.location
    }

    fn location(&self) -> (r: Location) {
        self.location
    }
}

/// The assignments of an `assignments` node from its `j`-th child on (a column,
/// then its value), after `acc`; `loc` is where the `SET` clause stands.
pub open spec fn assignment_items(
    f: QueryPair,
    j: int,
    acc: Seq<((Seq<Seq<char>>, Location), ValueItemV)>,
    loc: Location,
) -> Result<Seq<((Seq<Seq<char>>, Location), ValueItemV)>, SyntaxErrorWithPosV>
    decreases f.inner@.len() - j,
{
    if j < 0 || j >= f.inner@.len() {
        Ok(acc)
    } else {
        match column_ident_of(f.inner@[j]) {
            Err(e) => Err(e),
            Ok(c) => if j + 1 >= f.inner@.len() {
                Err(unexpected_pair(loc, "assignments"@))
            } else {
                match value_item_of(f.inner@[j + 1]) {
                    Ok(v) => assignment_items(f, j + 2, acc.push((c, v)), loc),
                    Err(e) => Err(e),
                }
            },
        }
    }
}

/// The columns of the children of a node from its `j`-th on, after `acc`.
pub open spec fn column_list_of(f: QueryPair, j: int, acc: Seq<(Seq<Seq<char>>, Location)>) -> Result<
    Seq<(Seq<Seq<char>>, Location)>,
    SyntaxErrorWithPosV,
>
    decreases f.inner@.len() - j,
{
    if j < 0 || j >= f.inner@.len() {
        Ok(acc)
    } else {
        match column_ident_of(f.inner@[j]) {
            Ok(c) => column_list_of(f, j + 1, acc.push(c)),
            Err(e) => Err(e),
        }
    }
}

/// The values of the children of a node from its `j`-th on, after `acc`.
pub open spec fn value_list_of(f: QueryPair, j: int, acc: Seq<ValueItemV>) -> Result<
    Seq<ValueItemV>,
    SyntaxErrorWithPosV,
>
    decreases f.inner@.len() - j,
{
    if j < 0 || j >= f.inner@.len() {
        Ok(acc)
    } else {
        match value_item_of(f.inner@[j]) {
            Ok(v) => value_list_of(f, j + 1, acc.push(v)),
            Err(e) => Err(e),
        }
    }
}

/// The pairs of the items of `a` and `b` at the same place, as many as the shorter
/// has.
pub open spec fn zip<A, B>(a: Seq<A>, b: Seq<B>) -> Seq<(A, B)> {
    Seq::new(
        if a.len() <= b.len() {
            a.len()
        } else {
            b.len()
        },
        |i: int| (a[i], b[i]),
    )
}

/// The values of a sequence of columns.
pub open spec fn columns_view(s: Seq<ColumnIdent>) -> Seq<(Seq<Seq<char>>, Location)> {
    s.map_values(|c: ColumnIdent| c@)
}

/// The values of a sequence of value items.
pub open spec fn values_view(s: Seq<ValueItem>) -> Seq<ValueItemV> {
    s.map_values(|x: ValueItem| x@)
}

/// A `set_clause` node: an `assignments` child (columns and values in turn), or a
/// `column_list` child and a second child with the values, paired in order.
pub open spec fn set_clause_of(p: QueryPair) -> Result<SetClauseV, SyntaxErrorWithPosV> {
    let loc = pair_location(p);
    let ch = p.inner@;
    if p.rule != Rule::set_clause || ch.len() == 0 {
        Err(unexpected_pair(loc, "set_clause"@))
    } else {
        let f = ch[0];
        match f.rule {
            Rule::assignments => match assignment_items(f, 0, seq![], loc) {
                Ok(items) => Ok(SetClauseV { items, location: loc }),
                Err(e) => Err(e),
            },
            Rule::column_list => match column_list_of(f, 0, seq![]) {
                Err(e) => Err(e),
                Ok(columns) => if ch.len() < 2 {
                    Err(unexpected_pair(loc, "set_clause"@))
                } else {
                    match value_list_of(ch[1], 0, seq![]) {
                        Ok(values) => Ok(SetClauseV { items: zip(columns, values), location: loc }),
                        Err(e) => Err(e),
                    }
                },
            },
            _ => Err(unexpected_pair(loc, "set_clause"@)),
        }
    }
}

fn columns_from_pair(pair: QueryPair) -> (r: Result<Vec<ColumnIdent>, SyntaxErrorWithPos>)
    ensures
        match r {
            Ok(v) => column_list_of(pair, 0, seq![]) == Ok::<_, SyntaxErrorWithPosV>(
                columns_view(v@),
            ),
            Err(e) => column_list_of(pair, 0, seq![]) == Err::<Seq<(Seq<Seq<char>>, Location)>, _>(
                e@,
            ),
        },
{
    let ghost gp = pair;
    let mut inner = pair.into_inner();
    let mut columns: Vec<ColumnIdent> = Vec::new();
    let ghost mut k: int = 0;
    assert(columns_view(columns@) =~= seq![]);
    assert(inner@ =~= gp.inner@.skip(0));
    loop
        invariant
            gp == pair,
            0 <= k <= gp.inner@.len(),
            inner@ == gp.inner@.skip(k),
            column_list_of(gp, 0, seq![]) == column_list_of(
                gp,
                k,
                columns_view(columns@),
            ),
        decreases gp.inner@.len() - k,
    {
        let item = match next_child(&mut inner) {
            Some(item) => item,
            None => {
                return Ok(columns);
            },
        };
        assert(item == gp.inner@[k]);
        let c = match ColumnIdent::from_pair(item) {
            Ok(c) => c,
            Err(e) => {
                return Err(e);
            },
        };
        let ghost before = columns_view(columns@);
        let ghost cv = c@;
        columns.push(c);
        proof {
            assert(columns_view(columns@) =~= before.push(cv));
            assert(inner@ =~= gp.inner@.skip(k + 1));
            k = k + 1;
        }
    }
}

fn values_from_pair(pair: QueryPair) -> (r: Result<Vec<ValueItem>, SyntaxErrorWithPos>)
    requires
        tree_bools_valued(pair),
    ensures
        match r {
            Ok(v) => value_list_of(pair, 0, seq![]) == Ok::<_, SyntaxErrorWithPosV>(
                values_view(v@),
            ),
            Err(e) => value_list_of(pair, 0, seq![]) == Err::<Seq<ValueItemV>, _>(e@),
        },
{
    let ghost gp = pair;
    let mut inner = pair.into_inner();
    let mut values: Vec<ValueItem> = Vec::new();
    let ghost mut k: int = 0;
    assert(values_view(values@) =~= seq![]);
    assert(inner@ =~= gp.inner@.skip(0));
    loop
        invariant
            gp == pair,
            tree_bools_valued(gp),
            0 <= k <= gp.inner@.len(),
            inner@ == gp.inner@.skip(k),
            value_list_of(gp, 0, seq![]) == value_list_of(
                gp,
                k,
                values_view(values@),
            ),
        decreases gp.inner@.len() - k,
    {
        let item = match next_child(&mut inner) {
            Some(item) => item,
            None => {
                return Ok(values);
            },
        };
        proof {
            assert(item == gp.inner@[k]);
            lemma_child_bools_valued(gp, k);
        }
        let v = match ValueItem::from_pair(item) {
            Ok(v) => v,
            Err(e) => {
                return Err(e);
            },
        };
        let ghost before = values_view(values@);
        let ghost vv = v@;
        values.push(v);
        proof {
            assert(values_view(values@) =~= before.push(vv));
            assert(inner@ =~= gp.inner@.skip(k + 1));
            k = k + 1;
        }
    }
}

fn assignments_from_pair(pair: QueryPair, location: Location) -> (r: Result<
    Vec<(ColumnIdent, ValueItem)>,
    SyntaxErrorWithPos,
>)
    requires
        tree_bools_valued(pair),
    ensures
        match r {
            Ok(v) => assignment_items(pair, 0, seq![], location) == Ok::<_, SyntaxErrorWithPosV>(
                v@.map_values(|i| assignment_view(i)),
            ),
            Err(e) => assignment_items(pair, 0, seq![], location) == Err::<
                Seq<((Seq<Seq<char>>, Location), ValueItemV)>,
                _,
            >(e@),
        },
{
    let ghost gp = pair;
    proof {
        reveal_strlit("assignments");
    }
    let mut inner = pair.into_inner();
    let mut items: Vec<(ColumnIdent, ValueItem)> = Vec::new();
    let ghost mut k: int = 0;
    assert(items@.map_values(|i| assignment_view(i)) =~= seq![]);
    assert(inner@ =~= gp.inner@.skip(0));
    loop
        invariant
            gp == pair,
            tree_bools_valued(gp),
            0 <= k <= gp.inner@.len(),
            inner@ == gp.inner@.skip(k),
            assignment_items(gp, 0, seq![], location) == assignment_items(
                gp,
                k,
                items@.map_values(|i| assignment_view(i)),
                location,
            ),
        decreases gp.inner@.len() - k,
    {
        let ident_item = match next_child(&mut inner) {
            Some(item) => item,
            None => {
                return Ok(items);
            },
        };
        assert(ident_item == gp.inner@[k]);
        let c = match ColumnIdent::from_pair(ident_item) {
            Ok(c) => c,
            Err(e) => {
                return Err(e);
            },
        };
        let value_pair = match next_child(&mut inner) {
            Some(item) => item,
            None => {
                return Err(location.error(SyntaxError::UnexpectedPair("assignments")));
            },
        };
        proof {
            assert(value_pair == gp.inner@[k + 1]);
            lemma_child_bools_valued(gp, k + 1);
        }
        let v = match ValueItem::from_pair(value_pair) {
            Ok(v) => v,
            Err(e) => {
                return Err(e);
            },
        };
        let ghost before = items@.map_values(|i| assignment_view(i));
        let ghost iv = (c@, v@);
        items.push((c, v));
        proof {
            assert(items@.map_values(|i| assignment_view(i)) =~= before.push(iv));
            assert(inner@ =~= gp.inner@.skip(k + 2));
            k = k + 2;
        }
    }
}

impl SetClause {
    #[verifier::loop_isolation(false)]
    pub fn from_pair(pair: QueryPair) -> (r: Result<SetClause, SyntaxErrorWithPos>)
        requires
            tree_bools_valued(pair),
        ensures
            ast_result(r) == set_clause_of(pair),
    {
        let ghost gp = pair;
        let location = pair.location();
        proof {
            reveal_strlit("set_clause");
        }
        if pair.as_rule() != Rule::set_clause {
            return Err(location.error(SyntaxError::UnexpectedPair("set_clause")));
        }
        let mut inner = pair.into_inner();
        let first = match next_child(&mut inner) {
            Some(p) => p,
            None => {
                return Err(location.error(SyntaxError::UnexpectedPair("set_clause")));
            },
        };
        proof {
            lemma_child_bools_valued(gp, 0);
        }
        match first.as_rule() {
            Rule::assignments => match assignments_from_pair(first, location) {
                Ok(items) => Ok(SetClause { items, location }),
                Err(e) => Err(e),
            },
            Rule::column_list => {
                let mut column_idents = match columns_from_pair(first) {
                    Ok(c) => c,
                    Err(e) => {
                        return Err(e);
                    },
                };
                let second = match next_child(&mut inner) {
                    Some(p) => p,
                    None => {
                        return Err(location.error(SyntaxError::UnexpectedPair("set_clause")));
                    },
                };
                proof {
                    lemma_child_bools_valued(gp, 1);
                }
                let mut value_items = match values_from_pair(second) {
                    Ok(v) => v,
                    Err(e) => {
                        return Err(e);
                    },
                };
                let ghost cs = columns_view(column_idents@);
                let ghost vs = values_view(value_items@);
                let mut items: Vec<(ColumnIdent, ValueItem)> = Vec::new();
                let ghost mut k: int = 0;
                assert(items@.map_values(|i| assignment_view(i)) =~= zip(cs, vs).take(0));
                loop
                    invariant
                        0 <= k <= cs.len(),
                        k <= vs.len(),
                        columns_view(column_idents@) == cs.skip(k),
                        values_view(value_items@) == vs.skip(k),
                        items@.map_values(|i| assignment_view(i)) == zip(cs, vs).take(k),
                    decreases cs.len() - k,
                {
                    if column_idents.len() == 0 || value_items.len() == 0 {
                        assert(cs.skip(k).len() == column_idents@.len());
                        assert(vs.skip(k).len() == value_items@.len());
                        assert(zip(cs, vs).take(k) =~= zip(cs, vs));
                        return Ok(SetClause { items, location });
                    }
                    assert(cs.skip(k).len() == column_idents@.len());
                    assert(vs.skip(k).len() == value_items@.len());
                    assert(cs.skip(k)[0] == column_idents@[0]@);
                    assert(vs.skip(k)[0] == value_items@[0]@);
                    let ghost old_c = column_idents@;
                    let ghost old_v = value_items@;
                    let c = column_idents.remove(0);
                    let v = value_items.remove(0);
                    assert(column_idents@ =~= old_c.drop_first());
                    assert(value_items@ =~= old_v.drop_first());
                    let ghost before = items@.map_values(|i| assignment_view(i));
                    items.push((c, v));
                    proof {
                        assert(c@ == cs[k]);
                        assert(v@ == vs[k]);
                        assert(items@.map_values(|i| assignment_view(i)) =~= zip(cs, vs).take(
                            k + 1,
                        ));
                        assert forall|i: int|
                            0 <= i < column_idents@.len() implies #[trigger] columns_view(column_idents@)[i] == cs.skip(k + 1)[i] by {
                            assert(old_c.map_values(|c: ColumnIdent| c@)[i + 1] == cs.skip(k)[i + 1]);
                        }
                        assert forall|i: int|
                            0 <= i < value_items@.len() implies #[trigger] values_view(value_items@)[i] == vs.skip(k + 1)[i] by {
                            assert(old_v.map_values(|x: ValueItem| x@)[i + 1] == vs.skip(k)[i + 1]);
                        }
                        assert(columns_view(column_idents@) =~= cs.skip(k + 1));
                        assert(values_view(value_items@) =~= vs.skip(k + 1));
                        k = k + 1;
                    }
                }
            },
            _ => Err(location.error(SyntaxError::UnexpectedPair("set_clause"))),
        }
    }
}

/// An `UPDATE` query.
#[derive(Debug, PartialEq, Eq)]
pub struct UpdateQuery {
    pub update_table: TableReference,
    pub set_clause: SetClause,
    pub from_table: Option<TableReference>,
    pub where_clause: Option<Expr>,
    pub location: Location,
}

/// The value of an `UpdateQuery`.
pub struct UpdateQueryV {
    pub update_table: TableRefV,
    pub set_clause: SetClauseV,
    pub from_table: Option<TableRefV>,
    pub where_clause: Option<ExprNode>,
    pub location: Location,
}

impl View for UpdateQuery {
    type V = UpdateQueryV;

    open spec fn view(&self) -> UpdateQueryV {
        UpdateQueryV {
            update_table: self.update_table@,
            set_clause: self.set_clause@,
            from_table: match self.from_table {
                Some(t) => Some(t@),
                None => None,
            },
            where_clause: opt_expr(self.where_clause),
            location: self.location,
        }
    }
}

impl Locatable for UpdateQuery {
    open spec fn located_at(&self) -> Location {
        self.location
    }

    fn location(&self) -> (r: Location) {
        self.location
    }
}

/// An `update_query` node: a table reference, a set clause, then optionally a
/// table reference (`FROM`) and an `expr` (`WHERE`).
pub open spec fn update_query_of(p: QueryPair) -> Result<UpdateQueryV, SyntaxErrorWithPosV> {
    let loc = pair_location(p);
    let ch = p.inner@;
    let n = ch.len();
    if p.rule != Rule::update_query {
        Err(unexpected_pair(loc, "update_query"@))
    } else if n < 1 {
        Err(unexpected_pair(loc, "table_reference"@))
    } else {
        match table_ref_of(ch[0]) {
            Err(e) => Err(e),
            Ok(update_table) => if n < 2 {
                Err(unexpected_pair(loc, "set_clause"@))
            } else {
                match set_clause_of(ch[1]) {
                    Err(e) => Err(e),
                    Ok(set_clause) => {
                        let has_from = 2 < n && ch[2].rule == Rule::table_reference;
                        let from_result = if has_from {
                            match table_ref_of(ch[2]) {
                                Ok(t) => Ok(Some(t)),
                                Err(e) => Err(e),
                            }
                        } else {
                            Ok(None)
                        };
                        let i: int = if has_from {
                            3
                        } else {
                            2
                        };
                        let where_result = if i < n && ch[i].rule == Rule::expr {
                            match expr_of(ch[i]) {
                                Ok(w) => Ok(Some(w)),
                                Err(e) => Err(e),
                            }
                        } else {
                            Ok(None)
                        };
                        match (from_result, where_result) {
                            (Err(e), _) => Err(e),
                            (Ok(_), Err(e)) => Err(e),
                            (Ok(from_table), Ok(where_clause)) => Ok(
                                UpdateQueryV {
                                    update_table,
                                    set_clause,
                                    from_table,
                                    where_clause,
                                    location: loc,
                                },
                            ),
                        }
                    },
                }
            },
        }
    }
}

impl UpdateQuery {
    pub fn from_pair(pair: QueryPair) -> (r: Result<UpdateQuery, SyntaxErrorWithPos>)
        requires
            tree_bools_valued(pair),
        ensures
            ast_result(r) == update_query_of(pair),
    {
        let ghost gp = pair;
        let location = pair.location();
        proof {
            reveal_strlit("update_query");
            reveal_strlit("table_reference");
            reveal_strlit("set_clause");
        }
        if pair.as_rule() != Rule::update_query {
            return Err(location.error(SyntaxError::UnexpectedPair("update_query")));
        }
        let mut inner = pair.into_inner();
        let update_table = match next_child(&mut inner) {
            Some(p) => match TableReference::from_pair(p) {
                Ok(t) => t,
                Err(e) => {
                    return Err(e);
                },
            },
            None => {
                return Err(location.error(SyntaxError::UnexpectedPair("table_reference")));
            },
        };
        let set_clause = match next_child(&mut inner) {
            Some(p) => {
                proof {
                    lemma_child_bools_valued(gp, 1);
                }
                match SetClause::from_pair(p) {
                    Ok(s) => s,
                    Err(e) => {
                        return Err(e);
                    },
                }
            },
            None => {
                return Err(location.error(SyntaxError::UnexpectedPair("set_clause")));
            },
        };
        let ghost mut k: int = 2;
        assert(inner@ =~= gp.inner@.skip(2));
        let mut current = next_child(&mut inner);
        let from_table = match current {
            Some(p) if p.rule == Rule::table_reference => {
                let t = match TableReference::from_pair(p) {
                    Ok(t) => t,
                    Err(e) => {
                        return Err(e);
                    },
                };
                proof {
                    k = k + 1;
                    assert(inner@ =~= gp.inner@.skip(k));
                }
                current = next_child(&mut inner);
                Some(t)
            },
            other => {
                current = other;
                None
            },
        };
        let where_clause = match current {
            Some(p) if p.rule == Rule::expr => {
                proof {
                    lemma_child_bools_valued(gp, k);
                }
                match Expr::from_pair(p) {
                    Ok(e) => Some(e),
                    Err(e) => {
                        return Err(e);
                    },
                }
            },
            _ => None,
        };
        Ok(UpdateQuery { update_table, set_clause, from_table, where_clause, location })
    }
}

} // verus!

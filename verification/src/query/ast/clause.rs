use vstd::prelude::*;

use crate::query::ast::error::{unexpected_pair, SyntaxError, SyntaxErrorWithPos, SyntaxErrorWithPosV};
use crate::query::ast::expr::{expr_of, Expr, ExprNode};
use crate::query::ast::literal::{ast_result, lemma_child_bools_valued, tree_bools_valued};
use crate::query::ast::location::Location;
use crate::query::ast::pair::{next_child, pair_location, QueryPair, Rule};
use crate::query::ast::traits::Locatable;

verus! {

/// The value of an optional string.
pub open spec fn opt_text(o: Option<String>) -> Option<Seq<char>> {
    match o {
        Some(s) => Some(s@),
        None => None,
    }
}

/// A table of a query and the alias it is given.
#[derive(Debug, PartialEq, Eq)]
pub struct TableReference {
    pub name: String,
    pub alias: Option<String>,
    pub location: Location,
}

/// The value of a `TableReference`.
pub struct TableRefV {
    pub name: Seq<char>,
    pub alias: Option<Seq<char>>,
    pub location: Location,
}

impl View for TableReference {
    type V = TableRefV;

    open spec fn view(&self) -> TableRefV {
        TableRefV { name: self.name@, alias: opt_text(self.alias), location: self.location }
    }
}

impl Locatable for TableReference {
    open spec fn located_at(&self) -> Location {
        self.location
    }

    fn location(&self) -> (r: Location) {
        self.location
    }
}

/// The text of an `ident` or `any_ident` node.
pub open spec fn ident_text(q: QueryPair) -> Result<Seq<char>, SyntaxErrorWithPosV> {
    if q.rule == Rule::ident || q.rule == Rule::any_ident {
        Ok(q.text@)
    } else {
        Err(unexpected_pair(pair_location(q), "ident"@))
    }
}

/// The text of an `ident` or `any_ident` node.
pub fn parse_ident(pair: QueryPair) -> (r: Result<String, SyntaxErrorWithPos>)
    ensures
        match r {
            Ok(s) => ident_text(pair) == Ok::<Seq<char>, SyntaxErrorWithPosV>(s@),
            Err(e) => ident_text(pair) == Err::<Seq<char>, SyntaxErrorWithPosV>(e@),
        },
{
    let location = pair.location();
    proof {
        reveal_strlit("ident");
    }
    match pair.as_rule() {
        Rule::ident | Rule::any_ident => Ok(pair.text),
        _ => Err(location.error(SyntaxError::UnexpectedPair("ident"))),
    }
}

/// A `table_reference` node: the table's name and, from a second child, its alias.
pub open spec fn table_ref_of(p: QueryPair) -> Result<TableRefV, SyntaxErrorWithPosV> {
    let loc = pair_location(p);
    if p.rule == Rule::table_reference && p.inner@.len() > 0 {
        match ident_text(p.inner@[0]) {
            Err(e) => Err(e),
            Ok(name) => if p.inner@.len() == 1 {
                Ok(TableRefV { name, alias: None, location: loc })
            } else {
                match ident_text(p.inner@[1]) {
                    Ok(alias) => Ok(TableRefV { name, alias: Some(alias), location: loc }),
                    Err(e) => Err(e),
                }
            },
        }
    } else {
        Err(unexpected_pair(loc, "table_reference"@))
    }
}

impl TableReference {
    pub fn from_pair(pair: QueryPair) -> (r: Result<TableReference, SyntaxErrorWithPos>)
        ensures
            ast_result(r) == table_ref_of(pair),
    {
        let location = pair.location();
        proof {
            reveal_strlit("table_reference");
        }
        match pair.as_rule() {
            Rule::table_reference => {
                let mut inner = pair.into_inner();
                let name = match next_child(&mut inner) {
                    Some(p) => match parse_ident(p) {
                        Ok(name) => name,
                        Err(e) => {
                            return Err(e);
                        },
                    },
                    None => {
                        return Err(location.error(SyntaxError::UnexpectedPair("table_reference")));
                    },
                };
                let alias = match next_child(&mut inner) {
                    Some(p) => match parse_ident(p) {
                        Ok(alias) => Some(alias),
                        Err(e) => {
                            return Err(e);
                        },
                    },
                    None => None,
                };
                Ok(TableReference { name, alias, location })
            },
            _ => Err(location.error(SyntaxError::UnexpectedPair("table_reference"))),
        }
    }
}

/// The kinds of join.
#[derive(Copy, Clone, Eq, PartialEq, Debug, Structural)]
pub enum JoinType {
    Left,
    Right,
    Full,
    LeftOuter,
    RightOuter,
    FullOuter,
    Inner,
}

/// A `join_type` node: `INNER`, `LEFT`, `RIGHT` or `FULL`, where all but `INNER`
/// may be followed by `OUTER`.
pub open spec fn join_type_of(p: QueryPair) -> Result<JoinType, SyntaxErrorWithPosV> {
    let loc = pair_location(p);
    if p.rule == Rule::join_type && p.inner@.len() > 0 {
        let first = p.inner@[0];
        let outer = p.inner@.len() > 1 && p.inner@[1].rule == Rule::keyword_outer;
        match first.rule {
            Rule::keyword_inner => if outer {
                Err(unexpected_pair(pair_location(first), "join_type"@))
            } else {
                Ok(JoinType::Inner)
            },
            Rule::keyword_left => Ok(
                if outer {
                    JoinType::LeftOuter
                } else {
                    JoinType::Left
                },
            ),
            Rule::keyword_right => Ok(
                if outer {
                    JoinType::RightOuter
                } else {
                    JoinType::Right
                },
            ),
            Rule::keyword_full => Ok(
                if outer {
                    JoinType::FullOuter
                } else {
                    JoinType::Full
                },
            ),
            _ => Err(unexpected_pair(pair_location(first), "join_type"@)),
        }
    } else {
        Err(unexpected_pair(loc, "join_type"@))
    }
}

impl JoinType {
    pub fn from_pair(pair: QueryPair) -> (r: Result<JoinType, SyntaxErrorWithPos>)
        ensures
            match r {
                Ok(t) => join_type_of(pair) == Ok::<JoinType, SyntaxErrorWithPosV>(t),
                Err(e) => join_type_of(pair) == Err::<JoinType, SyntaxErrorWithPosV>(e@),
            },
    {
        let location = pair.location();
        proof {
            reveal_strlit("join_type");
        }
        match pair.as_rule() {
            Rule::join_type => {
                let mut inner = pair.into_inner();
                let first = match next_child(&mut inner) {
                    Some(p) => p,
                    None => {
                        return Err(location.error(SyntaxError::UnexpectedPair("join_type")));
                    },
                };
                let outer = match next_child(&mut inner) {
                    Some(p) => match p.as_rule() {
                        Rule::keyword_outer => true,
                        _ => false,
                    },
                    None => false,
                };
                let first_location = first.location();
                match first.as_rule() {
                    Rule::keyword_inner => {
                        if outer {
                            Err(first_location.error(SyntaxError::UnexpectedPair("join_type")))
                        } else {
                            Ok(JoinType::Inner)
                        }
                    },
                    Rule::keyword_left => {
                        if outer {
                            Ok(JoinType::LeftOuter)
                        } else {
                            Ok(JoinType::Left)
                        }
                    },
                    Rule::keyword_right => {
                        if outer {
                            Ok(JoinType::RightOuter)
                        } else {
                            Ok(JoinType::Right)
                        }
                    },
                    Rule::keyword_full => {
                        if outer {
                            Ok(JoinType::FullOuter)
                        } else {
                            Ok(JoinType::Full)
                        }
                    },
                    _ => Err(first_location.error(SyntaxError::UnexpectedPair("join_type"))),
                }
            },
            _ => Err(location.error(SyntaxError::UnexpectedPair("join_type"))),
        }
    }
}

/// A natural join: its kind and its table.
#[derive(Debug, PartialEq, Eq)]
pub struct NaturalJoin {
    pub ty: JoinType,
    pub table: TableReference,
    pub location: Location,
}

/// A cross join: its table.
#[derive(Debug, PartialEq, Eq)]
pub struct CrossJoin {
    pub table: TableReference,
    pub location: Location,
}

/// A join with a condition: its kind, its table and the condition.
#[derive(Debug, PartialEq, Eq)]
pub struct JoinOn {
    pub ty: JoinType,
    pub table: TableReference,
    pub on: Expr,
    pub location: Location,
}

/// A join of a `FROM` clause.
#[derive(Debug, PartialEq, Eq)]
pub enum JoinClause {
    NaturalJoin(NaturalJoin),
    CrossJoin(CrossJoin),
    JoinOn(JoinOn),
}

/// The value of a join.
pub enum JoinV {
    Natural(JoinType, TableRefV, Location),
    Cross(TableRefV, Location),
    On(JoinType, TableRefV, ExprNode, Location),
}

impl View for JoinClause {
    type V = JoinV;

    open spec fn view(&self) -> JoinV {
        match self {
            JoinClause::NaturalJoin(j) => JoinV::Natural(j.ty, j.table@, j.location),
            JoinClause::CrossJoin(j) => JoinV::Cross(j.table@, j.location),
            JoinClause::JoinOn(j) => JoinV::On(j.ty, j.table@, j.on@, j.location),
        }
    }
}

/// Where a join stands.
pub open spec fn join_location(j: JoinV) -> Location {
    match j {
        JoinV::Natural(_, _, loc) => loc,
        JoinV::Cross(_, loc) => loc,
        JoinV::On(_, _, _, loc) => loc,
    }
}

/// The table of a join.
pub open spec fn join_table(j: JoinV) -> TableRefV {
    match j {
        JoinV::Natural(_, t, _) => t,
        JoinV::Cross(t, _) => t,
        JoinV::On(_, t, _, _) => t,
    }
}

impl Locatable for JoinClause {
    open spec fn located_at(&self) -> Location {
        join_location(self@)
    }

    fn location(&self) -> (r: Location) {
        match self {
            JoinClause::NaturalJoin(v) => v.location,
            JoinClause::CrossJoin(v) => v.location,
            JoinClause::JoinOn(v) => v.location,
        }
    }
}

/// A `join_clause` node: its child is a `natural_join` (a join type and a table),
/// a `cross_join` (a table) or a `join_on` (a join type, a table and an expression).
pub open spec fn join_clause_of(p: QueryPair) -> Result<JoinV, SyntaxErrorWithPosV> {
    let loc = pair_location(p);
    let missing = unexpected_pair(loc, "natural_join"@);
    if p.rule == Rule::join_clause && p.inner@.len() > 0 {
        let q = p.inner@[0];
        let n = q.inner@.len();
        match q.rule {
            Rule::natural_join => if n < 1 {
                Err(missing)
            } else {
                match join_type_of(q.inner@[0]) {
                    Err(e) => Err(e),
                    Ok(ty) => if n < 2 {
                        Err(missing)
                    } else {
                        match table_ref_of(q.inner@[1]) {
                            Ok(t) => Ok(JoinV::Natural(ty, t, loc)),
                            Err(e) => Err(e),
                        }
                    },
                }
            },
            Rule::cross_join => if n < 1 {
                Err(missing)
            } else {
                match table_ref_of(q.inner@[0]) {
                    Ok(t) => Ok(JoinV::Cross(t, loc)),
                    Err(e) => Err(e),
                }
            },
            Rule::join_on => if n < 1 {
                Err(missing)
            } else {
                match join_type_of(q.inner@[0]) {
                    Err(e) => Err(e),
                    Ok(ty) => if n < 2 {
                        Err(missing)
                    } else {
                        match table_ref_of(q.inner@[1]) {
                            Err(e) => Err(e),
                            Ok(t) => if n < 3 {
                                Err(missing)
                            } else {
                                match expr_of(q.inner@[2]) {
                                    Ok(on) => Ok(JoinV::On(ty, t, on, loc)),
                                    Err(e) => Err(e),
                                }
                            },
                        }
                    },
                }
            },
            _ => Err(unexpected_pair(loc, "join_clause"@)),
        }
    } else {
        Err(unexpected_pair(loc, "join_clause"@))
    }
}

impl JoinClause {
    pub fn from_pair(pair: QueryPair) -> (r: Result<JoinClause, SyntaxErrorWithPos>)
        requires
            tree_bools_valued(pair),
        ensures
            ast_result(r) == join_clause_of(pair),
    {
        let ghost gp = pair;
        let location = pair.location();
        proof {
            reveal_strlit("join_clause");
            reveal_strlit("natural_join");
        }
        match pair.as_rule() {
            Rule::join_clause => {
                let mut children = pair.into_inner();
                let inner_pair = match next_child(&mut children) {
                    Some(p) => p,
                    None => {
                        return Err(location.error(SyntaxError::UnexpectedPair("join_clause")));
                    },
                };
                proof {
                    lemma_child_bools_valued(gp, 0);
                }
                let ghost gq = inner_pair;
                match inner_pair.as_rule() {
                    Rule::natural_join => {
                        let mut inner = inner_pair.into_inner();
                        let ty = match next_child(&mut inner) {
                            Some(p) => match JoinType::from_pair(p) {
                                Ok(ty) => ty,
                                Err(e) => {
                                    return Err(e);
                                },
                            },
                            None => {
                                return Err(
                                    location.error(SyntaxError::UnexpectedPair("natural_join")),
                                );
                            },
                        };
                        let table = match next_child(&mut inner) {
                            Some(p) => match TableReference::from_pair(p) {
                                Ok(t) => t,
                                Err(e) => {
                                    return Err(e);
                                },
                            },
                            None => {
                                return Err(
                                    location.error(SyntaxError::UnexpectedPair("natural_join")),
                                );
                            },
                        };
                        Ok(JoinClause::NaturalJoin(NaturalJoin { ty, table, location }))
                    },
                    Rule::cross_join => {
                        let mut inner = inner_pair.into_inner();
                        let table = match next_child(&mut inner) {
                            Some(p) => match TableReference::from_pair(p) {
                                Ok(t) => t,
                                Err(e) => {
                                    return Err(e);
                                },
                            },
                            None => {
                                return Err(
                                    location.error(SyntaxError::UnexpectedPair("natural_join")),
                                );
                            },
                        };
                        Ok(JoinClause::CrossJoin(CrossJoin { table, location }))
                    },
                    Rule::join_on => {
                        let mut inner = inner_pair.into_inner();
                        let ty = match next_child(&mut inner) {
                            Some(p) => match JoinType::from_pair(p) {
                                Ok(ty) => ty,
                                Err(e) => {
                                    return Err(e);
                                },
                            },
                            None => {
                                return Err(
                                    location.error(SyntaxError::UnexpectedPair("natural_join")),
                                );
                            },
                        };
                        let table = match next_child(&mut inner) {
                            Some(p) => match TableReference::from_pair(p) {
                                Ok(t) => t,
                                Err(e) => {
                                    return Err(e);
                                },
                            },
                            None => {
                                return Err(
                                    location.error(SyntaxError::UnexpectedPair("natural_join")),
                                );
                            },
                        };
                        let on = match next_child(&mut inner) {
                            Some(p) => {
                                proof {
                                    assert(p == gq.inner@[2]);
                                    lemma_child_bools_valued(gq, 2);
                                }
                                match Expr::from_pair(p) {
                                    Ok(e) => e,
                                    Err(e) => {
                                        return Err(e);
                                    },
                                }
                            },
                            None => {
                                return Err(
                                    location.error(SyntaxError::UnexpectedPair("natural_join")),
                                );
                            },
                        };
                        Ok(JoinClause::JoinOn(JoinOn { ty, table, on, location }))
                    },
                    _ => Err(location.error(SyntaxError::UnexpectedPair("join_clause"))),
                }
            },
            _ => Err(location.error(SyntaxError::UnexpectedPair("join_clause"))),
        }
    }
}

/// The `FROM` clause of a query: its table and its joins.
#[derive(Debug, PartialEq, Eq)]
pub struct FromClause {
    pub table: TableReference,
    pub join: Vec<JoinClause>,
    pub location: Location,
}

/// The value of a `FromClause`.
pub struct FromV {
    pub table: TableRefV,
    pub join: Seq<JoinV>,
    pub location: Location,
}

pub open spec fn joins_view(s: Seq<JoinClause>) -> Seq<JoinV> {
    s.map_values(|j: JoinClause| j@)
}

impl View for FromClause {
    type V = FromV;

    open spec fn view(&self) -> FromV {
        FromV { table: self.table@, join: joins_view(self.join@), location: self.location }
    }
}

impl Locatable for FromClause {
    open spec fn located_at(&self) -> Location {
        self.location
    }

    fn location(&self) -> (r: Location) {
        self.location
    }
}

/// The joins of a `from_clause` node from its `j`-th child on, after `acc`.
pub open spec fn joins_of(p: QueryPair, j: int, acc: Seq<JoinV>) -> Result<
    Seq<JoinV>,
    SyntaxErrorWithPosV,
>
    decreases p.inner@.len() - j,
{
    if j < 0 || j >= p.inner@.len() {
        Ok(acc)
    } else {
        match join_clause_of(p.inner@[j]) {
            Ok(jc) => joins_of(p, j + 1, acc.push(jc)),
            Err(e) => Err(e),
        }
    }
}

/// A `from_clause` node: a table reference, then joins.
pub open spec fn from_clause_of(p: QueryPair) -> Result<FromV, SyntaxErrorWithPosV> {
    let loc = pair_location(p);
    if p.rule == Rule::from_clause && p.inner@.len() > 0 {
        match table_ref_of(p.inner@[0]) {
            Err(e) => Err(e),
            Ok(table) => match joins_of(p, 1, seq![]) {
                Ok(join) => Ok(FromV { table, join, location: loc }),
                Err(e) => Err(e),
            },
        }
    } else {
        Err(unexpected_pair(loc, "from_clause"@))
    }
}

impl FromClause {
    pub fn from_pair(pair: QueryPair) -> (r: Result<FromClause, SyntaxErrorWithPos>)
        requires
            tree_bools_valued(pair),
        ensures
            ast_result(r) == from_clause_of(pair),
    {
        let ghost gp = pair;
        let location = pair.location();
        proof {
            reveal_strlit("from_clause");
        }
        match pair.as_rule() {
            Rule::from_clause => {
                let mut inner = pair.into_inner();
                let table = match next_child(&mut inner) {
                    Some(p) => match TableReference::from_pair(p) {
                        Ok(t) => t,
                        Err(e) => {
                            return Err(e);
                        },
                    },
                    None => {
                        return Err(location.error(SyntaxError::UnexpectedPair("from_clause")));
                    },
                };
                let mut join: Vec<JoinClause> = Vec::new();
                let ghost mut k: int = 1;
                assert(joins_view(join@) =~= seq![]);
                assert(inner@ =~= gp.inner@.skip(1));
                loop
                    invariant
                        gp == pair,
                        gp.rule == Rule::from_clause,
                        tree_bools_valued(gp),
                        1 <= k <= gp.inner@.len(),
                        inner@ == gp.inner@.skip(k),
                        location == pair_location(gp),
                        table_ref_of(gp.inner@[0]) == Ok::<TableRefV, SyntaxErrorWithPosV>(
                            table@,
                        ),
                        joins_of(gp, 1, seq![]) == joins_of(gp, k, joins_view(join@)),
                    decreases gp.inner@.len() - k,
                {
                    let item = match next_child(&mut inner) {
                        Some(item) => item,
                        None => {
                            return Ok(FromClause { table, join, location });
                        },
                    };
                    proof {
                        assert(item == gp.inner@[k]);
                        lemma_child_bools_valued(gp, k);
                    }
                    let jc = match JoinClause::from_pair(item) {
                        Ok(jc) => jc,
                        Err(e) => {
                            return Err(e);
                        },
                    };
                    let ghost before = joins_view(join@);
                    join.push(jc);
                    proof {
                        assert(joins_view(join@) =~= before.push(jc@));
                        assert(inner@ =~= gp.inner@.skip(k + 1));
                        k = k + 1;
                    }
                }
            },
            _ => Err(location.error(SyntaxError::UnexpectedPair("from_clause"))),
        }
    }
}

} // verus!

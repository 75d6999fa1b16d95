use vstd::prelude::*;

use crate::query::ast::clause::{ident_text, parse_ident};
use crate::query::ast::error::{unexpected_pair, SyntaxError, SyntaxErrorWithPos, SyntaxErrorWithPosV};
use crate::query::ast::expr::{expr_nodes, expr_of, lemma_expr_nodes_push, Expr, ExprNode};
use crate::query::ast::literal::{ast_result, lemma_child_bools_valued, tree_bools_valued};
use crate::query::ast::location::Location;
use crate::query::ast::pair::{next_child, pair_location, QueryPair, Rule};
use crate::query::ast::traits::Locatable;
use crate::query::expr::ident::strings_view;

verus! {

/// An `INSERT` query: its table, the columns it names, and the values.
#[derive(Debug, PartialEq, Eq)]
pub struct InsertQuery {
    pub table: String,
    pub columns: Option<Vec<String>>,
    pub values: Vec<Expr>,
    pub location: Location,
}

/// The value of an `InsertQuery`.
pub struct InsertQueryV {
    pub table: Seq<char>,
    pub columns: Option<Seq<Seq<char>>>,
    pub values: Seq<ExprNode>,
    pub location: Location,
}

impl View for InsertQuery {
    type V = InsertQueryV;

    open spec fn view(&self) -> InsertQueryV {
        InsertQueryV {
            table: self.table@,
            columns: match self.columns {
                Some(c) => Some(strings_view(c@)),
                None => None,
            },
            values: expr_nodes(self.values@),
            location: self.location,
        }
    }
}

impl Locatable for InsertQuery {
    open spec fn located_at(&self) -> Location {
        self.location
    }

    fn location(&self) -> (r: Location) {
        self.location
    }
}

/// The names of the `ident` children of a node from its `j`-th on, after `acc`.
pub open spec fn ident_list(p: QueryPair, j: int, acc: Seq<Seq<char>>) -> Result<
    Seq<Seq<char>>,
    SyntaxErrorWithPosV,
>
    decreases p.inner@.len() - j,
{
    if j < 0 || j >= p.inner@.len() {
        Ok(acc)
    } else {
        match ident_text(p.inner@[j]) {
            Ok(s) => ident_list(p, j + 1, acc.push(s)),
            Err(e) => Err(e),
        }
    }
}

/// The expressions of the children of a node from its `j`-th on, after `acc`.
pub open spec fn expr_list(p: QueryPair, j: int, acc: Seq<ExprNode>) -> Result<
    Seq<ExprNode>,
    SyntaxErrorWithPosV,
>
    decreases p.inner@.len() - j,
{
    if j < 0 || j >= p.inner@.len() {
        Ok(acc)
    } else {
        match expr_of(p.inner@[j]) {
            Ok(e) => expr_list(p, j + 1, acc.push(e)),
            Err(e) => Err(e),
        }
    }
}

/// The names of the children of a `column_list` node.
pub fn ident_list_from_pair(pair: QueryPair) -> (r: Result<Vec<String>, SyntaxErrorWithPos>)
    ensures
        match r {
            Ok(v) => ident_list(pair, 0, seq![]) == Ok::<_, SyntaxErrorWithPosV>(strings_view(v@)),
            Err(e) => ident_list(pair, 0, seq![]) == Err::<Seq<Seq<char>>, _>(e@),
        },
{
    let ghost gp = pair;
    let mut inner = pair.into_inner();
    let mut names: Vec<String> = Vec::new();
    let ghost mut k: int = 0;
    assert(strings_view(names@) =~= seq![]);
    assert(inner@ =~= gp.inner@.skip(0));
    loop
        invariant
            gp == pair,
            0 <= k <= gp.inner@.len(),
            inner@ == gp.inner@.skip(k),
            ident_list(gp, 0, seq![]) == ident_list(gp, k, strings_view(names@)),
        decreases gp.inner@.len() - k,
    {
        let item = match next_child(&mut inner) {
            Some(item) => item,
            None => {
                return Ok(names);
            },
        };
        assert(item == gp.inner@[k]);
        let name = match parse_ident(item) {
            Ok(name) => name,
            Err(e) => {
                return Err(e);
            },
        };
        let ghost before = strings_view(names@);
        names.push(name);
        proof {
            assert(strings_view(names@) =~= before.push(name@));
            assert(inner@ =~= gp.inner@.skip(k + 1));
            k = k + 1;
        }
    }
}

/// The expressions of the children of a node.
pub fn expr_list_from_pair(pair: QueryPair) -> (r: Result<Vec<Expr>, SyntaxErrorWithPos>)
    requires
        tree_bools_valued(pair),
    ensures
        match r {
            Ok(v) => expr_list(pair, 0, seq![]) == Ok::<_, SyntaxErrorWithPosV>(expr_nodes(v@)),
            Err(e) => expr_list(pair, 0, seq![]) == Err::<Seq<ExprNode>, _>(e@),
        },
{
    let ghost gp = pair;
    let mut inner = pair.into_inner();
    let mut values: Vec<Expr> = Vec::new();
    let ghost mut k: int = 0;
    assert(expr_nodes(values@) =~= seq![]);
    assert(inner@ =~= gp.inner@.skip(0));
    loop
        invariant
            gp == pair,
            tree_bools_valued(gp),
            0 <= k <= gp.inner@.len(),
            inner@ == gp.inner@.skip(k),
            expr_list(gp, 0, seq![]) == expr_list(gp, k, expr_nodes(values@)),
        decreases gp.inner@.len() - k,
    {
        let item = match next_child(&mut inner) {
            Some(item) => item,
            None => {
                return Ok(values);
            },
        };
        proof {
            assert(item == gp.inner@[k]);
            lemma_child_bools_valued(gp, k);
        }
        let e = match Expr::from_pair(item) {
            Ok(e) => e,
            Err(e) => {
                return Err(e);
            },
        };
        proof {
            lemma_expr_nodes_push(values@, e);
        }
        values.push(e);
        proof {
            assert(inner@ =~= gp.inner@.skip(k + 1));
            k = k + 1;
        }
    }
}

/// An `insert_query` node: the table's name, an optional `column_list`, then the
/// node whose children are the values.
pub open spec fn insert_query_of(p: QueryPair) -> Result<InsertQueryV, SyntaxErrorWithPosV> {
    let loc = pair_location(p);
    let ch = p.inner@;
    let missing = unexpected_pair(loc, "insert_query"@);
    if p.rule != Rule::insert_query {
        Err(missing)
    } else if ch.len() < 1 {
        Err(missing)
    } else {
        match ident_text(ch[0]) {
            Err(e) => Err(e),
            Ok(table) => if ch.len() < 2 {
                Err(missing)
            } else if ch[1].rule == Rule::column_list {
                match ident_list(ch[1], 0, seq![]) {
                    Err(e) => Err(e),
                    Ok(columns) => if ch.len() < 3 {
                        Err(missing)
                    } else {
                        match expr_list(ch[2], 0, seq![]) {
                            Ok(values) => Ok(
                                InsertQueryV {
                                    table,
                                    columns: Some(columns),
                                    values,
                                    location: loc,
                                },
                            ),
                            Err(e) => Err(e),
                        }
                    },
                }
            } else {
                match expr_list(ch[1], 0, seq![]) {
                    Ok(values) => Ok(InsertQueryV { table, columns: None, values, location: loc }),
                    Err(e) => Err(e),
                }
            },
        }
    }
}

impl InsertQuery {
    pub fn from_pair(pair: QueryPair) -> (r: Result<InsertQuery, SyntaxErrorWithPos>)
        requires
            tree_bools_valued(pair),
        ensures
            ast_result(r) == insert_query_of(pair),
    {
        let ghost gp = pair;
        let location = pair.location();
        proof {
            reveal_strlit("insert_query");
        }
        if pair.as_rule() != Rule::insert_query {
            return Err(location.error(SyntaxError::UnexpectedPair("insert_query")));
        }
        let mut inner = pair.into_inner();
        let table = match next_child(&mut inner) {
            Some(p) => match parse_ident(p) {
                Ok(t) => t,
                Err(e) => {
                    return Err(e);
                },
            },
            None => {
                return Err(location.error(SyntaxError::UnexpectedPair("insert_query")));
            },
        };
        let second = match next_child(&mut inner) {
            Some(p) => p,
            None => {
                return Err(location.error(SyntaxError::UnexpectedPair("insert_query")));
            },
        };
        let (columns, values_pair) = if second.as_rule() == Rule::column_list {
            let columns = match ident_list_from_pair(second) {
                Ok(c) => c,
                Err(e) => {
                    return Err(e);
                },
            };
            let values_pair = match next_child(&mut inner) {
                Some(p) => p,
                None => {
                    return Err(location.error(SyntaxError::UnexpectedPair("insert_query")));
                },
            };
            proof {
                lemma_child_bools_valued(gp, 2);
            }
            (Some(columns), values_pair)
        } else {
            proof {
                lemma_child_bools_valued(gp, 1);
            }
            (None, second)
        };
        let values = match expr_list_from_pair(values_pair) {
            Ok(v) => v,
            Err(e) => {
                return Err(e);
            },
        };
        Ok(InsertQuery { table, columns, values, location })
    }
}

} // verus!

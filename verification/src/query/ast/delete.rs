use vstd::prelude::*;

use crate::query::ast::clause::{from_clause_of, FromClause, FromV};
use crate::query::ast::error::{unexpected_pair, SyntaxError, SyntaxErrorWithPos, SyntaxErrorWithPosV};
use crate::query::ast::expr::{expr_of, Expr, ExprNode};
use crate::query::ast::literal::{ast_result, lemma_child_bools_valued, tree_bools_valued};
use crate::query::ast::location::Location;
use crate::query::ast::pair::{next_child, pair_location, QueryPair, Rule};
use crate::query::ast::select::opt_expr;
use crate::query::ast::traits::Locatable;

verus! {

/// A `DELETE` query.
#[derive(Debug, PartialEq, Eq)]
pub struct DeleteQuery {
    pub from: FromClause,
    pub where_clause: Option<Expr>,
    pub location: Location,
}

/// The value of a `DeleteQuery`.
pub struct DeleteQueryV {
    pub from: FromV,
    pub where_clause: Option<ExprNode>,
    pub location: Location,
}

impl View for DeleteQuery {
    type V = DeleteQueryV;

    open spec fn view(&self) -> DeleteQueryV {
        DeleteQueryV {
            from: self.from@,
            where_clause: opt_expr(self.where_clause),
            location: self.location,
        }
    }
}

impl Locatable for DeleteQuery {
    open spec fn located_at(&self) -> Location {
        self.location
    }

    fn location(&self) -> (r: Location) {
        self.location
    }
}

/// A `delete_query` node: a from clause and, from a second child, the condition.
pub open spec fn delete_query_of(p: QueryPair) -> Result<DeleteQueryV, SyntaxErrorWithPosV> {
    let loc = pair_location(p);
    let ch = p.inner@;
    if p.rule != Rule::delete_query {
        Err(unexpected_pair(loc, "delete_query"@))
    } else if ch.len() < 1 {
        Err(unexpected_pair(loc, "from_clause"@))
    } else {
        match from_clause_of(ch[0]) {
            Err(e) => Err(e),
            Ok(from) => if ch.len() < 2 {
                Ok(DeleteQueryV { from, where_clause: None, location: loc })
            } else {
                match expr_of(ch[1]) {
                    Ok(w) => Ok(DeleteQueryV { from, where_clause: Some(w), location: loc }),
                    Err(e) => Err(e),
                }
            },
        }
    }
}

impl DeleteQuery {
    pub fn from_pair(pair: QueryPair) -> (r: Result<DeleteQuery, SyntaxErrorWithPos>)
        requires
            tree_bools_valued(pair),
        ensures
            ast_result(r) == delete_query_of(pair),
    {
        let ghost gp = pair;
        let location = pair.location();
        proof {
            reveal_strlit("delete_query");
            reveal_strlit("from_clause");
        }
        if pair.as_rule() != Rule::delete_query {
            return Err(location.error(SyntaxError::UnexpectedPair("delete_query")));
        }
        let mut inner = pair.into_inner();
        let from = match next_child(&mut inner) {
            Some(p) => {
                proof {
                    lemma_child_bools_valued(gp, 0);
                }
                match FromClause::from_pair(p) {
                    Ok(f) => f,
                    Err(e) => {
                        return Err(e);
                    },
                }
            },
            None => {
                return Err(location.error(SyntaxError::UnexpectedPair("from_clause")));
            },
        };
        let where_clause = match next_child(&mut inner) {
            Some(p) => {
                proof {
                    lemma_child_bools_valued(gp, 1);
                }
                match Expr::from_pair(p) {
                    Ok(e) => Some(e),
                    Err(e) => {
                        return Err(e);
                    },
                }
            },
            None => None,
        };
        Ok(DeleteQuery { from, where_clause, location })
    }
}

} // verus!

use vstd::prelude::*;

use crate::query::ast::delete::{delete_query_of, DeleteQuery, DeleteQueryV};
use crate::query::ast::error::{unexpected_pair, SyntaxError, SyntaxErrorWithPos, SyntaxErrorWithPosV};
use crate::query::ast::literal::{ast_result, lemma_child_bools_valued, tree_bools_valued};
use crate::query::ast::location::Location;
use crate::query::ast::pair::{next_child, pair_location, QueryPair, Rule};
use crate::query::ast::select::{select_query_of, SelectQuery, SelectQueryV};
use crate::query::ast::traits::Locatable;
use crate::query::ast::update::{update_query_of, UpdateQuery, UpdateQueryV};

verus! {

/// A query: a `DELETE`, a `SELECT` or an `UPDATE`.
#[derive(Debug, Eq, PartialEq)]
pub enum Query {
    Delete(Box<DeleteQuery>),
    Select(Box<SelectQuery>),
    Update(Box<UpdateQuery>),
}

/// The value of a `Query`.
pub enum QueryV {
    Delete(DeleteQueryV),
    Select(SelectQueryV),
    Update(UpdateQueryV),
}

impl View for Query {
    type V = QueryV;

    open spec fn view(&self) -> QueryV {
        match self {
            Query::Delete(d) => QueryV::Delete(d@),
            Query::Select(s) => QueryV::Select(s@),
            Query::Update(u) => QueryV::Update(u@),
        }
    }
}

impl Locatable for Query {
    open spec fn located_at(&self) -> Location {
        match self@ {
            QueryV::Delete(d) => d.location,
            QueryV::Select(s) => s.location,
            QueryV::Update(u) => u.location,
        }
    }

    fn location(&self) -> (r: Location) {
        match self {
            Query::Delete(d) => d.location(),
            Query::Select(s) => s.location(),
            Query::Update(u) => u.location(),
        }
    }
}

/// A `query` node: its child is a delete, select or update query.
pub open spec fn query_of(p: QueryPair) -> Result<QueryV, SyntaxErrorWithPosV> {
    let loc = pair_location(p);
    if p.rule == Rule::query && p.inner@.len() > 0 {
        let q = p.inner@[0];
        match q.rule {
            Rule::delete_query => match delete_query_of(q) {
                Ok(d) => Ok(QueryV::Delete(d)),
                Err(e) => Err(e),
            },
            Rule::select_query => match select_query_of(q) {
                Ok(s) => Ok(QueryV::Select(s)),
                Err(e) => Err(e),
            },
            Rule::update_query => match update_query_of(q) {
                Ok(u) => Ok(QueryV::Update(u)),
                Err(e) => Err(e),
            },
            _ => Err(unexpected_pair(loc, "query"@)),
        }
    } else {
        Err(unexpected_pair(loc, "query"@))
    }
}

impl Query {
    pub fn from_pair(pair: QueryPair) -> (r: Result<Query, SyntaxErrorWithPos>)
        requires
            tree_bools_valued(pair),
        ensures
            ast_result(r) == query_of(pair),
    {
        let ghost gp = pair;
        let location = pair.location();
        proof {
            reveal_strlit("query");
        }
        if pair.as_rule() != Rule::query {
            return Err(location.error(SyntaxError::UnexpectedPair("query")));
        }
        let mut children = pair.into_inner();
        let inner = match next_child(&mut children) {
            Some(p) => p,
            None => {
                return Err(location.error(SyntaxError::UnexpectedPair("query")));
            },
        };
        proof {
            lemma_child_bools_valued(gp, 0);
        }
        match inner.as_rule() {
            Rule::delete_query => match DeleteQuery::from_pair(inner) {
                Ok(d) => Ok(Query::Delete(Box::new(d))),
                Err(e) => Err(e),
            },
            Rule::select_query => match SelectQuery::from_pair(inner) {
                Ok(s) => Ok(Query::Select(Box::new(s))),
                Err(e) => Err(e),
            },
            Rule::update_query => match UpdateQuery::from_pair(inner) {
                Ok(u) => Ok(Query::Update(Box::new(u))),
                Err(e) => Err(e),
            },
            _ => Err(location.error(SyntaxError::UnexpectedPair("query"))),
        }
    }
}

} // verus!

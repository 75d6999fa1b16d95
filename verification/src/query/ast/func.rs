use vstd::prelude::*;

use crate::query::ast::error::{SyntaxError, SyntaxErrorWithPos};
use crate::query::ast::expr::{
    expr_node, expr_nodes, function_args, function_of, lemma_expr_nodes_push, Expr, ExprNode,
};
use crate::query::ast::literal::{ast_result, lemma_child_bools_valued, tree_bools_valued};
use crate::query::ast::location::Location;
use crate::query::ast::pair::{next_child, pair_location, QueryPair, Rule};
use crate::query::ast::traits::Locatable;

verus! {

/// A call of a function of the database in the syntax tree.
#[derive(Debug, PartialEq, Eq)]
pub struct FunctionCall {
    pub ident: String,
    pub parameters: Vec<Expr>,
    pub location: Location,
}

impl View for FunctionCall {
    type V = ExprNode;

    open spec fn view(&self) -> ExprNode {
        expr_node(Expr::FunctionCall(*self))
    }
}

impl Locatable for FunctionCall {
    open spec fn located_at(&self) -> Location {
        self.location
    }

    fn location(&self) -> (r: Location) {
        self.location
    }
}

impl FunctionCall {
    pub fn from_pair(pair: QueryPair) -> (r: Result<FunctionCall, SyntaxErrorWithPos>)
        requires
            tree_bools_valued(pair),
        ensures
            ast_result(r) == function_of(pair),
        decreases pair, 1int, 0int,
    {
        let ghost gp = pair;
        let location = pair.location();
        proof {
            reveal_strlit("ident");
            reveal_strlit("function_call");
        }
        match pair.as_rule() {
            Rule::function_call => {
                let mut inner = pair.into_inner();
                let ident_pair = match next_child(&mut inner) {
                    Some(p) => p,
                    None => {
                        return Err(location.error(SyntaxError::UnexpectedPair("ident")));
                    },
                };
                let ident = match ident_pair.as_rule() {
                    Rule::ident => ident_pair.text,
                    _ => {
                        return Err(location.error(SyntaxError::UnexpectedPair("ident")));
                    },
                };
                let mut parameters: Vec<Expr> = Vec::new();
                let ghost mut k: int = 1;
                assert(expr_nodes(parameters@) =~= seq![]);
                assert(inner@ =~= gp.inner@.skip(1));
                loop
                    invariant
                        gp == pair,
                        gp.rule == Rule::function_call,
                        tree_bools_valued(gp),
                        1 <= k <= gp.inner@.len(),
                        gp.inner@[0].rule == Rule::ident,
                        ident@ == gp.inner@[0].text@,
                        inner@ == gp.inner@.skip(k),
                        location == pair_location(gp),
                        function_args(gp, 1, seq![]) == function_args(
                            gp,
                            k,
                            expr_nodes(parameters@),
                        ),
                    decreases gp.inner@.len() - k,
                {
                    let item = match next_child(&mut inner) {
                        Some(item) => item,
                        None => {
                            return Ok(FunctionCall { ident, parameters, location });
                        },
                    };
                    proof {
                        assert(item == gp.inner@[k]);
                        lemma_child_bools_valued(gp, k);
                    }
                    let e = match Expr::from_pair(item) {
                        Ok(e) => e,
                        Err(e) => {
                            return Err(e);
                        },
                    };
                    proof {
                        lemma_expr_nodes_push(parameters@, e);
                    }
                    parameters.push(e);
                    proof {
                        assert(inner@ =~= gp.inner@.skip(k + 1));
                        k = k + 1;
                    }
                }
            },
            _ => Err(location.error(SyntaxError::UnexpectedPair("function_call"))),
        }
    }
}

} // verus!

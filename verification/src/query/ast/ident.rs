use vstd::prelude::*;

use crate::query::ast::error::{unexpected_pair, SyntaxError, SyntaxErrorWithPos, SyntaxErrorWithPosV};
use crate::query::ast::literal::ast_result;
use crate::query::ast::location::Location;
use crate::query::ast::traits::Locatable;
use crate::query::ast::pair::{arity, child, next_child, pair_location, QueryPair, Rule};
use crate::query::expr::ident::strings_view;

verus! {

/// A dotted name of a column in the syntax tree, such as `t.id` or `t.*`.
#[derive(Debug, Clone, PartialEq, Eq)]
pub struct ColumnIdent {
    pub segments: Vec<String>,
    pub location: Location,
}

impl View for ColumnIdent {
    type V = (Seq<Seq<char>>, Location);

    open spec fn view(&self) -> (Seq<Seq<char>>, Location) {
        (strings_view(self.segments@), self.location)
    }
}

/// The segments of a `column_ident` node from its `j`-th child on, after `acc`:
/// `*` for an `any` child, the text of an `ident` or `any_ident` child.
pub open spec fn column_segments(p: QueryPair, j: int, acc: Seq<Seq<char>>) -> Result<
    Seq<Seq<char>>,
    SyntaxErrorWithPosV,
>
    decreases arity(p) - j,
{
    if j < 0 || j >= arity(p) {
        Ok(acc)
    } else {
        let c = child(p, j);
        match c.rule {
            Rule::any => column_segments(p, j + 1, acc.push(seq!['*'])),
            Rule::ident => column_segments(p, j + 1, acc.push(c.text@)),
            Rule::any_ident => column_segments(p, j + 1, acc.push(c.text@)),
            _ => Err(unexpected_pair(pair_location(p), "any or ident"@)),
        }
    }
}

/// A `column_ident` node: the segments of its children.
pub open spec fn column_ident_of(p: QueryPair) -> Result<(Seq<Seq<char>>, Location), SyntaxErrorWithPosV> {
    let loc = pair_location(p);
    if p.rule == Rule::column_ident {
        match column_segments(p, 0, seq![]) {
            Ok(segs) => Ok((segs, loc)),
            Err(e) => Err(e),
        }
    } else {
        Err(unexpected_pair(loc, "column_ident"@))
    }
}

impl ColumnIdent {
    pub fn from_pair(pair: QueryPair) -> (r: Result<ColumnIdent, SyntaxErrorWithPos>)
        ensures
            ast_result(r) == column_ident_of(pair),
    {
        let ghost gp = pair;
        let location = pair.location();
        proof {
            reveal_strlit("column_ident");
            reveal_strlit("any or ident");
        }
        match pair.as_rule() {
            Rule::column_ident => {
                let mut segments: Vec<String> = Vec::new();
                let mut inner = pair.into_inner();
                let ghost mut k: int = 0;
                assert(strings_view(segments@) =~= seq![]);
                assert(inner@ =~= gp.inner@.skip(0));
                loop
                    invariant
                        0 <= k <= arity(gp),
                        inner@ == gp.inner@.skip(k),
                        location == pair_location(gp),
                        gp.rule == Rule::column_ident,
                        gp == pair,
                        column_segments(gp, 0, seq![]) == column_segments(
                            gp,
                            k,
                            strings_view(segments@),
                        ),
                    decreases arity(gp) - k,
                {
                    let item = match next_child(&mut inner) {
                        Some(item) => item,
                        None => {
                            return Ok(ColumnIdent { segments, location });
                        },
                    };
                    assert(item == child(gp, k));
                    let ghost before = strings_view(segments@);
                    match item.as_rule() {
                        Rule::any => {
                            let star = "*".to_owned();
                            proof {
                                reveal_strlit("*");
                            }
                            segments.push(star);
                        },
                        Rule::ident => {
                            segments.push(item.text);
                        },
                        Rule::any_ident => {
                            segments.push(item.text);
                        },
                        _ => {
                            return Err(location.error(SyntaxError::UnexpectedPair("any or ident")));
                        },
                    }
                    proof {
                        assert(strings_view(segments@) =~= before.push(segments@.last()@));
                        assert(0 <= k < arity(gp));
                        assert(child(gp, k).rule == Rule::any ==> segments@.last()@ == seq!['*']);
                        assert(child(gp, k).rule != Rule::any ==> segments@.last()@ == child(gp, k).text@);
                        assert(column_segments(gp, k, before) == column_segments(
                            gp,
                            k + 1,
                            strings_view(segments@),
                        ));
                        assert(inner@ =~= gp.inner@.skip(k + 1));
                        k = k + 1;
                    }
                }
            },
            _ => Err(location.error(SyntaxError::UnexpectedPair("column_ident"))),
        }
    }
}

impl Locatable for ColumnIdent {
    open spec fn located_at(&self) -> Location {
        self.location
    }

    fn location(&self) -> (r: Location) {
        self.location
    }
}

} // verus!

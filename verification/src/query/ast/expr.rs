use vstd::prelude::*;

use crate::query::ast::error::{
    unexpected_expr, unexpected_pair, SyntaxError, SyntaxErrorWithPos, SyntaxErrorWithPosV,
};
use crate::query::ast::func::FunctionCall;
use crate::query::ast::ident::{column_ident_of, ColumnIdent};
use crate::query::ast::literal::{
    ast_result, lemma_child_bools_valued, lit_location, literal_of, tree_bools_valued, LitNode,
    Literal,
};
use crate::query::ast::location::{loc_end, loc_start, Location};
use crate::query::ast::pair::{arity, child, next_child, pair_location, QueryPair, Rule};
use crate::query::ast::traits::Locatable;
use crate::query::expr::ident::{copy_strings, strings_view};

verus! {

/// The value of an expression of the syntax tree, with the locations of its nodes.
pub enum ExprNode {
    Literal(LitNode),
    FunctionCall(Seq<char>, Seq<ExprNode>, Location),
    ColumnIdent(Seq<Seq<char>>, Location),
    Unary(UnaryOperator, Box<ExprNode>, Location),
    Binary(BinaryOperator, Box<ExprNode>, Box<ExprNode>, Location),
}

/// Where an expression stands.
pub open spec fn node_location(e: ExprNode) -> Location {
    match e {
        ExprNode::Literal(l) => lit_location(l),
        ExprNode::FunctionCall(_, _, loc) => loc,
        ExprNode::ColumnIdent(_, loc) => loc,
        ExprNode::Unary(_, _, loc) => loc,
        ExprNode::Binary(_, _, _, loc) => loc,
    }
}

/// An expression of the syntax tree.
#[derive(Eq, PartialEq, Debug)]
pub enum Expr {
    Literal(Literal),
    FunctionCall(FunctionCall),
    ColumnIdent(ColumnIdent),
    Unary(Unary),
    Binary(Binary),
}

/// The value of an expression.
pub open spec fn expr_node(e: Expr) -> ExprNode
    decreases e,
{
    match e {
        Expr::Literal(l) => ExprNode::Literal(l@),
        Expr::FunctionCall(f) => ExprNode::FunctionCall(
            f.ident@,
            expr_nodes(f.parameters@),
            f.location,
        ),
        Expr::ColumnIdent(c) => ExprNode::ColumnIdent(strings_view(c.segments@), c.location),
        Expr::Unary(u) => ExprNode::Unary(u.operator, Box::new(expr_node(*u.right)), u.location),
        Expr::Binary(b) => ExprNode::Binary(
            b.operator,
            Box::new(expr_node(*b.left)),
            Box::new(expr_node(*b.right)),
            b.location,
        ),
    }
}

/// The values of a sequence of expressions.
pub open spec fn expr_nodes(s: Seq<Expr>) -> Seq<ExprNode>
    decreases s,
{
    if s.len() == 0 {
        seq![]
    } else {
        expr_nodes(s.drop_last()).push(expr_node(s.last()))
    }
}

pub proof fn lemma_expr_nodes_push(s: Seq<Expr>, x: Expr)
    ensures
        expr_nodes(s.push(x)) == expr_nodes(s).push(expr_node(x)),
{
    assert(s.push(x).drop_last() =~= s);
}

impl View for Expr {
    type V = ExprNode;

    open spec fn view(&self) -> ExprNode {
        expr_node(*self)
    }
}

impl Expr {
    /// A copy of the expression.
    pub fn duplicate(&self) -> (r: Expr)
        ensures
            r@ == self@,
        decreases self,
    {
        match self {
            Expr::Literal(l) => Expr::Literal(l.duplicate()),
            Expr::FunctionCall(f) => {
                let mut parameters: Vec<Expr> = Vec::new();
                let mut i: usize = 0;
                while i < f.parameters.len()
                    invariant
                        i <= f.parameters@.len(),
                        *self == Expr::FunctionCall(*f),
                        expr_nodes(parameters@) == expr_nodes(f.parameters@.take(i as int)),
                    decreases f.parameters@.len() - i,
                {
                    proof {
                        assert(decreases_to!(*self => (*self)->FunctionCall_0));
                        assert(decreases_to!(*f => f.parameters));
                        assert(decreases_to!(f.parameters => f.parameters@));
                        assert(decreases_to!(f.parameters@ => f.parameters@[i as int]));
                    }
                    let p = f.parameters[i].duplicate();
                    proof {
                        lemma_expr_nodes_push(parameters@, p);
                        assert(f.parameters@.take(i + 1) =~= f.parameters@.take(i as int).push(
                            f.parameters@[i as int],
                        ));
                        lemma_expr_nodes_push(f.parameters@.take(i as int), f.parameters@[i as int]);
                    }
                    parameters.push(p);
                    i = i + 1;
                }
                assert(f.parameters@.take(f.parameters@.len() as int) =~= f.parameters@);
                Expr::FunctionCall(
                    FunctionCall { ident: f.ident.clone(), parameters, location: f.location },
                )
            },
            Expr::ColumnIdent(c) => Expr::ColumnIdent(
                ColumnIdent { segments: copy_strings(&c.segments), location: c.location },
            ),
            Expr::Unary(u) => Expr::Unary(
                Unary { operator: u.operator, right: Box::new(u.right.duplicate()), location: u.location },
            ),
            Expr::Binary(b) => Expr::Binary(
                Binary {
                    operator: b.operator,
                    left: Box::new(b.left.duplicate()),
                    right: Box::new(b.right.duplicate()),
                    location: b.location,
                },
            ),
        }
    }
}

impl Locatable for Expr {
    open spec fn located_at(&self) -> Location {
        node_location(self@)
    }

    fn location(&self) -> (r: Location) {
        match self {
            Expr::Literal(lit) => lit.location(),
            Expr::FunctionCall(func) => func.location(),
            Expr::ColumnIdent(ident) => ident.location(),
            Expr::Unary(e) => e.location(),
            Expr::Binary(e) => e.location(),
        }
    }
}

/// A binary operator of the syntax tree.
#[derive(Debug, Copy, Clone, Eq, PartialEq, Hash, Structural)]
pub enum BinaryOperator {
    BitXor,
    Multi,
    Div,
    Mod,
    Plus,
    Minus,
    LeftShift,
    RightShift,
    BitAnd,
    BitOr,
    Bte,
    Lte,
    Neq,
    Bt,
    Lt,
    Eq,
    And,
    Xor,
    Or,
}

/// The operator that a node of an operator rule stands for; both `plus` and
/// `minus` stand for `Plus`.
pub open spec fn binary_from_rule(rule: Rule) -> Option<BinaryOperator> {
    match rule {
        Rule::plus => Some(BinaryOperator::Plus),
        Rule::minus => Some(BinaryOperator::Plus),
        Rule::multi => Some(BinaryOperator::Multi),
        Rule::div => Some(BinaryOperator::Div),
        Rule::modulo => Some(BinaryOperator::Mod),
        Rule::left_shift => Some(BinaryOperator::LeftShift),
        Rule::right_shift => Some(BinaryOperator::RightShift),
        Rule::bit_and => Some(BinaryOperator::BitAnd),
        Rule::bit_or => Some(BinaryOperator::BitOr),
        Rule::bit_xor => Some(BinaryOperator::BitXor),
        Rule::less_than => Some(BinaryOperator::Lt),
        Rule::less_than_or_equal => Some(BinaryOperator::Lte),
        Rule::bigger_than => Some(BinaryOperator::Bt),
        Rule::bigger_than_or_equal => Some(BinaryOperator::Bte),
        Rule::equal => Some(BinaryOperator::Eq),
        Rule::not_equal => Some(BinaryOperator::Neq),
        Rule::bool_and => Some(BinaryOperator::And),
        Rule::bool_or => Some(BinaryOperator::Or),
        Rule::bool_xor => Some(BinaryOperator::Xor),
        _ => None,
    }
}

pub open spec fn compare_ops() -> Seq<BinaryOperator> {
    seq![
        BinaryOperator::Bte,
        BinaryOperator::Lte,
        BinaryOperator::Neq,
        BinaryOperator::Bt,
        BinaryOperator::Lt,
        BinaryOperator::Eq,
    ]
}

pub open spec fn term_ops() -> Seq<BinaryOperator> {
    seq![BinaryOperator::Multi, BinaryOperator::Div, BinaryOperator::Mod]
}

pub open spec fn add_ops() -> Seq<BinaryOperator> {
    seq![BinaryOperator::Plus, BinaryOperator::Minus]
}

pub open spec fn bit_shift_ops() -> Seq<BinaryOperator> {
    seq![BinaryOperator::LeftShift, BinaryOperator::RightShift]
}

/// Each operator rule of the grammar stands for the operator that writes the same
/// thing: `less_than` for `Lt`, `bigger_than_or_equal` for `Bte`, `bool_and` for
/// `And`, and so on; `minus` stands for `Plus`; no other rule stands for one.
pub proof fn law_operator_rules(r: Rule)
    ensures
        binary_from_rule(Rule::less_than) == Some(BinaryOperator::Lt),
        binary_from_rule(Rule::less_than_or_equal) == Some(BinaryOperator::Lte),
        binary_from_rule(Rule::bigger_than) == Some(BinaryOperator::Bt),
        binary_from_rule(Rule::bigger_than_or_equal) == Some(BinaryOperator::Bte),
        binary_from_rule(Rule::equal) == Some(BinaryOperator::Eq),
        binary_from_rule(Rule::not_equal) == Some(BinaryOperator::Neq),
        binary_from_rule(Rule::plus) == Some(BinaryOperator::Plus),
        binary_from_rule(Rule::minus) == Some(BinaryOperator::Plus),
        binary_from_rule(Rule::multi) == Some(BinaryOperator::Multi),
        binary_from_rule(Rule::div) == Some(BinaryOperator::Div),
        binary_from_rule(Rule::modulo) == Some(BinaryOperator::Mod),
        binary_from_rule(Rule::left_shift) == Some(BinaryOperator::LeftShift),
        binary_from_rule(Rule::right_shift) == Some(BinaryOperator::RightShift),
        binary_from_rule(Rule::bit_and) == Some(BinaryOperator::BitAnd),
        binary_from_rule(Rule::bit_or) == Some(BinaryOperator::BitOr),
        binary_from_rule(Rule::bit_xor) == Some(BinaryOperator::BitXor),
        binary_from_rule(Rule::bool_and) == Some(BinaryOperator::And),
        binary_from_rule(Rule::bool_or) == Some(BinaryOperator::Or),
        binary_from_rule(Rule::bool_xor) == Some(BinaryOperator::Xor),
        binary_from_rule(r) is Some ==> (r == Rule::less_than || r == Rule::less_than_or_equal || r
            == Rule::bigger_than || r == Rule::bigger_than_or_equal || r == Rule::equal || r
            == Rule::not_equal || r == Rule::plus || r == Rule::minus || r == Rule::multi || r
            == Rule::div || r == Rule::modulo || r == Rule::left_shift || r == Rule::right_shift
            || r == Rule::bit_and || r == Rule::bit_or || r == Rule::bit_xor || r == Rule::bool_and
            || r == Rule::bool_or || r == Rule::bool_xor),
{
}

/// A comparison node `x op y` of the grammar, whose operands build to `a` and `b`,
/// builds to the comparison that its operator rule writes, applied to `a` and `b`
/// in that order, spanning from the start of `a` to the end of `b`.
pub proof fn law_comparison_node(p: QueryPair, a: ExprNode, b: ExprNode)
    requires
        p.rule == Rule::cmp_expr,
        p.inner@.len() == 3,
        operand_of(p.inner@[0], true, false) == Ok::<ExprNode, SyntaxErrorWithPosV>(a),
        operand_of(p.inner@[2], true, false) == Ok::<ExprNode, SyntaxErrorWithPosV>(b),
    ensures
        ({
            let o = p.inner@[1].rule;
            let span = Location::Span(loc_start(node_location(a)), loc_end(node_location(b)));
            let made = |op: BinaryOperator| Ok::<ExprNode, SyntaxErrorWithPosV>(
                ExprNode::Binary(op, Box::new(a), Box::new(b), span),
            );
            &&& o == Rule::less_than ==> binary_of(p) == made(BinaryOperator::Lt)
            &&& o == Rule::less_than_or_equal ==> binary_of(p) == made(BinaryOperator::Lte)
            &&& o == Rule::bigger_than ==> binary_of(p) == made(BinaryOperator::Bt)
            &&& o == Rule::bigger_than_or_equal ==> binary_of(p) == made(BinaryOperator::Bte)
            &&& o == Rule::equal ==> binary_of(p) == made(BinaryOperator::Eq)
            &&& o == Rule::not_equal ==> binary_of(p) == made(BinaryOperator::Neq)
        }),
{
    let o = p.inner@[1].rule;
    if binary_from_rule(o) is Some && compare_ops().contains(binary_from_rule(o)->Some_0) {
        let acc = a;
        let op = binary_from_rule(o)->Some_0;
        let item = ExprNode::Binary(
            op,
            Box::new(a),
            Box::new(b),
            Location::Span(loc_start(node_location(a)), loc_end(node_location(b))),
        );
        assert(level_rest(p, 3, item, compare_ops(), true) == Ok::<ExprNode, SyntaxErrorWithPosV>(
            item,
        ));
        assert(level_rest(p, 1, a, compare_ops(), true) == Ok::<ExprNode, SyntaxErrorWithPosV>(
            item,
        ));
    }
    if o == Rule::less_than {
        assert(compare_ops()[4] == BinaryOperator::Lt);
    } else if o == Rule::less_than_or_equal {
        assert(compare_ops()[1] == BinaryOperator::Lte);
    } else if o == Rule::bigger_than {
        assert(compare_ops()[3] == BinaryOperator::Bt);
    } else if o == Rule::bigger_than_or_equal {
        assert(compare_ops()[0] == BinaryOperator::Bte);
    } else if o == Rule::equal {
        assert(compare_ops()[5] == BinaryOperator::Eq);
    } else if o == Rule::not_equal {
        assert(compare_ops()[2] == BinaryOperator::Neq);
    }
}

impl BinaryOperator {
    /// The operator of an operator rule; `minus`, like `plus`, gives `Plus`.
    pub fn from_rule(rule: Rule) -> (r: Option<BinaryOperator>)
        ensures
            r == binary_from_rule(rule),
    {
        match rule {
            Rule::plus => Some(BinaryOperator::Plus),
            Rule::minus => Some(BinaryOperator::Plus),
            Rule::multi => Some(BinaryOperator::Multi),
            Rule::div => Some(BinaryOperator::Div),
            Rule::modulo => Some(BinaryOperator::Mod),
            Rule::left_shift => Some(BinaryOperator::LeftShift),
            Rule::right_shift => Some(BinaryOperator::RightShift),
            Rule::bit_and => Some(BinaryOperator::BitAnd),
            Rule::bit_or => Some(BinaryOperator::BitOr),
            Rule::bit_xor => Some(BinaryOperator::BitXor),
            Rule::less_than => Some(BinaryOperator::Lt),
            Rule::less_than_or_equal => Some(BinaryOperator::Lte),
            Rule::bigger_than => Some(BinaryOperator::Bt),
            Rule::bigger_than_or_equal => Some(BinaryOperator::Bte),
            Rule::equal => Some(BinaryOperator::Eq),
            Rule::not_equal => Some(BinaryOperator::Neq),
            Rule::bool_and => Some(BinaryOperator::And),
            Rule::bool_or => Some(BinaryOperator::Or),
            Rule::bool_xor => Some(BinaryOperator::Xor),
            _ => None,
        }
    }

    pub fn compare_operator() -> (r: Vec<BinaryOperator>)
        ensures
            r@ == compare_ops(),
    {
        let r = vec![
            BinaryOperator::Bte,
            BinaryOperator::Lte,
            BinaryOperator::Neq,
            BinaryOperator::Bt,
            BinaryOperator::Lt,
            BinaryOperator::Eq,
        ];
        assert(r@ =~= compare_ops());
        r
    }

    pub fn term_operator() -> (r: Vec<BinaryOperator>)
        ensures
            r@ == term_ops(),
    {
        let r = vec![BinaryOperator::Multi, BinaryOperator::Div, BinaryOperator::Mod];
        assert(r@ =~= term_ops());
        r
    }

    pub fn add_operator() -> (r: Vec<BinaryOperator>)
        ensures
            r@ == add_ops(),
    {
        let r = vec![BinaryOperator::Plus, BinaryOperator::Minus];
        assert(r@ =~= add_ops());
        r
    }

    pub fn bit_shift_operator() -> (r: Vec<BinaryOperator>)
        ensures
            r@ == bit_shift_ops(),
    {
        let r = vec![BinaryOperator::LeftShift, BinaryOperator::RightShift];
        assert(r@ =~= bit_shift_ops());
        r
    }
}

/// Whether `op` is one of `ops`.
fn op_in(ops: &Vec<BinaryOperator>, op: BinaryOperator) -> (r: bool)
    ensures
        r == ops@.contains(op),
{
    let mut i: usize = 0;
    while i < ops.len()
        invariant
            i <= ops@.len(),
            forall|j: int| 0 <= j < i ==> ops@[j] != op,
        decreases ops@.len() - i,
    {
        if ops[i] == op {
            assert(ops@[i as int] == op);
            return true;
        }
        i = i + 1;
    }
    false
}

/// A binary operation of the syntax tree.
#[derive(Debug, PartialEq, Eq)]
pub struct Binary {
    pub operator: BinaryOperator,
    pub left: Box<Expr>,
    pub right: Box<Expr>,
    pub location: Location,
}

impl View for Binary {
    type V = ExprNode;

    open spec fn view(&self) -> ExprNode {
        expr_node(Expr::Binary(*self))
    }
}

impl Locatable for Binary {
    open spec fn located_at(&self) -> Location {
        self.location
    }

    fn location(&self) -> (r: Location) {
        self.location
    }
}

/// A unary operator of the syntax tree.
#[derive(Debug, Copy, Clone, Eq, PartialEq, Structural)]
pub enum UnaryOperator {
    Not,
    BitReverse,
}

pub open spec fn unary_from_rule(rule: Rule) -> Option<UnaryOperator> {
    match rule {
        Rule::bit_reverse => Some(UnaryOperator::BitReverse),
        Rule::bool_not => Some(UnaryOperator::Not),
        _ => None,
    }
}

impl UnaryOperator {
    pub fn from_rule(rule: Rule) -> (r: Option<UnaryOperator>)
        ensures
            r == unary_from_rule(rule),
    {
        match rule {
            Rule::bit_reverse => Some(UnaryOperator::BitReverse),
            Rule::bool_not => Some(UnaryOperator::Not),
            _ => None,
        }
    }
}

/// A unary operation of the syntax tree.
#[derive(Debug, PartialEq, Eq)]
pub struct Unary {
    pub operator: UnaryOperator,
    pub right: Box<Expr>,
    pub location: Location,
}

impl View for Unary {
    type V = ExprNode;

    open spec fn view(&self) -> ExprNode {
        expr_node(Expr::Unary(*self))
    }
}

impl Locatable for Unary {
    open spec fn located_at(&self) -> Location {
        self.location
    }

    fn location(&self) -> (r: Location) {
        self.location
    }
}

/// The operators that a rule of a binary level of the grammar joins, and whether
/// its operands are again binary levels.
pub open spec fn level_of(rule: Rule) -> Option<(Seq<BinaryOperator>, bool)> {
    match rule {
        Rule::expr => Some((seq![BinaryOperator::Or], true)),
        Rule::xor_expr => Some((seq![BinaryOperator::Xor], true)),
        Rule::and_expr => Some((seq![BinaryOperator::And], false)),
        Rule::cmp_expr => Some((compare_ops(), true)),
        Rule::bit_or_expr => Some((seq![BinaryOperator::BitOr], true)),
        Rule::bit_and_expr => Some((seq![BinaryOperator::BitAnd], true)),
        Rule::bit_shift_expr => Some((bit_shift_ops(), true)),
        Rule::add_expr => Some((add_ops(), true)),
        Rule::term_expr => Some((term_ops(), true)),
        Rule::bit_xor_expr => Some((seq![BinaryOperator::BitXor], false)),
        _ => None,
    }
}

// Building an expression from its parse tree. The measure is the node, then the
// place of the function in the order in which they call one another on one node,
// then the children left.

/// An `expr` node.
pub open spec fn expr_of(p: QueryPair) -> Result<ExprNode, SyntaxErrorWithPosV>
    decreases p, 5int, 0int,
{
    if p.rule == Rule::expr {
        binary_of(p)
    } else {
        Err(unexpected_pair(pair_location(p), "expr"@))
    }
}

/// An operand: a binary level where `binary`, else a factor where `factory`,
/// else a unary level.
pub open spec fn operand_of(p: QueryPair, binary: bool, factory: bool) -> Result<
    ExprNode,
    SyntaxErrorWithPosV,
>
    decreases p, 6int, 0int,
{
    if binary {
        binary_of(p)
    } else if factory {
        factor_of(p)
    } else {
        unary_of(p)
    }
}

/// A node of a binary level of the grammar.
pub open spec fn binary_of(p: QueryPair) -> Result<ExprNode, SyntaxErrorWithPosV>
    decreases p, 4int, 0int,
{
    match level_of(p.rule) {
        Some((ops, next_binary)) => level_of_pair(p, ops, next_binary),
        None => Err(unexpected_pair(pair_location(p), "expr"@)),
    }
}

/// The operands of a binary level joined from the left by the operators between
/// them, while those are among `ops`.
pub open spec fn level_of_pair(p: QueryPair, ops: Seq<BinaryOperator>, next_binary: bool) -> Result<
    ExprNode,
    SyntaxErrorWithPosV,
>
    decreases p, 3int, 0int,
{
    if p.inner@.len() == 0 {
        Err(unexpected_expr(pair_location(p)))
    } else {
        match operand_of(p.inner@[0], next_binary, false) {
            Ok(first) => level_rest(p, 1, first, ops, next_binary),
            Err(e) => Err(e),
        }
    }
}

/// The rest of a binary level from its `j`-th child on, with `acc` read so far.
pub open spec fn level_rest(
    p: QueryPair,
    j: int,
    acc: ExprNode,
    ops: Seq<BinaryOperator>,
    next_binary: bool,
) -> Result<ExprNode, SyntaxErrorWithPosV>
    decreases p, 2int, p.inner@.len() - j,
{
    if j < 0 || j >= p.inner@.len() {
        Ok(acc)
    } else {
        match binary_from_rule(p.inner@[j].rule) {
            None => Err(unexpected_expr(pair_location(p))),
            Some(op) => if !ops.contains(op) {
                Ok(acc)
            } else if j + 1 >= p.inner@.len() {
                Err(unexpected_expr(pair_location(p)))
            } else {
                match operand_of(p.inner@[j + 1], next_binary, false) {
                    Ok(item) => level_rest(
                        p,
                        j + 2,
                        ExprNode::Binary(
                            op,
                            Box::new(acc),
                            Box::new(item),
                            Location::Span(
                                loc_start(node_location(acc)),
                                loc_end(node_location(item)),
                            ),
                        ),
                        ops,
                        next_binary,
                    ),
                    Err(e) => Err(e),
                }
            },
        }
    }
}

/// A `not_expr` or `bit_reverse_expr` node: a lone operand, or the operator and
/// the node it applies to.
pub open spec fn unary_of(p: QueryPair) -> Result<ExprNode, SyntaxErrorWithPosV>
    decreases p, 1int, 0int,
{
    let loc = pair_location(p);
    let n = p.inner@.len();
    if p.rule == Rule::not_expr {
        if n == 1 {
            operand_of(p.inner@[0], true, false)
        } else if n >= 1 && unary_from_rule(p.inner@[0].rule) == Some(UnaryOperator::Not) {
            if n >= 2 {
                match unary_of(p.inner@[1]) {
                    Ok(r) => Ok(ExprNode::Unary(UnaryOperator::Not, Box::new(r), loc)),
                    Err(e) => Err(e),
                }
            } else {
                Err(unexpected_pair(loc, "not_expr"@))
            }
        } else {
            Err(unexpected_pair(loc, "bool_not"@))
        }
    } else if p.rule == Rule::bit_reverse_expr {
        if n == 1 {
            operand_of(p.inner@[0], false, true)
        } else if n >= 1 && unary_from_rule(p.inner@[0].rule) == Some(UnaryOperator::BitReverse) {
            if n >= 2 {
                match unary_of(p.inner@[1]) {
                    Ok(r) => Ok(ExprNode::Unary(UnaryOperator::BitReverse, Box::new(r), loc)),
                    Err(e) => Err(e),
                }
            } else {
                Err(unexpected_pair(loc, "bit_reverse_expr"@))
            }
        } else {
            Err(unexpected_pair(loc, "bit_reverse"@))
        }
    } else {
        Err(unexpected_pair(loc, "unary_expr"@))
    }
}

/// An `expr_factor` node: its first child is a literal, a function call, a column
/// or a parenthesised expression.
pub open spec fn factor_of(p: QueryPair) -> Result<ExprNode, SyntaxErrorWithPosV>
    decreases p, 1int, 0int,
{
    let loc = pair_location(p);
    if p.rule == Rule::expr_factor && p.inner@.len() > 0 {
        let q = p.inner@[0];
        match q.rule {
            Rule::literal => match literal_of(q) {
                Ok(l) => Ok(ExprNode::Literal(l)),
                Err(e) => Err(e),
            },
            Rule::function_call => function_of(q),
            Rule::column_ident => match column_ident_of(q) {
                Ok((segs, l)) => Ok(ExprNode::ColumnIdent(segs, l)),
                Err(e) => Err(e),
            },
            Rule::expr => expr_of(q),
            _ => Err(unexpected_pair(pair_location(q), "expr_factor"@)),
        }
    } else {
        Err(unexpected_pair(loc, "expr_factor"@))
    }
}

/// A `function_call` node: an `ident` child and an `expr` child for each argument.
pub open spec fn function_of(p: QueryPair) -> Result<ExprNode, SyntaxErrorWithPosV>
    decreases p, 1int, 0int,
{
    let loc = pair_location(p);
    if p.rule == Rule::function_call {
        if p.inner@.len() == 0 || p.inner@[0].rule != Rule::ident {
            Err(unexpected_pair(loc, "ident"@))
        } else {
            match function_args(p, 1, seq![]) {
                Ok(args) => Ok(ExprNode::FunctionCall(p.inner@[0].text@, args, loc)),
                Err(e) => Err(e),
            }
        }
    } else {
        Err(unexpected_pair(loc, "function_call"@))
    }
}

/// The arguments of a function call from its `j`-th child on, after `acc`.
pub open spec fn function_args(p: QueryPair, j: int, acc: Seq<ExprNode>) -> Result<
    Seq<ExprNode>,
    SyntaxErrorWithPosV,
>
    decreases p, 0int, p.inner@.len() - j,
{
    if j < 0 || j >= p.inner@.len() {
        Ok(acc)
    } else {
        match expr_of(p.inner@[j]) {
            Ok(e) => function_args(p, j + 1, acc.push(e)),
            Err(e) => Err(e),
        }
    }
}

impl Expr {
    pub fn from_pair(pair: QueryPair) -> (r: Result<Expr, SyntaxErrorWithPos>)
        requires
            tree_bools_valued(pair),
        ensures
            ast_result(r) == expr_of(pair),
        decreases pair, 5int, 0int,
    {
        let location = pair.location();
        proof {
            reveal_strlit("expr");
        }
        match pair.as_rule() {
            Rule::expr => Binary::from_pair(pair),
            _ => Err(location.error(SyntaxError::UnexpectedPair("expr"))),
        }
    }

    fn parse_factory(pair: QueryPair) -> (r: Result<Expr, SyntaxErrorWithPos>)
        requires
            tree_bools_valued(pair),
        ensures
            ast_result(r) == factor_of(pair),
        decreases pair, 1int, 0int,
    {
        let ghost gp = pair;
        let location = pair.location();
        proof {
            reveal_strlit("expr_factor");
        }
        match pair.as_rule() {
            Rule::expr_factor => {
                let mut children = pair.into_inner();
                let inner = match next_child(&mut children) {
                    Some(inner) => inner,
                    None => {
                        return Err(location.error(SyntaxError::UnexpectedPair("expr_factor")));
                    },
                };
                proof {
                    lemma_child_bools_valued(gp, 0);
                    assert(inner == gp.inner@[0]);
                }
                match inner.as_rule() {
                    Rule::literal => match Literal::from_pair(inner) {
                        Ok(l) => Ok(Expr::Literal(l)),
                        Err(e) => Err(e),
                    },
                    Rule::function_call => match FunctionCall::from_pair(inner) {
                        Ok(f) => Ok(Expr::FunctionCall(f)),
                        Err(e) => Err(e),
                    },
                    Rule::column_ident => match ColumnIdent::from_pair(inner) {
                        Ok(c) => Ok(Expr::ColumnIdent(c)),
                        Err(e) => Err(e),
                    },
                    Rule::expr => Expr::from_pair(inner),
                    _ => {
                        let inner_location = inner.location();
                        Err(inner_location.error(SyntaxError::UnexpectedPair("expr_factor")))
                    },
                }
            },
            _ => Err(location.error(SyntaxError::UnexpectedPair("expr_factor"))),
        }
    }
}

/// An operand: a binary level where `binary`, else a factor where `factory`,
/// else a unary level.
fn expression_from_pair(pair: QueryPair, binary: bool, factory: bool) -> (r: Result<
    Expr,
    SyntaxErrorWithPos,
>)
    requires
        tree_bools_valued(pair),
    ensures
        ast_result(r) == operand_of(pair, binary, factory),
    decreases pair, 6int, 0int,
{
    if binary {
        Binary::from_pair(pair)
    } else if factory {
        Expr::parse_factory(pair)
    } else {
        Unary::from_pair(pair)
    }
}

impl Binary {
    fn handle_ast(pair: QueryPair, allowed_operators: Vec<BinaryOperator>, next_binary: bool) -> (r:
        Result<Expr, SyntaxErrorWithPos>)
        requires
            tree_bools_valued(pair),
        ensures
            ast_result(r) == level_of_pair(pair, allowed_operators@, next_binary),
        decreases pair, 3int, 0int,
    {
        let ghost gp = pair;
        let location = pair.location();
        let mut inner = pair.into_inner();
        let first = match next_child(&mut inner) {
            Some(first) => first,
            None => {
                return Err(location.error(SyntaxError::UnexpectedExpr));
            },
        };
        proof {
            lemma_child_bools_valued(gp, 0);
            assert(first == gp.inner@[0]);
        }
        let mut result = match expression_from_pair(first, next_binary, false) {
            Ok(e) => e,
            Err(e) => {
                return Err(e);
            },
        };
        let ghost mut k: int = 1;
        assert(inner@ =~= gp.inner@.skip(1));
        loop
            invariant
                gp == pair,
                tree_bools_valued(gp),
                1 <= k <= gp.inner@.len(),
                inner@ == gp.inner@.skip(k),
                location == pair_location(gp),
                level_of_pair(gp, allowed_operators@, next_binary) == level_rest(
                    gp,
                    k,
                    result@,
                    allowed_operators@,
                    next_binary,
                ),
            decreases gp.inner@.len() - k,
        {
            let inner_pair = match next_child(&mut inner) {
                Some(p) => p,
                None => {
                    return Ok(result);
                },
            };
            assert(inner_pair == gp.inner@[k]);
            let operator = match BinaryOperator::from_rule(inner_pair.as_rule()) {
                Some(op) => op,
                None => {
                    return Err(location.error(SyntaxError::UnexpectedExpr));
                },
            };
            if !op_in(&allowed_operators, operator) {
                return Ok(result);
            }
            let item_pair = match next_child(&mut inner) {
                Some(p) => p,
                None => {
                    return Err(location.error(SyntaxError::UnexpectedExpr));
                },
            };
            proof {
                assert(item_pair == gp.inner@[k + 1]);
                lemma_child_bools_valued(gp, k + 1);
            }
            let item = match expression_from_pair(item_pair, next_binary, false) {
                Ok(e) => e,
                Err(e) => {
                    return Err(e);
                },
            };
            let new_location = Location::span(result.location().start(), item.location().end());
            result =
            Expr::Binary(
                Binary {
                    operator,
                    left: Box::new(result),
                    right: Box::new(item),
                    location: new_location,
                },
            );
            proof {
                assert(inner@ =~= gp.inner@.skip(k + 2));
                k = k + 2;
            }
        }
    }

    pub fn from_pair(pair: QueryPair) -> (r: Result<Expr, SyntaxErrorWithPos>)
        requires
            tree_bools_valued(pair),
        ensures
            ast_result(r) == binary_of(pair),
        decreases pair, 4int, 0int,
    {
        let location = pair.location();
        proof {
            reveal_strlit("expr");
        }
        match pair.as_rule() {
            Rule::expr => {
                let ops = vec![BinaryOperator::Or];
                assert(ops@ =~= seq![BinaryOperator::Or]);
                Binary::handle_ast(pair, ops, true)
            },
            Rule::xor_expr => {
                let ops = vec![BinaryOperator::Xor];
                assert(ops@ =~= seq![BinaryOperator::Xor]);
                Binary::handle_ast(pair, ops, true)
            },
            Rule::and_expr => {
                let ops = vec![BinaryOperator::And];
                assert(ops@ =~= seq![BinaryOperator::And]);
                Binary::handle_ast(pair, ops, false)
            },
            Rule::cmp_expr => Binary::handle_ast(pair, BinaryOperator::compare_operator(), true),
            Rule::bit_or_expr => {
                let ops = vec![BinaryOperator::BitOr];
                assert(ops@ =~= seq![BinaryOperator::BitOr]);
                Binary::handle_ast(pair, ops, true)
            },
            Rule::bit_and_expr => {
                let ops = vec![BinaryOperator::BitAnd];
                assert(ops@ =~= seq![BinaryOperator::BitAnd]);
                Binary::handle_ast(pair, ops, true)
            },
            Rule::bit_shift_expr => Binary::handle_ast(
                pair,
                BinaryOperator::bit_shift_operator(),
                true,
            ),
            Rule::add_expr => Binary::handle_ast(pair, BinaryOperator::add_operator(), true),
            Rule::term_expr => Binary::handle_ast(pair, BinaryOperator::term_operator(), true),
            Rule::bit_xor_expr => {
                let ops = vec![BinaryOperator::BitXor];
                assert(ops@ =~= seq![BinaryOperator::BitXor]);
                Binary::handle_ast(pair, ops, false)
            },
            _ => Err(location.error(SyntaxError::UnexpectedPair("expr"))),
        }
    }
}

impl Unary {
    pub fn from_pair(pair: QueryPair) -> (r: Result<Expr, SyntaxErrorWithPos>)
        requires
            tree_bools_valued(pair),
        ensures
            ast_result(r) == unary_of(pair),
        decreases pair, 1int, 0int,
    {
        let ghost gp = pair;
        let location = pair.location();
        proof {
            reveal_strlit("not_expr");
            reveal_strlit("bool_not");
            reveal_strlit("bit_reverse_expr");
            reveal_strlit("bit_reverse");
            reveal_strlit("unary_expr");
        }
        let rule = pair.as_rule();
        let (binary, factory, operator) = match rule {
            Rule::not_expr => (true, false, UnaryOperator::Not),
            Rule::bit_reverse_expr => (false, true, UnaryOperator::BitReverse),
            _ => {
                return Err(location.error(SyntaxError::UnexpectedPair("unary_expr")));
            },
        };
        let mut inner = pair.into_inner();
        if inner.len() == 1 {
            let only = match next_child(&mut inner) {
                Some(p) => p,
                None => {
                    return Err(location.error(SyntaxError::UnexpectedExpr));
                },
            };
            proof {
                lemma_child_bools_valued(gp, 0);
                assert(only == gp.inner@[0]);
            }
            return expression_from_pair(only, binary, factory);
        }
        let first = next_child(&mut inner);
        let matched = match first {
            Some(first_pair) => match UnaryOperator::from_rule(first_pair.as_rule()) {
                Some(op) => op == operator,
                None => false,
            },
            None => false,
        };
        if matched {
            let second = match next_child(&mut inner) {
                Some(p) => p,
                None => {
                    return Err(
                        location.error(
                            SyntaxError::UnexpectedPair(
                                match operator {
                                    UnaryOperator::Not => "not_expr",
                                    UnaryOperator::BitReverse => "bit_reverse_expr",
                                },
                            ),
                        ),
                    );
                },
            };
            proof {
                lemma_child_bools_valued(gp, 1);
                assert(second == gp.inner@[1]);
            }
            let right = match Unary::from_pair(second) {
                Ok(e) => e,
                Err(e) => {
                    return Err(e);
                },
            };
            Ok(Expr::Unary(Unary { operator, right: Box::new(right), location }))
        } else {
            Err(
                location.error(
                    SyntaxError::UnexpectedPair(
                        match operator {
                            UnaryOperator::Not => "bool_not",
                            UnaryOperator::BitReverse => "bit_reverse",
                        },
                    ),
                ),
            )
        }
    }
}

} // verus!

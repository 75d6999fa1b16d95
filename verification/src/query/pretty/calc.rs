use vstd::prelude::*;

use crate::query::ast::error::{SyntaxError, SyntaxErrorV, SyntaxErrorWithPos, SyntaxErrorWithPosV};
use crate::query::ast::expr::{compare_ops, Binary, BinaryOperator, Expr, ExprNode, Unary, UnaryOperator};
use crate::query::ast::literal::{
    lit_location, Boolean, ExternalValue, Float, Integer, LitNode, Literal, Null, Str,
};
use crate::query::ast::location::Location;
use crate::query::ast::traits::Locatable;
use crate::query::type_check::type_kind::{kind_text, literal_kind, TypeKind};

verus! {

/// The name that the debug text of a binary operator gives.
pub open spec fn binary_op_name(op: BinaryOperator) -> Seq<char> {
    match op {
        BinaryOperator::BitXor => "BitXor"@,
        BinaryOperator::Multi => "Multi"@,
        BinaryOperator::Div => "Div"@,
        BinaryOperator::Mod => "Mod"@,
        BinaryOperator::Plus => "Plus"@,
        BinaryOperator::Minus => "Minus"@,
        BinaryOperator::LeftShift => "LeftShift"@,
        BinaryOperator::RightShift => "RightShift"@,
        BinaryOperator::BitAnd => "BitAnd"@,
        BinaryOperator::BitOr => "BitOr"@,
        BinaryOperator::Bte => "Bte"@,
        BinaryOperator::Lte => "Lte"@,
        BinaryOperator::Neq => "Neq"@,
        BinaryOperator::Bt => "Bt"@,
        BinaryOperator::Lt => "Lt"@,
        BinaryOperator::Eq => "Eq"@,
        BinaryOperator::And => "And"@,
        BinaryOperator::Xor => "Xor"@,
        BinaryOperator::Or => "Or"@,
    }
}

fn binary_op_text(op: BinaryOperator) -> (r: &'static str)
    ensures
        r@ == binary_op_name(op),
{
    proof {
        reveal_strlit("BitXor");
        reveal_strlit("Multi");
        reveal_strlit("Div");
        reveal_strlit("Mod");
        reveal_strlit("Plus");
        reveal_strlit("Minus");
        reveal_strlit("LeftShift");
        reveal_strlit("RightShift");
        reveal_strlit("BitAnd");
        reveal_strlit("BitOr");
        reveal_strlit("Bte");
        reveal_strlit("Lte");
        reveal_strlit("Neq");
        reveal_strlit("Bt");
        reveal_strlit("Lt");
        reveal_strlit("Eq");
        reveal_strlit("And");
        reveal_strlit("Xor");
        reveal_strlit("Or");
    }
    match op {
        BinaryOperator::BitXor => "BitXor",
        BinaryOperator::Multi => "Multi",
        BinaryOperator::Div => "Div",
        BinaryOperator::Mod => "Mod",
        BinaryOperator::Plus => "Plus",
        BinaryOperator::Minus => "Minus",
        BinaryOperator::LeftShift => "LeftShift",
        BinaryOperator::RightShift => "RightShift",
        BinaryOperator::BitAnd => "BitAnd",
        BinaryOperator::BitOr => "BitOr",
        BinaryOperator::Bte => "Bte",
        BinaryOperator::Lte => "Lte",
        BinaryOperator::Neq => "Neq",
        BinaryOperator::Bt => "Bt",
        BinaryOperator::Lt => "Lt",
        BinaryOperator::Eq => "Eq",
        BinaryOperator::And => "And",
        BinaryOperator::Xor => "Xor",
        BinaryOperator::Or => "Or",
    }
}

/// The name that the debug text of a unary operator gives.
pub open spec fn unary_op_name(op: UnaryOperator) -> Seq<char> {
    match op {
        UnaryOperator::Not => "Not"@,
        UnaryOperator::BitReverse => "BitReverse"@,
    }
}

fn unary_op_text(op: UnaryOperator) -> (r: &'static str)
    ensures
        r@ == unary_op_name(op),
{
    proof {
        reveal_strlit("Not");
        reveal_strlit("BitReverse");
    }
    match op {
        UnaryOperator::Not => "Not",
        UnaryOperator::BitReverse => "BitReverse",
    }
}

/// The error of an operation that a type of literal does not have.
pub open spec fn unimplemented(op: Seq<char>, ty: Seq<char>, location: Location) -> SyntaxErrorWithPosV {
    SyntaxErrorWithPosV { error: SyntaxErrorV::UnimplementedOperationForType(op, ty), location }
}

fn unimplemented_error(op: &'static str, ty: &'static str, location: Location) -> (r: SyntaxErrorWithPos)
    ensures
        r@ == unimplemented(op@, ty@, location),
{
    location.error(SyntaxError::UnimplementedOperationForType(op.to_owned(), ty.to_owned()))
}

/// The remainder of `l / r` that has the sign of `l` (integer `%`).
pub open spec fn trunc_rem(l: int, r: int) -> int {
    let m = (if l < 0 {
        -l
    } else {
        l
    }) % (if r < 0 {
        -r
    } else {
        r
    });
    if l < 0 {
        -m
    } else {
        m
    }
}

/// The integer operation `op` on `l` and `r` does not panic.
pub open spec fn int_op_defined(op: BinaryOperator, l: i128, r: i128) -> bool {
    match op {
        BinaryOperator::Multi => i128::MIN <= l * r <= i128::MAX,
        BinaryOperator::Mod => r != 0 && !(l == i128::MIN && r == -1),
        BinaryOperator::Plus => i128::MIN <= l + r <= i128::MAX,
        BinaryOperator::Minus => i128::MIN <= l - r <= i128::MAX,
        BinaryOperator::LeftShift => 0 <= r < 128,
        BinaryOperator::RightShift => 0 <= r < 128,
        _ => true,
    }
}

/// A step of folding a binary operation on the values of its operands: done, or
/// a floating-point computation that is left to do (an integer division, or an
/// arithmetic operation or a comparison of two floats given by their texts).
pub enum CalcStep {
    Done(Result<Option<Literal>, SyntaxErrorWithPos>),
    IntDivide(i128, i128, Location),
    FloatArith(BinaryOperator, String, String, Location),
    FloatCompare(BinaryOperator, String, String, Location),
}

/// The value of a `CalcStep`.
pub enum CalcStepV {
    Done(Result<Option<LitNode>, SyntaxErrorWithPosV>),
    IntDivide(i128, i128, Location),
    FloatArith(BinaryOperator, Seq<char>, Seq<char>, Location),
    FloatCompare(BinaryOperator, Seq<char>, Seq<char>, Location),
}

/// The value of an optional literal.
pub open spec fn opt_lit(o: Option<Literal>) -> Option<LitNode> {
    match o {
        Some(l) => Some(l@),
        None => None,
    }
}

/// The view of the outcome of folding.
pub open spec fn fold_result(r: Result<Option<Literal>, SyntaxErrorWithPos>) -> Result<
    Option<LitNode>,
    SyntaxErrorWithPosV,
> {
    match r {
        Ok(o) => Ok(opt_lit(o)),
        Err(e) => Err(e@),
    }
}

impl View for CalcStep {
    type V = CalcStepV;

    open spec fn view(&self) -> CalcStepV {
        match self {
            CalcStep::Done(r) => CalcStepV::Done(fold_result(*r)),
            CalcStep::IntDivide(l, r, loc) => CalcStepV::IntDivide(*l, *r, *loc),
            CalcStep::FloatArith(op, l, r, loc) => CalcStepV::FloatArith(*op, l@, r@, *loc),
            CalcStep::FloatCompare(op, l, r, loc) => CalcStepV::FloatCompare(*op, l@, r@, *loc),
        }
    }
}

/// A fold that gives the integer `v`.
pub open spec fn int_done(v: int, loc: Location) -> CalcStepV {
    CalcStepV::Done(Ok(Some(LitNode::Integer(v as i128, loc))))
}

/// A fold that gives the boolean `v`.
pub open spec fn bool_done(v: bool, loc: Location) -> CalcStepV {
    CalcStepV::Done(Ok(Some(LitNode::Boolean(v, loc))))
}

/// Folding `op` on two integers.
pub open spec fn int_fold(op: BinaryOperator, a: i128, b: i128, loc: Location) -> CalcStepV {
    match op {
        BinaryOperator::BitXor => CalcStepV::Done(Ok(Some(LitNode::Integer(a ^ b, loc)))),
        BinaryOperator::Multi => int_done(a * b, loc),
        BinaryOperator::Div => CalcStepV::IntDivide(a, b, loc),
        BinaryOperator::Mod => int_done(trunc_rem(a as int, b as int), loc),
        BinaryOperator::Plus => int_done(a + b, loc),
        BinaryOperator::Minus => int_done(a - b, loc),
        BinaryOperator::LeftShift => CalcStepV::Done(Ok(Some(LitNode::Integer(a << b, loc)))),
        BinaryOperator::RightShift => CalcStepV::Done(Ok(Some(LitNode::Integer(a >> b, loc)))),
        BinaryOperator::BitAnd => CalcStepV::Done(Ok(Some(LitNode::Integer(a & b, loc)))),
        BinaryOperator::BitOr => CalcStepV::Done(Ok(Some(LitNode::Integer(a | b, loc)))),
        BinaryOperator::Bte => bool_done(a >= b, loc),
        BinaryOperator::Lte => bool_done(a <= b, loc),
        BinaryOperator::Neq => bool_done(a != b, loc),
        BinaryOperator::Bt => bool_done(a > b, loc),
        BinaryOperator::Lt => bool_done(a < b, loc),
        BinaryOperator::Eq => bool_done(a == b, loc),
        _ => CalcStepV::Done(Err(unimplemented(binary_op_name(op), "integer"@, loc))),
    }
}

/// Folding `op` on two booleans.
pub open spec fn bool_fold(op: BinaryOperator, a: bool, b: bool, loc: Location) -> CalcStepV {
    match op {
        BinaryOperator::BitAnd => bool_done(a && b, loc),
        BinaryOperator::BitOr => bool_done(a || b, loc),
        BinaryOperator::BitXor => bool_done(a != b, loc),
        BinaryOperator::Neq => bool_done(a != b, loc),
        BinaryOperator::Eq => bool_done(a == b, loc),
        BinaryOperator::And => bool_done(a && b, loc),
        BinaryOperator::Xor => bool_done(a != b, loc),
        BinaryOperator::Or => bool_done(a || b, loc),
        _ => CalcStepV::Done(Err(unimplemented(binary_op_name(op), "Bool"@, loc))),
    }
}

/// Folding a binary operation `op` at `loc` whose operands folded to `l` and `r`
/// (`None` for an operand that is no constant).
pub open spec fn fold_spec(op: BinaryOperator, l: Option<LitNode>, r: Option<LitNode>, loc: Location) -> CalcStepV {
    match (l, r) {
        (Some(LitNode::Integer(a, _)), Some(LitNode::Integer(b, _))) => int_fold(op, a, b, loc),
        (Some(LitNode::Float(a, _)), Some(LitNode::Float(b, _))) => match op {
            BinaryOperator::Multi | BinaryOperator::Div | BinaryOperator::Mod
            | BinaryOperator::Plus | BinaryOperator::Minus => CalcStepV::FloatArith(op, a, b, loc),
            _ => if compare_ops().contains(op) {
                CalcStepV::FloatCompare(op, a, b, loc)
            } else {
                CalcStepV::Done(Err(unimplemented(binary_op_name(op), "float"@, loc)))
            },
        },
        (Some(LitNode::Boolean(a, _)), Some(LitNode::Boolean(b, _))) => bool_fold(op, a, b, loc),
        (Some(LitNode::Null(_)), _) => CalcStepV::Done(Ok(Some(LitNode::Null(loc)))),
        (_, Some(LitNode::Null(_))) => CalcStepV::Done(Ok(Some(LitNode::Null(loc)))),
        (Some(LitNode::Str(_, _)), Some(LitNode::Str(_, _))) => CalcStepV::Done(
            Err(unimplemented(binary_op_name(op), "fstring"@, loc)),
        ),
        (Some(x), Some(y)) => CalcStepV::Done(
            Err(
                SyntaxErrorWithPosV {
                    error: SyntaxErrorV::TypeError(
                        kind_text(literal_kind(x)),
                        kind_text(literal_kind(y)),
                    ),
                    location: lit_location(y),
                },
            ),
        ),
        _ => CalcStepV::Done(Ok(None)),
    }
}

/// Whether folding `op` on the integers `l` and `r` does not panic.
pub fn int_fold_defined(op: BinaryOperator, l: i128, r: i128) -> (b: bool)
    ensures
        b == int_op_defined(op, l, r),
{
    match op {
        BinaryOperator::Multi => l.checked_mul(r).is_some(),
        BinaryOperator::Mod => r != 0 && !(l == i128::MIN && r == -1),
        BinaryOperator::Plus => l.checked_add(r).is_some(),
        BinaryOperator::Minus => l.checked_sub(r).is_some(),
        BinaryOperator::LeftShift => 0 <= r && r < 128,
        BinaryOperator::RightShift => 0 <= r && r < 128,
        _ => true,
    }
}

fn magnitude(v: i128) -> (m: u128)
    ensures
        m == (if v < 0 {
            -v
        } else {
            v as int
        }),
{
    if v < 0 {
        ((-(v + 1)) as u128) + 1
    } else {
        v as u128
    }
}

fn rem(l: i128, r: i128) -> (v: i128)
    requires
        r != 0,
    ensures
        v == trunc_rem(l as int, r as int),
{
    let ml = magnitude(l);
    let mr = magnitude(r);
    let m = ml % mr;
    assert(m < mr);
    assert(mr <= 0x8000_0000_0000_0000_0000_0000_0000_0000u128);
    if l < 0 {
        -(m as i128)
    } else {
        m as i128
    }
}

fn int_result(v: i128, location: Location) -> (s: CalcStep)
    ensures
        s@ == CalcStepV::Done(Ok(Some(LitNode::Integer(v, location)))),
{
    CalcStep::Done(Ok(Some(Literal::Integer(Integer { value: v, location }))))
}

fn bool_result(v: bool, location: Location) -> (s: CalcStep)
    ensures
        s@ == CalcStepV::Done(Ok(Some(LitNode::Boolean(v, location)))),
{
    CalcStep::Done(Ok(Some(Literal::Boolean(Boolean { value: v, location }))))
}

fn int_step(op: BinaryOperator, a: i128, b: i128, location: Location) -> (r: CalcStep)
    requires
        int_op_defined(op, a, b),
    ensures
        r@ == int_fold(op, a, b, location),
{
    match op {
        BinaryOperator::BitXor => int_result(a ^ b, location),
        BinaryOperator::Multi => int_result(a * b, location),
        BinaryOperator::Div => CalcStep::IntDivide(a, b, location),
        BinaryOperator::Mod => int_result(rem(a, b), location),
        BinaryOperator::Plus => int_result(a + b, location),
        BinaryOperator::Minus => int_result(a - b, location),
        BinaryOperator::LeftShift => int_result(a << b, location),
        BinaryOperator::RightShift => int_result(a >> b, location),
        BinaryOperator::BitAnd => int_result(a & b, location),
        BinaryOperator::BitOr => int_result(a | b, location),
        BinaryOperator::Bte => bool_result(a >= b, location),
        BinaryOperator::Lte => bool_result(a <= b, location),
        BinaryOperator::Neq => bool_result(a != b, location),
        BinaryOperator::Bt => bool_result(a > b, location),
        BinaryOperator::Lt => bool_result(a < b, location),
        BinaryOperator::Eq => bool_result(a == b, location),
        _ => CalcStep::Done(Err(unimplemented_error(binary_op_text(op), "integer", location))),
    }
}

fn bool_step(op: BinaryOperator, a: bool, b: bool, location: Location) -> (r: CalcStep)
    ensures
        r@ == bool_fold(op, a, b, location),
{
    let value = match op {
        BinaryOperator::BitAnd => a && b,
        BinaryOperator::BitOr => a || b,
        BinaryOperator::BitXor => a != b,
        BinaryOperator::Neq => a != b,
        BinaryOperator::Eq => a == b,
        BinaryOperator::And => a && b,
        BinaryOperator::Xor => a != b,
        BinaryOperator::Or => a || b,
        _ => {
            return CalcStep::Done(Err(unimplemented_error(binary_op_text(op), "Bool", location)));
        },
    };
    CalcStep::Done(Ok(Some(Literal::Boolean(Boolean { value, location }))))
}

/// One step of folding a binary operation at `location` whose operands folded to
/// `left` and `right`.
pub fn fold_binary(
    operator: BinaryOperator,
    left: &Option<Literal>,
    right: &Option<Literal>,
    location: Location,
) -> (r: CalcStep)
    requires
        (left, right) matches (Some(Literal::Integer(a)), Some(Literal::Integer(b)))
            ==> int_op_defined(operator, a.value, b.value),
    ensures
        r@ == fold_spec(operator, opt_lit(*left), opt_lit(*right), location),
{
    proof {
        reveal_strlit("float");
        reveal_strlit("fstring");
    }
    match (left, right) {
        (Some(Literal::Integer(l)), Some(Literal::Integer(r))) => int_step(
            operator,
            l.value,
            r.value,
            location,
        ),
        (Some(Literal::Float(l)), Some(Literal::Float(r))) => match operator {
            BinaryOperator::Multi | BinaryOperator::Div | BinaryOperator::Mod
            | BinaryOperator::Plus | BinaryOperator::Minus => CalcStep::FloatArith(
                operator,
                l.value.clone(),
                r.value.clone(),
                location,
            ),
            BinaryOperator::Bte | BinaryOperator::Lte | BinaryOperator::Neq | BinaryOperator::Bt
            | BinaryOperator::Lt | BinaryOperator::Eq => {
                assert(compare_ops().contains(operator)) by {
                    let i: int = match operator {
                        BinaryOperator::Bte => 0,
                        BinaryOperator::Lte => 1,
                        BinaryOperator::Neq => 2,
                        BinaryOperator::Bt => 3,
                        BinaryOperator::Lt => 4,
                        _ => 5,
                    };
                    assert(compare_ops()[i] == operator);
                }
                CalcStep::FloatCompare(operator, l.value.clone(), r.value.clone(), location)
            },
            _ => {
                assert(!compare_ops().contains(operator));
                CalcStep::Done(Err(unimplemented_error(binary_op_text(operator), "float", location)))
            },
        },
        (Some(Literal::Boolean(l)), Some(Literal::Boolean(r))) => bool_step(
            operator,
            l.value,
            r.value,
            location,
        ),
        (Some(Literal::Null(_)), _) => CalcStep::Done(Ok(Some(Literal::Null(Null { location })))),
        (_, Some(Literal::Null(_))) => CalcStep::Done(Ok(Some(Literal::Null(Null { location })))),
        (Some(Literal::String(_)), Some(Literal::String(_))) => CalcStep::Done(
            Err(unimplemented_error(binary_op_text(operator), "fstring", location)),
        ),
        (Some(l), Some(r)) => {
            let expected = TypeKind::from_literal(l).to_string();
            let found = TypeKind::from_literal(r).to_string();
            CalcStep::Done(Err(r.location().error(SyntaxError::TypeError(expected, found))))
        },
        _ => CalcStep::Done(Ok(None)),
    }
}

/// Folding a unary operation `op` at `loc` whose operand folded to `r`: a boolean
/// is negated (for either operator), an integer gives no constant.
pub open spec fn unary_fold(op: UnaryOperator, r: Option<LitNode>, loc: Location) -> Result<
    Option<LitNode>,
    SyntaxErrorWithPosV,
> {
    match r {
        None => Ok(None),
        Some(LitNode::Integer(_, _)) => Ok(None),
        Some(LitNode::Boolean(b, _)) => Ok(Some(LitNode::Boolean(!b, loc))),
        Some(LitNode::Null(_)) => Ok(Some(LitNode::Null(loc))),
        Some(_) => Err(unimplemented(unary_op_name(op), "fstring"@, loc)),
    }
}

/// Folding a unary operation at `location` whose operand folded to `right`.
pub fn fold_unary(operator: UnaryOperator, right: &Option<Literal>, location: Location) -> (r: Result<
    Option<Literal>,
    SyntaxErrorWithPos,
>)
    ensures
        fold_result(r) == unary_fold(operator, opt_lit(*right), location),
{
    proof {
        reveal_strlit("fstring");
    }
    match right {
        None => Ok(None),
        Some(Literal::Integer(_)) => Ok(None),
        Some(Literal::Boolean(boolean)) => Ok(
            Some(Literal::Boolean(Boolean { value: !boolean.value, location })),
        ),
        Some(Literal::Null(_)) => Ok(Some(Literal::Null(Null { location }))),
        Some(_) => Err(unimplemented_error(unary_op_text(operator), "fstring", location)),
    }
}

/// Folding a literal: every literal but an external value is a constant.
pub fn fold_literal(lit: &Literal) -> (r: Option<Literal>)
    ensures
        opt_lit(r) == match lit@ {
            LitNode::External(_, _) => None,
            v => Some(v),
        },
{
    match lit {
        Literal::External(_) => None,
        other => Some(other.duplicate()),
    }
}

/// The outcome of folding, as a value.
pub type FoldV = Result<Option<LitNode>, SyntaxErrorWithPosV>;

/// What a literal folds to: itself, unless it is an external value.
pub open spec fn literal_fold(l: LitNode) -> Option<LitNode> {
    match l {
        LitNode::External(_, _) => None,
        v => Some(v),
    }
}

/// An operand after its operation folded: the literal it folded to, or the
/// operand as its own folding left it.
pub open spec fn folded_operand(e: ExprNode, v: Option<LitNode>) -> ExprNode {
    match v {
        Some(l) => ExprNode::Literal(l),
        None => e,
    }
}

/// Folding the constants of `e`, with `fl` giving what each floating-point step
/// gives: the expression as folding leaves it (each binary operation whose
/// operands both folded has them replaced by their literals) and the literal
/// that `e` folds to, `None` where it is no constant; or `None` where folding
/// panics (a function call is reached, or an integer operation overflows, takes
/// a remainder by zero or shifts by 128 or more).
pub open spec fn calc_spec(e: ExprNode, fl: spec_fn(CalcStepV) -> FoldV) -> Option<(ExprNode, FoldV)>
    decreases e,
{
    match e {
        ExprNode::Literal(l) => Some((e, Ok(literal_fold(l)))),
        ExprNode::ColumnIdent(_, _) => Some((e, Ok(None))),
        ExprNode::FunctionCall(_, _, _) => None,
        ExprNode::Unary(op, x, loc) => match calc_spec(*x, fl) {
            None => None,
            Some((x2, rx)) => Some(
                (
                    ExprNode::Unary(op, Box::new(x2), loc),
                    match rx {
                        Err(er) => Err(er),
                        Ok(v) => unary_fold(op, v, loc),
                    },
                ),
            ),
        },
        ExprNode::Binary(op, a, b, loc) => match calc_spec(*a, fl) {
            None => None,
            Some((a2, Err(er))) => Some((ExprNode::Binary(op, Box::new(a2), b, loc), Err(er))),
            Some((a2, Ok(va))) => match calc_spec(*b, fl) {
                None => None,
                Some((b2, Err(er))) => Some(
                    (ExprNode::Binary(op, Box::new(a2), Box::new(b2), loc), Err(er)),
                ),
                Some((b2, Ok(vb))) => {
                    let tree = ExprNode::Binary(
                        op,
                        Box::new(folded_operand(a2, va)),
                        Box::new(folded_operand(b2, vb)),
                        loc,
                    );
                    if (va, vb) matches (Some(LitNode::Integer(x, _)), Some(LitNode::Integer(y, _)))
                        && !int_op_defined(op, x, y) {
                        None
                    } else {
                        match fold_spec(op, va, vb, loc) {
                            CalcStepV::Done(r) => Some((tree, r)),
                            step => Some((tree, fl(step))),
                        }
                    }
                },
            },
        },
    }
}

/// What `f` gives for the floating-point step `s`.
pub open spec fn float_answer<F: Fn(CalcStep) -> Result<Option<Literal>, SyntaxErrorWithPos>>(
    f: F,
    s: CalcStepV,
) -> FoldV {
    let (x, out) = choose|x: CalcStep, out: Result<Option<Literal>, SyntaxErrorWithPos>|
        x@ == s && call_ensures(f, (x,), out);
    fold_result(out)
}

/// The answers of `f` to floating-point steps.
pub open spec fn float_answers<F: Fn(CalcStep) -> Result<Option<Literal>, SyntaxErrorWithPos>>(
    f: F,
) -> spec_fn(CalcStepV) -> FoldV {
    |s: CalcStepV| float_answer(f, s)
}

/// `f` takes every step, and its answer depends on the value of the step alone.
pub open spec fn float_step_fn<F: Fn(CalcStep) -> Result<Option<Literal>, SyntaxErrorWithPos>>(
    f: F,
) -> bool {
    &&& forall|x: CalcStep| call_requires(f, (x,))
    &&& forall|
        x1: CalcStep,
        x2: CalcStep,
        o1: Result<Option<Literal>, SyntaxErrorWithPos>,
        o2: Result<Option<Literal>, SyntaxErrorWithPos>,
    |
        #![trigger call_ensures(f, (x1,), o1), call_ensures(f, (x2,), o2)]
        x1@ == x2@ && call_ensures(f, (x1,), o1) && call_ensures(f, (x2,), o2) ==> fold_result(o1)
            == fold_result(o2)
}

fn float_step<F: Fn(CalcStep) -> Result<Option<Literal>, SyntaxErrorWithPos>>(
    step: CalcStep,
    f: &F,
) -> (r: Result<Option<Literal>, SyntaxErrorWithPos>)
    requires
        float_step_fn(*f),
    ensures
        fold_result(r) == float_answer(*f, step@),
{
    let ghost v = step@;
    let out = f(step);
    proof {
        assert(exists|x: CalcStep, o: Result<Option<Literal>, SyntaxErrorWithPos>|
            x@ == v && call_ensures(*f, (x,), o));
        let (x, o) = choose|x: CalcStep, o: Result<Option<Literal>, SyntaxErrorWithPos>|
            x@ == v && call_ensures(*f, (x,), o);
        assert(call_ensures(*f, (x,), o));
    }
    out
}

fn calc_expr<F: Fn(CalcStep) -> Result<Option<Literal>, SyntaxErrorWithPos>>(e: Expr, f: &F) -> (r: Option<(
    Expr,
    Result<Option<Literal>, SyntaxErrorWithPos>,
)>)
    requires
        float_step_fn(*f),
    ensures
        match r {
            Some((e2, res)) => calc_spec(e@, float_answers(*f)) == Some((e2@, fold_result(res))),
            None => calc_spec(e@, float_answers(*f)) is None,
        },
    decreases e,
{
    match e {
        Expr::Literal(lit) => {
            let v = fold_literal(&lit);
            Some((Expr::Literal(lit), Ok(v)))
        },
        Expr::ColumnIdent(c) => Some((Expr::ColumnIdent(c), Ok(None))),
        Expr::FunctionCall(_) => None,
        Expr::Unary(u) => {
            let Unary { operator, right, location } = u;
            let (right, rr) = match calc_expr(*right, f) {
                Some(x) => x,
                None => {
                    return None;
                },
            };
            let res = match rr {
                Err(er) => Err(er),
                Ok(v) => fold_unary(operator, &v, location),
            };
            Some((Expr::Unary(Unary { operator, right: Box::new(right), location }), res))
        },
        Expr::Binary(b) => {
            let Binary { operator, left, right, location } = b;
            let (left, rl) = match calc_expr(*left, f) {
                Some(x) => x,
                None => {
                    return None;
                },
            };
            let vl = match rl {
                Err(er) => {
                    return Some(
                        (
                            Expr::Binary(Binary { operator, left: Box::new(left), right, location }),
                            Err(er),
                        ),
                    );
                },
                Ok(v) => v,
            };
            let (right, rr) = match calc_expr(*right, f) {
                Some(x) => x,
                None => {
                    return None;
                },
            };
            let vr = match rr {
                Err(er) => {
                    return Some(
                        (
                            Expr::Binary(
                                Binary {
                                    operator,
                                    left: Box::new(left),
                                    right: Box::new(right),
                                    location,
                                },
                            ),
                            Err(er),
                        ),
                    );
                },
                Ok(v) => v,
            };
            match (&vl, &vr) {
                (Some(Literal::Integer(a)), Some(Literal::Integer(b))) => {
                    if !int_fold_defined(operator, a.value, b.value) {
                        return None;
                    }
                },
                _ => {},
            }
            let ghost a2 = left@;
            let ghost b2 = right@;
            let left = match &vl {
                Some(l) => Expr::Literal(l.duplicate()),
                None => left,
            };
            let right = match &vr {
                Some(l) => Expr::Literal(l.duplicate()),
                None => right,
            };
            assert(left@ == folded_operand(a2, opt_lit(vl)));
            assert(right@ == folded_operand(b2, opt_lit(vr)));
            let res = match fold_binary(operator, &vl, &vr, location) {
                CalcStep::Done(r) => r,
                step => float_step(step, f),
            };
            Some(
                (
                    Expr::Binary(
                        Binary { operator, left: Box::new(left), right: Box::new(right), location },
                    ),
                    res,
                ),
            )
        },
    }
}

impl Expr {
    /// Folds the constants of the expression (see `calc_spec`), handing each
    /// floating-point step to `float_step`; the expression is left as folding
    /// leaves it.
    pub fn calc<F: Fn(CalcStep) -> Result<Option<Literal>, SyntaxErrorWithPos>>(
        &mut self,
        float_step: &F,
    ) -> (r: Result<Option<Literal>, SyntaxErrorWithPos>)
        requires
            float_step_fn(*float_step),
            calc_spec(old(self)@, float_answers(*float_step)) is Some,
        ensures
            calc_spec(old(self)@, float_answers(*float_step)) == Some((final(self)@, fold_result(r))),
    {
        let mut e = Expr::Literal(Literal::Null(Null { location: Location::Pos(0) }));
        std::mem::swap(&mut e, self);
        match calc_expr(e, float_step) {
            Some((e, r)) => {
                *self = e;
                r
            },
            None => {
                proof {
                    assert(false);
                }
                Ok(None)
            },
        }
    }

    /// Folds the constants of the expression as `calc` does where folding does
    /// not panic, and gives `None` where it would (a function call is reached, or
    /// an integer operation overflows, takes a remainder by zero or shifts by 128
    /// or more), leaving the expression as it was.
    pub fn try_calc<F: Fn(CalcStep) -> Result<Option<Literal>, SyntaxErrorWithPos>>(
        &mut self,
        float_step: &F,
    ) -> (r: Option<Result<Option<Literal>, SyntaxErrorWithPos>>)
        requires
            float_step_fn(*float_step),
        ensures
            r is None <==> calc_spec(old(self)@, float_answers(*float_step)) is None,
            r is None ==> final(self)@ == old(self)@,
            r matches Some(res) ==> calc_spec(old(self)@, float_answers(*float_step)) == Some(
                (final(self)@, fold_result(res)),
            ),
    {
        let copy = self.duplicate();
        match calc_expr(copy, float_step) {
            Some((e, r)) => {
                *self = e;
                Some(r)
            },
            None => None,
        }
    }
}

impl Binary {
    /// Folds the constants of the binary operation, as `Expr::calc` does.
    pub fn calc<F: Fn(CalcStep) -> Result<Option<Literal>, SyntaxErrorWithPos>>(
        &mut self,
        float_step: &F,
    ) -> (r: Result<Option<Literal>, SyntaxErrorWithPos>)
        requires
            float_step_fn(*float_step),
            calc_spec(old(self)@, float_answers(*float_step)) is Some,
        ensures
            calc_spec(old(self)@, float_answers(*float_step)) == Some((final(self)@, fold_result(r))),
    {
        let placeholder = Expr::Literal(Literal::Null(Null { location: self.location }));
        let mut b = Binary {
            operator: self.operator,
            left: Box::new(placeholder),
            right: Box::new(Expr::Literal(Literal::Null(Null { location: self.location }))),
            location: self.location,
        };
        std::mem::swap(&mut b, self);
        match calc_expr(Expr::Binary(b), float_step) {
            Some((Expr::Binary(folded), r)) => {
                *self = folded;
                r
            },
            _ => {
                proof {
                    assert(false);
                }
                Ok(None)
            },
        }
    }
}

impl Unary {
    /// Folds the constants of the unary operation, as `Expr::calc` does.
    pub fn calc<F: Fn(CalcStep) -> Result<Option<Literal>, SyntaxErrorWithPos>>(
        &mut self,
        float_step: &F,
    ) -> (r: Result<Option<Literal>, SyntaxErrorWithPos>)
        requires
            float_step_fn(*float_step),
            calc_spec(old(self)@, float_answers(*float_step)) is Some,
        ensures
            calc_spec(old(self)@, float_answers(*float_step)) == Some((final(self)@, fold_result(r))),
    {
        let mut u = Unary {
            operator: self.operator,
            right: Box::new(Expr::Literal(Literal::Null(Null { location: self.location }))),
            location: self.location,
        };
        std::mem::swap(&mut u, self);
        match calc_expr(Expr::Unary(u), float_step) {
            Some((Expr::Unary(folded), r)) => {
                *self = folded;
                r
            },
            _ => {
                proof {
                    assert(false);
                }
                Ok(None)
            },
        }
    }
}

/// Folding a binary operation on two integer literals whose operation does not
/// overflow computes the operation on their values: the arithmetic and bitwise
/// operators give the integer the operation gives (`%` the remainder that has the
/// sign of the dividend and is smaller than the divisor), the comparisons give
/// the boolean the comparison gives, `/` is handed on as a division of the two
/// values, and the boolean operators are refused; the folded literal stands at
/// the operation.
pub proof fn law_fold_integers(
    op: BinaryOperator,
    a: i128,
    b: i128,
    la: Location,
    lb: Location,
    loc: Location,
)
    requires
        int_op_defined(op, a, b),
    ensures
        ({
            let f = fold_spec(op, Some(LitNode::Integer(a, la)), Some(LitNode::Integer(b, lb)), loc);
            &&& op == BinaryOperator::Plus ==> (f matches CalcStepV::Done(
                Ok(Some(LitNode::Integer(v, l))),
            ) && v == a + b && l == loc)
            &&& op == BinaryOperator::Minus ==> (f matches CalcStepV::Done(
                Ok(Some(LitNode::Integer(v, l))),
            ) && v == a - b && l == loc)
            &&& op == BinaryOperator::Multi ==> (f matches CalcStepV::Done(
                Ok(Some(LitNode::Integer(v, l))),
            ) && v == a * b && l == loc)
            &&& op == BinaryOperator::Mod ==> (f matches CalcStepV::Done(
                Ok(Some(LitNode::Integer(v, l))),
            ) && l == loc && (a - v) % (if b < 0 {
                -b
            } else {
                b as int
            }) == 0 && (if b < 0 {
                -b
            } else {
                b as int
            }) > (if v < 0 {
                -v
            } else {
                v as int
            }) && (v == 0 || (v < 0) == (a < 0)))
            &&& op == BinaryOperator::Div ==> f == CalcStepV::IntDivide(a, b, loc)
            &&& op == BinaryOperator::BitXor ==> f == CalcStepV::Done(
                Ok(Some(LitNode::Integer(a ^ b, loc))),
            )
            &&& op == BinaryOperator::BitAnd ==> f == CalcStepV::Done(
                Ok(Some(LitNode::Integer(a & b, loc))),
            )
            &&& op == BinaryOperator::BitOr ==> f == CalcStepV::Done(
                Ok(Some(LitNode::Integer(a | b, loc))),
            )
            &&& op == BinaryOperator::LeftShift ==> f == CalcStepV::Done(
                Ok(Some(LitNode::Integer(a << b, loc))),
            )
            &&& op == BinaryOperator::RightShift ==> f == CalcStepV::Done(
                Ok(Some(LitNode::Integer(a >> b, loc))),
            )
            &&& op == BinaryOperator::Lt ==> f == CalcStepV::Done(
                Ok(Some(LitNode::Boolean(a < b, loc))),
            )
            &&& op == BinaryOperator::Lte ==> f == CalcStepV::Done(
                Ok(Some(LitNode::Boolean(a <= b, loc))),
            )
            &&& op == BinaryOperator::Bt ==> f == CalcStepV::Done(
                Ok(Some(LitNode::Boolean(a > b, loc))),
            )
            &&& op == BinaryOperator::Bte ==> f == CalcStepV::Done(
                Ok(Some(LitNode::Boolean(a >= b, loc))),
            )
            &&& op == BinaryOperator::Eq ==> f == CalcStepV::Done(
                Ok(Some(LitNode::Boolean(a == b, loc))),
            )
            &&& op == BinaryOperator::Neq ==> f == CalcStepV::Done(
                Ok(Some(LitNode::Boolean(a != b, loc))),
            )
            &&& (op == BinaryOperator::And || op == BinaryOperator::Or || op
                == BinaryOperator::Xor) ==> f matches CalcStepV::Done(Err(_))
        }),
{
    if op == BinaryOperator::Mod {
        let x: int = if a < 0 {
            -a
        } else {
            a as int
        };
        let y: int = if b < 0 {
            -b
        } else {
            b as int
        };
        let m = x % y;
        let q0 = x / y;
        assert(x == q0 * y + m && 0 <= m < y) by (nonlinear_arith)
            requires
                y > 0,
                x >= 0,
                m == x % y,
                q0 == x / y,
        ;
        let v: int = trunc_rem(a as int, b as int);
        let q: int = if (a < 0) == (b < 0) {
            q0
        } else {
            -q0
        };
        assert(a == q * b + v) by (nonlinear_arith)
            requires
                x == q0 * y + m,
                x == (if a < 0 {
                    -a
                } else {
                    a as int
                }),
                y == (if b < 0 {
                    -b
                } else {
                    b as int
                }),
                v == (if a < 0 {
                    -m
                } else {
                    m
                }),
                q == (if (a < 0) == (b < 0) {
                    q0
                } else {
                    -q0
                }),
        ;
        let q2: int = if b < 0 {
            -q
        } else {
            q
        };
        assert(a - v == q2 * y) by (nonlinear_arith)
            requires
                a == q * b + v,
                y == (if b < 0 {
                    -b
                } else {
                    b as int
                }),
                q2 == (if b < 0 {
                    -q
                } else {
                    q
                }),
        ;
        vstd::arithmetic::div_mod::lemma_mod_multiples_basic(q2, y);
        assert(i128::MIN <= v <= i128::MAX);
        assert((v as i128) as int == v);
    }
}

/// Constant folding of a binary operation on two integer literals gives the
/// value of the operation (see `law_fold_integers`): the comparisons fold to the
/// boolean they give, and the arithmetic operators to the integer they give; the
/// two operands are replaced by themselves.
pub proof fn law_calc_integer_literals(
    op: BinaryOperator,
    a: i128,
    b: i128,
    la: Location,
    lb: Location,
    loc: Location,
    fl: spec_fn(CalcStepV) -> FoldV,
)
    requires
        int_op_defined(op, a, b),
    ensures
        ({
            let e = ExprNode::Binary(
                op,
                Box::new(ExprNode::Literal(LitNode::Integer(a, la))),
                Box::new(ExprNode::Literal(LitNode::Integer(b, lb))),
                loc,
            );
            &&& (calc_spec(e, fl) matches Some((t, _)) && t == e)
            &&& op == BinaryOperator::Lt ==> calc_spec(e, fl) == Some(
                (e, Ok::<Option<LitNode>, SyntaxErrorWithPosV>(Some(LitNode::Boolean(a < b, loc)))),
            )
            &&& op == BinaryOperator::Lte ==> calc_spec(e, fl) == Some(
                (e, Ok::<Option<LitNode>, SyntaxErrorWithPosV>(Some(LitNode::Boolean(a <= b, loc)))),
            )
            &&& op == BinaryOperator::Bt ==> calc_spec(e, fl) == Some(
                (e, Ok::<Option<LitNode>, SyntaxErrorWithPosV>(Some(LitNode::Boolean(a > b, loc)))),
            )
            &&& op == BinaryOperator::Bte ==> calc_spec(e, fl) == Some(
                (e, Ok::<Option<LitNode>, SyntaxErrorWithPosV>(Some(LitNode::Boolean(a >= b, loc)))),
            )
            &&& op == BinaryOperator::Eq ==> calc_spec(e, fl) == Some(
                (e, Ok::<Option<LitNode>, SyntaxErrorWithPosV>(Some(LitNode::Boolean(a == b, loc)))),
            )
            &&& op == BinaryOperator::Neq ==> calc_spec(e, fl) == Some(
                (e, Ok::<Option<LitNode>, SyntaxErrorWithPosV>(Some(LitNode::Boolean(a != b, loc)))),
            )
            &&& op == BinaryOperator::Plus ==> (calc_spec(e, fl) matches Some(
                (_, Ok(Some(LitNode::Integer(v, l)))),
            ) && v == a + b && l == loc)
            &&& op == BinaryOperator::Minus ==> (calc_spec(e, fl) matches Some(
                (_, Ok(Some(LitNode::Integer(v, l)))),
            ) && v == a - b && l == loc)
            &&& op == BinaryOperator::Multi ==> (calc_spec(e, fl) matches Some(
                (_, Ok(Some(LitNode::Integer(v, l)))),
            ) && v == a * b && l == loc)
        }),
{
    law_fold_integers(op, a, b, la, lb, loc);
    reveal_with_fuel(calc_spec, 2);
}

/// Folding a binary operation on two boolean literals computes the boolean
/// operation on their values (`&`, `and` as conjunction, `|`, `or` as
/// disjunction, `^`, `xor`, `!=` as difference, `=` as equality), and refuses the
/// other operators; folding `not` or `~` of a boolean literal negates it.
pub proof fn law_fold_booleans(
    op: BinaryOperator,
    uop: UnaryOperator,
    a: bool,
    b: bool,
    la: Location,
    lb: Location,
    loc: Location,
)
    ensures
        ({
            let f = fold_spec(op, Some(LitNode::Boolean(a, la)), Some(LitNode::Boolean(b, lb)), loc);
            let done = |v: bool| CalcStepV::Done(Ok(Some(LitNode::Boolean(v, loc))));
            &&& (op == BinaryOperator::And || op == BinaryOperator::BitAnd) ==> f == done(a && b)
            &&& (op == BinaryOperator::Or || op == BinaryOperator::BitOr) ==> f == done(a || b)
            &&& (op == BinaryOperator::Xor || op == BinaryOperator::BitXor || op
                == BinaryOperator::Neq) ==> f == done(a != b)
            &&& op == BinaryOperator::Eq ==> f == done(a == b)
            &&& !(op == BinaryOperator::And || op == BinaryOperator::BitAnd || op == BinaryOperator::Or
                || op == BinaryOperator::BitOr || op == BinaryOperator::Xor || op
                == BinaryOperator::BitXor || op == BinaryOperator::Neq || op == BinaryOperator::Eq)
                ==> f is Done && f->Done_0 is Err
            &&& unary_fold(uop, Some(LitNode::Boolean(a, la)), loc) == Ok::<
                Option<LitNode>,
                SyntaxErrorWithPosV,
            >(Some(LitNode::Boolean(!a, loc)))
        }),
{
}

} // verus!

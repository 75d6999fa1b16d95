use yukino::query::alias::CollectExprAlias;
use yukino::query::ast::error::SyntaxErrorWithPos;
use yukino::query::ast::expr::{Binary, BinaryOperator, Expr, Unary, UnaryOperator};
use yukino::query::ast::ident::ColumnIdent;
use yukino::query::ast::literal::{Boolean, Float, Integer, Literal, Str};
use yukino::query::ast::location::Location;
use yukino::query::ast::select::SelectClause;
use yukino::query::pretty::calc::CalcStep;

fn int_e(v: i128, at: usize) -> Expr {
    Expr::Literal(Literal::Integer(Integer { value: v, location: Location::pos(at) }))
}

fn float(text: &str, at: usize) -> Expr {
    Expr::Literal(Literal::Float(Float { value: text.to_string(), location: Location::pos(at) }))
}

fn bin(operator: BinaryOperator, left: Expr, right: Expr, start: usize, end: usize) -> Expr {
    Expr::Binary(Binary {
        operator,
        left: Box::new(left),
        right: Box::new(right),
        location: Location::span(start, end),
    })
}

fn column(name: &str) -> Expr {
    Expr::ColumnIdent(ColumnIdent { segments: vec!["t".to_string(), name.to_string()], location: Location::pos(0) })
}

fn float_step(step: CalcStep) -> Result<Option<Literal>, SyntaxErrorWithPos> {
    match step {
        CalcStep::Done(r) => r,
        CalcStep::IntDivide(l, r, location) => Ok(Some(Literal::Float(Float {
            value: (l as f64 / r as f64).to_string(),
            location,
        }))),
        CalcStep::FloatArith(op, l, r, location) => {
            let (l, r): (f64, f64) = (l.parse().unwrap(), r.parse().unwrap());
            let v = match op {
                BinaryOperator::Multi => l * r,
                BinaryOperator::Div => l / r,
                BinaryOperator::Mod => l % r,
                BinaryOperator::Plus => l + r,
                _ => l - r,
            };
            Ok(Some(Literal::Float(Float { value: v.to_string(), location })))
        }
        CalcStep::FloatCompare(op, l, r, location) => {
            let (l, r): (f64, f64) = (l.parse().unwrap(), r.parse().unwrap());
            let value = match op {
                BinaryOperator::Lt => l < r,
                BinaryOperator::Bt => l > r,
                BinaryOperator::Lte => l <= r,
                BinaryOperator::Bte => l >= r,
                BinaryOperator::Eq => l == r,
                _ => l != r,
            };
            Ok(Some(Literal::Boolean(Boolean { value, location })))
        }
    }
}

#[test]
fn test_calc() {
    // 9 + 10 * 5 = 59
    let mut expr1 = bin(
        BinaryOperator::Eq,
        bin(BinaryOperator::Plus, int_e(9, 0), bin(BinaryOperator::Multi, int_e(10, 4), int_e(5, 9), 4, 10), 0, 10),
        int_e(59, 13),
        0,
        15,
    );
    match expr1.calc(&float_step).unwrap() {
        Some(Literal::Boolean(b)) => assert!(b.value),
        other => panic!("unexpected {:?}", other),
    }

    // (15 + 10) / 5
    let mut expr2 = bin(
        BinaryOperator::Div,
        bin(BinaryOperator::Plus, int_e(15, 1), int_e(10, 6), 1, 8),
        int_e(5, 12),
        0,
        13,
    );
    match expr2.calc(&float_step).unwrap() {
        Some(Literal::Float(f)) => assert_eq!(f.value, "5"),
        other => panic!("unexpected {:?}", other),
    }
}

#[test]
fn calc_replaces_folded_operands() {
    // t.a + (1 + 2): the right operand folds, the whole does not.
    let mut e = bin(BinaryOperator::Plus, column("a"), bin(BinaryOperator::Plus, int_e(1, 6), int_e(2, 10), 5, 11), 0, 12);
    assert_eq!(e.calc(&float_step).unwrap(), None);
    match e {
        Expr::Binary(b) => match *b.right {
            Expr::Literal(Literal::Integer(i)) => assert_eq!(i.value, 3),
            other => panic!("unexpected {:?}", other),
        },
        other => panic!("unexpected {:?}", other),
    }
}

#[test]
fn calc_floats_and_errors() {
    let mut e = bin(BinaryOperator::Lt, float("1.5", 0), float("2.5", 6), 0, 9);
    match e.calc(&float_step).unwrap() {
        Some(Literal::Boolean(b)) => assert!(b.value),
        other => panic!("unexpected {:?}", other),
    }
    let mut s = bin(
        BinaryOperator::Plus,
        Expr::Literal(Literal::String(Str { value: "a".to_string(), location: Location::pos(0) })),
        Expr::Literal(Literal::String(Str { value: "b".to_string(), location: Location::pos(6) })),
        0,
        9,
    );
    let err = s.calc(&float_step).unwrap_err();
    assert_eq!(err.error.message(), "Unimplemented operation \"Plus\" for type \"fstring\"");
    let mut u = Expr::Unary(Unary {
        operator: UnaryOperator::Not,
        right: Box::new(Expr::Literal(Literal::Boolean(Boolean { value: false, location: Location::pos(4) }))),
        location: Location::span(0, 9),
    });
    match u.calc(&float_step).unwrap() {
        Some(Literal::Boolean(b)) => assert!(b.value),
        other => panic!("unexpected {:?}", other),
    }
}

#[test]
fn expression_aliases() {
    let clause = SelectClause {
        items: vec![(column("a"), Some("x".to_string())), (int_e(1, 5), None), (column("b"), Some("y".to_string()))],
        location: Location::span(0, 20),
    };
    let aliases = clause.collect_expr_alias().unwrap();
    assert_eq!(aliases.len(), 2);
    assert_eq!(aliases.get(&"y".to_string()), Some(&column("b")));
    assert!(aliases.get(&"z".to_string()).is_none());

    let twice = SelectClause {
        items: vec![(column("a"), Some("x".to_string())), (column("b"), Some("x".to_string()))],
        location: Location::span(0, 20),
    };
    let err = twice.collect_expr_alias().unwrap_err();
    assert_eq!(err.error.message(), "Conflict alias \"x\"");
    assert_eq!(err.location, Location::span(0, 20));
}

#[test]
fn try_calc_refuses_panicking_folds() {
    let call = Expr::FunctionCall(yukino::query::ast::func::FunctionCall {
        ident: "f".to_string(),
        parameters: vec![],
        location: Location::pos(0),
    });
    let mut e = bin(BinaryOperator::Plus, int_e(1, 0), call, 0, 5);
    assert!(e.try_calc(&float_step).is_none());
    let mut overflow = bin(BinaryOperator::Plus, int_e(i128::MAX, 0), int_e(1, 4), 0, 5);
    assert!(overflow.try_calc(&float_step).is_none());
    let mut rem = bin(BinaryOperator::Mod, int_e(i128::MIN, 0), int_e(-1, 4), 0, 5);
    assert!(rem.try_calc(&float_step).is_none());
    match rem {
        Expr::Binary(b) => assert!(matches!(*b.left, Expr::Literal(Literal::Integer(Integer { value: i128::MIN, .. })))),
        other => panic!("unexpected {:?}", other),
    }
    let mut fine = bin(BinaryOperator::Mod, int_e(-7, 0), int_e(3, 4), 0, 5);
    match fine.try_calc(&float_step) {
        Some(Ok(Some(Literal::Integer(i)))) => assert_eq!(i.value, -1),
        other => panic!("unexpected {:?}", other),
    }
}

use yukino::query::alias::{AliasMap, CollectTableAlias, FieldMap, ReplaceIdent};
use yukino::query::ast::clause::{FromClause, JoinClause, JoinType, TableReference};
use yukino::query::ast::error::SyntaxError;
use yukino::query::ast::expr::{Binary, BinaryOperator, Expr, Unary, UnaryOperator};
use yukino::query::ast::ident::ColumnIdent;
use yukino::query::ast::insert::InsertQuery;
use yukino::query::ast::literal::{Boolean, Float, Integer, Literal, Null, Str};
use yukino::query::ast::location::Location;
use yukino::query::ast::pair::{QueryPair, Rule};
use yukino::query::ast::query::Query;
use yukino::query::ast::select::{Order, SelectQuery};
use yukino::query::ast::traits::Locatable;
use yukino::query::ast::update::{SetClause, ValueItem};
use yukino::query::pretty::calc::{fold_binary, fold_unary, int_fold_defined, CalcStep};
use yukino::query::type_check::TypeKind;

fn leaf(rule: Rule, text: &str, start: usize) -> QueryPair {
    QueryPair {
        rule,
        text: text.to_string(),
        start,
        end: start + text.len(),
        inner: vec![],
    }
}

fn node(rule: Rule, start: usize, end: usize, inner: Vec<QueryPair>) -> QueryPair {
    QueryPair { rule, text: String::new(), start, end, inner }
}

fn int_expr(text: &str, start: usize) -> QueryPair {
    // expr > ... > not_expr > bit_reverse_expr > expr_factor > literal > int
    let lit = node(Rule::literal, start, start + text.len(), vec![leaf(Rule::integer, text, start)]);
    let factor = node(Rule::expr_factor, start, start + text.len(), vec![lit]);
    wrap_factor(factor)
}

fn column_expr(segments: &[&str], start: usize) -> QueryPair {
    let inner = segments
        .iter()
        .map(|s| if *s == "*" { leaf(Rule::any, s, start) } else { leaf(Rule::ident, s, start) })
        .collect();
    let ident = node(Rule::column_ident, start, start + 1, inner);
    wrap_factor(node(Rule::expr_factor, start, start + 1, vec![ident]))
}

fn wrap_factor(factor: QueryPair) -> QueryPair {
    let (s, e) = (factor.start, factor.end);
    let bit_reverse = node(Rule::bit_reverse_expr, s, e, vec![factor]);
    let mut current = node(Rule::bit_xor_expr, s, e, vec![bit_reverse]);
    for rule in [Rule::term_expr, Rule::add_expr, Rule::bit_shift_expr, Rule::bit_and_expr, Rule::bit_or_expr, Rule::cmp_expr] {
        current = node(rule, s, e, vec![current]);
    }
    let not = node(Rule::not_expr, s, e, vec![current]);
    let and = node(Rule::and_expr, s, e, vec![not]);
    let xor = node(Rule::xor_expr, s, e, vec![and]);
    node(Rule::expr, s, e, vec![xor])
}

#[test]
fn location_parts() {
    let span = Location::span(3, 9);
    assert_eq!(span.start(), 3);
    assert_eq!(span.end(), 9);
    assert_eq!(span.to_string(), "3_9");
    assert_eq!(Location::pos(4).to_string(), "4");
    assert_eq!(Location::pos(4).start(), 4);
    let error = span.error(SyntaxError::UnexpectedExpr);
    assert_eq!(error.location, span);
    assert_eq!(error.to_string(), "Error: Unexpected expr at Span(3, 9)");
}

#[test]
fn literal_from_pairs() {
    let int = node(Rule::literal, 0, 6, vec![leaf(Rule::integer, "-114514", 0)]);
    assert_eq!(
        Literal::from_pair(int).unwrap(),
        Literal::Integer(Integer { value: -114514, location: Location::Span(0, 7) })
    );
    let float = node(Rule::literal, 0, 5, vec![leaf(Rule::float, "-1e10", 0)]);
    assert_eq!(
        Literal::from_pair(float).unwrap(),
        Literal::Float(Float { value: "-1e10".to_string(), location: Location::Span(0, 5) })
    );
    let boolean = node(Rule::bool, 0, 4, vec![leaf(Rule::bool_true, "true", 0)]);
    assert_eq!(Boolean::from_pair(boolean).unwrap().value, true);
    let string = node(Rule::string, 0, 6, vec![leaf(Rule::string_inner, "\\n\\rtest", 1)]);
    assert_eq!(Str::from_pair(string).unwrap().value, "\\n\\rtest");
    let null = leaf(Rule::null, "Null", 0);
    assert_eq!(Null::from_pair(null).unwrap().location, Location::Span(0, 4));
}

#[test]
fn literal_errors() {
    let too_big = leaf(Rule::integer, "170141183460469231731687303715884105728", 2);
    let err = Integer::from_pair(too_big).unwrap_err();
    assert!(matches!(err.error, SyntaxError::CannotParseIntoInteger(ref s) if s == "170141183460469231731687303715884105728"));
    assert_eq!(err.location, Location::Span(2, 41));
    let not_float = leaf(Rule::float, "1.2.3", 0);
    assert!(matches!(Float::from_pair(not_float).unwrap_err().error, SyntaxError::CannotParseIntoFloat(_)));
    let wrong = leaf(Rule::ident, "x", 0);
    let err = Literal::from_pair(wrong).unwrap_err();
    assert_eq!(err.error.message(), "Expected pair to be a 'literal'");
}

#[test]
fn expression_from_pairs() {
    // 1 + 1 * 10 = 11 (as the grammar nests it)
    let one = || int_expr("1", 0);
    let term = node(
        Rule::term_expr,
        4,
        10,
        vec![
            bit_xor_of(int_expr("1", 4)),
            leaf(Rule::multi, "*", 6),
            bit_xor_of(int_expr("10", 8)),
        ],
    );
    let add = node(
        Rule::add_expr,
        0,
        10,
        vec![term_of(one()), leaf(Rule::plus, "+", 2), term],
    );
    let cmp = node(
        Rule::cmp_expr,
        0,
        15,
        vec![chain_to_bit_or(add), leaf(Rule::equal, "=", 11), chain_to_bit_or(add_of(int_expr("11", 13)))],
    );
    let expr = node(Rule::expr, 0, 15, vec![node(Rule::xor_expr, 0, 15, vec![node(Rule::and_expr, 0, 15, vec![node(Rule::not_expr, 0, 15, vec![cmp])])])]);
    let result = Expr::from_pair(expr).unwrap();
    match result {
        Expr::Binary(Binary { operator: BinaryOperator::Eq, left, right, .. }) => {
            match *left {
                Expr::Binary(Binary { operator: BinaryOperator::Plus, right: inner, .. }) => {
                    assert!(matches!(*inner, Expr::Binary(Binary { operator: BinaryOperator::Multi, .. })));
                }
                other => panic!("unexpected {:?}", other),
            }
            assert!(matches!(*right, Expr::Literal(Literal::Integer(Integer { value: 11, .. }))));
        }
        other => panic!("unexpected {:?}", other),
    }
}

// Helpers that take an `expr` chain built by `int_expr` apart at a level.
fn level(p: QueryPair, rule: Rule) -> QueryPair {
    let mut current = p;
    loop {
        if current.rule == rule {
            return current;
        }
        current = current.inner.into_iter().next().unwrap();
    }
}

fn bit_xor_of(p: QueryPair) -> QueryPair {
    level(p, Rule::bit_xor_expr)
}

fn term_of(p: QueryPair) -> QueryPair {
    level(p, Rule::term_expr)
}

fn add_of(p: QueryPair) -> QueryPair {
    level(p, Rule::add_expr)
}

fn chain_to_bit_or(add: QueryPair) -> QueryPair {
    let (s, e) = (add.start, add.end);
    let shift = node(Rule::bit_shift_expr, s, e, vec![add]);
    let and = node(Rule::bit_and_expr, s, e, vec![shift]);
    node(Rule::bit_or_expr, s, e, vec![and])
}

#[test]
fn unary_not() {
    // NOT column.a
    let operand = level(column_expr(&["column", "a"], 4), Rule::not_expr);
    let not = node(Rule::not_expr, 0, 12, vec![leaf(Rule::bool_not, "NOT", 0), operand]);
    let result = Unary::from_pair(not).unwrap();
    match result {
        Expr::Unary(Unary { operator: UnaryOperator::Not, right, location }) => {
            assert_eq!(location, Location::Span(0, 12));
            assert!(matches!(*right, Expr::ColumnIdent(ColumnIdent { ref segments, .. }) if segments == &vec!["column".to_string(), "a".to_string()]));
        }
        other => panic!("unexpected {:?}", other),
    }
    assert_eq!(BinaryOperator::from_rule(Rule::minus), Some(BinaryOperator::Plus));
    assert_eq!(UnaryOperator::from_rule(Rule::bit_reverse), Some(UnaryOperator::BitReverse));
    assert_eq!(BinaryOperator::compare_operator().len(), 6);
}

fn table(name: &str, alias: Option<&str>, start: usize) -> QueryPair {
    let mut inner = vec![leaf(Rule::ident, name, start)];
    if let Some(a) = alias {
        inner.push(leaf(Rule::ident, a, start + name.len() + 1));
    }
    node(Rule::table_reference, start, start + 10, inner)
}

fn join_on(kind: Rule, outer: bool, name: &str, alias: &str, start: usize) -> QueryPair {
    let mut kinds = vec![leaf(kind, "K", start)];
    if outer {
        kinds.push(leaf(Rule::keyword_outer, "OUTER", start + 2));
    }
    let on = column_expr(&["t2", "assoc"], start + 20);
    let inner = node(
        Rule::join_on,
        start,
        start + 30,
        vec![node(Rule::join_type, start, start + 5, kinds), table(name, Some(alias), start + 10), on],
    );
    node(Rule::join_clause, start, start + 30, vec![inner])
}

#[test]
fn from_clause_and_aliases() {
    let from = node(
        Rule::from_clause,
        0,
        60,
        vec![table("test", Some("t1"), 5), join_on(Rule::keyword_left, true, "test2", "t2", 20)],
    );
    let from = FromClause::from_pair(from).unwrap();
    assert_eq!(from.table.name, "test");
    assert_eq!(from.join.len(), 1);
    match &from.join[0] {
        JoinClause::JoinOn(j) => {
            assert_eq!(j.ty, JoinType::LeftOuter);
            assert_eq!(j.table.alias, Some("t2".to_string()));
        }
        other => panic!("unexpected {:?}", other),
    }
    let aliases = from.collect_table_alias().unwrap();
    assert_eq!(
        aliases.entries(),
        &vec![("t1".to_string(), "test".to_string()), ("t2".to_string(), "test2".to_string())]
    );

    let clash = node(
        Rule::from_clause,
        0,
        60,
        vec![table("test", Some("t"), 5), join_on(Rule::keyword_inner, false, "test2", "t", 20)],
    );
    let clash = FromClause::from_pair(clash).unwrap();
    let err = clash.collect_table_alias().unwrap_err();
    assert!(matches!(err.error, SyntaxError::ConflictAlias(ref a) if a == "t"));
    assert_eq!(err.location, Location::Span(20, 50));
}

#[test]
fn table_without_alias_is_global() {
    let t = TableReference::from_pair(table("Test", None, 0)).unwrap();
    let aliases = t.collect_table_alias().unwrap();
    assert_eq!(aliases.entries(), &vec![("#global_alias".to_string(), "Test".to_string())]);
    let inner_outer = node(
        Rule::join_type,
        0,
        5,
        vec![leaf(Rule::keyword_inner, "INNER", 0), leaf(Rule::keyword_outer, "OUTER", 6)],
    );
    assert!(JoinType::from_pair(inner_outer).is_err());
}

#[test]
fn select_query_from_pairs() {
    let item = node(Rule::select_item, 7, 8, vec![column_expr(&["*"], 7)]);
    let select = node(Rule::select_clause, 0, 8, vec![item]);
    let from = node(Rule::from_clause, 9, 25, vec![table("Test", Some("t"), 14)]);
    let where_clause = column_expr(&["t", "id"], 30);
    let order = node(
        Rule::order_by_clause,
        40,
        60,
        vec![node(Rule::order_by_item, 49, 60, vec![column_expr(&["t", "id"], 49), leaf(Rule::keyword_desc, "DESC", 55)])],
    );
    let limit = node(Rule::limit_clause, 61, 69, vec![leaf(Rule::integer, "10", 67)]);
    let offset = node(Rule::offset_clause, 70, 78, vec![leaf(Rule::integer, "1", 77)]);
    let query = node(Rule::select_query, 0, 78, vec![select, from, where_clause, order, limit, offset]);
    let q = SelectQuery::from_pair(query).unwrap();
    assert_eq!(q.select_clause.items.len(), 1);
    assert!(q.where_clause.is_some());
    assert!(q.group_by_clause.is_none());
    assert_eq!(q.order_by_clause.as_ref().unwrap().items[0].1, Order::Desc);
    assert_eq!(q.limit, Some(10));
    assert_eq!(q.offset, Some(1));

    let wrapped = node(
        Rule::query,
        0,
        78,
        vec![node(
            Rule::select_query,
            0,
            20,
            vec![
                node(Rule::select_clause, 0, 8, vec![]),
                node(Rule::from_clause, 9, 20, vec![table("Test", None, 14)]),
                node(Rule::limit_clause, 21, 30, vec![leaf(Rule::integer, "-1", 27)]),
            ],
        )],
    );
    let err = Query::from_pair(wrapped).unwrap_err();
    assert!(matches!(err.error, SyntaxError::CannotParseIntoInteger(ref s) if s == "-1"));
}

#[test]
fn insert_and_set() {
    let insert = node(
        Rule::insert_query,
        0,
        40,
        vec![
            leaf(Rule::ident, "Test", 12),
            node(Rule::column_list, 17, 23, vec![leaf(Rule::ident, "a", 18), leaf(Rule::ident, "b", 21)]),
            node(Rule::column_list, 24, 40, vec![int_expr("1", 32), int_expr("2", 35)]),
        ],
    );
    let q = InsertQuery::from_pair(insert).unwrap();
    assert_eq!(q.table, "Test");
    assert_eq!(q.columns, Some(vec!["a".to_string(), "b".to_string()]));
    assert_eq!(q.values.len(), 2);

    let column = |name: &str, start: usize| node(Rule::column_ident, start, start + 1, vec![leaf(Rule::ident, name, start)]);
    let default = || node(Rule::value_item, 0, 7, vec![leaf(Rule::keyword_default, "default", 0)]);
    let value = |start: usize| node(Rule::value_item, start, start + 1, vec![int_expr("1", start)]);
    let set = node(
        Rule::set_clause,
        0,
        22,
        vec![node(Rule::assignments, 4, 22, vec![column("a", 4), default(), column("b", 17), value(21)])],
    );
    let set = SetClause::from_pair(set).unwrap();
    assert_eq!(set.items.len(), 2);
    assert_eq!(set.items[0].1, ValueItem::Default);
    let listed = node(
        Rule::set_clause,
        0,
        30,
        vec![
            node(Rule::column_list, 4, 10, vec![column("a", 5), column("b", 8)]),
            node(Rule::column_list, 14, 30, vec![default(), value(25), default()]),
        ],
    );
    let listed = SetClause::from_pair(listed).unwrap();
    assert_eq!(listed.items.len(), 2);
    assert!(matches!(listed.items[1].1, ValueItem::Expr(_)));
}

#[test]
fn replace_qualifies_columns() {
    let mut generated = AliasMap::new();
    generated.insert("User".to_string(), "__user".to_string());
    let mut tables = AliasMap::new();
    tables.insert("t".to_string(), "Test".to_string());
    let mut fields = FieldMap::new();
    fields.insert("User".to_string(), vec!["name".to_string(), "id".to_string()]);
    fields.insert("Post".to_string(), vec!["id".to_string()]);

    let mut e = Expr::ColumnIdent(ColumnIdent { segments: vec!["name".to_string()], location: Location::pos(0) });
    e.replace(&generated, &tables, &fields).unwrap();
    assert!(matches!(e, Expr::ColumnIdent(ColumnIdent { ref segments, .. }) if segments == &vec!["__user".to_string(), "name".to_string()]));

    let mut kept = Expr::ColumnIdent(ColumnIdent { segments: vec!["t".to_string(), "id".to_string()], location: Location::pos(0) });
    kept.replace(&generated, &tables, &fields).unwrap();
    assert!(matches!(kept, Expr::ColumnIdent(ColumnIdent { ref segments, .. }) if segments.len() == 2));

    let mut ambiguous = Expr::ColumnIdent(ColumnIdent { segments: vec!["id".to_string()], location: Location::pos(3) });
    let err = ambiguous.replace(&generated, &tables, &fields).unwrap_err();
    assert!(matches!(err.error, SyntaxError::ConflictAlias(ref f) if f == "id"));
    assert_eq!(err.location, Location::pos(3));
}

fn int_lit(v: i128) -> Option<Literal> {
    Some(Literal::Integer(Integer { value: v, location: Location::pos(0) }))
}

fn boolean(v: bool) -> Option<Literal> {
    Some(Literal::Boolean(Boolean { value: v, location: Location::pos(0) }))
}

#[test]
fn folding_constants() {
    let at = Location::span(0, 9);
    match fold_binary(BinaryOperator::Plus, &int_lit(9), &int_lit(50), at) {
        CalcStep::Done(Ok(Some(Literal::Integer(i)))) => assert_eq!(i.value, 59),
        _ => panic!("not folded"),
    }
    match fold_binary(BinaryOperator::Eq, &int_lit(59), &int_lit(59), at) {
        CalcStep::Done(Ok(Some(Literal::Boolean(b)))) => assert!(b.value),
        _ => panic!("not folded"),
    }
    match fold_binary(BinaryOperator::Mod, &int_lit(-7), &int_lit(3), at) {
        CalcStep::Done(Ok(Some(Literal::Integer(i)))) => assert_eq!(i.value, -1),
        _ => panic!("not folded"),
    }
    assert!(matches!(fold_binary(BinaryOperator::Div, &int_lit(25), &int_lit(5), at), CalcStep::IntDivide(25, 5, _)));
    match fold_binary(BinaryOperator::And, &int_lit(1), &int_lit(2), at) {
        CalcStep::Done(Err(e)) => assert_eq!(e.error.message(), "Unimplemented operation \"And\" for type \"integer\""),
        _ => panic!("no error"),
    }
    match fold_binary(BinaryOperator::Xor, &boolean(true), &boolean(false), at) {
        CalcStep::Done(Ok(Some(Literal::Boolean(b)))) => assert!(b.value),
        _ => panic!("not folded"),
    }
    match fold_binary(BinaryOperator::Plus, &int_lit(1), &boolean(true), at) {
        CalcStep::Done(Err(e)) => assert_eq!(e.error.message(), "Mismatched type: expected \"Numeric\", found \"Boolean\""),
        _ => panic!("no error"),
    }
    assert!(matches!(fold_binary(BinaryOperator::Plus, &int_lit(1), &None, at), CalcStep::Done(Ok(None))));
    assert!(!int_fold_defined(BinaryOperator::Mod, 1, 0));
    assert!(!int_fold_defined(BinaryOperator::Plus, i128::MAX, 1));
    assert!(int_fold_defined(BinaryOperator::LeftShift, 1, 127));
    match fold_unary(UnaryOperator::Not, &boolean(true), at) {
        Ok(Some(Literal::Boolean(b))) => assert!(!b.value),
        _ => panic!("not folded"),
    }
    assert!(matches!(fold_unary(UnaryOperator::Not, &int_lit(3), at), Ok(None)));
}

#[test]
fn type_kinds() {
    let ext = Literal::External(yukino::query::ast::literal::ExternalValue { ident: "v".to_string(), location: Location::pos(0) });
    assert_eq!(TypeKind::from_literal(&ext).to_string(), "External Value: v");
    assert_eq!(TypeKind::Object("User".to_string()).to_string(), "Object(User)");
    assert_eq!(TypeKind::from_literal(&boolean(true).unwrap()).to_string(), "Boolean");
    assert_eq!(Literal::Null(Null { location: Location::pos(2) }).location(), Location::pos(2));
}

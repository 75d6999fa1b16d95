//! The syntax-tree tests of the query grammar. Each parse tree is written out
//! node by node, as the grammar gives it for the query in the comment, and the
//! result is compared with the locations set aside.

use yukino::query::ast::clause::{CrossJoin, FromClause, JoinClause, JoinOn, JoinType, NaturalJoin, TableReference};
use yukino::query::ast::delete::DeleteQuery;
use yukino::query::ast::expr::{Binary, BinaryOperator, Expr, Unary, UnaryOperator};
use yukino::query::ast::func::FunctionCall;
use yukino::query::ast::ident::ColumnIdent;
use yukino::query::ast::literal::{Boolean, ExternalValue, Float, Integer, Literal, Null, Str};
use yukino::query::ast::location::Location;
use yukino::query::ast::pair::{QueryPair, Rule};
use yukino::query::ast::select::{GroupByClause, Order, OrderByClause, SelectClause, SelectQuery};
use yukino::query::ast::update::{SetClause, UpdateQuery, ValueItem};

// ---- parse trees ----

fn leaf(rule: Rule, text: &str) -> QueryPair {
    QueryPair { rule, text: text.to_string(), start: 0, end: text.len(), inner: vec![] }
}

fn node(rule: Rule, inner: Vec<QueryPair>) -> QueryPair {
    QueryPair { rule, text: String::new(), start: 0, end: 1, inner }
}

/// An expression as the query writes it.
enum T {
    Int(&'static str),
    Flo(&'static str),
    Bool(bool),
    Null,
    Col(Vec<&'static str>),
    Call(&'static str, Vec<T>),
    Bin(Rule, Box<T>, Box<T>),
    Not(Box<T>),
}

fn bin(op: Rule, a: T, b: T) -> T {
    T::Bin(op, Box::new(a), Box::new(b))
}

const LEVELS: [Rule; 13] = [
    Rule::expr,
    Rule::xor_expr,
    Rule::and_expr,
    Rule::not_expr,
    Rule::cmp_expr,
    Rule::bit_or_expr,
    Rule::bit_and_expr,
    Rule::bit_shift_expr,
    Rule::add_expr,
    Rule::term_expr,
    Rule::bit_xor_expr,
    Rule::bit_reverse_expr,
    Rule::expr_factor,
];

fn op_level(op: Rule) -> usize {
    match op {
        Rule::bool_or => 0,
        Rule::bool_xor => 1,
        Rule::bool_and => 2,
        Rule::less_than
        | Rule::less_than_or_equal
        | Rule::bigger_than
        | Rule::bigger_than_or_equal
        | Rule::equal
        | Rule::not_equal => 4,
        Rule::bit_or => 5,
        Rule::bit_and => 6,
        Rule::left_shift | Rule::right_shift => 7,
        Rule::plus | Rule::minus => 8,
        Rule::multi | Rule::div | Rule::modulo => 9,
        Rule::bit_xor => 10,
        _ => panic!("no operator"),
    }
}

fn op_text(op: Rule) -> &'static str {
    match op {
        Rule::bool_or => "OR",
        Rule::bool_and => "AND",
        Rule::plus => "+",
        Rule::multi => "*",
        Rule::equal => "=",
        Rule::not_equal => "!=",
        Rule::bigger_than => ">",
        Rule::bigger_than_or_equal => ">=",
        _ => "?",
    }
}

/// The operands of a chain of one level, from the left.
fn flatten(t: T, level: usize, out: &mut Vec<(Option<Rule>, T)>) {
    match t {
        T::Bin(op, a, b) if op_level(op) == level => {
            flatten(*a, level, out);
            out.push((Some(op), *b));
        }
        other => out.push((None, other)),
    }
}

/// The node of level `level` for `t`.
fn tree_at(t: T, level: usize) -> QueryPair {
    let rule = LEVELS[level];
    if rule == Rule::expr_factor {
        return node(Rule::expr_factor, vec![factor(t)]);
    }
    match t {
        T::Bin(op, a, b) if op_level(op) == level => {
            let mut items = vec![];
            flatten(T::Bin(op, a, b), level, &mut items);
            let mut inner = vec![];
            for (op, item) in items {
                if let Some(op) = op {
                    inner.push(leaf(op, op_text(op)));
                }
                inner.push(tree_at(item, level + 1));
            }
            node(rule, inner)
        }
        T::Not(x) if rule == Rule::not_expr => node(rule, vec![leaf(Rule::bool_not, "NOT"), tree_at(*x, level)]),
        other => node(rule, vec![tree_at(other, level + 1)]),
    }
}

fn factor(t: T) -> QueryPair {
    match t {
        T::Int(v) => node(Rule::literal, vec![leaf(Rule::integer, v)]),
        T::Flo(v) => node(Rule::literal, vec![leaf(Rule::float, v)]),
        T::Bool(b) => node(
            Rule::literal,
            vec![node(Rule::bool, vec![leaf(if b { Rule::bool_true } else { Rule::bool_false }, if b { "true" } else { "false" })])],
        ),
        T::Null => node(Rule::literal, vec![leaf(Rule::null, "Null")]),
        T::Col(segments) => node(
            Rule::column_ident,
            segments.into_iter().map(|s| if s == "*" { leaf(Rule::any, s) } else { leaf(Rule::ident, s) }).collect(),
        ),
        T::Call(name, args) => {
            let mut inner = vec![leaf(Rule::ident, name)];
            inner.extend(args.into_iter().map(expr_tree));
            node(Rule::function_call, inner)
        }
        parenthesized => expr_tree(parenthesized),
    }
}

fn expr_tree(t: T) -> QueryPair {
    tree_at(t, 0)
}

fn table_tree(name: &str, alias: Option<&str>) -> QueryPair {
    let mut inner = vec![leaf(Rule::ident, name)];
    if let Some(a) = alias {
        inner.push(leaf(Rule::ident, a));
    }
    node(Rule::table_reference, inner)
}

fn join_type_tree(kinds: &[Rule]) -> QueryPair {
    node(Rule::join_type, kinds.iter().map(|k| leaf(*k, "KEYWORD")).collect())
}

fn column_tree(segments: &[&str]) -> QueryPair {
    node(Rule::column_ident, segments.iter().map(|s| leaf(Rule::ident, s)).collect())
}

// ---- the expected values, with every location at 0 ----

fn at() -> Location {
    Location::pos(0)
}

fn table(name: &str, alias: Option<&str>) -> TableReference {
    TableReference { name: name.to_string(), alias: alias.map(|a| a.to_string()), location: at() }
}

fn col(segments: &[&str]) -> Expr {
    Expr::ColumnIdent(col_ident(segments))
}

fn col_ident(segments: &[&str]) -> ColumnIdent {
    ColumnIdent { segments: segments.iter().map(|s| s.to_string()).collect(), location: at() }
}

fn int_e(v: i128) -> Expr {
    Expr::Literal(Literal::Integer(Integer { value: v, location: at() }))
}

fn binary(operator: BinaryOperator, left: Expr, right: Expr) -> Expr {
    Expr::Binary(Binary { operator, left: Box::new(left), right: Box::new(right), location: at() })
}

// ---- setting locations aside ----

fn lit_rel(l: Literal) -> Literal {
    match l {
        Literal::Boolean(b) => Literal::Boolean(Boolean { value: b.value, location: at() }),
        Literal::Integer(i) => Literal::Integer(Integer { value: i.value, location: at() }),
        Literal::Float(f) => Literal::Float(Float { value: f.value, location: at() }),
        Literal::String(s) => Literal::String(Str { value: s.value, location: at() }),
        Literal::External(e) => Literal::External(ExternalValue { ident: e.ident, location: at() }),
        Literal::Null(_) => Literal::Null(Null { location: at() }),
    }
}

fn expr_rel(e: Expr) -> Expr {
    match e {
        Expr::Literal(l) => Expr::Literal(lit_rel(l)),
        Expr::FunctionCall(f) => Expr::FunctionCall(FunctionCall {
            ident: f.ident,
            parameters: f.parameters.into_iter().map(expr_rel).collect(),
            location: at(),
        }),
        Expr::ColumnIdent(c) => Expr::ColumnIdent(ColumnIdent { segments: c.segments, location: at() }),
        Expr::Unary(u) => Expr::Unary(Unary { operator: u.operator, right: Box::new(expr_rel(*u.right)), location: at() }),
        Expr::Binary(b) => Expr::Binary(Binary {
            operator: b.operator,
            left: Box::new(expr_rel(*b.left)),
            right: Box::new(expr_rel(*b.right)),
            location: at(),
        }),
    }
}

fn table_rel(t: TableReference) -> TableReference {
    TableReference { name: t.name, alias: t.alias, location: at() }
}

fn join_rel(j: JoinClause) -> JoinClause {
    match j {
        JoinClause::NaturalJoin(n) => JoinClause::NaturalJoin(NaturalJoin { ty: n.ty, table: table_rel(n.table), location: at() }),
        JoinClause::CrossJoin(c) => JoinClause::CrossJoin(CrossJoin { table: table_rel(c.table), location: at() }),
        JoinClause::JoinOn(o) => JoinClause::JoinOn(JoinOn { ty: o.ty, table: table_rel(o.table), on: expr_rel(o.on), location: at() }),
    }
}

fn from_rel(f: FromClause) -> FromClause {
    FromClause { table: table_rel(f.table), join: f.join.into_iter().map(join_rel).collect(), location: at() }
}

fn set_rel(s: SetClause) -> SetClause {
    SetClause {
        items: s
            .items
            .into_iter()
            .map(|(c, v)| {
                let v = match v {
                    ValueItem::Default => ValueItem::Default,
                    ValueItem::Expr(e) => ValueItem::Expr(expr_rel(e)),
                };
                (ColumnIdent { segments: c.segments, location: at() }, v)
            })
            .collect(),
        location: at(),
    }
}

fn select_rel(q: SelectQuery) -> SelectQuery {
    SelectQuery {
        select_clause: SelectClause {
            items: q.select_clause.items.into_iter().map(|(e, a)| (expr_rel(e), a)).collect(),
            location: at(),
        },
        from: from_rel(q.from),
        where_clause: q.where_clause.map(expr_rel),
        group_by_clause: q.group_by_clause.map(|g| GroupByClause {
            by: expr_rel(g.by),
            having: g.having.map(expr_rel),
            location: at(),
        }),
        order_by_clause: q.order_by_clause.map(|o| OrderByClause {
            items: o.items.into_iter().map(|(e, d)| (expr_rel(e), d)).collect(),
            location: at(),
        }),
        limit: q.limit,
        offset: q.offset,
        location: at(),
    }
}

// ---- the tests ----

#[test]
fn test_table_ref() {
    // Test As "where"
    let t = TableReference::from_pair(table_tree("Test", Some("where"))).unwrap();
    assert_eq!(table_rel(t), table("Test", Some("where")));
    // Test
    let t = TableReference::from_pair(table_tree("Test", None)).unwrap();
    assert_eq!(table_rel(t), table("Test", None));
    // Test t
    let t = TableReference::from_pair(table_tree("Test", Some("t"))).unwrap();
    assert_eq!(table_rel(t), table("Test", Some("t")));
    // Test AS t
    let t = TableReference::from_pair(table_tree("Test", Some("t"))).unwrap();
    assert_eq!(table_rel(t), table("Test", Some("t")));
}

fn join_tree(kind: Rule, inner: Vec<QueryPair>) -> QueryPair {
    node(Rule::join_clause, vec![node(kind, inner)])
}

#[test]
fn test_join_clause() {
    // NATURAL INNER JOIN test AS t
    let j = JoinClause::from_pair(join_tree(
        Rule::natural_join,
        vec![join_type_tree(&[Rule::keyword_inner]), table_tree("test", Some("t"))],
    ))
    .unwrap();
    assert_eq!(
        join_rel(j),
        JoinClause::NaturalJoin(NaturalJoin { ty: JoinType::Inner, table: table("test", Some("t")), location: at() })
    );

    // CROSS JOIN test AS t (twice)
    for _ in 0..2 {
        let j = JoinClause::from_pair(join_tree(Rule::cross_join, vec![table_tree("test", Some("t"))])).unwrap();
        assert_eq!(join_rel(j), JoinClause::CrossJoin(CrossJoin { table: table("test", Some("t")), location: at() }));
    }

    // INNER JOIN test AS t ON t.id >= 100
    let j = JoinClause::from_pair(join_tree(
        Rule::join_on,
        vec![
            join_type_tree(&[Rule::keyword_inner]),
            table_tree("test", Some("t")),
            expr_tree(bin(Rule::bigger_than_or_equal, T::Col(vec!["t", "id"]), T::Int("100"))),
        ],
    ))
    .unwrap();
    assert_eq!(
        join_rel(j),
        JoinClause::JoinOn(JoinOn {
            ty: JoinType::Inner,
            table: table("test", Some("t")),
            on: binary(BinaryOperator::Bte, col(&["t", "id"]), int_e(100)),
            location: at(),
        })
    );

    // LEFT OUTER JOIN test2 AS t2 ON t2.assoc = t1.id
    let j = JoinClause::from_pair(join_tree(
        Rule::join_on,
        vec![
            join_type_tree(&[Rule::keyword_left, Rule::keyword_outer]),
            table_tree("test2", Some("t2")),
            expr_tree(bin(Rule::equal, T::Col(vec!["t2", "assoc"]), T::Col(vec!["t1", "id"]))),
        ],
    ))
    .unwrap();
    assert_eq!(
        join_rel(j),
        JoinClause::JoinOn(JoinOn {
            ty: JoinType::LeftOuter,
            table: table("test2", Some("t2")),
            on: binary(BinaryOperator::Eq, col(&["t2", "assoc"]), col(&["t1", "id"])),
            location: at(),
        })
    );
}

#[test]
fn test_from_clause() {
    // From test t
    let f = FromClause::from_pair(node(Rule::from_clause, vec![table_tree("test", Some("t"))])).unwrap();
    assert_eq!(from_rel(f), FromClause { table: table("test", Some("t")), join: vec![], location: at() });

    let assoc_on = || expr_tree(bin(Rule::equal, T::Col(vec!["t2", "assoc"]), T::Col(vec!["t1", "id"])));
    let assoc = || binary(BinaryOperator::Eq, col(&["t2", "assoc"]), col(&["t1", "id"]));

    // From test AS t1 INNER JOIN test2 AS t2 ON t2.assoc = t1.id
    let f = FromClause::from_pair(node(
        Rule::from_clause,
        vec![
            table_tree("test", Some("t1")),
            join_tree(Rule::join_on, vec![join_type_tree(&[Rule::keyword_inner]), table_tree("test2", Some("t2")), assoc_on()]),
        ],
    ))
    .unwrap();
    assert_eq!(
        from_rel(f),
        FromClause {
            table: table("test", Some("t1")),
            join: vec![JoinClause::JoinOn(JoinOn { ty: JoinType::Inner, table: table("test2", Some("t2")), on: assoc(), location: at() })],
            location: at(),
        }
    );

    // From test t1 RIGHT JOIN test2 t2 ON t2.assoc = t1. id NATURAL RIGHT OUTER JOIN test2
    let f = FromClause::from_pair(node(
        Rule::from_clause,
        vec![
            table_tree("test", Some("t1")),
            join_tree(Rule::join_on, vec![join_type_tree(&[Rule::keyword_right]), table_tree("test2", Some("t2")), assoc_on()]),
            join_tree(
                Rule::natural_join,
                vec![join_type_tree(&[Rule::keyword_right, Rule::keyword_outer]), table_tree("test2", None)],
            ),
        ],
    ))
    .unwrap();
    assert_eq!(
        from_rel(f),
        FromClause {
            table: table("test", Some("t1")),
            join: vec![
                JoinClause::JoinOn(JoinOn { ty: JoinType::Right, table: table("test2", Some("t2")), on: assoc(), location: at() }),
                JoinClause::NaturalJoin(NaturalJoin { ty: JoinType::RightOuter, table: table("test2", None), location: at() }),
            ],
            location: at(),
        }
    );
}

#[test]
fn test_delete_query() {
    // DELETE FROM Test AS t WHERE t.id >= 100
    let q = DeleteQuery::from_pair(node(
        Rule::delete_query,
        vec![
            node(Rule::from_clause, vec![table_tree("Test", Some("t"))]),
            expr_tree(bin(Rule::bigger_than_or_equal, T::Col(vec!["t", "id"]), T::Int("100"))),
        ],
    ))
    .unwrap();
    assert_eq!(from_rel(q.from), FromClause { table: table("Test", Some("t")), join: vec![], location: at() });
    assert_eq!(q.where_clause.map(expr_rel), Some(binary(BinaryOperator::Bte, col(&["t", "id"]), int_e(100))));
}

#[test]
fn expr_test_expr() {
    // 1 + 1 * 10 = 11
    let e = Expr::from_pair(expr_tree(bin(
        Rule::equal,
        bin(Rule::plus, T::Int("1"), bin(Rule::multi, T::Int("1"), T::Int("10"))),
        T::Int("11"),
    )))
    .unwrap();
    assert_eq!(
        expr_rel(e),
        binary(
            BinaryOperator::Eq,
            binary(BinaryOperator::Plus, int_e(1), binary(BinaryOperator::Multi, int_e(1), int_e(10))),
            int_e(11)
        )
    );

    // (1 + 1) * 10 != 11
    let e = Expr::from_pair(expr_tree(bin(
        Rule::not_equal,
        bin(Rule::multi, bin(Rule::plus, T::Int("1"), T::Int("1")), T::Int("10")),
        T::Int("11"),
    )))
    .unwrap();
    assert_eq!(
        expr_rel(e),
        binary(
            BinaryOperator::Neq,
            binary(BinaryOperator::Multi, binary(BinaryOperator::Plus, int_e(1), int_e(1)), int_e(10)),
            int_e(11)
        )
    );

    // column.a >= 11.1 AND NOT test(column."b" + 10, Null) OR false
    let e = Expr::from_pair(expr_tree(bin(
        Rule::bool_or,
        bin(
            Rule::bool_and,
            bin(Rule::bigger_than_or_equal, T::Col(vec!["column", "a"]), T::Flo("11.1")),
            T::Not(Box::new(T::Call("test", vec![bin(Rule::plus, T::Col(vec!["column", "b"]), T::Int("10")), T::Null]))),
        ),
        T::Bool(false),
    )))
    .unwrap();
    assert_eq!(
        expr_rel(e),
        binary(
            BinaryOperator::Or,
            binary(
                BinaryOperator::And,
                binary(
                    BinaryOperator::Bte,
                    col(&["column", "a"]),
                    Expr::Literal(Literal::Float(Float { value: "11.1".to_string(), location: at() }))
                ),
                Expr::Unary(Unary {
                    operator: UnaryOperator::Not,
                    right: Box::new(Expr::FunctionCall(FunctionCall {
                        ident: "test".to_string(),
                        parameters: vec![
                            binary(BinaryOperator::Plus, col(&["column", "b"]), int_e(10)),
                            Expr::Literal(Literal::Null(Null { location: at() })),
                        ],
                        location: at(),
                    })),
                    location: at(),
                })
            ),
            Expr::Literal(Literal::Boolean(Boolean { value: false, location: at() }))
        )
    );
}

#[test]
fn test_bool() {
    let lit1 = Boolean::from_pair(node(Rule::bool, vec![leaf(Rule::bool_true, "true")])).unwrap();
    let lit2 = Boolean::from_pair(node(Rule::bool, vec![leaf(Rule::bool_false, "false")])).unwrap();
    assert!(lit1.value);
    assert!(!lit2.value);
}

fn literal(inner: QueryPair) -> Literal {
    lit_rel(Literal::from_pair(node(Rule::literal, vec![inner])).unwrap())
}

#[test]
fn test_literal() {
    assert_eq!(
        literal(node(Rule::bool, vec![leaf(Rule::bool_true, "true")])),
        Literal::Boolean(Boolean { value: true, location: at() })
    );
    assert_eq!(
        literal(node(Rule::bool, vec![leaf(Rule::bool_false, "false")])),
        Literal::Boolean(Boolean { value: false, location: at() })
    );
    assert_eq!(literal(leaf(Rule::integer, "114514")), Literal::Integer(Integer { value: 114514, location: at() }));
    assert_eq!(literal(leaf(Rule::integer, "-114514")), Literal::Integer(Integer { value: -114514, location: at() }));
    match literal(leaf(Rule::float, "114.514")) {
        Literal::Float(f) => assert_eq!(f.value.parse::<f64>().unwrap(), 114.514),
        other => panic!("unexpected {:?}", other),
    }
    match literal(leaf(Rule::float, "-1e10")) {
        Literal::Float(f) => assert_eq!(f.value.parse::<f64>().unwrap(), -1e10),
        other => panic!("unexpected {:?}", other),
    }
    assert_eq!(
        literal(node(Rule::string, vec![leaf(Rule::string_inner, "\\n\\rtest")])),
        Literal::String(Str { value: "\\n\\rtest".to_string(), location: at() })
    );
    assert_eq!(
        literal(node(Rule::external_ident, vec![leaf(Rule::ident, "__external_value")])),
        Literal::External(ExternalValue { ident: "__external_value".to_string(), location: at() })
    );
    assert_eq!(
        literal(node(Rule::external_ident, vec![leaf(Rule::ident, "externa1_value")])),
        Literal::External(ExternalValue { ident: "externa1_value".to_string(), location: at() })
    );
    assert_eq!(literal(leaf(Rule::null, "Null")), Literal::Null(Null { location: at() }));
    assert_eq!(literal(leaf(Rule::null, "null")), Literal::Null(Null { location: at() }));
}

fn select_tree(with_group: bool) -> QueryPair {
    let mut inner = vec![
        node(Rule::select_clause, vec![node(Rule::select_item, vec![expr_tree(T::Col(vec!["*"]))])]),
        node(Rule::from_clause, vec![table_tree("Test", Some("t"))]),
        expr_tree(bin(Rule::bigger_than_or_equal, T::Col(vec!["t", "id"]), T::Int("100"))),
    ];
    if with_group {
        inner.push(node(
            Rule::group_by_clause,
            vec![
                expr_tree(T::Col(vec!["t", "ty"])),
                expr_tree(bin(Rule::not_equal, T::Col(vec!["t", "ty"]), T::Int("3"))),
            ],
        ));
    }
    inner.push(node(
        Rule::order_by_clause,
        vec![node(
            Rule::order_by_item,
            vec![expr_tree(T::Call("COUNT", vec![T::Col(vec!["t", "id"])])), leaf(Rule::keyword_desc, "DESC")],
        )],
    ));
    inner.push(node(Rule::limit_clause, vec![leaf(Rule::integer, "10")]));
    inner.push(node(Rule::offset_clause, vec![leaf(Rule::integer, "1")]));
    node(Rule::select_query, inner)
}

fn expected_select(with_group: bool) -> SelectQuery {
    SelectQuery {
        select_clause: SelectClause { items: vec![(col(&["*"]), None)], location: at() },
        from: FromClause { table: table("Test", Some("t")), join: vec![], location: at() },
        where_clause: Some(binary(BinaryOperator::Bte, col(&["t", "id"]), int_e(100))),
        group_by_clause: if with_group {
            Some(GroupByClause {
                by: col(&["t", "ty"]),
                having: Some(binary(BinaryOperator::Neq, col(&["t", "ty"]), int_e(3))),
                location: at(),
            })
        } else {
            None
        },
        order_by_clause: Some(OrderByClause {
            items: vec![(
                Expr::FunctionCall(FunctionCall { ident: "COUNT".to_string(), parameters: vec![col(&["t", "id"])], location: at() }),
                Order::Desc,
            )],
            location: at(),
        }),
        limit: Some(10),
        offset: Some(1),
        location: at(),
    }
}

#[test]
fn test_select() {
    // Select * from Test AS t WHERE t.id >= 100 GROUP BY t.ty HAVING t.ty != 3 Order By COUNT(t.id) DESC LIMIT 10 OFFSET 1
    let q = SelectQuery::from_pair(select_tree(true)).unwrap();
    assert_eq!(select_rel(q), expected_select(true));
    // Select * from Test AS t WHERE t.id >= 100 Order By COUNT(t.id) DESC LIMIT 10 OFFSET 1
    let q = SelectQuery::from_pair(select_tree(false)).unwrap();
    assert_eq!(select_rel(q), expected_select(false));
}

fn default_item() -> QueryPair {
    node(Rule::value_item, vec![leaf(Rule::keyword_default, "default")])
}

fn value_item(t: T) -> QueryPair {
    node(Rule::value_item, vec![expr_tree(t)])
}

fn expected_set(first: &[&str], second: &[&str]) -> SetClause {
    SetClause {
        items: vec![(col_ident(first), ValueItem::Default), (col_ident(second), ValueItem::Expr(int_e(1)))],
        location: at(),
    }
}

#[test]
fn test_set() {
    // SET a = default, b = 1
    let s = SetClause::from_pair(node(
        Rule::set_clause,
        vec![node(Rule::assignments, vec![column_tree(&["a"]), default_item(), column_tree(&["b"]), value_item(T::Int("1"))])],
    ))
    .unwrap();
    assert_eq!(set_rel(s), expected_set(&["a"], &["b"]));

    // SET (a, b) = (default, 1)
    let s = SetClause::from_pair(node(
        Rule::set_clause,
        vec![
            node(Rule::column_list, vec![column_tree(&["a"]), column_tree(&["b"])]),
            node(Rule::column_list, vec![default_item(), value_item(T::Int("1"))]),
        ],
    ))
    .unwrap();
    assert_eq!(set_rel(s), expected_set(&["a"], &["b"]));
}

#[test]
fn test_update() {
    // UPDATE TEST1 t SET t.a = default, t.b = 1 FROM TEST2 t2 WHERE t.id > 100
    let q = UpdateQuery::from_pair(node(
        Rule::update_query,
        vec![
            table_tree("TEST1", Some("t")),
            node(
                Rule::set_clause,
                vec![node(
                    Rule::assignments,
                    vec![column_tree(&["t", "a"]), default_item(), column_tree(&["t", "b"]), value_item(T::Int("1"))],
                )],
            ),
            table_tree("TEST2", Some("t2")),
            expr_tree(bin(Rule::bigger_than, T::Col(vec!["t", "id"]), T::Int("100"))),
        ],
    ))
    .unwrap();
    assert_eq!(table_rel(q.update_table), table("TEST1", Some("t")));
    assert_eq!(set_rel(q.set_clause), expected_set(&["t", "a"], &["t", "b"]));
    assert_eq!(q.from_table.map(table_rel), Some(table("TEST2", Some("t2"))));
    assert_eq!(q.where_clause.map(expr_rel), Some(binary(BinaryOperator::Bt, col(&["t", "id"]), int_e(100))));
}

use yukino::query::expr::{
    BinaryExpression, DatabaseIdent, Expression, FloatLit, FunctionCall, Literal,
    UnaryExpression,
};
use yukino::query::parse::TokenStream;

#[test]
fn ident_test_ident() {
    let mut token_stream = TokenStream::from_str("a.b.c").unwrap();

    let ident: DatabaseIdent = token_stream.parse().unwrap();

    assert_eq!(
        ident,
        DatabaseIdent {
            segments: vec!["a".to_string(), "b".to_string(), "c".to_string()]
        }
    )
}

#[test]
fn test_lit() {
    let mut token_stream = TokenStream::from_str("---114514").unwrap();

    let lit: Literal = token_stream.parse().unwrap();

    assert_eq!(lit, Literal::Int(-114514))
}

#[test]
fn test_function_peek() {
    let token_stream =
        TokenStream::from_str("test(table.column.a, \"やりますねぇ\", false)").unwrap();

    assert!(token_stream.peek::<FunctionCall>())
}

#[test]
fn expression_test_expr() {
    let mut token_stream = TokenStream::from_str(
        "-5 + (1 + ~2) * 10.0 <= test(table.column.*, \"やりますねぇ\", false)",
    )
    .unwrap();

    let result: Expression = token_stream.parse().unwrap();

    assert_eq!(
        result,
        Expression::Binary(BinaryExpression::LTE(
            Box::new(Expression::Binary(BinaryExpression::Add(
                Box::new(Expression::Literal(Literal::Int(-5))),
                Box::new(Expression::Binary(BinaryExpression::Multi(
                    Box::new(Expression::Binary(BinaryExpression::Add(
                        Box::new(Expression::Literal(Literal::Int(1))),
                        Box::new(Expression::Unary(UnaryExpression::BitInverse(Box::new(
                            Expression::Literal(Literal::Int(2))
                        ))))
                    ))),
                    Box::new(Expression::Literal(Literal::Float(FloatLit {
                        negative: false,
                        text: "10.0".to_string()
                    })))
                )))
            ))),
            Box::new(Expression::Function(FunctionCall {
                ident: "test".to_string(),
                parameters: vec![
                    Expression::Ident(DatabaseIdent {
                        segments: vec!["table".to_string(), "column".to_string(), "*".to_string()]
                    }),
                    Expression::Literal(Literal::Str("やりますねぇ".to_string())),
                    Expression::Literal(Literal::Bool(false)),
                ]
            }))
        ))
    )
}

use yukino::query::parse::TokenStream;

#[test]
fn test_lex() {
    let result =
        TokenStream::from_str("sElect __ident_a + ident_b * IdentC + 1 + \"sdasds\"").unwrap();

    assert_eq!(result.len(), 10);

    assert_eq!(
        result.to_string(),
        "select __ident_a + ident_b * IdentC + 1 + \"sdasds\" ".to_string()
    );
}

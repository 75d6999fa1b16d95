use yukino::association::AssociatedEntity;
use yukino::query::parse::TokenStream;
use yukino::query::syntax::expression::TypeFlag;

#[test]
fn associated_entity_states() {
    let unresolved: AssociatedEntity<String, Vec<(String, i64)>> =
        AssociatedEntity::Unresolved(vec![("user_id".to_string(), 3)]);
    assert!(!unresolved.resolved());
    assert!(unresolved.get().is_none());
    let resolved: AssociatedEntity<String, Vec<(String, i64)>> = AssociatedEntity::Resolved("alice".to_string());
    assert!(resolved.resolved());
    assert_eq!(resolved.get(), Some(&"alice".to_string()));
}

#[test]
fn type_flag_defaults_to_unresolved() {
    let flag: TypeFlag<u8> = TypeFlag::default();
    assert!(matches!(flag, TypeFlag::Unresolved));
}

#[test]
fn token_stream_from_checked_text() {
    assert!(TokenStream::try_from_str("select a + 1").unwrap().is_ok());
    assert!(TokenStream::try_from_str("a + 99999999999999999999999999").is_none());
    assert!(TokenStream::try_from_str("a + \u{0661}\u{0662}").is_none());
}

use yukino::association::{
    AssociatedEntityTypeResolver, AssociationDefinition, FieldDefinition, IdentResolveStatus,
};
use yukino::query::ast::clause::{JoinClause, JoinType};
use yukino::query::ast::expr::{Binary, BinaryOperator, Expr};
use yukino::query::ast::ident::ColumnIdent;
use yukino::query::ast::literal::{Float, Integer, Null, Str};
use yukino::query::ast::location::Location;
use yukino::query::type_check::TypeKind;

fn profile_field() -> FieldDefinition {
    FieldDefinition {
        entity: "User".to_string(),
        name: "profile".to_string(),
        type_resolver_name: "associated_object".to_string(),
        field_type: "Profile".to_string(),
        nullable: false,
        columns: vec!["profile_id".to_string(), "tenant".to_string()],
        tables: vec![],
        association: Some(AssociationDefinition {
            referenced_entity: "Profile".to_string(),
            is_list: false,
            column_map: vec![("profile_id".to_string(), "id".to_string()), ("tenant".to_string(), "tenant".to_string())],
        }),
    }
}

fn ident(segments: &[&str]) -> ColumnIdent {
    ColumnIdent { segments: segments.iter().map(|s| s.to_string()).collect(), location: Location::pos(3) }
}

fn column(a: &str, b: &str) -> Expr {
    Expr::ColumnIdent(ColumnIdent { segments: vec![a.to_string(), b.to_string()], location: Location::pos(3) })
}

fn eq(l: Expr, r: Expr) -> Expr {
    Expr::Binary(Binary { operator: BinaryOperator::Eq, left: Box::new(l), right: Box::new(r), location: Location::pos(3) })
}

#[test]
fn wrap_ident_joins_the_association() {
    let resolver = AssociatedEntityTypeResolver;
    let alias = "__User_profile_Profile";
    let (status, joins) = resolver.wrap_ident(&ident(&["u", "profile"]), &profile_field()).unwrap();
    assert_eq!(joins.len(), 1);
    match &joins[0] {
        JoinClause::JoinOn(j) => {
            assert_eq!(j.ty, JoinType::Inner);
            assert_eq!(j.table.name, "Profile");
            assert_eq!(j.table.alias, Some(alias.to_string()));
            let expected = Expr::Binary(Binary {
                operator: BinaryOperator::And,
                left: Box::new(eq(column("u", "tenant"), column(alias, "tenant"))),
                right: Box::new(eq(column("u", "profile_id"), column(alias, "id"))),
                location: Location::pos(3),
            });
            assert_eq!(j.on, expected);
        }
        other => panic!("unexpected {:?}", other),
    }
    match status {
        IdentResolveStatus::Resolved(w) => {
            assert_eq!(w.exprs, vec![column(alias, "*")]);
            assert_eq!(w.type_info.resolver_name, "associated_object");
            assert_eq!(w.type_info.field_type, "Profile");
            assert_eq!(w.type_info.type_kind, TypeKind::Others("AssociatedEntity".to_string()));
        }
        IdentResolveStatus::Unresolved(_) => panic!("not resolved"),
    }

    let (status, _) = resolver.wrap_ident(&ident(&["u", "profile", "name"]), &profile_field()).unwrap();
    assert!(matches!(status, IdentResolveStatus::Resolved(ref w) if w.exprs == vec![column(alias, "profile")]));

    let (status, _) = resolver.wrap_ident(&ident(&["u", "profile", "owner", "name"]), &profile_field()).unwrap();
    match status {
        IdentResolveStatus::Unresolved(c) => assert_eq!(c.segments, vec![alias.to_string(), "profile".to_string(), "owner".to_string()]),
        IdentResolveStatus::Resolved(_) => panic!("resolved"),
    }
}

#[test]
fn literals_compare_by_value() {
    assert_eq!(Integer { value: 3, location: Location::pos(0) }, Integer { value: 3, location: Location::pos(9) });
    assert_ne!(Integer { value: 3, location: Location::pos(0) }, Integer { value: 4, location: Location::pos(0) });
    assert_eq!(Str { value: "a".to_string(), location: Location::pos(0) }, Str { value: "a".to_string(), location: Location::span(1, 2) });
    assert_eq!(Float { value: "1.5".to_string(), location: Location::pos(0) }, Float { value: "1.5".to_string(), location: Location::pos(4) });
    assert_eq!(Null { location: Location::pos(0) }, Null { location: Location::pos(7) });
}

#[test]
fn booleans_need_a_word_end() {
    let ts = TokenStream::from_str("trueValue").unwrap();
    assert_eq!(ts.len(), 1);
    assert_eq!(ts.to_string(), "trueValue ");
    let ts = TokenStream::from_str("true and falsehood").unwrap();
    assert_eq!(ts.len(), 3);
    assert_eq!(ts.to_string(), "true and falsehood ");
}

#[test]
fn checked_expression_parse() {
    let mut ok = TokenStream::from_str("1 + 2").unwrap();
    assert!(matches!(ok.try_parse_expression(), Some(Ok(_))));
    let mut unfinished = TokenStream::from_str("(1 2) + 3").unwrap();
    assert!(unfinished.try_parse_expression().is_none());
    assert_eq!(unfinished.len(), 6);
}

#[test]
fn association_field_definitions() {
    let map = vec![("profile_id".to_string(), "id".to_string())];
    let (key, field) = yukino::association::association_definitions(
        &"profile".to_string(),
        &"Profile".to_string(),
        &"profile".to_string(),
        true,
        &vec!["profile_id".to_string()],
        &map,
    );
    assert_eq!(key.name, "__profile");
    assert_eq!(key.referenced_table, "profile");
    assert_eq!(key.column_map, map);
    assert_eq!(field.name, "profile");
    assert_eq!(field.type_resolver_name, "");
    assert_eq!(field.field_type, "Profile");
    assert!(field.nullable);
    assert!(field.tables.is_empty());
    let a = field.association.unwrap();
    assert_eq!(a.referenced_entity, "Profile");
    assert!(!a.is_list);
    assert_eq!(a.column_map, map);
}

use vstd::prelude::*;

use crate::query::ast::clause::{joins_view, JoinClause, JoinOn, JoinType, JoinV, TableRefV, TableReference};
use crate::query::ast::error::SyntaxErrorWithPos;
use crate::query::ast::expr::{Binary, BinaryOperator, Expr, ExprNode};
use crate::query::ast::ident::ColumnIdent;
use crate::query::ast::location::Location;
use crate::query::expr::ident::{copy_strings, strings_view};
use crate::query::parse::text::push_str;
use crate::query::type_check::type_kind::{TypeKind, TypeKindV};

verus! {

/// An entity that another one refers to: still the values of the columns that
/// refer to it (`P`), or the entity itself once it has been read.
#[derive(Clone)]
pub enum AssociatedEntity<E, P> {
    Unresolved(P),
    Resolved(E),
}

impl<E, P> AssociatedEntity<E, P> {
    /// Whether the entity has been read.
    pub fn resolved(&self) -> (r: bool)
        ensures
            r == (self is Resolved),
    {
        matches!(self, AssociatedEntity::Resolved(_))
    }

    /// The entity, once it has been read.
    pub fn get(&self) -> (r: Option<&E>)
        ensures
            match self {
                AssociatedEntity::Resolved(e) => r == Some(e),
                AssociatedEntity::Unresolved(_) => r is None,
            },
    {
        match self {
            AssociatedEntity::Resolved(entity) => Some(entity),
            _ => None,
        }
    }
}

/// How a field refers to another entity: the entity, whether the field holds a
/// list of them, and the pairs of a column of the field's table and the column of
/// the referenced table that it must equal.
pub struct AssociationDefinition {
    pub referenced_entity: String,
    pub is_list: bool,
    pub column_map: Vec<(String, String)>,
}

/// The value of an `AssociationDefinition`.
pub struct AssociationDefinitionV {
    pub referenced_entity: Seq<char>,
    pub is_list: bool,
    pub column_map: Seq<(Seq<char>, Seq<char>)>,
}

/// The texts of a sequence of pairs of strings.
pub open spec fn pairs_view(v: Seq<(String, String)>) -> Seq<(Seq<char>, Seq<char>)> {
    v.map_values(|p: (String, String)| (p.0@, p.1@))
}

impl View for AssociationDefinition {
    type V = AssociationDefinitionV;

    open spec fn view(&self) -> AssociationDefinitionV {
        AssociationDefinitionV {
            referenced_entity: self.referenced_entity@,
            is_list: self.is_list,
            column_map: pairs_view(self.column_map@),
        }
    }
}

/// A field of an entity: its entity and name, the name of the resolver of its
/// type, its type, whether it may be null, its columns and tables, and the entity
/// it refers to, if any.
pub struct FieldDefinition {
    pub entity: String,
    pub name: String,
    pub type_resolver_name: String,
    pub field_type: String,
    pub nullable: bool,
    pub columns: Vec<String>,
    pub tables: Vec<String>,
    pub association: Option<AssociationDefinition>,
}

/// The value of a `FieldDefinition`.
pub struct FieldDefinitionV {
    pub entity: Seq<char>,
    pub name: Seq<char>,
    pub type_resolver_name: Seq<char>,
    pub field_type: Seq<char>,
    pub nullable: bool,
    pub columns: Seq<Seq<char>>,
    pub tables: Seq<Seq<char>>,
    pub association: Option<AssociationDefinitionV>,
}

impl View for FieldDefinition {
    type V = FieldDefinitionV;

    open spec fn view(&self) -> FieldDefinitionV {
        FieldDefinitionV {
            entity: self.entity@,
            name: self.name@,
            type_resolver_name: self.type_resolver_name@,
            field_type: self.field_type@,
            nullable: self.nullable,
            columns: strings_view(self.columns@),
            tables: strings_view(self.tables@),
            association: match self.association {
                Some(a) => Some(a@),
                None => None,
            },
        }
    }
}

/// The type of an expression: the resolver that reads it, the field type, whether
/// it may be null, and its kind.
pub struct TypeInfo {
    pub resolver_name: String,
    pub field_type: String,
    pub nullable: bool,
    pub type_kind: TypeKind,
}

/// The value of a `TypeInfo`.
pub struct TypeInfoV {
    pub resolver_name: Seq<char>,
    pub field_type: Seq<char>,
    pub nullable: bool,
    pub type_kind: TypeKindV,
}

impl View for TypeInfo {
    type V = TypeInfoV;

    open spec fn view(&self) -> TypeInfoV {
        TypeInfoV {
            resolver_name: self.resolver_name@,
            field_type: self.field_type@,
            nullable: self.nullable,
            type_kind: self.type_kind@,
        }
    }
}

/// Expressions that together stand for one value of a type, and where they stand.
pub struct ExprWrapper {
    pub exprs: Vec<Expr>,
    pub type_info: TypeInfo,
    pub location: Location,
}

/// The value of an `ExprWrapper`.
pub struct ExprWrapperV {
    pub exprs: Seq<ExprNode>,
    pub type_info: TypeInfoV,
    pub location: Location,
}

impl View for ExprWrapper {
    type V = ExprWrapperV;

    open spec fn view(&self) -> ExprWrapperV {
        ExprWrapperV {
            exprs: self.exprs@.map_values(|e: Expr| e@),
            type_info: self.type_info@,
            location: self.location,
        }
    }
}

/// What resolving a column name gives: a name that is still to be resolved, or
/// the expressions it stands for.
pub enum IdentResolveStatus {
    Unresolved(ColumnIdent),
    Resolved(ExprWrapper),
}

/// The value of an `IdentResolveStatus`.
pub enum IdentResolveStatusV {
    Unresolved(Seq<Seq<char>>, Location),
    Resolved(ExprWrapperV),
}

impl View for IdentResolveStatus {
    type V = IdentResolveStatusV;

    open spec fn view(&self) -> IdentResolveStatusV {
        match self {
            IdentResolveStatus::Unresolved(c) => IdentResolveStatusV::Unresolved(
                strings_view(c.segments@),
                c.location,
            ),
            IdentResolveStatus::Resolved(w) => IdentResolveStatusV::Resolved(w@),
        }
    }
}

/// The alias under which a field's referenced entity is joined:
/// `__{entity}_{field}_{referenced entity}`.
pub open spec fn association_alias(fd: FieldDefinitionV, a: AssociationDefinitionV) -> Seq<char> {
    "__"@ + fd.entity + "_"@ + fd.name + "_"@ + a.referenced_entity
}

/// `self_alias.left = ref_alias.right` at `loc`.
pub open spec fn column_eq(
    self_alias: Seq<char>,
    ref_alias: Seq<char>,
    pair: (Seq<char>, Seq<char>),
    loc: Location,
) -> ExprNode {
    ExprNode::Binary(
        BinaryOperator::Eq,
        Box::new(ExprNode::ColumnIdent(seq![self_alias, pair.0], loc)),
        Box::new(ExprNode::ColumnIdent(seq![ref_alias, pair.1], loc)),
        loc,
    )
}

/// The condition of the join of an association: the equality of the last pair of
/// `cm`, and-ed on the left with the equalities of the first `k` pairs in order.
pub open spec fn join_condition(
    cm: Seq<(Seq<char>, Seq<char>)>,
    k: int,
    self_alias: Seq<char>,
    ref_alias: Seq<char>,
    loc: Location,
) -> ExprNode
    decreases k,
{
    if k <= 0 {
        column_eq(self_alias, ref_alias, cm.last(), loc)
    } else {
        ExprNode::Binary(
            BinaryOperator::And,
            Box::new(join_condition(cm, k - 1, self_alias, ref_alias, loc)),
            Box::new(column_eq(self_alias, ref_alias, cm[k - 1], loc)),
            loc,
        )
    }
}

/// The segments of a column name after its association is joined: the alias, the
/// segments between the first and the last, and `*` where nothing else is left.
pub open spec fn joined_segments(segs: Seq<Seq<char>>, alias: Seq<char>) -> Seq<Seq<char>> {
    let r = seq![alias] + segs.subrange(1, segs.len() - 1);
    if r.len() == 1 {
        r.push("*"@)
    } else {
        r
    }
}

/// The name of the resolver of associated entities.
pub open spec fn association_resolver_name() -> Seq<char> {
    "associated_object"@
}

/// The kind of an associated entity.
pub open spec fn association_kind() -> TypeKindV {
    TypeKindV::Others("AssociatedEntity"@)
}

/// Resolving the column name `segs` at `loc` whose first segment is the alias of
/// the entity that has the association field `fd`: the name rewritten onto the
/// joined entity (still to be resolved where more than two segments are left,
/// else the column of an associated entity), and the inner join of the referenced
/// entity under its alias on the equalities of the column map.
pub open spec fn wrap_ident_spec(segs: Seq<Seq<char>>, loc: Location, fd: FieldDefinitionV) -> (
    IdentResolveStatusV,
    Seq<JoinV>,
) {
    let a = fd.association->Some_0;
    let alias = association_alias(fd, a);
    let on = join_condition(a.column_map, a.column_map.len() - 1, segs[0], alias, loc);
    let join = JoinV::On(
        JoinType::Inner,
        TableRefV { name: a.referenced_entity, alias: Some(alias), location: loc },
        on,
        loc,
    );
    let rewritten = joined_segments(segs, alias);
    let status = if rewritten.len() > 2 {
        IdentResolveStatusV::Unresolved(rewritten, loc)
    } else {
        IdentResolveStatusV::Resolved(
            ExprWrapperV {
                exprs: seq![ExprNode::ColumnIdent(rewritten, loc)],
                type_info: TypeInfoV {
                    resolver_name: association_resolver_name(),
                    field_type: fd.field_type,
                    nullable: fd.nullable,
                    type_kind: association_kind(),
                },
                location: loc,
            },
        )
    };
    (status, seq![join])
}

fn column_eq_expr(
    self_alias: &String,
    ref_alias: &String,
    left: &String,
    right: &String,
    location: Location,
) -> (r: Expr)
    ensures
        r@ == column_eq(self_alias@, ref_alias@, (left@, right@), location),
{
    let l = ColumnIdent { segments: vec![self_alias.clone(), left.clone()], location };
    let r = ColumnIdent { segments: vec![ref_alias.clone(), right.clone()], location };
    assert(strings_view(l.segments@) =~= seq![self_alias@, left@]);
    assert(strings_view(r.segments@) =~= seq![ref_alias@, right@]);
    let le = Expr::ColumnIdent(l);
    let re = Expr::ColumnIdent(r);
    assert(le@ == ExprNode::ColumnIdent(seq![self_alias@, left@], location));
    assert(re@ == ExprNode::ColumnIdent(seq![ref_alias@, right@], location));
    Expr::Binary(
        Binary { operator: BinaryOperator::Eq, left: Box::new(le), right: Box::new(re), location },
    )
}

/// The resolver of the type of associated entities.
pub struct AssociatedEntityTypeResolver;

impl AssociatedEntityTypeResolver {
    /// The resolver's name.
    pub fn name(&self) -> (r: String)
        ensures
            r@ == association_resolver_name(),
    {
        let mut r = String::new();
        push_str(&mut r, "associated_object");
        assert(r@ =~= association_resolver_name());
        r
    }

    /// The kind of the values it resolves.
    pub fn type_kind(&self) -> (r: TypeKind)
        ensures
            r@ == association_kind(),
    {
        let mut s = String::new();
        push_str(&mut s, "AssociatedEntity");
        assert(s@ =~= "AssociatedEntity"@);
        TypeKind::Others(s)
    }

    /// Resolves a column name that goes through the association field
    /// `field_definition` (see `wrap_ident_spec`).
    pub fn wrap_ident(&self, ident: &ColumnIdent, field_definition: &FieldDefinition) -> (r: Result<
        (IdentResolveStatus, Vec<JoinClause>),
        SyntaxErrorWithPos,
    >)
        requires
            field_definition.association is Some,
            field_definition.association->Some_0.column_map.len() > 0,
            ident.segments.len() >= 2,
        ensures
            r matches Ok((status, joins)) && (status@, joins_view(joins@)) == wrap_ident_spec(
                strings_view(ident.segments@),
                ident.location,
                field_definition@,
            ),
    {
        let association = field_definition.association.as_ref().unwrap();
        let ghost fd = field_definition@;
        let ghost a = association@;
        let ghost segs = strings_view(ident.segments@);
        let location = ident.location;
        let self_alias = ident.segments[0].clone();
        assert(self_alias@ == segs[0]);
        let mut ref_alias = String::new();
        push_str(&mut ref_alias, "__");
        push_str(&mut ref_alias, field_definition.entity.as_str());
        push_str(&mut ref_alias, "_");
        push_str(&mut ref_alias, field_definition.name.as_str());
        push_str(&mut ref_alias, "_");
        push_str(&mut ref_alias, association.referenced_entity.as_str());
        assert(ref_alias@ =~= association_alias(fd, a));
        let cm = &association.column_map;
        let n = cm.len();
        let ghost cmv = pairs_view(cm@);
        assert(cmv.last() == (cm@[n - 1].0@, cm@[n - 1].1@));
        let mut on = column_eq_expr(&self_alias, &ref_alias, &cm[n - 1].0, &cm[n - 1].1, location);
        let mut i: usize = 0;
        while i < n - 1
            invariant
                n == cm@.len(),
                n >= 1,
                cmv == pairs_view(cm@),
                i <= n - 1,
                on@ == join_condition(cmv, i as int, self_alias@, ref_alias@, location),
            decreases n - 1 - i,
        {
            assert(cmv[i as int] == (cm@[i as int].0@, cm@[i as int].1@));
            let e = column_eq_expr(&self_alias, &ref_alias, &cm[i].0, &cm[i].1, location);
            on = Expr::Binary(
                Binary { operator: BinaryOperator::And, left: Box::new(on), right: Box::new(e), location },
            );
            i = i + 1;
        }
        let join = JoinClause::JoinOn(
            JoinOn {
                ty: JoinType::Inner,
                table: TableReference {
                    name: association.referenced_entity.clone(),
                    alias: Some(ref_alias.clone()),
                    location,
                },
                on,
                location,
            },
        );
        let m = ident.segments.len();
        let mut segments: Vec<String> = Vec::new();
        segments.push(ref_alias);
        let mut j: usize = 1;
        while j < m - 1
            invariant
                m == ident.segments@.len(),
                m >= 2,
                1 <= j <= m - 1,
                segs == strings_view(ident.segments@),
                strings_view(segments@) == seq![association_alias(fd, a)] + segs.subrange(1, j as int),
            decreases m - 1 - j,
        {
            let seg = ident.segments[j].clone();
            let ghost before = strings_view(segments@);
            segments.push(seg);
            assert(strings_view(segments@) =~= before.push(seg@));
            assert(segs.subrange(1, j + 1) =~= segs.subrange(1, j as int).push(segs[j as int]));
            j = j + 1;
        }
        if segments.len() == 1 {
            let ghost before = strings_view(segments@);
            let mut star = String::new();
            push_str(&mut star, "*");
            segments.push(star);
            assert(strings_view(segments@) =~= before.push("*"@));
        }
        assert(strings_view(segments@) =~= joined_segments(segs, association_alias(fd, a)));
        let ghost joins_expected = wrap_ident_spec(segs, location, fd).1;
        let joins = vec![join];
        assert(joins_view(joins@) =~= joins_expected);
        if segments.len() > 2 {
            Ok((IdentResolveStatus::Unresolved(ColumnIdent { segments, location }), joins))
        } else {
            let exprs = vec![Expr::ColumnIdent(ColumnIdent { segments, location })];
            let type_info = TypeInfo {
                resolver_name: self.name(),
                field_type: field_definition.field_type.clone(),
                nullable: field_definition.nullable,
                type_kind: self.type_kind(),
            };
            let wrapper = ExprWrapper { exprs, type_info, location };
            assert(wrapper@.exprs =~= seq![ExprNode::ColumnIdent(joined_segments(segs, association_alias(fd, a)), location)]);
            Ok((IdentResolveStatus::Resolved(wrapper), joins))
        }
    }
}

/// A foreign key of a table: its name, the table it refers to, and the pairs of a
/// column of the table and the referenced column.
pub struct ForeignKeyDefinition {
    pub name: String,
    pub referenced_table: String,
    pub column_map: Vec<(String, String)>,
}

/// The value of a `ForeignKeyDefinition`.
pub struct ForeignKeyDefinitionV {
    pub name: Seq<char>,
    pub referenced_table: Seq<char>,
    pub column_map: Seq<(Seq<char>, Seq<char>)>,
}

impl View for ForeignKeyDefinition {
    type V = ForeignKeyDefinitionV;

    open spec fn view(&self) -> ForeignKeyDefinitionV {
        ForeignKeyDefinitionV {
            name: self.name@,
            referenced_table: self.referenced_table@,
            column_map: pairs_view(self.column_map@),
        }
    }
}

/// A copy of a sequence of pairs of strings.
pub fn copy_pairs(v: &Vec<(String, String)>) -> (r: Vec<(String, String)>)
    ensures
        pairs_view(r@) == pairs_view(v@),
{
    let mut r: Vec<(String, String)> = Vec::new();
    let mut i: usize = 0;
    while i < v.len()
        invariant
            i <= v@.len(),
            pairs_view(r@) == pairs_view(v@.take(i as int)),
        decreases v@.len() - i,
    {
        let p = (v[i].0.clone(), v[i].1.clone());
        let ghost before = r@;
        r.push(p);
        assert(pairs_view(r@) =~= pairs_view(before).push((p.0@, p.1@)));
        assert(pairs_view(v@.take(i + 1)) =~= pairs_view(v@.take(i as int)).push(
            (v@[i as int].0@, v@[i as int].1@),
        ));
        i = i + 1;
    }
    assert(v@.take(v@.len() as int) =~= v@);
    r
}

/// The definitions that an association field gives its entity: the foreign key
/// `__{field}` to the referenced table over the column map, and the field's
/// definition (named after the field, with no type resolver, the referenced type
/// as its type, its columns, no tables, and the association to the referenced
/// type over the column map).
pub open spec fn association_definitions_spec(
    field_name: Seq<char>,
    referenced_type: Seq<char>,
    referenced_table: Seq<char>,
    nullable: bool,
    columns: Seq<Seq<char>>,
    column_map: Seq<(Seq<char>, Seq<char>)>,
) -> (ForeignKeyDefinitionV, FieldDefinitionV) {
    (
        ForeignKeyDefinitionV {
            name: "__"@ + field_name,
            referenced_table,
            column_map,
        },
        FieldDefinitionV {
            entity: field_name,
            name: field_name,
            type_resolver_name: Seq::empty(),
            field_type: referenced_type,
            nullable,
            columns,
            tables: Seq::empty(),
            association: Some(
                AssociationDefinitionV { referenced_entity: referenced_type, is_list: false, column_map },
            ),
        },
    )
}

/// The foreign key and the field definition of an association field (see
/// `association_definitions_spec`).
pub fn association_definitions(
    field_name: &String,
    referenced_type: &String,
    referenced_table: &String,
    nullable: bool,
    columns: &Vec<String>,
    column_map: &Vec<(String, String)>,
) -> (r: (ForeignKeyDefinition, FieldDefinition))
    ensures
        (r.0@, r.1@) == association_definitions_spec(
            field_name@,
            referenced_type@,
            referenced_table@,
            nullable,
            strings_view(columns@),
            pairs_view(column_map@),
        ),
{
    let mut key_name = String::new();
    push_str(&mut key_name, "__");
    push_str(&mut key_name, field_name.as_str());
    let key = ForeignKeyDefinition {
        name: key_name,
        referenced_table: referenced_table.clone(),
        column_map: copy_pairs(column_map),
    };
    let tables: Vec<String> = Vec::new();
    assert(strings_view(tables@) =~= Seq::<Seq<char>>::empty());
    let field = FieldDefinition {
        entity: field_name.clone(),
        name: field_name.clone(),
        type_resolver_name: String::new(),
        field_type: referenced_type.clone(),
        nullable,
        columns: copy_strings(columns),
        tables,
        association: Some(
            AssociationDefinition {
                referenced_entity: referenced_type.clone(),
                is_list: false,
                column_map: copy_pairs(column_map),
            },
        ),
    };
    assert(field@.type_resolver_name =~= Seq::<char>::empty());
    (key, field)
}

} // verus!

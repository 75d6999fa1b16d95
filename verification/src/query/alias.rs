use vstd::prelude::*;

use crate::query::ast::clause::{
    join_location, join_table, joins_view, FromClause, FromV, JoinClause, JoinOn, JoinV, TableRefV,
    TableReference,
};
use crate::query::ast::delete::DeleteQuery;
use crate::query::ast::expr::{Binary, Expr, ExprNode, Unary};
use crate::query::ast::ident::ColumnIdent;
use crate::query::ast::literal::{Literal, Null};
use crate::query::expr::ident::strings_view;
use crate::query::ast::error::{SyntaxError, SyntaxErrorV, SyntaxErrorWithPos, SyntaxErrorWithPosV};
use crate::query::ast::location::Location;
use crate::query::ast::query::{Query, QueryV};
use crate::query::ast::select::{
    item_view, opt_expr, GroupByClause, GroupByV, Order, OrderByClause, OrderByV, SelectClause,
    SelectClauseV, SelectQuery, SelectQueryV,
};
use crate::query::ast::traits::Locatable;
use crate::query::ast::update::UpdateQuery;

verus! {

/// The alias that a table without one is known by.
pub const GLOBAL: &'static str = "#global_alias";

/// An entry of a map of names: a key and its value.
pub type Entry = (Seq<char>, Seq<char>);

/// No key occurs twice among `s`.
pub open spec fn keys_distinct(s: Seq<Entry>) -> bool {
    forall|i: int, j: int| 0 <= i < j < s.len() ==> s[i].0 != s[j].0
}

/// `k` is a key among `s`.
pub open spec fn has_key(s: Seq<Entry>, k: Seq<char>) -> bool {
    exists|i: int| 0 <= i < s.len() && s[i].0 == k
}

/// The value of `k` among `s`, the last entry with that key winning.
pub open spec fn lookup(s: Seq<Entry>, k: Seq<char>) -> Option<Seq<char>>
    decreases s.len(),
{
    if s.len() == 0 {
        None
    } else if s.last().0 == k {
        Some(s.last().1)
    } else {
        lookup(s.drop_last(), k)
    }
}

/// A map from names to names (aliases to tables, entities to aliases), each key
/// once, in the order the keys were inserted.
#[derive(Debug)]
pub struct AliasMap {
    entries: Vec<(String, String)>,
}

impl View for AliasMap {
    type V = Seq<Entry>;

    closed spec fn view(&self) -> Seq<Entry> {
        self.entries@.map_values(|e: (String, String)| (e.0@, e.1@))
    }
}

impl AliasMap {
    #[verifier::type_invariant]
    spec fn inv(&self) -> bool {
        keys_distinct(self@)
    }

    /// The empty map.
    pub fn new() -> (r: AliasMap)
        ensures
            r@ == Seq::<Entry>::empty(),
    {
        let r = AliasMap { entries: Vec::new() };
        assert(r@ =~= Seq::<Entry>::empty());
        r
    }

    /// The number of keys.
    pub fn len(&self) -> (r: usize)
        ensures
            r == self@.len(),
    {
        self.entries.len()
    }

    /// The keys are distinct.
    pub fn distinct(&self)
        ensures
            keys_distinct(self@),
    {
        proof {
            use_type_invariant(self);
        }
    }

    /// Whether `key` is a key of the map.
    pub fn contains_key(&self, key: &String) -> (r: bool)
        ensures
            r == has_key(self@, key@),
    {
        let mut i: usize = 0;
        while i < self.entries.len()
            invariant
                i <= self.entries@.len(),
                self@.len() == self.entries@.len(),
                forall|j: int| 0 <= j < i ==> self@[j].0 != key@,
            decreases self.entries@.len() - i,
        {
            assert(self@[i as int] == (self.entries@[i as int].0@, self.entries@[i as int].1@));
            if self.entries[i].0 == *key {
                return true;
            }
            i = i + 1;
        }
        false
    }

    /// The value of `key`.
    pub fn get(&self, key: &String) -> (r: Option<&String>)
        ensures
            match r {
                Some(v) => lookup(self@, key@) == Some(v@),
                None => lookup(self@, key@) is None,
            },
    {
        let mut i: usize = self.entries.len();
        assert(self@.take(i as int) =~= self@);
        while i > 0
            invariant
                i <= self.entries@.len(),
                self@.len() == self.entries@.len(),
                lookup(self@, key@) == lookup(self@.take(i as int), key@),
            decreases i,
        {
            let ghost t = self@.take(i as int);
            assert(t.last() == (self.entries@[i - 1].0@, self.entries@[i - 1].1@));
            assert(t.drop_last() =~= self@.take(i - 1));
            if self.entries[i - 1].0 == *key {
                return Some(&self.entries[i - 1].1);
            }
            i = i - 1;
        }
        None
    }

    /// Adds `key` with `value`; `key` is not a key yet.
    pub fn insert(&mut self, key: String, value: String)
        requires
            !has_key(old(self)@, key@),
        ensures
            final(self)@ == old(self)@.push((key@, value@)),
    {
        proof {
            use_type_invariant(&*self);
        }
        let ghost before = self@;
        let ghost kv = (key@, value@);
        let mut entries = Vec::new();
        std::mem::swap(&mut entries, &mut self.entries);
        entries.push((key, value));
        assert(entries@.map_values(|e: (String, String)| (e.0@, e.1@)) =~= before.push(kv));
        self.entries = entries;
    }

    /// The entries, in the order their keys were inserted.
    pub fn entries(&self) -> (r: &Vec<(String, String)>)
        ensures
            r@.map_values(|e: (String, String)| (e.0@, e.1@)) == self@,
    {
        &self.entries
    }
}

/// After adding a key that a map of names does not have, the key maps to the
/// value added, every other key to what it mapped to before, and the keys are
/// still distinct.
pub proof fn law_insert_then_lookup(s: Seq<Entry>, k: Seq<char>, v: Seq<char>, other: Seq<char>)
    requires
        keys_distinct(s),
        !has_key(s, k),
    ensures
        lookup(s.push((k, v)), k) == Some(v),
        other != k ==> lookup(s.push((k, v)), other) == lookup(s, other),
        keys_distinct(s.push((k, v))),
{
    assert(s.push((k, v)).drop_last() =~= s);
    assert forall|i: int, j: int| 0 <= i < j < s.push((k, v)).len() implies s.push((k, v))[i].0
        != s.push((k, v))[j].0 by {
        if j == s.len() {
            assert(s[i].0 != k);
        }
    }
}

/// The entry of a table: its alias (the global alias where it has none) and its
/// name.
pub open spec fn table_entry(t: TableRefV) -> Entry {
    (
        match t.alias {
            Some(a) => a,
            None => GLOBAL@,
        },
        t.name,
    )
}

/// The error of an alias given twice.
pub open spec fn conflict(alias: Seq<char>, location: Location) -> SyntaxErrorWithPosV {
    SyntaxErrorWithPosV { error: SyntaxErrorV::ConflictAlias(alias), location }
}

/// The entries of `b` from the `i`-th on added to `m`, failing at the first key
/// that `m` has by then.
pub open spec fn merge_into(m: Seq<Entry>, b: Seq<Entry>, i: int, location: Location) -> Result<
    Seq<Entry>,
    SyntaxErrorWithPosV,
>
    decreases b.len() - i,
{
    if i < 0 || i >= b.len() {
        Ok(m)
    } else if has_key(m, b[i].0) {
        Err(conflict(b[i].0, location))
    } else {
        merge_into(m.push(b[i]), b, i + 1, location)
    }
}

/// Merging two outcomes of collecting aliases: the first error, else the second
/// map's entries added to the first's, failing where an alias is given twice.
pub open spec fn merge_spec(
    a: Result<Seq<Entry>, SyntaxErrorWithPosV>,
    b: Result<Seq<Entry>, SyntaxErrorWithPosV>,
    location: Location,
) -> Result<Seq<Entry>, SyntaxErrorWithPosV> {
    match a {
        Err(e) => Err(e),
        Ok(m) => match b {
            Err(e) => Err(e),
            Ok(bs) => merge_into(m, bs, 0, location),
        },
    }
}

/// The view of an outcome of collecting aliases.
pub open spec fn alias_result(r: Result<AliasMap, SyntaxErrorWithPos>) -> Result<
    Seq<Entry>,
    SyntaxErrorWithPosV,
> {
    match r {
        Ok(m) => Ok(m@),
        Err(e) => Err(e@),
    }
}

#[verifier::loop_isolation(false)]
fn merge_alias_map(
    a: Result<AliasMap, SyntaxErrorWithPos>,
    b: Result<AliasMap, SyntaxErrorWithPos>,
    location: Location,
) -> (r: Result<AliasMap, SyntaxErrorWithPos>)
    ensures
        alias_result(r) == merge_spec(alias_result(a), alias_result(b), location),
{
    let mut result = match a {
        Ok(m) => m,
        Err(e) => {
            return Err(e);
        },
    };
    let other = match b {
        Ok(m) => m,
        Err(e) => {
            return Err(e);
        },
    };
    let ghost bs = other@;
    let entries = other.entries();
    let mut i: usize = 0;
    while i < entries.len()
        invariant
            bs == entries@.map_values(|e: (String, String)| (e.0@, e.1@)),
            i <= entries@.len(),
            merge_into(alias_result(a)->Ok_0, bs, 0, location) == merge_into(
                result@,
                bs,
                i as int,
                location,
            ),
        decreases entries@.len() - i,
    {
        let alias = entries[i].0.clone();
        let table = entries[i].1.clone();
        assert(bs[i as int] == (alias@, table@));
        if result.contains_key(&alias) {
            return Err(location.error(SyntaxError::ConflictAlias(alias)));
        } else {
            result.insert(alias, table);
        }
        i = i + 1;
    }
    Ok(result)
}

/// A node of a query whose tables have aliases.
pub trait CollectTableAlias {
    /// The aliases of the node's tables, each with its table's name, or the error.
    spec fn table_aliases(&self) -> Result<Seq<Entry>, SyntaxErrorWithPosV>;

    fn collect_table_alias(&self) -> (r: Result<AliasMap, SyntaxErrorWithPos>)
        ensures
            alias_result(r) == self.table_aliases(),
    ;
}

impl CollectTableAlias for TableReference {
    open spec fn table_aliases(&self) -> Result<Seq<Entry>, SyntaxErrorWithPosV> {
        Ok(seq![table_entry(self@)])
    }

    fn collect_table_alias(&self) -> (r: Result<AliasMap, SyntaxErrorWithPos>) {
        let alias = match &self.alias {
            Some(a) => a.clone(),
            None => GLOBAL.to_owned(),
        };
        let mut m = AliasMap::new();
        m.insert(alias, self.name.clone());
        assert(m@ =~= seq![table_entry(self@)]);
        Ok(m)
    }
}

impl CollectTableAlias for JoinClause {
    open spec fn table_aliases(&self) -> Result<Seq<Entry>, SyntaxErrorWithPosV> {
        Ok(seq![table_entry(join_table(self@))])
    }

    fn collect_table_alias(&self) -> (r: Result<AliasMap, SyntaxErrorWithPos>) {
        match self {
            JoinClause::NaturalJoin(nature_join) => nature_join.table.collect_table_alias(),
            JoinClause::JoinOn(join_on) => join_on.table.collect_table_alias(),
            JoinClause::CrossJoin(cross_join) => cross_join.table.collect_table_alias(),
        }
    }
}

/// The aliases of a `FROM` clause after its first `n` joins: those of its table,
/// then those of each join merged in at the join's location.
pub open spec fn from_aliases_upto(f: FromV, n: int) -> Result<Seq<Entry>, SyntaxErrorWithPosV>
    decreases n,
{
    if n <= 0 {
        Ok(seq![table_entry(f.table)])
    } else {
        let j = f.join[n - 1];
        merge_spec(from_aliases_upto(f, n - 1), Ok(seq![table_entry(join_table(j))]), join_location(j))
    }
}

/// The aliases of a `FROM` clause.
pub open spec fn from_aliases(f: FromV) -> Result<Seq<Entry>, SyntaxErrorWithPosV> {
    from_aliases_upto(f, f.join.len() as int)
}

/// The entries of the tables of a `FROM` clause: its table's, then each join's.
pub open spec fn from_entries(f: FromV) -> Seq<Entry> {
    seq![table_entry(f.table)] + Seq::new(
        f.join.len(),
        |i: int| table_entry(join_table(f.join[i])),
    )
}

proof fn lemma_from_aliases_upto(f: FromV, n: int)
    requires
        0 <= n <= f.join.len(),
    ensures
        from_aliases_upto(f, n) is Ok <==> keys_distinct(from_entries(f).take(n + 1)),
        from_aliases_upto(f, n) matches Ok(m) ==> m == from_entries(f).take(n + 1),
        from_aliases_upto(f, n) matches Err(e) ==> e.error is ConflictAlias,
    decreases n,
{
    let all = from_entries(f);
    if n == 0 {
        assert(all.take(1) =~= seq![table_entry(f.table)]);
    } else {
        lemma_from_aliases_upto(f, n - 1);
        let prev = all.take(n);
        let e = all[n];
        assert(e == table_entry(join_table(f.join[n - 1])));
        assert(all.take(n + 1) =~= prev.push(e));
        let b = seq![e];
        if keys_distinct(prev) {
            reveal_with_fuel(merge_into, 2);
            if has_key(prev, e.0) {
                let i = choose|i: int| 0 <= i < prev.len() && prev[i].0 == e.0;
                assert(prev.push(e)[i].0 == prev.push(e)[n].0);
            } else {
                assert(merge_into(prev, b, 0, join_location(f.join[n - 1])) == merge_into(
                    prev.push(e),
                    b,
                    1,
                    join_location(f.join[n - 1]),
                ));
                assert forall|i: int, j: int|
                    0 <= i < j < prev.push(e).len() implies prev.push(e)[i].0 != prev.push(
                    e,
                )[j].0 by {
                    if j == n {
                        assert(prev[i].0 != e.0);
                    }
                }
            }
        } else {
            let (i, j) = choose|i: int, j: int|
                0 <= i < j < prev.len() && prev[i].0 == prev[j].0;
            assert(prev.push(e)[i].0 == prev.push(e)[j].0);
        }
    }
}

/// A `FROM` clause's aliases are collected exactly when no two of its tables
/// share an alias (a table without one counting as the global alias); they are
/// then the alias and the name of each table, its own first and then those of its
/// joins in order; otherwise the error is a conflict of aliases.
pub proof fn law_from_aliases(f: FromV)
    ensures
        from_aliases(f) is Ok <==> keys_distinct(from_entries(f)),
        from_aliases(f) matches Ok(m) ==> m == from_entries(f),
        from_aliases(f) matches Err(e) ==> e.error is ConflictAlias,
{
    lemma_from_aliases_upto(f, f.join.len() as int);
    assert(from_entries(f).take(f.join.len() + 1int) =~= from_entries(f));
}

impl CollectTableAlias for FromClause {
    open spec fn table_aliases(&self) -> Result<Seq<Entry>, SyntaxErrorWithPosV> {
        from_aliases(self@)
    }

    fn collect_table_alias(&self) -> (r: Result<AliasMap, SyntaxErrorWithPos>) {
        let mut result = self.table.collect_table_alias();
        let mut i: usize = 0;
        while i < self.join.len()
            invariant
                i <= self.join@.len(),
                alias_result(result) == from_aliases_upto(self@, i as int),
            decreases self.join@.len() - i,
        {
            let j = &self.join[i];
            assert(self@.join[i as int] == j@);
            result = merge_alias_map(result, j.collect_table_alias(), j.location());
            i = i + 1;
        }
        result
    }
}

impl CollectTableAlias for SelectQuery {
    open spec fn table_aliases(&self) -> Result<Seq<Entry>, SyntaxErrorWithPosV> {
        from_aliases(self.from@)
    }

    fn collect_table_alias(&self) -> (r: Result<AliasMap, SyntaxErrorWithPos>) {
        self.from.collect_table_alias()
    }
}

impl CollectTableAlias for DeleteQuery {
    open spec fn table_aliases(&self) -> Result<Seq<Entry>, SyntaxErrorWithPosV> {
        from_aliases(self.from@)
    }

    fn collect_table_alias(&self) -> (r: Result<AliasMap, SyntaxErrorWithPos>) {
        self.from.collect_table_alias()
    }
}

/// The aliases of an `UPDATE` query: those of its table, and those of its `FROM`
/// table merged in at that table's location.
pub open spec fn update_aliases(update: TableRefV, from: Option<TableRefV>) -> Result<
    Seq<Entry>,
    SyntaxErrorWithPosV,
> {
    match from {
        Some(t) => merge_spec(Ok(seq![table_entry(update)]), Ok(seq![table_entry(t)]), t.location),
        None => Ok(seq![table_entry(update)]),
    }
}

impl CollectTableAlias for UpdateQuery {
    open spec fn table_aliases(&self) -> Result<Seq<Entry>, SyntaxErrorWithPosV> {
        update_aliases(self.update_table@, self@.from_table)
    }

    fn collect_table_alias(&self) -> (r: Result<AliasMap, SyntaxErrorWithPos>) {
        let result = self.update_table.collect_table_alias();
        match &self.from_table {
            Some(from) => merge_alias_map(result, from.collect_table_alias(), from.location),
            None => result,
        }
    }
}

impl CollectTableAlias for Query {
    open spec fn table_aliases(&self) -> Result<Seq<Entry>, SyntaxErrorWithPosV> {
        match self@ {
            QueryV::Select(s) => from_aliases(s.from),
            QueryV::Delete(d) => from_aliases(d.from),
            QueryV::Update(u) => update_aliases(u.update_table, u.from_table),
        }
    }

    fn collect_table_alias(&self) -> (r: Result<AliasMap, SyntaxErrorWithPos>) {
        match self {
            Query::Select(select) => select.collect_table_alias(),
            Query::Delete(delete) => delete.collect_table_alias(),
            Query::Update(update) => update.collect_table_alias(),
        }
    }
}

/// An entry of a map of expression aliases: an alias and its expression.
pub type ExprEntry = (Seq<char>, ExprNode);

/// No alias occurs twice among `s`.
pub open spec fn expr_keys_distinct(s: Seq<ExprEntry>) -> bool {
    forall|i: int, j: int| 0 <= i < j < s.len() ==> s[i].0 != s[j].0
}

/// `k` is an alias among `s`.
pub open spec fn has_expr_key(s: Seq<ExprEntry>, k: Seq<char>) -> bool {
    exists|i: int| 0 <= i < s.len() && s[i].0 == k
}

/// A map from the aliases of a select clause to their expressions, each alias
/// once, in the order of the items.
#[derive(Debug)]
pub struct ExprAliasMap {
    entries: Vec<(String, Expr)>,
}

impl View for ExprAliasMap {
    type V = Seq<ExprEntry>;

    closed spec fn view(&self) -> Seq<ExprEntry> {
        self.entries@.map_values(|e: (String, Expr)| (e.0@, e.1@))
    }
}

impl ExprAliasMap {
    #[verifier::type_invariant]
    spec fn inv(&self) -> bool {
        expr_keys_distinct(self@)
    }

    /// The empty map.
    pub fn new() -> (r: ExprAliasMap)
        ensures
            r@ == Seq::<ExprEntry>::empty(),
    {
        let r = ExprAliasMap { entries: Vec::new() };
        assert(r@ =~= Seq::<ExprEntry>::empty());
        r
    }

    /// The number of aliases.
    pub fn len(&self) -> (r: usize)
        ensures
            r == self@.len(),
    {
        self.entries.len()
    }

    /// Whether `key` is an alias of the map.
    pub fn contains_key(&self, key: &String) -> (r: bool)
        ensures
            r == has_expr_key(self@, key@),
    {
        let mut i: usize = 0;
        while i < self.entries.len()
            invariant
                i <= self.entries@.len(),
                self@.len() == self.entries@.len(),
                forall|j: int| 0 <= j < i ==> self@[j].0 != key@,
            decreases self.entries@.len() - i,
        {
            assert(self@[i as int] == (self.entries@[i as int].0@, self.entries@[i as int].1@));
            if self.entries[i].0 == *key {
                return true;
            }
            i = i + 1;
        }
        false
    }

    /// The expression of `key`.
    pub fn get(&self, key: &String) -> (r: Option<&Expr>)
        ensures
            match r {
                Some(e) => exists|i: int| 0 <= i < self@.len() && self@[i] == (key@, e@),
                None => !has_expr_key(self@, key@),
            },
    {
        let mut i: usize = 0;
        while i < self.entries.len()
            invariant
                i <= self.entries@.len(),
                self@.len() == self.entries@.len(),
                forall|j: int| 0 <= j < i ==> self@[j].0 != key@,
            decreases self.entries@.len() - i,
        {
            assert(self@[i as int] == (self.entries@[i as int].0@, self.entries@[i as int].1@));
            if self.entries[i].0 == *key {
                return Some(&self.entries[i].1);
            }
            i = i + 1;
        }
        None
    }

    /// Adds `key` with `expr`; `key` is not an alias yet.
    pub fn insert(&mut self, key: String, expr: Expr)
        requires
            !has_expr_key(old(self)@, key@),
        ensures
            final(self)@ == old(self)@.push((key@, expr@)),
    {
        proof {
            use_type_invariant(&*self);
        }
        let ghost before = self@;
        let ghost kv = (key@, expr@);
        let mut entries = Vec::new();
        std::mem::swap(&mut entries, &mut self.entries);
        entries.push((key, expr));
        assert(entries@.map_values(|e: (String, Expr)| (e.0@, e.1@)) =~= before.push(kv));
        proof {
            assert forall|i: int, j: int| 0 <= i < j < before.push(kv).len() implies before.push(
                kv,
            )[i].0 != before.push(kv)[j].0 by {
                if j == before.len() {
                    assert(before[i].0 != key@);
                }
            }
        }
        self.entries = entries;
    }

    /// The entries, in the order of their items.
    pub fn entries(&self) -> (r: &Vec<(String, Expr)>)
        ensures
            r@.map_values(|e: (String, Expr)| (e.0@, e.1@)) == self@,
    {
        &self.entries
    }
}

/// The aliases of the first `n` items of a select clause at `location`, each with
/// its expression, failing at the first alias given twice.
pub open spec fn expr_aliases_upto(
    items: Seq<(ExprNode, Option<Seq<char>>)>,
    n: int,
    location: Location,
) -> Result<Seq<ExprEntry>, SyntaxErrorWithPosV>
    decreases n,
{
    if n <= 0 {
        Ok(seq![])
    } else {
        match expr_aliases_upto(items, n - 1, location) {
            Err(e) => Err(e),
            Ok(m) => match items[n - 1].1 {
                None => Ok(m),
                Some(a) => if has_expr_key(m, a) {
                    Err(conflict(a, location))
                } else {
                    Ok(m.push((a, items[n - 1].0)))
                },
            },
        }
    }
}

proof fn lemma_expr_aliases_err_stays(
    items: Seq<(ExprNode, Option<Seq<char>>)>,
    n: int,
    m: int,
    location: Location,
)
    requires
        0 <= n <= m,
        expr_aliases_upto(items, n, location) is Err,
    ensures
        expr_aliases_upto(items, m, location) == expr_aliases_upto(items, n, location),
    decreases m - n,
{
    if m > n {
        lemma_expr_aliases_err_stays(items, n, m - 1, location);
    }
}

/// The aliases of a select clause.
pub open spec fn select_expr_aliases(c: SelectClauseV) -> Result<Seq<ExprEntry>, SyntaxErrorWithPosV> {
    expr_aliases_upto(c.items, c.items.len() as int, c.location)
}

/// The items of the first `n` that have an alias: the alias and the expression.
pub open spec fn aliased_items(items: Seq<(ExprNode, Option<Seq<char>>)>, n: int) -> Seq<ExprEntry>
    decreases n,
{
    if n <= 0 {
        seq![]
    } else {
        match items[n - 1].1 {
            Some(a) => aliased_items(items, n - 1).push((a, items[n - 1].0)),
            None => aliased_items(items, n - 1),
        }
    }
}

proof fn lemma_expr_aliases_upto(items: Seq<(ExprNode, Option<Seq<char>>)>, n: int, location: Location)
    requires
        0 <= n <= items.len(),
    ensures
        expr_aliases_upto(items, n, location) is Ok <==> expr_keys_distinct(aliased_items(items, n)),
        expr_aliases_upto(items, n, location) matches Ok(m) ==> m == aliased_items(items, n),
        expr_aliases_upto(items, n, location) matches Err(e) ==> e.error is ConflictAlias
            && e.location == location,
    decreases n,
{
    if n > 0 {
        lemma_expr_aliases_upto(items, n - 1, location);
        let prev = aliased_items(items, n - 1);
        if let Some(a) = items[n - 1].1 {
            let e = (a, items[n - 1].0);
            if expr_keys_distinct(prev) {
                if has_expr_key(prev, a) {
                    let i = choose|i: int| 0 <= i < prev.len() && prev[i].0 == a;
                    assert(prev.push(e)[i].0 == prev.push(e)[prev.len() as int].0);
                } else {
                    assert forall|i: int, j: int|
                        0 <= i < j < prev.push(e).len() implies prev.push(e)[i].0 != prev.push(
                        e,
                    )[j].0 by {
                        if j == prev.len() {
                            assert(prev[i].0 != a);
                        }
                    }
                }
            } else {
                let (i, j) = choose|i: int, j: int|
                    0 <= i < j < prev.len() && prev[i].0 == prev[j].0;
                assert(prev.push(e)[i].0 == prev.push(e)[j].0);
            }
        }
    }
}

/// The aliases of a select clause are collected exactly when no alias is given
/// to two of its items; they are then the aliased items, each alias with its
/// expression, in the order of the items; otherwise the error is a conflict of
/// aliases at the clause's location.
pub proof fn law_select_expr_aliases(c: SelectClauseV)
    ensures
        select_expr_aliases(c) is Ok <==> expr_keys_distinct(
            aliased_items(c.items, c.items.len() as int),
        ),
        select_expr_aliases(c) matches Ok(m) ==> m == aliased_items(c.items, c.items.len() as int),
        select_expr_aliases(c) matches Err(e) ==> e.error is ConflictAlias && e.location
            == c.location,
{
    lemma_expr_aliases_upto(c.items, c.items.len() as int, c.location);
}

/// The view of an outcome of collecting expression aliases.
pub open spec fn expr_alias_result(r: Result<ExprAliasMap, SyntaxErrorWithPos>) -> Result<
    Seq<ExprEntry>,
    SyntaxErrorWithPosV,
> {
    match r {
        Ok(m) => Ok(m@),
        Err(e) => Err(e@),
    }
}

/// A node of a query whose select items may have aliases.
pub trait CollectExprAlias {
    /// The aliases of the node's select items, each with its expression, or the
    /// error.
    spec fn expr_aliases(&self) -> Result<Seq<ExprEntry>, SyntaxErrorWithPosV>;

    fn collect_expr_alias(&self) -> (r: Result<ExprAliasMap, SyntaxErrorWithPos>)
        ensures
            expr_alias_result(r) == self.expr_aliases(),
    ;
}

impl CollectExprAlias for SelectClause {
    open spec fn expr_aliases(&self) -> Result<Seq<ExprEntry>, SyntaxErrorWithPosV> {
        select_expr_aliases(self@)
    }

    fn collect_expr_alias(&self) -> (r: Result<ExprAliasMap, SyntaxErrorWithPos>) {
        let mut result = ExprAliasMap::new();
        let mut i: usize = 0;
        while i < self.items.len()
            invariant
                i <= self.items@.len(),
                self@.items.len() == self.items@.len(),
                expr_aliases_upto(self@.items, i as int, self.location) == Ok::<
                    Seq<ExprEntry>,
                    SyntaxErrorWithPosV,
                >(result@),
            decreases self.items@.len() - i,
        {
            let item = &self.items[i];
            assert(self@.items[i as int] == item_view(*item));
            match &item.1 {
                Some(alias) => {
                    if result.contains_key(alias) {
                        proof {
                            lemma_expr_aliases_err_stays(
                                self@.items,
                                i + 1,
                                self@.items.len() as int,
                                self.location,
                            );
                        }
                        return Err(self.location.error(SyntaxError::ConflictAlias(alias.clone())));
                    } else {
                        result.insert(alias.clone(), item.0.duplicate());
                    }
                },
                None => {},
            }
            i = i + 1;
        }
        Ok(result)
    }
}

impl CollectExprAlias for SelectQuery {
    open spec fn expr_aliases(&self) -> Result<Seq<ExprEntry>, SyntaxErrorWithPosV> {
        select_expr_aliases(self.select_clause@)
    }

    fn collect_expr_alias(&self) -> (r: Result<ExprAliasMap, SyntaxErrorWithPos>) {
        self.select_clause.collect_expr_alias()
    }
}

impl CollectExprAlias for Query {
    open spec fn expr_aliases(&self) -> Result<Seq<ExprEntry>, SyntaxErrorWithPosV> {
        match self@ {
            QueryV::Select(s) => select_expr_aliases(s.select_clause),
            _ => Ok(seq![]),
        }
    }

    fn collect_expr_alias(&self) -> (r: Result<ExprAliasMap, SyntaxErrorWithPos>) {
        match self {
            Query::Select(select) => select.collect_expr_alias(),
            _ => Ok(ExprAliasMap::new()),
        }
    }
}

/// An entry of a map of fields: an entity and the names of its fields.
pub type FieldEntry = (Seq<char>, Seq<Seq<char>>);

/// A map from the entities of a query to the names of their fields, each entity
/// once and each field once within its entity.
#[derive(Debug)]
pub struct FieldMap {
    entries: Vec<(String, Vec<String>)>,
}

impl View for FieldMap {
    type V = Seq<FieldEntry>;

    closed spec fn view(&self) -> Seq<FieldEntry> {
        self.entries@.map_values(|e: (String, Vec<String>)| (e.0@, strings_view(e.1@)))
    }
}

/// No entity occurs twice among `s`.
pub open spec fn entities_distinct(s: Seq<FieldEntry>) -> bool {
    forall|i: int, j: int| 0 <= i < j < s.len() ==> s[i].0 != s[j].0
}

/// No name occurs twice among `s`.
pub open spec fn names_distinct(s: Seq<Seq<char>>) -> bool {
    forall|i: int, j: int| 0 <= i < j < s.len() ==> s[i] != s[j]
}

impl FieldMap {
    #[verifier::type_invariant]
    spec fn inv(&self) -> bool {
        &&& entities_distinct(self@)
        &&& forall|i: int| 0 <= i < self@.len() ==> names_distinct(#[trigger] self@[i].1)
    }

    /// The empty map.
    pub fn new() -> (r: FieldMap)
        ensures
            r@ == Seq::<FieldEntry>::empty(),
    {
        let r = FieldMap { entries: Vec::new() };
        assert(r@ =~= Seq::<FieldEntry>::empty());
        r
    }

    /// Adds `entity` with the fields `fields`; `entity` is not in the map yet,
    /// and no field is given twice.
    pub fn insert(&mut self, entity: String, fields: Vec<String>)
        requires
            forall|i: int| 0 <= i < old(self)@.len() ==> old(self)@[i].0 != entity@,
            names_distinct(strings_view(fields@)),
        ensures
            final(self)@ == old(self)@.push((entity@, strings_view(fields@))),
    {
        proof {
            use_type_invariant(&*self);
        }
        let ghost before = self@;
        let ghost kv = (entity@, strings_view(fields@));
        let mut entries = Vec::new();
        std::mem::swap(&mut entries, &mut self.entries);
        entries.push((entity, fields));
        assert(entries@.map_values(|e: (String, Vec<String>)| (e.0@, strings_view(e.1@))) =~= before.push(kv));
        self.entries = entries;
    }
}

/// The entities among `fm` that have a field `field`, in order.
pub open spec fn entities_with(fm: Seq<FieldEntry>, field: Seq<char>) -> Seq<Seq<char>>
    decreases fm.len(),
{
    if fm.len() == 0 {
        seq![]
    } else {
        let rest = entities_with(fm.drop_last(), field);
        if fm.last().1.contains(field) {
            rest.push(fm.last().0)
        } else {
            rest
        }
    }
}

fn has_field(fields: &Vec<String>, field: &String) -> (r: bool)
    ensures
        r == strings_view(fields@).contains(field@),
{
    let mut i: usize = 0;
    while i < fields.len()
        invariant
            i <= fields@.len(),
            forall|j: int| 0 <= j < i ==> fields@[j]@ != field@,
        decreases fields@.len() - i,
    {
        if fields[i] == *field {
            assert(strings_view(fields@)[i as int] == field@);
            return true;
        }
        i = i + 1;
    }
    proof {
        if strings_view(fields@).contains(field@) {
            let j = choose|j: int| 0 <= j < fields@.len() && strings_view(fields@)[j] == field@;
            assert(fields@[j]@ == field@);
        }
    }
    false
}

impl FieldMap {
    /// The entities that have a field `field`.
    pub fn entities_with_field(&self, field: &String) -> (r: Vec<String>)
        ensures
            strings_view(r@) == entities_with(self@, field@),
    {
        let mut r: Vec<String> = Vec::new();
        let mut i: usize = 0;
        assert(strings_view(r@) =~= seq![]);
        assert(self@.take(0) =~= Seq::<FieldEntry>::empty());
        while i < self.entries.len()
            invariant
                i <= self.entries@.len(),
                self@.len() == self.entries@.len(),
                strings_view(r@) == entities_with(self@.take(i as int), field@),
            decreases self.entries@.len() - i,
        {
            let ghost t = self@.take(i + 1);
            assert(t.drop_last() =~= self@.take(i as int));
            assert(t.last() == (self.entries@[i as int].0@, strings_view(self.entries@[i as int].1@)));
            let ghost before = strings_view(r@);
            if has_field(&self.entries[i].1, field) {
                r.push(self.entries[i].0.clone());
                assert(strings_view(r@) =~= before.push(self.entries@[i as int].0@));
            }
            i = i + 1;
        }
        assert(self@.take(self.entries@.len() as int) =~= self@);
        r
    }
}

/// The error of a field that is not known.
pub open spec fn unknown_field(entity: Seq<char>, field: Seq<char>, location: Location) -> SyntaxErrorWithPosV {
    SyntaxErrorWithPosV { error: SyntaxErrorV::UnknownField(entity, field), location }
}

/// The view of the outcome of a replacement.
pub open spec fn unit_result(r: Result<(), SyntaxErrorWithPos>) -> Result<(), SyntaxErrorWithPosV> {
    match r {
        Ok(()) => Ok(()),
        Err(e) => Err(e@),
    }
}

/// Qualifying the column names of an expression whose first segment is no table
/// alias with the generated alias of the one entity that has such a field: the
/// expression after and the outcome; `None` where a column has no segment (the
/// replacement panics). It goes through binary and unary operations, left before
/// right, and stops at the first error.
pub open spec fn replace_expr(e: ExprNode, ga: Seq<Entry>, ta: Seq<Entry>, fm: Seq<FieldEntry>) -> Option<
    (ExprNode, Result<(), SyntaxErrorWithPosV>),
>
    decreases e,
{
    match e {
        ExprNode::ColumnIdent(segs, loc) => if segs.len() == 0 {
            None
        } else {
            let first = segs[0];
            if has_key(ta, first) {
                Some((e, Ok(())))
            } else {
                let entities = entities_with(fm, first);
                if entities.len() == 1 {
                    match lookup(ga, entities[0]) {
                        Some(alias) => Some((ExprNode::ColumnIdent(seq![alias] + segs, loc), Ok(()))),
                        None => Some((e, Err(unknown_field("*"@, first, loc)))),
                    }
                } else {
                    Some((e, Err(conflict(first, loc))))
                }
            }
        },
        ExprNode::Binary(op, l, r, loc) => match replace_expr(*l, ga, ta, fm) {
            None => None,
            Some((l2, Err(x))) => Some((ExprNode::Binary(op, Box::new(l2), r, loc), Err(x))),
            Some((l2, Ok(()))) => match replace_expr(*r, ga, ta, fm) {
                None => None,
                Some((r2, res)) => Some((ExprNode::Binary(op, Box::new(l2), Box::new(r2), loc), res)),
            },
        },
        ExprNode::Unary(op, r, loc) => match replace_expr(*r, ga, ta, fm) {
            None => None,
            Some((r2, res)) => Some((ExprNode::Unary(op, Box::new(r2), loc), res)),
        },
        _ => Some((e, Ok(()))),
    }
}

/// `v` is the value of some entry of `s`.
pub open spec fn has_value(s: Seq<Entry>, v: Seq<char>) -> bool {
    exists|i: int| 0 <= i < s.len() && s[i].1 == v
}

/// Every column name of `e` outside function calls begins with a table alias of
/// `ta` or with an alias that `ga` gives an entity.
pub open spec fn columns_qualified(e: ExprNode, ga: Seq<Entry>, ta: Seq<Entry>) -> bool
    decreases e,
{
    match e {
        ExprNode::ColumnIdent(segs, _) => segs.len() > 0 && (has_key(ta, segs[0]) || has_value(
            ga,
            segs[0],
        )),
        ExprNode::Binary(_, l, r, _) => columns_qualified(*l, ga, ta) && columns_qualified(*r, ga, ta),
        ExprNode::Unary(_, r, _) => columns_qualified(*r, ga, ta),
        _ => true,
    }
}

proof fn lemma_lookup_has_value(s: Seq<Entry>, k: Seq<char>)
    requires
        lookup(s, k) is Some,
    ensures
        has_value(s, lookup(s, k)->Some_0),
    decreases s.len(),
{
    if s.last().0 != k {
        lemma_lookup_has_value(s.drop_last(), k);
        let i = choose|i: int| 0 <= i < s.drop_last().len() && s.drop_last()[i].1 == lookup(s, k)->Some_0;
        assert(s[i] == s.drop_last()[i]);
    } else {
        assert(s[s.len() - 1].1 == lookup(s, k)->Some_0);
    }
}

/// Where qualifying the column names of an expression succeeds, every column name
/// outside function calls begins with a table alias or with the generated alias
/// of an entity.
pub proof fn law_replace_qualifies(e: ExprNode, ga: Seq<Entry>, ta: Seq<Entry>, fm: Seq<FieldEntry>)
    requires
        replace_expr(e, ga, ta, fm) matches Some((_, Ok(()))),
    ensures
        columns_qualified(replace_expr(e, ga, ta, fm)->Some_0.0, ga, ta),
    decreases e,
{
    match e {
        ExprNode::ColumnIdent(segs, loc) => {
            if !has_key(ta, segs[0]) {
                let entities = entities_with(fm, segs[0]);
                lemma_lookup_has_value(ga, entities[0]);
                let alias = lookup(ga, entities[0])->Some_0;
                assert((seq![alias] + segs)[0] == alias);
            }
        },
        ExprNode::Binary(op, l, r, loc) => {
            law_replace_qualifies(*l, ga, ta, fm);
            law_replace_qualifies(*r, ga, ta, fm);
        },
        ExprNode::Unary(op, r, loc) => {
            law_replace_qualifies(*r, ga, ta, fm);
        },
        _ => {},
    }
}

/// `e2` is `e` with nothing changed but the names of its columns, each kept or
/// given one more segment in front: the same operators, operands in the same
/// places, and the same locations.
pub open spec fn renamed_columns(e: ExprNode, e2: ExprNode) -> bool
    decreases e,
{
    match e {
        ExprNode::ColumnIdent(s1, l1) => match e2 {
            ExprNode::ColumnIdent(s2, l2) => l1 == l2 && (s2 == s1 || (s2.len() == s1.len() + 1
                && s2.subrange(1, s2.len() as int) == s1)),
            _ => false,
        },
        ExprNode::Binary(o1, a1, b1, l1) => match e2 {
            ExprNode::Binary(o2, a2, b2, l2) => o1 == o2 && l1 == l2 && renamed_columns(*a1, *a2)
                && renamed_columns(*b1, *b2),
            _ => false,
        },
        ExprNode::Unary(o1, a1, l1) => match e2 {
            ExprNode::Unary(o2, a2, l2) => o1 == o2 && l1 == l2 && renamed_columns(*a1, *a2),
            _ => false,
        },
        _ => e2 == e,
    }
}

proof fn lemma_renamed_columns_refl(e: ExprNode)
    ensures
        renamed_columns(e, e),
    decreases e,
{
    match e {
        ExprNode::Binary(_, a, b, _) => {
            lemma_renamed_columns_refl(*a);
            lemma_renamed_columns_refl(*b);
        },
        ExprNode::Unary(_, a, _) => {
            lemma_renamed_columns_refl(*a);
        },
        _ => {},
    }
}

/// Qualifying the column names of an expression keeps its shape: every operator,
/// operand place and location stays, and each column name is kept or given the
/// alias of its entity in front.
pub proof fn law_replace_keeps_shape(e: ExprNode, ga: Seq<Entry>, ta: Seq<Entry>, fm: Seq<FieldEntry>)
    ensures
        replace_expr(e, ga, ta, fm) matches Some((e2, _)) ==> renamed_columns(e, e2),
    decreases e,
{
    match e {
        ExprNode::ColumnIdent(segs, loc) => {
            if segs.len() > 0 {
                let entities = entities_with(fm, segs[0]);
                if !has_key(ta, segs[0]) && entities.len() == 1 && lookup(ga, entities[0]) is Some {
                    let alias = lookup(ga, entities[0])->Some_0;
                    assert((seq![alias] + segs).subrange(1, segs.len() + 1int) =~= segs);
                }
            }
        },
        ExprNode::Binary(op, l, r, loc) => {
            law_replace_keeps_shape(*l, ga, ta, fm);
            law_replace_keeps_shape(*r, ga, ta, fm);
            lemma_renamed_columns_refl(*r);
        },
        ExprNode::Unary(op, r, loc) => {
            law_replace_keeps_shape(*r, ga, ta, fm);
        },
        _ => {},
    }
}

impl Expr {
    /// The expression with its column names qualified (see `replace_expr`), and
    /// the outcome.
    pub fn replace_owned(
        self,
        generated_alias: &AliasMap,
        table_alias: &AliasMap,
        field_map: &FieldMap,
    ) -> (r: (Expr, Result<(), SyntaxErrorWithPos>))
        requires
            replace_expr(self@, generated_alias@, table_alias@, field_map@) is Some,
        ensures
            replace_expr(self@, generated_alias@, table_alias@, field_map@) == Some(
                (r.0@, unit_result(r.1)),
            ),
        decreases self,
    {
        match self {
            Expr::ColumnIdent(ident) => {
                let ColumnIdent { mut segments, location } = ident;
                let first_segment = segments[0].clone();
                proof {
                    assert(strings_view(segments@)[0] == first_segment@);
                }
                if !table_alias.contains_key(&first_segment) {
                    let mut entities = field_map.entities_with_field(&first_segment);
                    if entities.len() == 1 {
                        let entity_name = entities.remove(0);
                        assert(strings_view(entities@.insert(0, entity_name))[0] == entity_name@);
                        match generated_alias.get(&entity_name) {
                            Some(alias) => {
                                let ghost before = strings_view(segments@);
                                segments.insert(0, alias.clone());
                                assert(strings_view(segments@) =~= seq![alias@] + before);
                                (Expr::ColumnIdent(ColumnIdent { segments, location }), Ok(()))
                            },
                            None => {
                                let star = "*".to_owned();
                                proof {
                                    reveal_strlit("*");
                                }
                                (
                                    Expr::ColumnIdent(ColumnIdent { segments, location }),
                                    Err(location.error(SyntaxError::UnknownField(star, first_segment))),
                                )
                            },
                        }
                    } else {
                        (
                            Expr::ColumnIdent(ColumnIdent { segments, location }),
                            Err(location.error(SyntaxError::ConflictAlias(first_segment))),
                        )
                    }
                } else {
                    (Expr::ColumnIdent(ColumnIdent { segments, location }), Ok(()))
                }
            },
            Expr::Binary(binary) => {
                let Binary { operator, left, right, location } = binary;
                let (left, res) = (*left).replace_owned(generated_alias, table_alias, field_map);
                match res {
                    Err(e) => (
                        Expr::Binary(Binary { operator, left: Box::new(left), right, location }),
                        Err(e),
                    ),
                    Ok(()) => {
                        let (right, res) = (*right).replace_owned(
                            generated_alias,
                            table_alias,
                            field_map,
                        );
                        (
                            Expr::Binary(
                                Binary {
                                    operator,
                                    left: Box::new(left),
                                    right: Box::new(right),
                                    location,
                                },
                            ),
                            res,
                        )
                    },
                }
            },
            Expr::Unary(unary) => {
                let Unary { operator, right, location } = unary;
                let (right, res) = (*right).replace_owned(generated_alias, table_alias, field_map);
                (Expr::Unary(Unary { operator, right: Box::new(right), location }), res)
            },
            other => (other, Ok(())),
        }
    }
}

/// A node of a query whose column names can be qualified with the aliases of
/// their entities.
pub trait ReplaceIdent: Sized + View {
    /// The node after qualifying its column names, and the outcome; `None` where
    /// the replacement panics.
    spec fn replaced(
        node: Self::V,
        ga: Seq<Entry>,
        ta: Seq<Entry>,
        fm: Seq<FieldEntry>,
    ) -> Option<(Self::V, Result<(), SyntaxErrorWithPosV>)>;

    fn replace(
        &mut self,
        generated_alias: &AliasMap,
        table_alias: &AliasMap,
        field_map: &FieldMap,
    ) -> (r: Result<(), SyntaxErrorWithPos>)
        requires
            Self::replaced(old(self)@, generated_alias@, table_alias@, field_map@) is Some,
        ensures
            Self::replaced(old(self)@, generated_alias@, table_alias@, field_map@) == Some(
                (final(self)@, unit_result(r)),
            ),
    ;
}

impl ReplaceIdent for Expr {
    open spec fn replaced(
        node: ExprNode,
        ga: Seq<Entry>,
        ta: Seq<Entry>,
        fm: Seq<FieldEntry>,
    ) -> Option<(ExprNode, Result<(), SyntaxErrorWithPosV>)> {
        replace_expr(node, ga, ta, fm)
    }

    fn replace(
        &mut self,
        generated_alias: &AliasMap,
        table_alias: &AliasMap,
        field_map: &FieldMap,
    ) -> (r: Result<(), SyntaxErrorWithPos>) {
        let mut taken = Expr::Literal(Literal::Null(Null { location: Location::Pos(0) }));
        std::mem::swap(&mut taken, self);
        let (result, outcome) = taken.replace_owned(generated_alias, table_alias, field_map);
        *self = result;
        outcome
    }
}

/// Qualifying the column names of the expressions of `s` from the `i`-th on, in
/// order, stopping at the first error: the items after and the outcome.
pub open spec fn replace_pairs<T>(
    s: Seq<(ExprNode, T)>,
    i: int,
    ga: Seq<Entry>,
    ta: Seq<Entry>,
    fm: Seq<FieldEntry>,
) -> Option<(Seq<(ExprNode, T)>, Result<(), SyntaxErrorWithPosV>)>
    decreases s.len() - i,
{
    if i < 0 || i >= s.len() {
        Some((s, Ok(())))
    } else {
        match replace_expr(s[i].0, ga, ta, fm) {
            None => None,
            Some((e2, Err(x))) => Some((s.update(i, (e2, s[i].1)), Err(x))),
            Some((e2, Ok(()))) => replace_pairs(s.update(i, (e2, s[i].1)), i + 1, ga, ta, fm),
        }
    }
}

impl ReplaceIdent for SelectClause {
    open spec fn replaced(
        node: SelectClauseV,
        ga: Seq<Entry>,
        ta: Seq<Entry>,
        fm: Seq<FieldEntry>,
    ) -> Option<(SelectClauseV, Result<(), SyntaxErrorWithPosV>)> {
        match replace_pairs(node.items, 0, ga, ta, fm) {
            Some((items, r)) => Some((SelectClauseV { items, location: node.location }, r)),
            None => None,
        }
    }

    fn replace(
        &mut self,
        generated_alias: &AliasMap,
        table_alias: &AliasMap,
        field_map: &FieldMap,
    ) -> (r: Result<(), SyntaxErrorWithPos>) {
        let ghost v0 = self@.items;
        let mut items: Vec<(Expr, Option<String>)> = Vec::new();
        std::mem::swap(&mut items, &mut self.items);
        let mut done: Vec<(Expr, Option<String>)> = Vec::new();
        assert(done@.map_values(|i| item_view(i)) + items@.map_values(|i| item_view(i)) =~= v0);
        loop
            invariant
                replace_pairs(v0, 0, generated_alias@, table_alias@, field_map@) == replace_pairs(
                    done@.map_values(|i| item_view(i)) + items@.map_values(|i| item_view(i)),
                    done@.len() as int,
                    generated_alias@,
                    table_alias@,
                    field_map@,
                ),
                replace_pairs(v0, 0, generated_alias@, table_alias@, field_map@) is Some,
                self.location == old(self).location,
                v0 == old(self)@.items,
            decreases items@.len(),
        {
            let ghost dv = done@.map_values(|i| item_view(i));
            let ghost iv = items@.map_values(|i| item_view(i));
            if items.len() == 0 {
                assert(dv + iv =~= dv);
                self.items = done;
                return Ok(());
            }
            let (e, alias) = items.remove(0);
            assert((dv + iv)[dv.len() as int] == item_view((e, alias)));
            let (e2, res) = e.replace_owned(generated_alias, table_alias, field_map);
            let ghost x = item_view((e2, alias));
            done.push((e2, alias));
            assert(done@.map_values(|i| item_view(i)) + items@.map_values(|i| item_view(i))
                =~= (dv + iv).update(dv.len() as int, x));
            if res.is_err() {
                done.append(&mut items);
                assert(done@.map_values(|i| item_view(i)) =~= (dv + iv).update(dv.len() as int, x));
                self.items = done;
                return res;
            }
        }
    }
}

impl ReplaceIdent for OrderByClause {
    open spec fn replaced(
        node: OrderByV,
        ga: Seq<Entry>,
        ta: Seq<Entry>,
        fm: Seq<FieldEntry>,
    ) -> Option<(OrderByV, Result<(), SyntaxErrorWithPosV>)> {
        match replace_pairs(node.items, 0, ga, ta, fm) {
            Some((items, r)) => Some((OrderByV { items, location: node.location }, r)),
            None => None,
        }
    }

    fn replace(
        &mut self,
        generated_alias: &AliasMap,
        table_alias: &AliasMap,
        field_map: &FieldMap,
    ) -> (r: Result<(), SyntaxErrorWithPos>) {
        let ghost v0 = self@.items;
        let mut items: Vec<(Expr, Order)> = Vec::new();
        std::mem::swap(&mut items, &mut self.items);
        let mut done: Vec<(Expr, Order)> = Vec::new();
        assert(done@.map_values(|i: (Expr, Order)| (i.0@, i.1)) + items@.map_values(
            |i: (Expr, Order)| (i.0@, i.1),
        ) =~= v0);
        loop
            invariant
                replace_pairs(v0, 0, generated_alias@, table_alias@, field_map@) == replace_pairs(
                    done@.map_values(|i: (Expr, Order)| (i.0@, i.1)) + items@.map_values(
                        |i: (Expr, Order)| (i.0@, i.1),
                    ),
                    done@.len() as int,
                    generated_alias@,
                    table_alias@,
                    field_map@,
                ),
                replace_pairs(v0, 0, generated_alias@, table_alias@, field_map@) is Some,
                self.location == old(self).location,
                v0 == old(self)@.items,
            decreases items@.len(),
        {
            let ghost dv = done@.map_values(|i: (Expr, Order)| (i.0@, i.1));
            let ghost iv = items@.map_values(|i: (Expr, Order)| (i.0@, i.1));
            if items.len() == 0 {
                assert(dv + iv =~= dv);
                self.items = done;
                return Ok(());
            }
            let (e, order) = items.remove(0);
            assert((dv + iv)[dv.len() as int] == (e@, order));
            let (e2, res) = e.replace_owned(generated_alias, table_alias, field_map);
            let ghost x = (e2@, order);
            done.push((e2, order));
            assert(done@.map_values(|i: (Expr, Order)| (i.0@, i.1)) + items@.map_values(
                |i: (Expr, Order)| (i.0@, i.1),
            ) =~= (dv + iv).update(dv.len() as int, x));
            if res.is_err() {
                done.append(&mut items);
                assert(done@.map_values(|i: (Expr, Order)| (i.0@, i.1)) =~= (dv + iv).update(
                    dv.len() as int,
                    x,
                ));
                self.items = done;
                return res;
            }
        }
    }
}

/// Qualifying the column names of the conditions of the joins of `js` from the
/// `i`-th on, in order, stopping at the first error.
pub open spec fn replace_joins(
    js: Seq<JoinV>,
    i: int,
    ga: Seq<Entry>,
    ta: Seq<Entry>,
    fm: Seq<FieldEntry>,
) -> Option<(Seq<JoinV>, Result<(), SyntaxErrorWithPosV>)>
    decreases js.len() - i,
{
    if i < 0 || i >= js.len() {
        Some((js, Ok(())))
    } else {
        match js[i] {
            JoinV::On(ty, t, on, loc) => match replace_expr(on, ga, ta, fm) {
                None => None,
                Some((on2, Err(x))) => Some((js.update(i, JoinV::On(ty, t, on2, loc)), Err(x))),
                Some((on2, Ok(()))) => replace_joins(
                    js.update(i, JoinV::On(ty, t, on2, loc)),
                    i + 1,
                    ga,
                    ta,
                    fm,
                ),
            },
            _ => replace_joins(js, i + 1, ga, ta, fm),
        }
    }
}

impl ReplaceIdent for FromClause {
    open spec fn replaced(
        node: FromV,
        ga: Seq<Entry>,
        ta: Seq<Entry>,
        fm: Seq<FieldEntry>,
    ) -> Option<(FromV, Result<(), SyntaxErrorWithPosV>)> {
        match replace_joins(node.join, 0, ga, ta, fm) {
            Some((join, r)) => Some((FromV { table: node.table, join, location: node.location }, r)),
            None => None,
        }
    }

    fn replace(
        &mut self,
        generated_alias: &AliasMap,
        table_alias: &AliasMap,
        field_map: &FieldMap,
    ) -> (r: Result<(), SyntaxErrorWithPos>) {
        let ghost v0 = self@.join;
        let mut joins: Vec<JoinClause> = Vec::new();
        std::mem::swap(&mut joins, &mut self.join);
        let mut done: Vec<JoinClause> = Vec::new();
        assert(joins_view(done@) + joins_view(joins@) =~= v0);
        loop
            invariant
                replace_joins(v0, 0, generated_alias@, table_alias@, field_map@) == replace_joins(
                    joins_view(done@) + joins_view(joins@),
                    done@.len() as int,
                    generated_alias@,
                    table_alias@,
                    field_map@,
                ),
                replace_joins(v0, 0, generated_alias@, table_alias@, field_map@) is Some,
                self.location == old(self).location,
                self.table@ == old(self).table@,
                v0 == old(self)@.join,
            decreases joins@.len(),
        {
            let ghost dv = joins_view(done@);
            let ghost jv = joins_view(joins@);
            if joins.len() == 0 {
                assert(dv + jv =~= dv);
                self.join = done;
                return Ok(());
            }
            let join = joins.remove(0);
            assert((dv + jv)[dv.len() as int] == join@);
            match join {
                JoinClause::JoinOn(join_on) => {
                    let JoinOn { ty, table, on, location } = join_on;
                    let (on2, res) = on.replace_owned(generated_alias, table_alias, field_map);
                    let j2 = JoinClause::JoinOn(JoinOn { ty, table, on: on2, location });
                    let ghost x = j2@;
                    done.push(j2);
                    assert(joins_view(done@) + joins_view(joins@) =~= (dv + jv).update(
                        dv.len() as int,
                        x,
                    ));
                    if res.is_err() {
                        done.append(&mut joins);
                        assert(joins_view(done@) =~= (dv + jv).update(dv.len() as int, x));
                        self.join = done;
                        return res;
                    }
                },
                other => {
                    let ghost x = other@;
                    done.push(other);
                    assert(joins_view(done@) + joins_view(joins@) =~= dv + jv);
                },
            }
        }
    }
}

impl ReplaceIdent for GroupByClause {
    open spec fn replaced(
        node: GroupByV,
        ga: Seq<Entry>,
        ta: Seq<Entry>,
        fm: Seq<FieldEntry>,
    ) -> Option<(GroupByV, Result<(), SyntaxErrorWithPosV>)> {
        match replace_expr(node.by, ga, ta, fm) {
            None => None,
            Some((by, Err(x))) => Some((GroupByV { by, ..node }, Err(x))),
            Some((by, Ok(()))) => match node.having {
                Some(h) => match replace_expr(h, ga, ta, fm) {
                    None => None,
                    Some((h2, r)) => Some((GroupByV { by, having: Some(h2), location: node.location }, r)),
                },
                None => Some((GroupByV { by, ..node }, Ok(()))),
            },
        }
    }

    fn replace(
        &mut self,
        generated_alias: &AliasMap,
        table_alias: &AliasMap,
        field_map: &FieldMap,
    ) -> (r: Result<(), SyntaxErrorWithPos>) {
        match self.by.replace(generated_alias, table_alias, field_map) {
            Ok(()) => {},
            Err(e) => {
                return Err(e);
            },
        }
        match &mut self.having {
            Some(having) => having.replace(generated_alias, table_alias, field_map),
            None => Ok(()),
        }
    }
}

/// Qualifying an optional expression.
pub open spec fn replace_opt(
    o: Option<ExprNode>,
    ga: Seq<Entry>,
    ta: Seq<Entry>,
    fm: Seq<FieldEntry>,
) -> Option<(Option<ExprNode>, Result<(), SyntaxErrorWithPosV>)> {
    match o {
        Some(e) => match replace_expr(e, ga, ta, fm) {
            Some((e2, r)) => Some((Some(e2), r)),
            None => None,
        },
        None => Some((None, Ok(()))),
    }
}

/// Qualifying the column names of a `SELECT` query: its select clause, the
/// conditions of its joins, its `WHERE` condition, its group by clause and its
/// order by clause, in this order, stopping at the first error.
pub open spec fn replace_select(
    q: SelectQueryV,
    ga: Seq<Entry>,
    ta: Seq<Entry>,
    fm: Seq<FieldEntry>,
) -> Option<(SelectQueryV, Result<(), SyntaxErrorWithPosV>)> {
    match SelectClause::replaced(q.select_clause, ga, ta, fm) {
        None => None,
        Some((sc, Err(x))) => Some((SelectQueryV { select_clause: sc, ..q }, Err(x))),
        Some((sc, Ok(()))) => match FromClause::replaced(q.from, ga, ta, fm) {
            None => None,
            Some((from, Err(x))) => Some((SelectQueryV { select_clause: sc, from, ..q }, Err(x))),
            Some((from, Ok(()))) => match replace_opt(q.where_clause, ga, ta, fm) {
                None => None,
                Some((w, Err(x))) => Some(
                    (SelectQueryV { select_clause: sc, from, where_clause: w, ..q }, Err(x)),
                ),
                Some((w, Ok(()))) => {
                    let g0 = match q.group_by_clause {
                        Some(g) => match GroupByClause::replaced(g, ga, ta, fm) {
                            Some((g2, r)) => Some((Some(g2), r)),
                            None => None,
                        },
                        None => Some((None, Ok(()))),
                    };
                    match g0 {
                        None => None,
                        Some((g, Err(x))) => Some(
                            (
                                SelectQueryV {
                                    select_clause: sc,
                                    from,
                                    where_clause: w,
                                    group_by_clause: g,
                                    ..q
                                },
                                Err(x),
                            ),
                        ),
                        Some((g, Ok(()))) => {
                            let o0 = match q.order_by_clause {
                                Some(o) => match OrderByClause::replaced(o, ga, ta, fm) {
                                    Some((o2, r)) => Some((Some(o2), r)),
                                    None => None,
                                },
                                None => Some((None, Ok(()))),
                            };
                            match o0 {
                                None => None,
                                Some((o, r)) => Some(
                                    (
                                        SelectQueryV {
                                            select_clause: sc,
                                            from,
                                            where_clause: w,
                                            group_by_clause: g,
                                            order_by_clause: o,
                                            ..q
                                        },
                                        r,
                                    ),
                                ),
                            }
                        },
                    }
                },
            },
        },
    }
}

impl ReplaceIdent for SelectQuery {
    open spec fn replaced(
        node: SelectQueryV,
        ga: Seq<Entry>,
        ta: Seq<Entry>,
        fm: Seq<FieldEntry>,
    ) -> Option<(SelectQueryV, Result<(), SyntaxErrorWithPosV>)> {
        replace_select(node, ga, ta, fm)
    }

    fn replace(
        &mut self,
        generated_alias: &AliasMap,
        table_alias: &AliasMap,
        field_map: &FieldMap,
    ) -> (r: Result<(), SyntaxErrorWithPos>) {
        match self.select_clause.replace(generated_alias, table_alias, field_map) {
            Ok(()) => {},
            Err(e) => {
                return Err(e);
            },
        }
        match self.from.replace(generated_alias, table_alias, field_map) {
            Ok(()) => {},
            Err(e) => {
                return Err(e);
            },
        }
        match &mut self.where_clause {
            Some(where_clause) => match where_clause.replace(
                generated_alias,
                table_alias,
                field_map,
            ) {
                Ok(()) => {},
                Err(e) => {
                    return Err(e);
                },
            },
            None => {},
        }
        match &mut self.group_by_clause {
            Some(group) => match group.replace(generated_alias, table_alias, field_map) {
                Ok(()) => {},
                Err(e) => {
                    return Err(e);
                },
            },
            None => {},
        }
        match &mut self.order_by_clause {
            Some(order_by_clause) => order_by_clause.replace(generated_alias, table_alias, field_map),
            None => Ok(()),
        }
    }
}

} // verus!

//! The four storage operations of an entity over an SQL backend: the query
//! of each, and what is bound to its placeholders.
//!
//! Placeholders are positional (`?`). Table and column names are written
//! unquoted, as the struct and its fields are named.

use crate::codegen::attr::{
    for_each_attr, for_each_configured, lemma_for_each_attr, split_for,
    split_generics_with_raw_id_attr, Diagnostic, DiagnosticView, SplitGenerics,
    SplitGenericsView, SqlAttrView,
};
use crate::codegen::shape::{ItemStruct, ItemStructView, TypeExpr, TypeExprView};
use crate::codegen::sql::{columns_of, names_of, Column, ColumnView, ID_FIELD_NAME};
use crate::text::{join, join_repeated, joined, repeated};
use vstd::prelude::*;

verus! {

/// One of the four storage operations.
#[derive(Debug, Clone, Copy, PartialEq, Eq, Structural)]
pub enum Capability {
    /// Store a new record.
    Create,
    /// Fetch a record by id.
    Read,
    /// Overwrite the record at an id.
    Update,
    /// Remove the record at an id.
    Delete,
}

/// What is bound to one placeholder of a query.
#[derive(Debug, PartialEq, Eq)]
pub enum Bind {
    /// The value of this field of the entity.
    Field(String),
    /// The raw id of the record.
    Id,
}

/// The view of a [`Bind`].
pub enum BindView {
    Field(Seq<char>),
    Id,
}

impl View for Bind {
    type V = BindView;

    open spec fn view(&self) -> BindView {
        match self {
            Bind::Field(ident) => BindView::Field(ident@),
            Bind::Id => BindView::Id,
        }
    }
}

impl DeepView for Bind {
    type V = BindView;

    open spec fn deep_view(&self) -> BindView {
        self@
    }
}

/// One implementation to generate: an operation of one entity over one backend.
#[derive(Debug, PartialEq, Eq)]
pub struct CrudImpl {
    /// The operation that is implemented.
    pub capability: Capability,
    /// The generics of the impl.
    pub generics: SplitGenerics,
    /// The database type of the backend.
    pub backing_db: TypeExpr,
    /// The raw id type of the backend.
    pub raw_id: TypeExpr,
    /// The name of the entity type.
    pub ident: String,
    /// The text of the query.
    pub query: String,
    /// What is bound to the placeholders of the query, in their order.
    pub binds: Vec<Bind>,
}

/// The view of a [`CrudImpl`].
pub struct CrudImplView {
    pub capability: Capability,
    pub generics: SplitGenericsView,
    pub backing_db: TypeExprView,
    pub raw_id: TypeExprView,
    pub ident: Seq<char>,
    pub query: Seq<char>,
    pub binds: Seq<BindView>,
}

impl View for CrudImpl {
    type V = CrudImplView;

    open spec fn view(&self) -> CrudImplView {
        CrudImplView {
            capability: self.capability,
            generics: self.generics@,
            backing_db: self.backing_db@,
            raw_id: self.raw_id@,
            ident: self.ident@,
            query: self.query@,
            binds: self.binds.deep_view(),
        }
    }
}

/// `INSERT INTO <table> (<columns>) VALUES (<placeholders>) RETURNING <id column>`,
/// with one placeholder for each column.
pub open spec fn insert_query(table: Seq<char>, columns: Seq<Seq<char>>) -> Seq<char> {
    "INSERT INTO "@ + table + " ("@ + joined(columns, ", "@) + ") VALUES ("@ + joined(
        repeated("?"@, columns.len()),
        ", "@,
    ) + ") RETURNING "@ + ID_FIELD_NAME@
}

/// `SELECT <columns> FROM <table> WHERE <id column> = ?`.
pub open spec fn select_query(table: Seq<char>, columns: Seq<Seq<char>>) -> Seq<char> {
    "SELECT "@ + joined(columns, ", "@) + " FROM "@ + table + " WHERE "@ + ID_FIELD_NAME@ + " = ?"@
}

/// The assignment of a placeholder to each column: `<column>=?`.
pub open spec fn assignments(columns: Seq<Seq<char>>) -> Seq<Seq<char>> {
    columns.map_values(|column: Seq<char>| column + "=?"@)
}

/// `UPDATE <table> SET <column>=?, ... WHERE <id column> = ?`.
pub open spec fn update_query(table: Seq<char>, columns: Seq<Seq<char>>) -> Seq<char> {
    "UPDATE "@ + table + " SET "@ + joined(assignments(columns), ", "@) + " WHERE "@
        + ID_FIELD_NAME@ + " = ?"@
}

/// `DELETE FROM <table> WHERE <id column> = ? RETURNING <columns>`.
pub open spec fn delete_query(table: Seq<char>, columns: Seq<Seq<char>>) -> Seq<char> {
    "DELETE FROM "@ + table + " WHERE "@ + ID_FIELD_NAME@ + " = ?"@ + " RETURNING "@ + joined(
        columns,
        ", "@,
    )
}

/// The query of an operation on `table` with these columns.
pub open spec fn query_for(capability: Capability, table: Seq<char>, columns: Seq<Seq<char>>) -> Seq<
    char,
> {
    match capability {
        Capability::Create => insert_query(table, columns),
        Capability::Read => select_query(table, columns),
        Capability::Update => update_query(table, columns),
        Capability::Delete => delete_query(table, columns),
    }
}

/// The field of each column, in column order.
pub open spec fn field_binds(columns: Seq<ColumnView>) -> Seq<BindView> {
    columns.map_values(|c: ColumnView| BindView::Field(c.ident))
}

/// What an operation binds to the placeholders of its query: creating binds
/// each field in declaration order, updating each field and then the id,
/// reading and deleting the id alone.
pub open spec fn binds_for(capability: Capability, columns: Seq<ColumnView>) -> Seq<BindView> {
    match capability {
        Capability::Create => field_binds(columns),
        Capability::Read => seq![BindView::Id],
        Capability::Update => field_binds(columns).push(BindView::Id),
        Capability::Delete => seq![BindView::Id],
    }
}

/// The implementation of `capability` for `item` over the backend
/// `(backing_db, raw_id)`, or the error in the struct's raw id attribute.
pub open spec fn crud_plan(
    item: ItemStructView,
    capability: Capability,
    backing_db: TypeExprView,
    raw_id: TypeExprView,
) -> Result<CrudImplView, DiagnosticView> {
    match split_for(item, raw_id) {
        Ok(generics) => Ok(
            CrudImplView {
                capability,
                generics,
                backing_db,
                raw_id,
                ident: item.ident,
                query: query_for(capability, item.ident, names_of(columns_of(item.fields))),
                binds: binds_for(capability, columns_of(item.fields)),
            },
        ),
        Err(error) => Err(error),
    }
}

/// Everything generated for `capability` on `item`: the diagnostics of a
/// configuration in error, else one implementation (or its error) for each
/// configured backend, in source order.
pub open spec fn crud_plans(item: ItemStructView, capability: Capability) -> Seq<
    Result<CrudImplView, DiagnosticView>,
> {
    for_each_configured(
        item,
        |a: SqlAttrView| crud_plan(item, capability, a.backing_db, a.raw_id),
    )
}

/// The view of one generated implementation or error.
pub open spec fn plan_outcome(r: Result<CrudImpl, Diagnostic>) -> Result<CrudImplView, DiagnosticView> {
    match r {
        Ok(plan) => Ok(plan@),
        Err(error) => Err(error@),
    }
}

/// The views of a list of generated implementations and errors.
pub open spec fn plan_outcomes(emitted: Seq<Result<CrudImpl, Diagnostic>>) -> Seq<
    Result<CrudImplView, DiagnosticView>,
> {
    emitted.map_values(|r: Result<CrudImpl, Diagnostic>| plan_outcome(r))
}

/// Lists the field of each column as a bind.
fn bind_fields(columns: &Vec<Column>) -> (binds: Vec<Bind>)
    ensures
        binds.deep_view() == field_binds(columns.deep_view()),
{
    let mut binds: Vec<Bind> = Vec::new();
    let mut i: usize = 0;
    while i < columns.len()
        invariant
            i <= columns.len(),
            binds.len() == i,
            forall|j: int| 0 <= j < i ==> #[trigger] binds[j]@ == BindView::Field(columns[j]@.ident),
        decreases columns.len() - i,
    {
        binds.push(Bind::Field(columns[i].ident.clone()));
        i += 1;
    }
    binds
}

/// Binds the id alone.
fn bind_id() -> (binds: Vec<Bind>)
    ensures
        binds.deep_view() == seq![BindView::Id],
{
    let mut binds: Vec<Bind> = Vec::new();
    binds.push(Bind::Id);
    binds
}

/// Writes `<column>=?` for each column.
fn assign_each(columns: &Vec<String>) -> (assigned: Vec<String>)
    ensures
        assigned.deep_view() == assignments(columns.deep_view()),
{
    let mut assigned: Vec<String> = Vec::new();
    let mut i: usize = 0;
    while i < columns.len()
        invariant
            i <= columns.len(),
            assigned.len() == i,
            forall|j: int| 0 <= j < i ==> #[trigger] assigned[j]@ == columns[j]@ + "=?"@,
        decreases columns.len() - i,
    {
        let mut one = columns[i].clone();
        one.append("=?");
        assigned.push(one);
        i += 1;
    }
    assigned
}

/// Writes the query that stores a new record.
pub fn write_insert(table: &String, columns: &Vec<String>) -> (query: String)
    ensures
        query@ == insert_query(table@, columns.deep_view()),
{
    let mut query = String::from_str("INSERT INTO ");
    query.append(table.as_str());
    query.append(" (");
    query.append(join(columns, ", ").as_str());
    query.append(") VALUES (");
    query.append(join_repeated("?", columns.len(), ", ").as_str());
    query.append(") RETURNING ");
    query.append(ID_FIELD_NAME);
    query
}

/// Writes the query that fetches a record by id.
pub fn write_select(table: &String, columns: &Vec<String>) -> (query: String)
    ensures
        query@ == select_query(table@, columns.deep_view()),
{
    let mut query = String::from_str("SELECT ");
    query.append(join(columns, ", ").as_str());
    query.append(" FROM ");
    query.append(table.as_str());
    query.append(" WHERE ");
    query.append(ID_FIELD_NAME);
    query.append(" = ?");
    query
}

/// Writes the query that overwrites the record at an id.
pub fn write_update(table: &String, columns: &Vec<String>) -> (query: String)
    ensures
        query@ == update_query(table@, columns.deep_view()),
{
    let mut query = String::from_str("UPDATE ");
    query.append(table.as_str());
    query.append(" SET ");
    query.append(join(&assign_each(columns), ", ").as_str());
    query.append(" WHERE ");
    query.append(ID_FIELD_NAME);
    query.append(" = ?");
    query
}

/// Writes the query that removes the record at an id and hands it back.
pub fn write_delete(table: &String, columns: &Vec<String>) -> (query: String)
    ensures
        query@ == delete_query(table@, columns.deep_view()),
{
    let mut query = String::from_str("DELETE FROM ");
    query.append(table.as_str());
    query.append(" WHERE ");
    query.append(ID_FIELD_NAME);
    query.append(" = ?");
    query.append(" RETURNING ");
    query.append(join(columns, ", ").as_str());
    query
}

/// Plans the implementation of creating `item` over one backend.
///
/// The query inserts one value for each field, in declaration order, and
/// returns the id that the database assigned.
pub fn create_impl(item: &ItemStruct, backing_db: &TypeExpr, raw_id: &TypeExpr) -> (r: Result<
    CrudImpl,
    Diagnostic,
>)
    ensures
        plan_outcome(r) == crud_plan(item@, Capability::Create, backing_db@, raw_id@),
{
    let generics = match split_generics_with_raw_id_attr(item, raw_id) {
        Ok(generics) => generics,
        Err(error) => {
            return Err(error);
        },
    };
    let columns = Column::from_fields(&item.fields);
    let query = write_insert(&item.ident, &Column::names(&columns));
    Ok(
        CrudImpl {
            capability: Capability::Create,
            generics,
            backing_db: backing_db.clone(),
            raw_id: raw_id.clone(),
            ident: item.ident.clone(),
            query,
            binds: bind_fields(&columns),
        },
    )
}

/// Plans the implementation of reading `item` over one backend.
///
/// The query selects every field's column of the row with the given id.
pub fn read_impl(item: &ItemStruct, backing_db: &TypeExpr, raw_id: &TypeExpr) -> (r: Result<
    CrudImpl,
    Diagnostic,
>)
    ensures
        plan_outcome(r) == crud_plan(item@, Capability::Read, backing_db@, raw_id@),
{
    let generics = match split_generics_with_raw_id_attr(item, raw_id) {
        Ok(generics) => generics,
        Err(error) => {
            return Err(error);
        },
    };
    let columns = Column::from_fields(&item.fields);
    let query = write_select(&item.ident, &Column::names(&columns));
    Ok(
        CrudImpl {
            capability: Capability::Read,
            generics,
            backing_db: backing_db.clone(),
            raw_id: raw_id.clone(),
            ident: item.ident.clone(),
            query,
            binds: bind_id(),
        },
    )
}

/// Plans the implementation of updating `item` over one backend.
///
/// The query sets every field's column of the row with the given id; the
/// fields are bound first, in declaration order, and the id last.
pub fn update_impl(item: &ItemStruct, backing_db: &TypeExpr, raw_id: &TypeExpr) -> (r: Result<
    CrudImpl,
    Diagnostic,
>)
    ensures
        plan_outcome(r) == crud_plan(item@, Capability::Update, backing_db@, raw_id@),
{
    let generics = match split_generics_with_raw_id_attr(item, raw_id) {
        Ok(generics) => generics,
        Err(error) => {
            return Err(error);
        },
    };
    let columns = Column::from_fields(&item.fields);
    let query = write_update(&item.ident, &Column::names(&columns));
    let mut binds = bind_fields(&columns);
    let ghost fields = binds.deep_view();
    binds.push(Bind::Id);
    assert(binds.deep_view() =~= fields.push(BindView::Id));
    Ok(
        CrudImpl {
            capability: Capability::Update,
            generics,
            backing_db: backing_db.clone(),
            raw_id: raw_id.clone(),
            ident: item.ident.clone(),
            query,
            binds,
        },
    )
}

/// Plans the implementation of deleting `item` over one backend.
///
/// The query deletes the row with the given id and returns every field's
/// column of it.
pub fn delete_impl(item: &ItemStruct, backing_db: &TypeExpr, raw_id: &TypeExpr) -> (r: Result<
    CrudImpl,
    Diagnostic,
>)
    ensures
        plan_outcome(r) == crud_plan(item@, Capability::Delete, backing_db@, raw_id@),
{
    let generics = match split_generics_with_raw_id_attr(item, raw_id) {
        Ok(generics) => generics,
        Err(error) => {
            return Err(error);
        },
    };
    let columns = Column::from_fields(&item.fields);
    let query = write_delete(&item.ident, &Column::names(&columns));
    Ok(
        CrudImpl {
            capability: Capability::Delete,
            generics,
            backing_db: backing_db.clone(),
            raw_id: raw_id.clone(),
            ident: item.ident.clone(),
            query,
            binds: bind_id(),
        },
    )
}

/// Plans creating `item` over every backend that it configures.
pub fn create(item: &ItemStruct) -> (emitted: Vec<Result<CrudImpl, Diagnostic>>)
    ensures
        plan_outcomes(emitted@) == crud_plans(item@, Capability::Create),
{
    let emitted = for_each_attr(item, create_impl);
    proof {
        lemma_for_each_attr(
            create_impl,
            item,
            emitted@,
            |r: Result<CrudImpl, Diagnostic>| plan_outcome(r),
            |a: SqlAttrView| crud_plan(item@, Capability::Create, a.backing_db, a.raw_id),
        );
    }
    emitted
}

/// Plans reading `item` over every backend that it configures.
pub fn read(item: &ItemStruct) -> (emitted: Vec<Result<CrudImpl, Diagnostic>>)
    ensures
        plan_outcomes(emitted@) == crud_plans(item@, Capability::Read),
{
    let emitted = for_each_attr(item, read_impl);
    proof {
        lemma_for_each_attr(
            read_impl,
            item,
            emitted@,
            |r: Result<CrudImpl, Diagnostic>| plan_outcome(r),
            |a: SqlAttrView| crud_plan(item@, Capability::Read, a.backing_db, a.raw_id),
        );
    }
    emitted
}

/// Plans updating `item` over every backend that it configures.
pub fn update(item: &ItemStruct) -> (emitted: Vec<Result<CrudImpl, Diagnostic>>)
    ensures
        plan_outcomes(emitted@) == crud_plans(item@, Capability::Update),
{
    let emitted = for_each_attr(item, update_impl);
    proof {
        lemma_for_each_attr(
            update_impl,
            item,
            emitted@,
            |r: Result<CrudImpl, Diagnostic>| plan_outcome(r),
            |a: SqlAttrView| crud_plan(item@, Capability::Update, a.backing_db, a.raw_id),
        );
    }
    emitted
}

/// Plans deleting `item` over every backend that it configures.
pub fn delete(item: &ItemStruct) -> (emitted: Vec<Result<CrudImpl, Diagnostic>>)
    ensures
        plan_outcomes(emitted@) == crud_plans(item@, Capability::Delete),
{
    let emitted = for_each_attr(item, delete_impl);
    proof {
        lemma_for_each_attr(
            delete_impl,
            item,
            emitted@,
            |r: Result<CrudImpl, Diagnostic>| plan_outcome(r),
            |a: SqlAttrView| crud_plan(item@, Capability::Delete, a.backing_db, a.raw_id),
        );
    }
    emitted
}

} // verus!

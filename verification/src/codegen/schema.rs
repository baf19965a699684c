//! The table of an entity over an SQL backend: its columns and their types.

use crate::codegen::attr::{
    concrete, for_each_attr, for_each_configured, lemma_for_each_attr, make_concrete,
    raw_id_attr, raw_id_from, split_for, split_generics_with_raw_id_attr, Diagnostic,
    DiagnosticView, SplitGenerics, SplitGenericsView, SqlAttrView,
};
use crate::codegen::shape::{FieldView, ItemStruct, ItemStructView, TypeExpr, TypeExprView};
use crate::codegen::sql::{field_name, name_field, ID_FIELD_NAME};
use crate::schema::ColumnType;
use vstd::prelude::*;

verus! {

/// A column of a table to generate, with the type whose name in the
/// database becomes the column's type.
#[derive(Debug, PartialEq, Eq)]
pub struct ColumnDef {
    /// The column's name.
    pub name: String,
    /// The type that the column holds.
    pub ty: TypeExpr,
    /// The column's kind.
    pub column_type: ColumnType,
}

/// The view of a [`ColumnDef`].
pub struct ColumnDefView {
    pub name: Seq<char>,
    pub ty: TypeExprView,
    pub column_type: ColumnType,
}

impl View for ColumnDef {
    type V = ColumnDefView;

    open spec fn view(&self) -> ColumnDefView {
        ColumnDefView { name: self.name@, ty: self.ty@, column_type: self.column_type }
    }
}

impl DeepView for ColumnDef {
    type V = ColumnDefView;

    open spec fn deep_view(&self) -> ColumnDefView {
        self@
    }
}

/// One table description to generate: that of one entity over one backend.
#[derive(Debug, PartialEq, Eq)]
pub struct TableImpl {
    /// The generics of the impl.
    pub generics: SplitGenerics,
    /// The database type of the backend.
    pub backing_db: TypeExpr,
    /// The name of the entity type, which names the table too.
    pub ident: String,
    /// The columns of the table, in order.
    pub columns: Vec<ColumnDef>,
}

/// The view of a [`TableImpl`].
pub struct TableImplView {
    pub generics: SplitGenericsView,
    pub backing_db: TypeExprView,
    pub ident: Seq<char>,
    pub columns: Seq<ColumnDefView>,
}

impl View for TableImpl {
    type V = TableImplView;

    open spec fn view(&self) -> TableImplView {
        TableImplView {
            generics: self.generics@,
            backing_db: self.backing_db@,
            ident: self.ident@,
            columns: self.columns.deep_view(),
        }
    }
}

/// The generic parameter that stands for the raw id, when the struct names
/// one.
pub open spec fn raw_id_generic(item: ItemStructView) -> Option<Seq<char>> {
    match raw_id_from(item.attrs, 0) {
        Some(Ok(generic)) => Some(generic),
        _ => None,
    }
}

/// The type that a column holds for a field declared as `ty`: `ty` with the
/// raw id parameter, when there is one, replaced by the backend's raw id type.
pub open spec fn column_type_of(
    ty: TypeExprView,
    generic: Option<Seq<char>>,
    raw_id: TypeExprView,
) -> TypeExprView {
    match generic {
        Some(generic) => concrete(ty, generic, raw_id),
        None => ty,
    }
}

/// The data column of the field at position `index`.
pub open spec fn data_column(
    field: FieldView,
    index: nat,
    generic: Option<Seq<char>>,
    raw_id: TypeExprView,
) -> ColumnDefView {
    ColumnDefView {
        name: field_name(field, index),
        ty: column_type_of(field.ty, generic, raw_id),
        column_type: ColumnType::Data,
    }
}

/// The columns of an entity's table: a data column for each field, in
/// declaration order, and after them the primary key, which holds the raw id.
pub open spec fn table_columns(
    fields: Seq<FieldView>,
    generic: Option<Seq<char>>,
    raw_id: TypeExprView,
) -> Seq<ColumnDefView> {
    Seq::new(fields.len(), |i: int| data_column(fields[i], i as nat, generic, raw_id)).push(
        ColumnDefView { name: ID_FIELD_NAME@, ty: raw_id, column_type: ColumnType::PrimaryKey },
    )
}

/// The columns of an entity's table follow its fields and end in its
/// primary key: there is one data column for each field, in declaration
/// order and under the field's name, and the one column after them is the
/// primary key, under the fixed name, holding the raw id.
pub proof fn law_columns_follow_fields(
    fields: Seq<FieldView>,
    generic: Option<Seq<char>>,
    raw_id: TypeExprView,
)
    ensures
        table_columns(fields, generic, raw_id).len() == fields.len() + 1,
        forall|i: int|
            0 <= i < fields.len() ==> {
                let column = #[trigger] table_columns(fields, generic, raw_id)[i];
                column.column_type is Data && column.name == field_name(fields[i], i as nat)
            },
        table_columns(fields, generic, raw_id).last() == (ColumnDefView {
            name: ID_FIELD_NAME@,
            ty: raw_id,
            column_type: ColumnType::PrimaryKey,
        }),
{
}

/// The table description of `item` over the backend `(backing_db, raw_id)`,
/// or the error in the struct's raw id attribute.
pub open spec fn table_plan(
    item: ItemStructView,
    backing_db: TypeExprView,
    raw_id: TypeExprView,
) -> Result<TableImplView, DiagnosticView> {
    match split_for(item, raw_id) {
        Ok(generics) => Ok(
            TableImplView {
                generics,
                backing_db,
                ident: item.ident,
                columns: table_columns(item.fields, raw_id_generic(item), raw_id),
            },
        ),
        Err(error) => Err(error),
    }
}

/// Every table description generated for `item`: the diagnostics of a
/// configuration in error, else one description (or its error) for each
/// configured backend, in source order.
pub open spec fn table_plans(item: ItemStructView) -> Seq<Result<TableImplView, DiagnosticView>> {
    for_each_configured(item, |a: SqlAttrView| table_plan(item, a.backing_db, a.raw_id))
}

/// The view of one generated table description or error.
pub open spec fn table_outcome(r: Result<TableImpl, Diagnostic>) -> Result<
    TableImplView,
    DiagnosticView,
> {
    match r {
        Ok(plan) => Ok(plan@),
        Err(error) => Err(error@),
    }
}

/// The views of a list of generated table descriptions and errors.
pub open spec fn table_outcomes(emitted: Seq<Result<TableImpl, Diagnostic>>) -> Seq<
    Result<TableImplView, DiagnosticView>,
> {
    emitted.map_values(|r: Result<TableImpl, Diagnostic>| table_outcome(r))
}

/// Plans the table description of `item` over every backend that it
/// configures.
pub fn sql_table(item: &ItemStruct) -> (emitted: Vec<Result<TableImpl, Diagnostic>>)
    ensures
        table_outcomes(emitted@) == table_plans(item@),
{
    let emitted = for_each_attr(item, sql_table_impl);
    proof {
        lemma_for_each_attr(
            sql_table_impl,
            item,
            emitted@,
            |r: Result<TableImpl, Diagnostic>| table_outcome(r),
            |a: SqlAttrView| table_plan(item@, a.backing_db, a.raw_id),
        );
    }
    emitted
}

/// Plans the table description of `item` over one backend.
///
/// The table is named as the struct is. Each field gives a data column,
/// named as the field is (a field without a name by its position), whose
/// type is the field's type with the raw id parameter of the struct, when it
/// names one, replaced by `raw_id`. The primary key column comes last and
/// holds `raw_id`.
pub fn sql_table_impl(item: &ItemStruct, backing_db: &TypeExpr, raw_id: &TypeExpr) -> (r: Result<
    TableImpl,
    Diagnostic,
>)
    ensures
        table_outcome(r) == table_plan(item@, backing_db@, raw_id@),
{
    let raw_id_generic = match raw_id_attr(item) {
        Some(Ok(generic)) => Some(generic),
        Some(Err(error)) => {
            return Err(error);
        },
        None => None,
    };
    let generics = match split_generics_with_raw_id_attr(item, raw_id) {
        Ok(generics) => generics,
        Err(error) => {
            return Err(error);
        },
    };
    let ghost generic = raw_id_generic.deep_view();
    let mut columns: Vec<ColumnDef> = Vec::new();
    let mut i: usize = 0;
    while i < item.fields.len()
        invariant
            i <= item.fields.len(),
            columns.len() == i,
            generic == raw_id_generic.deep_view(),
            forall|j: int|
                0 <= j < i ==> #[trigger] columns[j]@ == data_column(
                    item.fields[j]@,
                    j as nat,
                    generic,
                    raw_id@,
                ),
        decreases item.fields.len() - i,
    {
        let field = &item.fields[i];
        let ty = match &raw_id_generic {
            Some(generic) => make_concrete(&field.ty, generic, raw_id),
            None => field.ty.clone(),
        };
        columns.push(ColumnDef { name: name_field(field, i), ty, column_type: ColumnType::Data });
        i += 1;
    }
    columns.push(
        ColumnDef {
            name: String::from_str(ID_FIELD_NAME),
            ty: raw_id.clone(),
            column_type: ColumnType::PrimaryKey,
        },
    );
    assert(columns.deep_view() =~= table_columns(item@.fields, generic, raw_id@));
    Ok(TableImpl { generics, backing_db: backing_db.clone(), ident: item.ident.clone(), columns })
}

} // verus!

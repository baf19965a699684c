//! How an entity maps to a table.
//!
//! The table is named as the struct is, and each column as its field is. The
//! primary key is a column of its own, named by [`ID_FIELD_NAME`].

use crate::codegen::shape::{Field, FieldView};
use crate::text::{decimal, decimal_string};
use vstd::prelude::*;

verus! {

/// The name of the primary key column.
pub const ID_FIELD_NAME: &'static str = "Id";

/// A column of an entity's table, with the field that fills it.
#[derive(Debug, PartialEq, Eq)]
pub struct Column {
    /// The column's name.
    pub name: String,
    /// The field of the struct that holds the column's value.
    pub ident: String,
}

/// The view of a [`Column`].
pub struct ColumnView {
    pub name: Seq<char>,
    pub ident: Seq<char>,
}

impl View for Column {
    type V = ColumnView;

    open spec fn view(&self) -> ColumnView {
        ColumnView { name: self.name@, ident: self.ident@ }
    }
}

impl DeepView for Column {
    type V = ColumnView;

    open spec fn deep_view(&self) -> ColumnView {
        self@
    }
}

/// The name that the field at position `index` goes by: its own, or its
/// position in decimal where it has none.
pub open spec fn field_name(field: FieldView, index: nat) -> Seq<char> {
    match field.ident {
        Some(name) => name,
        None => decimal(index),
    }
}

/// The columns of a struct with these fields: one for each field, in
/// declaration order, named as the field is.
pub open spec fn columns_of(fields: Seq<FieldView>) -> Seq<ColumnView> {
    Seq::new(
        fields.len(),
        |i: int| ColumnView { name: field_name(fields[i], i as nat), ident: field_name(fields[i], i as nat) },
    )
}

/// The names of `columns`, in order.
pub open spec fn names_of(columns: Seq<ColumnView>) -> Seq<Seq<char>> {
    columns.map_values(|c: ColumnView| c.name)
}

/// Names the field at position `index`.
pub fn name_field(field: &Field, index: usize) -> (name: String)
    ensures
        name@ == field_name(field@, index as nat),
{
    match &field.ident {
        Some(name) => name.clone(),
        None => decimal_string(index),
    }
}

impl Column {
    /// Lists the columns of a struct with these fields.
    pub fn from_fields(fields: &Vec<Field>) -> (columns: Vec<Column>)
        ensures
            columns.deep_view() == columns_of(fields.deep_view()),
    {
        let mut columns: Vec<Column> = Vec::new();
        let mut i: usize = 0;
        while i < fields.len()
            invariant
                i <= fields.len(),
                columns.len() == i,
                forall|j: int| 0 <= j < i ==> #[trigger] columns[j]@ == columns_of(fields.deep_view())[j],
            decreases fields.len() - i,
        {
            let name = name_field(&fields[i], i);
            columns.push(Column { name: name.clone(), ident: name });
            i += 1;
        }
        columns
    }

    /// Lists the names of `columns`.
    pub fn names(columns: &Vec<Column>) -> (names: Vec<String>)
        ensures
            names.deep_view() == names_of(columns.deep_view()),
    {
        let mut names: Vec<String> = Vec::new();
        let mut i: usize = 0;
        while i < columns.len()
            invariant
                i <= columns.len(),
                names.len() == i,
                forall|j: int| 0 <= j < i ==> #[trigger] names[j]@ == columns[j]@.name,
            decreases columns.len() - i,
        {
            names.push(columns[i].name.clone());
            i += 1;
        }
        names
    }
}

} // verus!

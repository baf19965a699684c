//! The schema statements of PostgreSQL.

use crate::schema::{ColumnType, SqlColumn, SqlColumnView, SqlTable, SqlTableView};
use crate::text::{join, joined};
use vstd::prelude::*;

verus! {

/// `ty` without its double quotes.
pub open spec fn unquoted(ty: Seq<char>) -> Seq<char> {
    ty.filter(|c: char| c != '"')
}

/// The definition of one column: its name and its type without quotes,
/// followed by ` PRIMARY KEY` for the primary key.
pub open spec fn column_definition(column: SqlColumnView) -> Seq<char> {
    match column.column_type {
        ColumnType::Data => column.name + " "@ + unquoted(column.ty),
        ColumnType::PrimaryKey => column.name + " "@ + unquoted(column.ty) + " PRIMARY KEY"@,
    }
}

/// `CREATE TABLE <name> (<column definitions>);`, the definitions
/// separated by a comma and a space.
pub open spec fn create_table(table: SqlTableView) -> Seq<char> {
    "CREATE TABLE "@ + table.name + " ("@ + joined(
        table.columns.map_values(|c: SqlColumnView| column_definition(c)),
        ", "@,
    ) + ");"@
}

/// Writes the statement that creates `table`.
pub fn generate_schema(table: &SqlTable) -> (statement: String)
    ensures
        statement@ == create_table(table@),
{
    let mut rows: Vec<String> = Vec::new();
    let mut i: usize = 0;
    while i < table.columns.len()
        invariant
            i <= table.columns.len(),
            rows.len() == i,
            forall|j: int| 0 <= j < i ==> #[trigger] rows[j]@ == column_definition(table.columns[j]@),
        decreases table.columns.len() - i,
    {
        rows.push(generate_row(&table.columns[i]));
        i += 1;
    }
    assert(rows.deep_view() =~= table@.columns.map_values(
        |c: SqlColumnView| column_definition(c),
    ));
    let mut statement = String::from_str("CREATE TABLE ");
    statement.append(table.name.as_str());
    statement.append(" (");
    statement.append(join(&rows, ", ").as_str());
    statement.append(");");
    statement
}

/// Writes the definition of one column.
pub fn generate_row(sql_column: &SqlColumn) -> (row: String)
    ensures
        row@ == column_definition(sql_column@),
{
    let ty = process_type(sql_column.ty.clone());
    let mut row = sql_column.name.clone();
    row.append(" ");
    row.append(ty.as_str());
    match sql_column.column_type {
        ColumnType::Data => {},
        ColumnType::PrimaryKey => {
            row.append(" PRIMARY KEY");
        },
    }
    row
}

/// Strips the double quotes that a type name may come with: a quoted name is
/// not accepted in a column definition.
pub fn process_type(ty: String) -> (plain: String)
    ensures
        plain@ == unquoted(ty@),
{
    let mut plain = String::new();
    let ghost keep = |c: char| c != '"';
    proof {
        reveal(Seq::filter);
    }
    for c in it: ty.as_str().chars()
        invariant
            keep == |c: char| c != '"',
            it.seq() == ty@,
            plain@ == ty@.take(it.index() as int).filter(keep),
    {
        proof {
            assert(ty@.take(it.index() + 1) =~= ty@.take(it.index() as int).push(c));
            ty@.take(it.index() as int).lemma_filter_push(c, keep);
        }
        if c != '"' {
            plain.push(c);
        }
    }
    assert(ty@.take(ty@.len() as int) =~= ty@);
    plain
}

} // verus!

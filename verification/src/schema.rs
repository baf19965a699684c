//! Descriptions of tables, and the builder that turns them into a schema.

use crate::codegen::sql::ID_FIELD_NAME;
use crate::text::{concat_all, concatenated};
use core::marker::PhantomData;
use vstd::prelude::*;

pub mod postgres;

verus! {

/// What kind of column a column is.
#[derive(Debug, Clone, Copy, PartialEq, Eq, Structural)]
pub enum ColumnType {
    /// A column that holds a field of the entity.
    Data,
    /// The column that holds the id of the row.
    PrimaryKey,
}

/// A column of a table.
#[derive(Debug, PartialEq, Eq)]
pub struct SqlColumn {
    /// The column's name.
    pub name: String,
    /// The name of the column's type in the database.
    pub ty: String,
    /// The column's kind.
    pub column_type: ColumnType,
}

/// A table.
#[derive(Debug, PartialEq, Eq)]
pub struct SqlTable {
    /// The table's name.
    pub name: String,
    /// The table's columns, in order.
    pub columns: Vec<SqlColumn>,
}

/// The view of a [`SqlColumn`].
pub struct SqlColumnView {
    pub name: Seq<char>,
    pub ty: Seq<char>,
    pub column_type: ColumnType,
}

/// The view of a [`SqlTable`].
pub struct SqlTableView {
    pub name: Seq<char>,
    pub columns: Seq<SqlColumnView>,
}

impl View for SqlColumn {
    type V = SqlColumnView;

    open spec fn view(&self) -> SqlColumnView {
        SqlColumnView { name: self.name@, ty: self.ty@, column_type: self.column_type }
    }
}

impl DeepView for SqlColumn {
    type V = SqlColumnView;

    open spec fn deep_view(&self) -> SqlColumnView {
        self@
    }
}

impl View for SqlTable {
    type V = SqlTableView;

    open spec fn view(&self) -> SqlTableView {
        SqlTableView { name: self.name@, columns: self.columns.deep_view() }
    }
}

impl DeepView for SqlTable {
    type V = SqlTableView;

    open spec fn deep_view(&self) -> SqlTableView {
        self@
    }
}

impl SqlTableView {
    /// Whether the table is that of an entity: its last column is the
    /// primary key, under the fixed name, and every column before it is a
    /// data column. Such a table has exactly one primary key.
    pub open spec fn is_entity_table(self) -> bool {
        &&& self.columns.len() > 0
        &&& self.columns.last().column_type is PrimaryKey
        &&& self.columns.last().name == ID_FIELD_NAME@
        &&& forall|i: int|
            0 <= i < self.columns.len() - 1 ==> (#[trigger] self.columns[i]).column_type is Data
    }

    /// The table of an entity named `name` whose fields have the names and
    /// type names of `fields`, in declaration order, and whose id has the
    /// type name `id_type`.
    pub open spec fn of_entity(
        name: Seq<char>,
        fields: Seq<(Seq<char>, Seq<char>)>,
        id_type: Seq<char>,
    ) -> SqlTableView {
        SqlTableView {
            name,
            columns: fields.map_values(
                |f: (Seq<char>, Seq<char>)|
                    SqlColumnView { name: f.0, ty: f.1, column_type: ColumnType::Data },
            ).push(
                SqlColumnView {
                    name: ID_FIELD_NAME@,
                    ty: id_type,
                    column_type: ColumnType::PrimaryKey,
                },
            ),
        }
    }
}

impl SqlTable {
    /// Describes the table of an entity.
    ///
    /// Each field, given by its name and the name of its type in the
    /// database, becomes a data column, in declaration order. The primary key
    /// column is appended after them.
    pub fn of_entity(name: String, fields: Vec<(String, String)>, id_type: String) -> (table:
        SqlTable)
        ensures
            table@ == SqlTableView::of_entity(name@, fields.deep_view(), id_type@),
            table@.is_entity_table(),
    {
        let mut columns: Vec<SqlColumn> = Vec::new();
        let mut i: usize = 0;
        while i < fields.len()
            invariant
                i <= fields.len(),
                columns.len() == i,
                forall|j: int|
                    0 <= j < i ==> #[trigger] columns[j]@ == (SqlColumnView {
                        name: fields[j].0@,
                        ty: fields[j].1@,
                        column_type: ColumnType::Data,
                    }),
            decreases fields.len() - i,
        {
            columns.push(
                SqlColumn {
                    name: fields[i].0.clone(),
                    ty: fields[i].1.clone(),
                    column_type: ColumnType::Data,
                },
            );
            i += 1;
        }
        columns.push(
            SqlColumn {
                name: String::from_str(ID_FIELD_NAME),
                ty: id_type,
                column_type: ColumnType::PrimaryKey,
            },
        );
        let table = SqlTable { name, columns };
        assert(table@.columns =~= SqlTableView::of_entity(
            name@,
            fields.deep_view(),
            id_type@,
        ).columns);
        table
    }
}

/// A type that has a table in databases of kind `DB`.
pub trait MakeSqlTable<DB> {
    /// Describes the table of the type.
    fn table() -> SqlTable;
}

/// Collects tables and writes the schema that creates them all.
pub struct SchemaBuilder<G: Fn(&SqlTable) -> String, DB> {
    tables: Vec<SqlTable>,
    generator: G,
    phantom: PhantomData<DB>,
}

/// Whether `parts` holds, for each table in order, something that
/// `generator` may return for it.
pub open spec fn written_by<G: Fn(&SqlTable) -> String>(
    generator: G,
    tables: Seq<SqlTable>,
    parts: Seq<String>,
) -> bool {
    &&& parts.len() == tables.len()
    &&& forall|i: int|
        0 <= i < tables.len() ==> call_ensures(generator, (&tables[i],), #[trigger] parts[i])
}

impl<G: Fn(&SqlTable) -> String, DB> SchemaBuilder<G, DB> {
    /// The tables added so far, in the order in which they were added.
    pub closed spec fn tables(&self) -> Seq<SqlTable> {
        self.tables@
    }

    /// The function that writes the statement for one table.
    pub closed spec fn generator(&self) -> G {
        self.generator
    }

    /// Starts a schema without tables, to be written by `builder`.
    pub fn new(builder: G) -> (schema: Self)
        ensures
            schema.tables() == Seq::<SqlTable>::empty(),
            schema.generator() == builder,
    {
        Self { tables: Vec::new(), generator: builder, phantom: PhantomData }
    }

    /// Adds a table after those added before.
    pub fn add_table(self, table: SqlTable) -> (schema: Self)
        ensures
            schema.tables() == self.tables().push(table),
            schema.generator() == self.generator(),
    {
        let mut schema = self;
        schema.tables.push(table);
        schema
    }

    /// Adds the table of `T` after those added before.
    pub fn add_type<T: MakeSqlTable<DB>>(self) -> (schema: Self)
        ensures
            schema.tables().len() == self.tables().len() + 1,
            schema.tables().drop_last() == self.tables(),
            call_ensures(T::table, (), schema.tables().last()),
            schema.generator() == self.generator(),
    {
        self.add_table(T::table())
    }

    /// Writes the schema: the statement of each table, in the order in which
    /// the tables were added, one after another.
    pub fn build(&self) -> (schema: String)
        requires
            forall|i: int|
                0 <= i < self.tables().len() ==> call_requires(
                    self.generator(),
                    (&#[trigger] self.tables()[i],),
                ),
        ensures
            exists|parts: Seq<String>| #[trigger]
                written_by(self.generator(), self.tables(), parts) && schema@ == concatenated(
                    parts.map_values(|part: String| part@),
                ),
    {
        let mut parts: Vec<String> = Vec::new();
        let mut i: usize = 0;
        while i < self.tables.len()
            invariant
                i <= self.tables.len(),
                parts.len() == i,
                forall|j: int|
                    0 <= j < self.tables().len() ==> call_requires(
                        self.generator(),
                        (&#[trigger] self.tables()[j],),
                    ),
                forall|j: int|
                    0 <= j < i ==> call_ensures(
                        self.generator,
                        (&self.tables[j],),
                        #[trigger] parts[j],
                    ),
            decreases self.tables.len() - i,
        {
            assert(self.tables[i as int] == self.tables()[i as int]);
            let part = (self.generator)(&self.tables[i]);
            parts.push(part);
            i += 1;
        }
        let schema = concat_all(&parts);
        proof {
            assert(written_by(self.generator(), self.tables(), parts@));
            assert(parts.deep_view() =~= parts@.map_values(|part: String| part@));
        }
        schema
    }
}

/// The schema of a generator whose statement is fixed by the table: where
/// everything that `generator` returns for a table is `statement` of the
/// table, what [`SchemaBuilder::build`] writes is the statement of each
/// table, in order, one after another.
pub proof fn law_schema_of_fixed_generator<G: Fn(&SqlTable) -> String>(
    generator: G,
    tables: Seq<SqlTable>,
    schema: Seq<char>,
    statement: spec_fn(SqlTableView) -> Seq<char>,
)
    requires
        forall|table: &SqlTable, part: String| #[trigger]
            call_ensures(generator, (table,), part) ==> part@ == statement(table@),
        exists|parts: Seq<String>| #[trigger]
            written_by(generator, tables, parts) && schema == concatenated(
                parts.map_values(|part: String| part@),
            ),
    ensures
        schema == concatenated(tables.map_values(|table: SqlTable| statement(table@))),
{
    let parts = choose|parts: Seq<String>| #[trigger]
        written_by(generator, tables, parts) && schema == concatenated(
            parts.map_values(|part: String| part@),
        );
    assert(parts.map_values(|part: String| part@) =~= tables.map_values(
        |table: SqlTable| statement(table@),
    ));
}

} // verus!

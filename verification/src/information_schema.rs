//! The `information_schema` virtual schema and its tables.
//!
//! The tables are built on demand from the catalog list the provider holds:
//! tables, views and columns that the catalogs list when the provider is
//! asked appear in the tables it builds.
use vstd::prelude::*;
use crate::builders::{
    columns_fit, tables_fit, views_fit, ColumnsRowSink, InformationSchemaColumnsBuilder,
    InformationSchemaTablesBuilder, InformationSchemaViewBuilder, TablesRowSink, ViewsRowSink,
};
use crate::catalog::{
    Catalog, CatalogList, CatalogView, DataTypeClass, Schema, SchemaView, Table, TableType, TableView,
};
use crate::names::{
    ascii_lowercase, bytes_equal, eq_ignore_ascii_case, has_no_ascii_upper,
    lemma_lowercase_eq_iff_match, names_match, to_ascii_lowercase,
};
use crate::rows::{
    columns_row, from_catalog, from_table, lemma_rows_of_catalogs_include,
    lemma_rows_of_catalogs_include_catalog, lemma_rows_of_catalogs_origin,
    lemma_rows_of_catalogs_split, lemma_rows_of_schemas_split, lemma_rows_of_single_catalog, lemma_rows_of_tables_split, listed,
    rows_of_catalog, rows_of_catalogs, rows_of_schema, rows_of_schemas, rows_of_tables,
    tables_row, views_row, ColumnsRow, PerCatalog, PerTable, TablesRow, ViewsRow, COLUMNS,
    INFORMATION_SCHEMA, TABLES, VIEWS, catalogs_weight, lemma_rows_of_catalogs_concat,
    lemma_rows_of_catalogs_len, TableWeight,
};
use crate::arrow_columns::str_cell;
use crate::offsets::{ColumnsTally, TablesTally, ViewsTally};
use vstd::utf8::encode_utf8;

verus! {

// ---------------------------------------------------------------------------
// The rows each table holds
// ---------------------------------------------------------------------------

/// A table contributes one row to `information_schema.tables`.
pub open spec fn tables_per_table() -> PerTable<TablesRow> {
    |catalog: Seq<char>, schema: Seq<char>, table: TableView|
        seq![tables_row(catalog, schema, table.name, table.table_type)]
}

/// The rows of the information schema's own tables in one catalog.
pub open spec fn information_schema_tables_rows(catalog: Seq<char>) -> Seq<TablesRow> {
    seq![
        tables_row(catalog, INFORMATION_SCHEMA@, TABLES@, TableType::View),
        tables_row(catalog, INFORMATION_SCHEMA@, VIEWS@, TableType::View),
        tables_row(catalog, INFORMATION_SCHEMA@, COLUMNS@, TableType::View),
    ]
}

/// Each catalog ends with the rows of the information schema's own tables.
pub open spec fn tables_per_catalog() -> PerCatalog<TablesRow> {
    |catalog: Seq<char>| information_schema_tables_rows(catalog)
}

/// The rows of `information_schema.tables` for these catalogs.
pub open spec fn tables_rows(catalogs: Seq<CatalogView>) -> Seq<TablesRow> {
    rows_of_catalogs(catalogs, tables_per_table(), tables_per_catalog())
}

/// A table contributes one row to `information_schema.views`.
pub open spec fn views_per_table() -> PerTable<ViewsRow> {
    |catalog: Seq<char>, schema: Seq<char>, table: TableView|
        seq![views_row(catalog, schema, table.name, table.definition)]
}

pub open spec fn no_rows<R>() -> PerCatalog<R> {
    |catalog: Seq<char>| Seq::<R>::empty()
}

/// The rows of `information_schema.views` for these catalogs.
pub open spec fn views_rows(catalogs: Seq<CatalogView>) -> Seq<ViewsRow> {
    rows_of_catalogs(catalogs, views_per_table(), no_rows())
}

/// The rows of the fields of one table, numbered from zero in the order of
/// the table's schema.
pub open spec fn field_rows(catalog: Seq<char>, schema: Seq<char>, table: TableView) -> Seq<
    ColumnsRow,
> {
    Seq::new(
        table.fields.len(),
        |i: int|
            columns_row(
                catalog,
                schema,
                table.name,
                table.fields[i].name,
                i as u64,
                table.fields[i].nullable,
                table.fields[i].data_type,
            ),
    )
}

/// A table contributes a row per field to `information_schema.columns`.
pub open spec fn columns_per_table() -> PerTable<ColumnsRow> {
    |catalog: Seq<char>, schema: Seq<char>, table: TableView| field_rows(catalog, schema, table)
}

/// The rows of `information_schema.columns` for these catalogs.
pub open spec fn columns_rows(catalogs: Seq<CatalogView>) -> Seq<ColumnsRow> {
    rows_of_catalogs(catalogs, columns_per_table(), no_rows())
}

// ---------------------------------------------------------------------------
// Filling the builders
// ---------------------------------------------------------------------------

/// The schema of this name is the information schema itself.
pub fn is_information_schema(name: &String) -> (r: bool)
    ensures
        r == (name@ == INFORMATION_SCHEMA@),
{
    let information_schema = INFORMATION_SCHEMA.to_owned();
    *name == information_schema
}

fn add_schema_tables<S: TablesRowSink>(
    sink: &mut S,
    catalog_name: &String,
    schema: &Schema,
)
    requires
        old(sink).sink_wf(),
        S::sink_accepts(
            old(sink).sink_rows() + rows_of_tables(
                catalog_name@,
                schema@.name,
                schema@.tables,
                tables_per_table(),
            ),
        ),
    ensures
        final(sink).sink_wf(),
        final(sink).sink_rows() == old(sink).sink_rows() + rows_of_tables(
            catalog_name@,
            schema@.name,
            schema@.tables,
            tables_per_table(),
        ),
{
    let ghost start = old(sink).sink_rows();
    let ghost tables = schema@.tables;
    let ghost f = tables_per_table();
    let n = schema.tables.len();
    let mut k: usize = 0;
    while k < n
        invariant
            n == tables.len(),
            tables == schema@.tables,
            f == tables_per_table(),
            k <= n,
            sink.sink_wf(),
            sink.sink_rows() == start + rows_of_tables(catalog_name@, schema@.name, tables.take(k as int), f),
            S::sink_accepts(start + rows_of_tables(catalog_name@, schema@.name, tables, f)),
        decreases n - k,
    {
        let table: &Table = &schema.tables[k];
        let ghost row = tables_row(catalog_name@, schema@.name, table@.name, table@.table_type);
        proof {
            lemma_rows_of_tables_split(catalog_name@, schema@.name, tables, k as int, f);
            assert(tables[k as int] == table@);
            assert(f(catalog_name@, schema@.name, tables[k as int]) == seq![row]);
            let rest = rows_of_tables(catalog_name@, schema@.name, tables.skip(k + 1), f);
            assert(start + rows_of_tables(catalog_name@, schema@.name, tables, f) =~= sink.sink_rows().push(
                row,
            ) + rest);
            S::lemma_sink_accepts_prefix(sink.sink_rows().push(row), rest);
        }
        sink.sink_table(
            catalog_name.as_str(),
            schema.name.as_str(),
            table.name.as_str(),
            table.table_type,
        );
        k += 1;
        assert(sink.sink_rows() =~= start + rows_of_tables(
            catalog_name@,
            schema@.name,
            tables.take(k as int),
            f,
        ));
    }
    assert(tables.take(n as int) =~= tables);
}

fn add_catalog_tables<S: TablesRowSink>(sink: &mut S, catalog: &Catalog)
    requires
        old(sink).sink_wf(),
        S::sink_accepts(old(sink).sink_rows() + rows_of_catalogs(seq![catalog@], tables_per_table(), tables_per_catalog())),
    ensures
        final(sink).sink_wf(),
        final(sink).sink_rows() == old(sink).sink_rows() + rows_of_catalogs(
            seq![catalog@],
            tables_per_table(),
            tables_per_catalog(),
        ),
{
    let ghost start = old(sink).sink_rows();
    let ghost cat = catalog@;
    let ghost schemas = cat.schemas;
    let ghost f = tables_per_table();
    let ghost whole = rows_of_catalogs(seq![cat], f, tables_per_catalog());
    proof {
        lemma_rows_of_single_catalog(cat, f, tables_per_catalog());
    }
    let n = catalog.schemas.len();
    let mut j: usize = 0;
    while j < n
        invariant
            n == schemas.len(),
            cat == catalog@,
            schemas == cat.schemas,
            f == tables_per_table(),
            whole == rows_of_schemas(cat.name, schemas, f) + information_schema_tables_rows(cat.name),
            j <= n,
            sink.sink_wf(),
            sink.sink_rows() == start + rows_of_schemas(cat.name, schemas.take(j as int), f),
            S::sink_accepts(start + whole),
        decreases n - j,
    {
        let schema: &Schema = &catalog.schemas[j];
        proof {
            lemma_rows_of_schemas_split(cat.name, schemas, j as int, f);
            assert(schemas[j as int] == schema@);
            let part = rows_of_schema(cat.name, schema@, f);
            let rest = rows_of_schemas(cat.name, schemas.skip(j + 1), f)
                + information_schema_tables_rows(cat.name);
            assert(start + whole =~= (sink.sink_rows() + part) + rest);
            S::lemma_sink_accepts_prefix(sink.sink_rows() + part, rest);
        }
        if !is_information_schema(&schema.name) {
            add_schema_tables(sink, &catalog.name, schema);
        } else {
            assert(sink.sink_rows() + Seq::<TablesRow>::empty() =~= sink.sink_rows());
        }
        j += 1;
        assert(sink.sink_rows() =~= start + rows_of_schemas(cat.name, schemas.take(j as int), f));
    }
    assert(schemas.take(n as int) =~= schemas);
    // The information schema lists its own tables in every catalog.
    let ghost before = sink.sink_rows();
    let ghost own = information_schema_tables_rows(cat.name);
    proof {
        assert(start + whole =~= before + own);
        assert(before + own =~= before.push(own[0]).push(own[1]).push(own[2]));
        assert(before + own =~= before.push(own[0]) + own.skip(1));
        assert(before + own =~= before.push(own[0]).push(own[1]) + own.skip(2));
        S::lemma_sink_accepts_prefix(before.push(own[0]), own.skip(1));
        S::lemma_sink_accepts_prefix(before.push(own[0]).push(own[1]), own.skip(2));
    }
    sink.sink_table(catalog.name.as_str(), INFORMATION_SCHEMA, TABLES, TableType::View);
    sink.sink_table(catalog.name.as_str(), INFORMATION_SCHEMA, VIEWS, TableType::View);
    sink.sink_table(catalog.name.as_str(), INFORMATION_SCHEMA, COLUMNS, TableType::View);
    assert(sink.sink_rows() =~= start + whole);
}

fn add_schema_views<S: ViewsRowSink>(
    sink: &mut S,
    catalog_name: &String,
    schema: &Schema,
)
    requires
        old(sink).sink_wf(),
        S::sink_accepts(
            old(sink).sink_rows() + rows_of_tables(
                catalog_name@,
                schema@.name,
                schema@.tables,
                views_per_table(),
            ),
        ),
    ensures
        final(sink).sink_wf(),
        final(sink).sink_rows() == old(sink).sink_rows() + rows_of_tables(
            catalog_name@,
            schema@.name,
            schema@.tables,
            views_per_table(),
        ),
{
    let ghost start = old(sink).sink_rows();
    let ghost tables = schema@.tables;
    let ghost f = views_per_table();
    let n = schema.tables.len();
    let mut k: usize = 0;
    while k < n
        invariant
            n == tables.len(),
            tables == schema@.tables,
            f == views_per_table(),
            k <= n,
            sink.sink_wf(),
            sink.sink_rows() == start + rows_of_tables(catalog_name@, schema@.name, tables.take(k as int), f),
            S::sink_accepts(start + rows_of_tables(catalog_name@, schema@.name, tables, f)),
        decreases n - k,
    {
        let table: &Table = &schema.tables[k];
        let definition: Option<&str> = match &table.definition {
            Some(d) => Some(d.as_str()),
            None => None,
        };
        let ghost row = views_row(catalog_name@, schema@.name, table@.name, table@.definition);
        proof {
            assert(str_cell(definition) == table@.definition);
            lemma_rows_of_tables_split(catalog_name@, schema@.name, tables, k as int, f);
            assert(tables[k as int] == table@);
            assert(f(catalog_name@, schema@.name, tables[k as int]) == seq![row]);
            let rest = rows_of_tables(catalog_name@, schema@.name, tables.skip(k + 1), f);
            assert(start + rows_of_tables(catalog_name@, schema@.name, tables, f) =~= sink.sink_rows().push(
                row,
            ) + rest);
            S::lemma_sink_accepts_prefix(sink.sink_rows().push(row), rest);
        }
        sink.sink_view(catalog_name.as_str(), schema.name.as_str(), table.name.as_str(), definition);
        k += 1;
        assert(sink.sink_rows() =~= start + rows_of_tables(
            catalog_name@,
            schema@.name,
            tables.take(k as int),
            f,
        ));
    }
    assert(tables.take(n as int) =~= tables);
}

fn add_catalog_views<S: ViewsRowSink>(sink: &mut S, catalog: &Catalog)
    requires
        old(sink).sink_wf(),
        S::sink_accepts(old(sink).sink_rows() + rows_of_catalogs(seq![catalog@], views_per_table(), no_rows())),
    ensures
        final(sink).sink_wf(),
        final(sink).sink_rows() == old(sink).sink_rows() + rows_of_catalogs(
            seq![catalog@],
            views_per_table(),
            no_rows(),
        ),
{
    let ghost start = old(sink).sink_rows();
    let ghost cat = catalog@;
    let ghost schemas = cat.schemas;
    let ghost f = views_per_table();
    let ghost whole = rows_of_catalogs(seq![cat], f, no_rows());
    proof {
        lemma_rows_of_single_catalog(cat, f, no_rows());
        assert(no_rows::<ViewsRow>()(cat.name) == Seq::<ViewsRow>::empty());
        assert(rows_of_schemas(cat.name, schemas, f) + Seq::<ViewsRow>::empty() =~= rows_of_schemas(
            cat.name,
            schemas,
            f,
        ));
    }
    let n = catalog.schemas.len();
    let mut j: usize = 0;
    while j < n
        invariant
            n == schemas.len(),
            cat == catalog@,
            schemas == cat.schemas,
            f == views_per_table(),
            whole == rows_of_schemas(cat.name, schemas, f),
            j <= n,
            sink.sink_wf(),
            sink.sink_rows() == start + rows_of_schemas(cat.name, schemas.take(j as int), f),
            S::sink_accepts(start + whole),
        decreases n - j,
    {
        let schema: &Schema = &catalog.schemas[j];
        proof {
            lemma_rows_of_schemas_split(cat.name, schemas, j as int, f);
            assert(schemas[j as int] == schema@);
            let part = rows_of_schema(cat.name, schema@, f);
            let rest = rows_of_schemas(cat.name, schemas.skip(j + 1), f);
            assert(start + whole =~= (sink.sink_rows() + part) + rest);
            S::lemma_sink_accepts_prefix(sink.sink_rows() + part, rest);
        }
        if !is_information_schema(&schema.name) {
            add_schema_views(sink, &catalog.name, schema);
        } else {
            assert(sink.sink_rows() + Seq::<ViewsRow>::empty() =~= sink.sink_rows());
        }
        j += 1;
        assert(sink.sink_rows() =~= start + rows_of_schemas(cat.name, schemas.take(j as int), f));
    }
    assert(schemas.take(n as int) =~= schemas);
}

fn add_table_columns<S: ColumnsRowSink>(
    sink: &mut S,
    catalog_name: &String,
    schema_name: &String,
    table: &Table,
)
    requires
        old(sink).sink_wf(),
        S::sink_accepts(old(sink).sink_rows() + field_rows(catalog_name@, schema_name@, table@)),
    ensures
        final(sink).sink_wf(),
        final(sink).sink_rows() == old(sink).sink_rows() + field_rows(catalog_name@, schema_name@, table@),
{
    let ghost start = old(sink).sink_rows();
    let ghost rows = field_rows(catalog_name@, schema_name@, table@);
    let n = table.fields.len();
    let mut i: usize = 0;
    while i < n
        invariant
            n == table@.fields.len(),
            rows == field_rows(catalog_name@, schema_name@, table@),
            i <= n,
            sink.sink_wf(),
            sink.sink_rows() == start + rows.take(i as int),
            S::sink_accepts(start + rows),
        decreases n - i,
    {
        let field = &table.fields[i];
        proof {
            assert(table@.fields[i as int] == field@);
            assert(start + rows =~= sink.sink_rows().push(rows[i as int]) + rows.skip(i + 1));
            S::lemma_sink_accepts_prefix(sink.sink_rows().push(rows[i as int]), rows.skip(i + 1));
        }
        sink.sink_column(
            catalog_name.as_str(),
            schema_name.as_str(),
            table.name.as_str(),
            field.name.as_str(),
            i,
            field.nullable,
            &field.data_type,
        );
        i += 1;
        assert(sink.sink_rows() =~= start + rows.take(i as int));
    }
    assert(rows.take(n as int) =~= rows);
}

fn add_schema_columns<S: ColumnsRowSink>(
    sink: &mut S,
    catalog_name: &String,
    schema: &Schema,
)
    requires
        old(sink).sink_wf(),
        S::sink_accepts(
            old(sink).sink_rows() + rows_of_tables(
                catalog_name@,
                schema@.name,
                schema@.tables,
                columns_per_table(),
            ),
        ),
    ensures
        final(sink).sink_wf(),
        final(sink).sink_rows() == old(sink).sink_rows() + rows_of_tables(
            catalog_name@,
            schema@.name,
            schema@.tables,
            columns_per_table(),
        ),
{
    let ghost start = old(sink).sink_rows();
    let ghost tables = schema@.tables;
    let ghost f = columns_per_table();
    let n = schema.tables.len();
    let mut k: usize = 0;
    while k < n
        invariant
            n == tables.len(),
            tables == schema@.tables,
            f == columns_per_table(),
            k <= n,
            sink.sink_wf(),
            sink.sink_rows() == start + rows_of_tables(catalog_name@, schema@.name, tables.take(k as int), f),
            S::sink_accepts(start + rows_of_tables(catalog_name@, schema@.name, tables, f)),
        decreases n - k,
    {
        let table: &Table = &schema.tables[k];
        let ghost part = field_rows(catalog_name@, schema@.name, table@);
        proof {
            lemma_rows_of_tables_split(catalog_name@, schema@.name, tables, k as int, f);
            assert(tables[k as int] == table@);
            assert(f(catalog_name@, schema@.name, tables[k as int]) == part);
            let rest = rows_of_tables(catalog_name@, schema@.name, tables.skip(k + 1), f);
            assert(start + rows_of_tables(catalog_name@, schema@.name, tables, f) =~= (sink.sink_rows()
                + part) + rest);
            S::lemma_sink_accepts_prefix(sink.sink_rows() + part, rest);
        }
        add_table_columns(sink, catalog_name, &schema.name, table);
        k += 1;
        assert(sink.sink_rows() =~= start + rows_of_tables(
            catalog_name@,
            schema@.name,
            tables.take(k as int),
            f,
        ));
    }
    assert(tables.take(n as int) =~= tables);
}

fn add_catalog_columns<S: ColumnsRowSink>(sink: &mut S, catalog: &Catalog)
    requires
        old(sink).sink_wf(),
        S::sink_accepts(old(sink).sink_rows() + rows_of_catalogs(seq![catalog@], columns_per_table(), no_rows())),
    ensures
        final(sink).sink_wf(),
        final(sink).sink_rows() == old(sink).sink_rows() + rows_of_catalogs(
            seq![catalog@],
            columns_per_table(),
            no_rows(),
        ),
{
    let ghost start = old(sink).sink_rows();
    let ghost cat = catalog@;
    let ghost schemas = cat.schemas;
    let ghost f = columns_per_table();
    let ghost whole = rows_of_catalogs(seq![cat], f, no_rows());
    proof {
        lemma_rows_of_single_catalog(cat, f, no_rows());
        assert(no_rows::<ColumnsRow>()(cat.name) == Seq::<ColumnsRow>::empty());
        assert(rows_of_schemas(cat.name, schemas, f) + Seq::<ColumnsRow>::empty() =~= rows_of_schemas(
            cat.name,
            schemas,
            f,
        ));
    }
    let n = catalog.schemas.len();
    let mut j: usize = 0;
    while j < n
        invariant
            n == schemas.len(),
            cat == catalog@,
            schemas == cat.schemas,
            f == columns_per_table(),
            whole == rows_of_schemas(cat.name, schemas, f),
            j <= n,
            sink.sink_wf(),
            sink.sink_rows() == start + rows_of_schemas(cat.name, schemas.take(j as int), f),
            S::sink_accepts(start + whole),
        decreases n - j,
    {
        let schema: &Schema = &catalog.schemas[j];
        proof {
            lemma_rows_of_schemas_split(cat.name, schemas, j as int, f);
            assert(schemas[j as int] == schema@);
            let part = rows_of_schema(cat.name, schema@, f);
            let rest = rows_of_schemas(cat.name, schemas.skip(j + 1), f);
            assert(start + whole =~= (sink.sink_rows() + part) + rest);
            S::lemma_sink_accepts_prefix(sink.sink_rows() + part, rest);
        }
        if !is_information_schema(&schema.name) {
            add_schema_columns(sink, &catalog.name, schema);
        } else {
            assert(sink.sink_rows() + Seq::<ColumnsRow>::empty() =~= sink.sink_rows());
        }
        j += 1;
        assert(sink.sink_rows() =~= start + rows_of_schemas(cat.name, schemas.take(j as int), f));
    }
    assert(schemas.take(n as int) =~= schemas);
}

fn fill_tables<S: TablesRowSink>(catalog_list: &CatalogList, sink: &mut S)
    requires
        old(sink).sink_wf(),
        old(sink).sink_rows() == Seq::<TablesRow>::empty(),
        S::sink_accepts(tables_rows(catalog_list@)),
    ensures
        final(sink).sink_wf(),
        final(sink).sink_rows() == tables_rows(catalog_list@),
{
    let ghost cats = catalog_list@;
    let ghost f = tables_per_table();
    let ghost g = tables_per_catalog();
    let n = catalog_list.catalogs.len();
    let mut i: usize = 0;
    while i < n
        invariant
            n == cats.len(),
            cats == catalog_list@,
            f == tables_per_table(),
            g == tables_per_catalog(),
            i <= n,
            sink.sink_wf(),
            sink.sink_rows() == rows_of_catalogs(cats.take(i as int), f, g),
            S::sink_accepts(rows_of_catalogs(cats, f, g)),
        decreases n - i,
    {
        let catalog: &Catalog = &catalog_list.catalogs[i];
        proof {
            lemma_rows_of_catalogs_split(cats, i as int, f, g);
            assert(cats[i as int] == catalog@);
            lemma_rows_of_single_catalog(catalog@, f, g);
            S::lemma_sink_accepts_prefix(
                rows_of_catalogs(cats.take(i + 1), f, g),
                rows_of_catalogs(cats.skip(i + 1), f, g),
            );
        }
        add_catalog_tables(sink, catalog);
        i += 1;
    }
    assert(cats.take(n as int) =~= cats);
}

fn fill_views<S: ViewsRowSink>(catalog_list: &CatalogList, sink: &mut S)
    requires
        old(sink).sink_wf(),
        old(sink).sink_rows() == Seq::<ViewsRow>::empty(),
        S::sink_accepts(views_rows(catalog_list@)),
    ensures
        final(sink).sink_wf(),
        final(sink).sink_rows() == views_rows(catalog_list@),
{
    let ghost cats = catalog_list@;
    let ghost f = views_per_table();
    let ghost g = no_rows::<ViewsRow>();
    let n = catalog_list.catalogs.len();
    let mut i: usize = 0;
    while i < n
        invariant
            n == cats.len(),
            cats == catalog_list@,
            f == views_per_table(),
            g == no_rows::<ViewsRow>(),
            i <= n,
            sink.sink_wf(),
            sink.sink_rows() == rows_of_catalogs(cats.take(i as int), f, g),
            S::sink_accepts(rows_of_catalogs(cats, f, g)),
        decreases n - i,
    {
        let catalog: &Catalog = &catalog_list.catalogs[i];
        proof {
            lemma_rows_of_catalogs_split(cats, i as int, f, g);
            assert(cats[i as int] == catalog@);
            lemma_rows_of_single_catalog(catalog@, f, g);
            S::lemma_sink_accepts_prefix(
                rows_of_catalogs(cats.take(i + 1), f, g),
                rows_of_catalogs(cats.skip(i + 1), f, g),
            );
        }
        add_catalog_views(sink, catalog);
        i += 1;
    }
    assert(cats.take(n as int) =~= cats);
}

fn fill_columns<S: ColumnsRowSink>(catalog_list: &CatalogList, sink: &mut S)
    requires
        old(sink).sink_wf(),
        old(sink).sink_rows() == Seq::<ColumnsRow>::empty(),
        S::sink_accepts(columns_rows(catalog_list@)),
    ensures
        final(sink).sink_wf(),
        final(sink).sink_rows() == columns_rows(catalog_list@),
{
    let ghost cats = catalog_list@;
    let ghost f = columns_per_table();
    let ghost g = no_rows::<ColumnsRow>();
    let n = catalog_list.catalogs.len();
    let mut i: usize = 0;
    while i < n
        invariant
            n == cats.len(),
            cats == catalog_list@,
            f == columns_per_table(),
            g == no_rows::<ColumnsRow>(),
            i <= n,
            sink.sink_wf(),
            sink.sink_rows() == rows_of_catalogs(cats.take(i as int), f, g),
            S::sink_accepts(rows_of_catalogs(cats, f, g)),
        decreases n - i,
    {
        let catalog: &Catalog = &catalog_list.catalogs[i];
        proof {
            lemma_rows_of_catalogs_split(cats, i as int, f, g);
            assert(cats[i as int] == catalog@);
            lemma_rows_of_single_catalog(catalog@, f, g);
            S::lemma_sink_accepts_prefix(
                rows_of_catalogs(cats.take(i + 1), f, g),
                rows_of_catalogs(cats.skip(i + 1), f, g),
            );
        }
        add_catalog_columns(sink, catalog);
        i += 1;
    }
    assert(cats.take(n as int) =~= cats);
}

// ---------------------------------------------------------------------------
// The provider
// ---------------------------------------------------------------------------

/// One of the information schema's tables, built.
pub enum InformationSchemaTable {
    Tables(InformationSchemaTablesBuilder),
    Columns(InformationSchemaColumnsBuilder),
    Views(InformationSchemaViewBuilder),
}

/// Implements the `information_schema` virtual schema and tables.
///
/// The underlying tables in the `information_schema` are created on demand,
/// from the catalog list that the provider holds.
pub struct InformationSchemaProvider {
    catalog_list: CatalogList,
}

impl View for InformationSchemaProvider {
    type V = Seq<CatalogView>;

    closed spec fn view(&self) -> Seq<CatalogView> {
        self.catalog_list@
    }
}

/// Asking for `name` builds `information_schema.tables`.
pub open spec fn asks_for_tables(name: Seq<char>) -> bool {
    names_match(name, TABLES@)
}

/// Asking for `name` builds `information_schema.columns`.
pub open spec fn asks_for_columns(name: Seq<char>) -> bool {
    !names_match(name, TABLES@) && names_match(name, COLUMNS@)
}

/// Asking for `name` builds `information_schema.views`.
pub open spec fn asks_for_views(name: Seq<char>) -> bool {
    !names_match(name, TABLES@) && !names_match(name, COLUMNS@) && names_match(name, VIEWS@)
}

/// `name`, matched without regard to ASCII case, is that of one of the
/// information schema's tables.
pub open spec fn names_a_table(name: Seq<char>) -> bool {
    names_match(name, TABLES@) || names_match(name, COLUMNS@) || names_match(name, VIEWS@)
}

/// The ASCII lowercase of `name` is the name of one of the information
/// schema's tables.
pub open spec fn lowercase_is_table_name(name: Seq<char>) -> bool {
    let lowered = ascii_lowercase(encode_utf8(name));
    lowered == encode_utf8(TABLES@) || lowered == encode_utf8(VIEWS@) || lowered == encode_utf8(
        COLUMNS@,
    )
}

/// The table asked for fits in Arrow's string offsets.
pub open spec fn table_fits(catalogs: Seq<CatalogView>, name: Seq<char>) -> bool {
    &&& asks_for_tables(name) ==> tables_fit(tables_rows(catalogs))
    &&& asks_for_columns(name) ==> columns_fit(columns_rows(catalogs))
    &&& asks_for_views(name) ==> views_fit(views_rows(catalogs))
}

impl InformationSchemaProvider {
    pub fn new(catalog_list: CatalogList) -> (provider: Self)
        ensures
            provider@ == catalog_list@,
    {
        InformationSchemaProvider { catalog_list }
    }

    /// Builds `information_schema.tables`: for every catalog, a row for each
    /// table of each of its schemas but the information schema, then a row
    /// for each of the information schema's three tables.
    pub fn make_tables(&self) -> (builder: InformationSchemaTablesBuilder)
        requires
            tables_fit(tables_rows(self@)),
        ensures
            builder.wf(),
            builder@ == tables_rows(self@),
    {
        let mut builder = InformationSchemaTablesBuilder::new();
        fill_tables(&self.catalog_list, &mut builder);
        builder
    }

    /// Builds `information_schema.views`: for every catalog, a row for each
    /// table of each of its schemas but the information schema, with the
    /// table's definition where it has one.
    pub fn make_views(&self) -> (builder: InformationSchemaViewBuilder)
        requires
            views_fit(views_rows(self@)),
        ensures
            builder.wf(),
            builder@ == views_rows(self@),
    {
        let mut builder = InformationSchemaViewBuilder::new();
        fill_views(&self.catalog_list, &mut builder);
        builder
    }

    /// Builds `information_schema.columns`: for every catalog, a row for each
    /// field of each table of each of its schemas but the information schema.
    pub fn make_columns(&self) -> (builder: InformationSchemaColumnsBuilder)
        requires
            columns_fit(columns_rows(self@)),
        ensures
            builder.wf(),
            builder@ == columns_rows(self@),
    {
        let mut builder = InformationSchemaColumnsBuilder::new();
        fill_columns(&self.catalog_list, &mut builder);
        builder
    }

    /// Whether `information_schema.tables` fits in Arrow's 32-bit string
    /// offsets, which `make_tables` needs.
    pub fn tables_fit_offsets(&self) -> (fits: bool)
        ensures
            fits == tables_fit(tables_rows(self@)),
    {
        let mut tally = TablesTally::new();
        fill_tables(&self.catalog_list, &mut tally);
        tally.fits()
    }

    /// Whether `information_schema.views` fits in Arrow's 32-bit string
    /// offsets, which `make_views` needs.
    pub fn views_fit_offsets(&self) -> (fits: bool)
        ensures
            fits == views_fit(views_rows(self@)),
    {
        let mut tally = ViewsTally::new();
        fill_views(&self.catalog_list, &mut tally);
        tally.fits()
    }

    /// Whether `information_schema.columns` fits in Arrow's 32-bit string
    /// offsets, which `make_columns` needs.
    pub fn columns_fit_offsets(&self) -> (fits: bool)
        ensures
            fits == columns_fit(columns_rows(self@)),
    {
        let mut tally = ColumnsTally::new();
        fill_columns(&self.catalog_list, &mut tally);
        tally.fits()
    }

    /// Whether the table that `table` builds for `name`, if any, fits in
    /// Arrow's 32-bit string offsets, which `table` needs.
    pub fn table_fits_offsets(&self, name: &str) -> (fits: bool)
        ensures
            fits == table_fits(self@, name@),
    {
        if eq_ignore_ascii_case(name, "tables") {
            self.tables_fit_offsets()
        } else if eq_ignore_ascii_case(name, "columns") {
            self.columns_fit_offsets()
        } else if eq_ignore_ascii_case(name, "views") {
            self.views_fit_offsets()
        } else {
            true
        }
    }

    /// The names of the information schema's tables.
    pub fn table_names(&self) -> (names: Vec<String>)
        ensures
            names@.map_values(|s: String| s@) == seq![TABLES@, VIEWS@, COLUMNS@],
    {
        let names = vec![TABLES.to_owned(), VIEWS.to_owned(), COLUMNS.to_owned()];
        assert(names@.map_values(|s: String| s@) =~= seq![TABLES@, VIEWS@, COLUMNS@]);
        names
    }

    /// The table of that name, matched without regard to ASCII case; `None`
    /// for any other name.
    pub fn table(&self, name: &str) -> (table: Option<InformationSchemaTable>)
        requires
            table_fits(self@, name@),
        ensures
            match table {
                Some(InformationSchemaTable::Tables(b)) => asks_for_tables(name@) && b.wf() && b@
                    == tables_rows(self@),
                Some(InformationSchemaTable::Columns(b)) => asks_for_columns(name@) && b.wf() && b@
                    == columns_rows(self@),
                Some(InformationSchemaTable::Views(b)) => asks_for_views(name@) && b.wf() && b@
                    == views_rows(self@),
                None => !names_a_table(name@),
            },
    {
        if eq_ignore_ascii_case(name, "tables") {
            Some(InformationSchemaTable::Tables(self.make_tables()))
        } else if eq_ignore_ascii_case(name, "columns") {
            Some(InformationSchemaTable::Columns(self.make_columns()))
        } else if eq_ignore_ascii_case(name, "views") {
            Some(InformationSchemaTable::Views(self.make_views()))
        } else {
            None
        }
    }

    /// The information schema has a table of that name: its ASCII lowercase
    /// is `tables`, `views` or `columns`.
    pub fn table_exist(&self, name: &str) -> (exists: bool)
        ensures
            exists == lowercase_is_table_name(name@),
    {
        let lowered = to_ascii_lowercase(name);
        bytes_equal(lowered.as_slice(), TABLES) || bytes_equal(lowered.as_slice(), VIEWS)
            || bytes_equal(lowered.as_slice(), COLUMNS)
    }
}

// ---------------------------------------------------------------------------
// Laws
// ---------------------------------------------------------------------------

proof fn lemma_table_names_lowercase()
    ensures
        has_no_ascii_upper(TABLES@),
        has_no_ascii_upper(VIEWS@),
        has_no_ascii_upper(COLUMNS@),
{
    reveal_strlit("tables");
    reveal_strlit("views");
    reveal_strlit("columns");
}

/// `table_exist` and `table` agree: the information schema says it has a
/// table of a name exactly when asking for that name gives a table.
pub proof fn law_table_exist_iff_table(name: Seq<char>)
    ensures
        lowercase_is_table_name(name) <==> names_a_table(name),
{
    lemma_table_names_lowercase();
    lemma_lowercase_eq_iff_match(name, TABLES@);
    lemma_lowercase_eq_iff_match(name, VIEWS@);
    lemma_lowercase_eq_iff_match(name, COLUMNS@);
}

/// Each name that `table_names` lists is one that `table` answers and that
/// `table_exist` accepts.
pub proof fn law_table_names_exist(name: Seq<char>)
    requires
        seq![TABLES@, VIEWS@, COLUMNS@].contains(name),
    ensures
        names_a_table(name),
        lowercase_is_table_name(name),
{
    let names = seq![TABLES@, VIEWS@, COLUMNS@];
    let i = choose|i: int| 0 <= i < names.len() && names[i] == name;
    assert(names_match(name, name));
    if i == 0 {
        assert(name == TABLES@);
    } else if i == 1 {
        assert(name == VIEWS@);
    } else {
        assert(name == COLUMNS@);
    }
    law_table_exist_iff_table(name);
}

/// Every table of every schema but the information schema has its row in
/// `information_schema.tables`.
pub proof fn law_tables_lists_every_table(catalogs: Seq<CatalogView>, ci: int, si: int, ti: int)
    requires
        listed(catalogs, ci, si, ti),
    ensures
        tables_rows(catalogs).contains(
            tables_row(
                catalogs[ci].name,
                catalogs[ci].schemas[si].name,
                catalogs[ci].schemas[si].tables[ti].name,
                catalogs[ci].schemas[si].tables[ti].table_type,
            ),
        ),
{
    let t = catalogs[ci].schemas[si].tables[ti];
    let r = tables_row(catalogs[ci].name, catalogs[ci].schemas[si].name, t.name, t.table_type);
    assert(tables_per_table()(catalogs[ci].name, catalogs[ci].schemas[si].name, t)[0] == r);
    lemma_rows_of_catalogs_include(catalogs, tables_per_table(), tables_per_catalog(), ci, si, ti, r);
}

/// Every catalog lists the information schema's own three tables.
pub proof fn law_tables_lists_own_tables(catalogs: Seq<CatalogView>, ci: int, r: TablesRow)
    requires
        0 <= ci < catalogs.len(),
        information_schema_tables_rows(catalogs[ci].name).contains(r),
    ensures
        tables_rows(catalogs).contains(r),
{
    lemma_rows_of_catalogs_include_catalog(catalogs, tables_per_table(), tables_per_catalog(), ci, r);
}

/// Every row of `information_schema.tables` is that of a table of a schema
/// other than the information schema, or that of one of the information
/// schema's own tables in some catalog.
pub proof fn law_tables_rows_origin(catalogs: Seq<CatalogView>, r: TablesRow)
    requires
        tables_rows(catalogs).contains(r),
    ensures
        (exists|ci: int, si: int, ti: int|
            #[trigger] listed(catalogs, ci, si, ti) && r == tables_row(
                catalogs[ci].name,
                catalogs[ci].schemas[si].name,
                catalogs[ci].schemas[si].tables[ti].name,
                catalogs[ci].schemas[si].tables[ti].table_type,
            )) || (exists|ci: int|
            0 <= ci < catalogs.len() && #[trigger] information_schema_tables_rows(
                catalogs[ci].name,
            ).contains(r)),
{
    let f = tables_per_table();
    let g = tables_per_catalog();
    lemma_rows_of_catalogs_origin(catalogs, f, g, r);
    if exists|ci: int, si: int, ti: int| #[trigger] from_table(catalogs, f, ci, si, ti, r) {
        let (ci, si, ti) = choose|ci: int, si: int, ti: int|
            #[trigger] from_table(catalogs, f, ci, si, ti, r);
        let t = catalogs[ci].schemas[si].tables[ti];
        let one = f(catalogs[ci].name, catalogs[ci].schemas[si].name, t);
        let k = choose|k: int| 0 <= k < one.len() && one[k] == r;
        assert(listed(catalogs, ci, si, ti));
    } else {
        let ci = choose|ci: int| #[trigger] from_catalog(catalogs, g, ci, r);
        assert(information_schema_tables_rows(catalogs[ci].name).contains(r));
    }
}

/// Every table of every schema but the information schema has its row in
/// `information_schema.views`, with its definition where it has one.
pub proof fn law_views_lists_every_table(catalogs: Seq<CatalogView>, ci: int, si: int, ti: int)
    requires
        listed(catalogs, ci, si, ti),
    ensures
        views_rows(catalogs).contains(
            views_row(
                catalogs[ci].name,
                catalogs[ci].schemas[si].name,
                catalogs[ci].schemas[si].tables[ti].name,
                catalogs[ci].schemas[si].tables[ti].definition,
            ),
        ),
{
    let t = catalogs[ci].schemas[si].tables[ti];
    let r = views_row(catalogs[ci].name, catalogs[ci].schemas[si].name, t.name, t.definition);
    assert(views_per_table()(catalogs[ci].name, catalogs[ci].schemas[si].name, t)[0] == r);
    lemma_rows_of_catalogs_include(catalogs, views_per_table(), no_rows(), ci, si, ti, r);
}

/// Every row of `information_schema.views` is that of a table of a schema
/// other than the information schema.
pub proof fn law_views_rows_origin(catalogs: Seq<CatalogView>, r: ViewsRow)
    requires
        views_rows(catalogs).contains(r),
    ensures
        exists|ci: int, si: int, ti: int|
            #[trigger] listed(catalogs, ci, si, ti) && r == views_row(
                catalogs[ci].name,
                catalogs[ci].schemas[si].name,
                catalogs[ci].schemas[si].tables[ti].name,
                catalogs[ci].schemas[si].tables[ti].definition,
            ),
{
    let f = views_per_table();
    let g = no_rows::<ViewsRow>();
    lemma_rows_of_catalogs_origin(catalogs, f, g, r);
    if exists|ci: int, si: int, ti: int| #[trigger] from_table(catalogs, f, ci, si, ti, r) {
        let (ci, si, ti) = choose|ci: int, si: int, ti: int|
            #[trigger] from_table(catalogs, f, ci, si, ti, r);
        let t = catalogs[ci].schemas[si].tables[ti];
        let one = f(catalogs[ci].name, catalogs[ci].schemas[si].name, t);
        let k = choose|k: int| 0 <= k < one.len() && one[k] == r;
        assert(listed(catalogs, ci, si, ti));
    } else {
        let ci = choose|ci: int| #[trigger] from_catalog(catalogs, g, ci, r);
        assert(g(catalogs[ci].name) == Seq::<ViewsRow>::empty());
    }
}

/// Every field of every table of every schema but the information schema
/// has its row in `information_schema.columns`, with its position in the
/// table's schema, counted from zero.
pub proof fn law_columns_lists_every_field(
    catalogs: Seq<CatalogView>,
    ci: int,
    si: int,
    ti: int,
    fi: int,
)
    requires
        listed(catalogs, ci, si, ti),
        0 <= fi < catalogs[ci].schemas[si].tables[ti].fields.len(),
    ensures
        columns_rows(catalogs).contains(
            columns_row(
                catalogs[ci].name,
                catalogs[ci].schemas[si].name,
                catalogs[ci].schemas[si].tables[ti].name,
                catalogs[ci].schemas[si].tables[ti].fields[fi].name,
                fi as u64,
                catalogs[ci].schemas[si].tables[ti].fields[fi].nullable,
                catalogs[ci].schemas[si].tables[ti].fields[fi].data_type,
            ),
        ),
{
    let t = catalogs[ci].schemas[si].tables[ti];
    let rows = columns_per_table()(catalogs[ci].name, catalogs[ci].schemas[si].name, t);
    assert(rows[fi] == columns_row(
        catalogs[ci].name,
        catalogs[ci].schemas[si].name,
        t.name,
        t.fields[fi].name,
        fi as u64,
        t.fields[fi].nullable,
        t.fields[fi].data_type,
    ));
    lemma_rows_of_catalogs_include(catalogs, columns_per_table(), no_rows(), ci, si, ti, rows[fi]);
}

/// Every row of `information_schema.columns` is that of a field of a table
/// of a schema other than the information schema, at its position.
pub proof fn law_columns_rows_origin(catalogs: Seq<CatalogView>, r: ColumnsRow)
    requires
        columns_rows(catalogs).contains(r),
    ensures
        exists|ci: int, si: int, ti: int, fi: int|
            #[trigger] listed(catalogs, ci, si, ti) && 0 <= fi
                < catalogs[ci].schemas[si].tables[ti].fields.len() && r == #[trigger] columns_row(
                catalogs[ci].name,
                catalogs[ci].schemas[si].name,
                catalogs[ci].schemas[si].tables[ti].name,
                catalogs[ci].schemas[si].tables[ti].fields[fi].name,
                fi as u64,
                catalogs[ci].schemas[si].tables[ti].fields[fi].nullable,
                catalogs[ci].schemas[si].tables[ti].fields[fi].data_type,
            ),
{
    let f = columns_per_table();
    let g = no_rows::<ColumnsRow>();
    lemma_rows_of_catalogs_origin(catalogs, f, g, r);
    if exists|ci: int, si: int, ti: int| #[trigger] from_table(catalogs, f, ci, si, ti, r) {
        let (ci, si, ti) = choose|ci: int, si: int, ti: int|
            #[trigger] from_table(catalogs, f, ci, si, ti, r);
        let t = catalogs[ci].schemas[si].tables[ti];
        let one = f(catalogs[ci].name, catalogs[ci].schemas[si].name, t);
        let k = choose|k: int| 0 <= k < one.len() && one[k] == r;
        assert(listed(catalogs, ci, si, ti));
        assert(one[k] == columns_row(
            catalogs[ci].name,
            catalogs[ci].schemas[si].name,
            t.name,
            t.fields[k].name,
            k as u64,
            t.fields[k].nullable,
            t.fields[k].data_type,
        ));
    } else {
        let ci = choose|ci: int| #[trigger] from_catalog(catalogs, g, ci, r);
        assert(g(catalogs[ci].name) == Seq::<ColumnsRow>::empty());
    }
}

// ---------------------------------------------------------------------------
// How many rows, and what a single table gives
// ---------------------------------------------------------------------------

/// Every table weighs one.
pub open spec fn one_per_table() -> TableWeight {
    |t: TableView| 1nat
}

/// A table weighs its number of fields.
pub open spec fn fields_per_table() -> TableWeight {
    |t: TableView| t.fields.len()
}

/// The number of tables in the schemas of these catalogs, the information
/// schema left out.
pub open spec fn listed_table_count(catalogs: Seq<CatalogView>) -> nat {
    catalogs_weight(catalogs, one_per_table())
}

/// The number of fields of those tables.
pub open spec fn listed_field_count(catalogs: Seq<CatalogView>) -> nat {
    catalogs_weight(catalogs, fields_per_table())
}

/// `information_schema.tables` has exactly one row per table of every schema
/// but the information schema, whatever the table's type, definition or
/// fields, and three more per catalog: those of the information schema's
/// own tables.
pub proof fn law_tables_row_count(catalogs: Seq<CatalogView>)
    ensures
        tables_rows(catalogs).len() == listed_table_count(catalogs) + 3 * catalogs.len(),
{
    let f = tables_per_table();
    let g = tables_per_catalog();
    assert forall|c: Seq<char>, s: Seq<char>, t: TableView|
        #[trigger] f(c, s, t).len() == one_per_table()(t) by {}
    assert forall|c: Seq<char>| #[trigger] g(c).len() == 3 by {}
    lemma_rows_of_catalogs_len(catalogs, f, g, one_per_table(), 3);
}

/// `information_schema.views` has exactly one row per table of every schema
/// but the information schema, whatever the table's type, definition or
/// fields.
pub proof fn law_views_row_count(catalogs: Seq<CatalogView>)
    ensures
        views_rows(catalogs).len() == listed_table_count(catalogs),
{
    let f = views_per_table();
    let g = no_rows::<ViewsRow>();
    assert forall|c: Seq<char>, s: Seq<char>, t: TableView|
        #[trigger] f(c, s, t).len() == one_per_table()(t) by {}
    assert forall|c: Seq<char>| #[trigger] g(c).len() == 0 by {}
    lemma_rows_of_catalogs_len(catalogs, f, g, one_per_table(), 0);
}

/// `information_schema.columns` has exactly one row per field of every table
/// of every schema but the information schema, whatever the table's type or
/// definition.
pub proof fn law_columns_row_count(catalogs: Seq<CatalogView>)
    ensures
        columns_rows(catalogs).len() == listed_field_count(catalogs),
{
    let f = columns_per_table();
    let g = no_rows::<ColumnsRow>();
    assert forall|c: Seq<char>, s: Seq<char>, t: TableView|
        #[trigger] f(c, s, t).len() == fields_per_table()(t) by {}
    assert forall|c: Seq<char>| #[trigger] g(c).len() == 0 by {}
    lemma_rows_of_catalogs_len(catalogs, f, g, fields_per_table(), 0);
}

/// A catalog list of one catalog with one schema that holds one table.
pub open spec fn single_table_catalogs(catalog: Seq<char>, schema: Seq<char>, table: TableView) -> Seq<
    CatalogView,
> {
    seq![CatalogView { name: catalog, schemas: seq![SchemaView { name: schema, tables: seq![table] }] }]
}

proof fn lemma_single_table_rows<R>(
    catalog: Seq<char>,
    schema: Seq<char>,
    table: TableView,
    per_table: PerTable<R>,
    per_catalog: PerCatalog<R>,
)
    requires
        schema != INFORMATION_SCHEMA@,
    ensures
        rows_of_catalogs(single_table_catalogs(catalog, schema, table), per_table, per_catalog)
            == per_table(catalog, schema, table) + per_catalog(catalog),
{
    let catalogs = single_table_catalogs(catalog, schema, table);
    let c = catalogs[0];
    let sv = c.schemas[0];
    lemma_rows_of_single_catalog(c, per_table, per_catalog);
    assert(catalogs =~= seq![c]);
    assert(sv.tables.drop_last() =~= Seq::<TableView>::empty());
    assert(rows_of_tables(catalog, schema, sv.tables.drop_last(), per_table) == Seq::<R>::empty());
    assert(rows_of_tables(catalog, schema, sv.tables, per_table) =~= per_table(catalog, schema, table));
    assert(c.schemas.drop_last() =~= Seq::<SchemaView>::empty());
    assert(rows_of_schemas(catalog, c.schemas.drop_last(), per_table) == Seq::<R>::empty());
    assert(rows_of_schemas(catalog, c.schemas, per_table) =~= per_table(catalog, schema, table));
}

/// A catalog whose one schema (not the information schema) holds one table
/// gives `information_schema.tables` that table's row, then the rows of the
/// information schema's own three tables.
pub proof fn law_tables_of_single_table(catalog: Seq<char>, schema: Seq<char>, table: TableView)
    requires
        schema != INFORMATION_SCHEMA@,
    ensures
        tables_rows(single_table_catalogs(catalog, schema, table)) == seq![
            tables_row(catalog, schema, table.name, table.table_type),
            tables_row(catalog, INFORMATION_SCHEMA@, TABLES@, TableType::View),
            tables_row(catalog, INFORMATION_SCHEMA@, VIEWS@, TableType::View),
            tables_row(catalog, INFORMATION_SCHEMA@, COLUMNS@, TableType::View),
        ],
{
    lemma_single_table_rows(catalog, schema, table, tables_per_table(), tables_per_catalog());
    assert(tables_rows(single_table_catalogs(catalog, schema, table)) =~= seq![
        tables_row(catalog, schema, table.name, table.table_type),
        tables_row(catalog, INFORMATION_SCHEMA@, TABLES@, TableType::View),
        tables_row(catalog, INFORMATION_SCHEMA@, VIEWS@, TableType::View),
        tables_row(catalog, INFORMATION_SCHEMA@, COLUMNS@, TableType::View),
    ]);
}

/// A catalog whose one schema (not the information schema) holds one table
/// gives `information_schema.views` that table's row alone.
pub proof fn law_views_of_single_table(catalog: Seq<char>, schema: Seq<char>, table: TableView)
    requires
        schema != INFORMATION_SCHEMA@,
    ensures
        views_rows(single_table_catalogs(catalog, schema, table)) == seq![
            views_row(catalog, schema, table.name, table.definition),
        ],
{
    lemma_single_table_rows(catalog, schema, table, views_per_table(), no_rows());
    assert(views_rows(single_table_catalogs(catalog, schema, table)) =~= seq![
        views_row(catalog, schema, table.name, table.definition),
    ]);
}

/// A catalog whose one schema (not the information schema) holds one table
/// gives `information_schema.columns` one row per field of the table, in the
/// order of its schema: row `i` is that of field `i`, at position `i`.
pub proof fn law_columns_of_single_table(catalog: Seq<char>, schema: Seq<char>, table: TableView)
    requires
        schema != INFORMATION_SCHEMA@,
    ensures
        columns_rows(single_table_catalogs(catalog, schema, table)).len() == table.fields.len(),
        forall|i: int|
            0 <= i < table.fields.len() ==> #[trigger] columns_rows(
                single_table_catalogs(catalog, schema, table),
            )[i] == columns_row(
                catalog,
                schema,
                table.name,
                table.fields[i].name,
                i as u64,
                table.fields[i].nullable,
                table.fields[i].data_type,
            ),
{
    lemma_single_table_rows(catalog, schema, table, columns_per_table(), no_rows());
    assert(columns_rows(single_table_catalogs(catalog, schema, table)) =~= field_rows(
        catalog,
        schema,
        table,
    ));
}

/// The type attributes of the row of every listed field: a character octet
/// length exactly for character and binary data; a numeric scale exactly for
/// 128-bit decimals, whose row gives their declared precision and scale in
/// base 10, a scale of zero included.
pub proof fn law_columns_type_attributes(
    catalogs: Seq<CatalogView>,
    ci: int,
    si: int,
    ti: int,
    fi: int,
)
    requires
        listed(catalogs, ci, si, ti),
        0 <= fi < catalogs[ci].schemas[si].tables[ti].fields.len(),
    ensures
        ({
            let t = catalogs[ci].schemas[si].tables[ti];
            let class = t.fields[fi].data_type.class;
            let r = columns_row(
                catalogs[ci].name,
                catalogs[ci].schemas[si].name,
                t.name,
                t.fields[fi].name,
                fi as u64,
                t.fields[fi].nullable,
                t.fields[fi].data_type,
            );
            &&& columns_rows(catalogs).contains(r)
            &&& r.column == t.fields[fi].name
            &&& r.ordinal_position == fi as u64
            &&& (r.character_octet_length is Some <==> (class is Utf8 || class is Binary
                || class is LargeUtf8 || class is LargeBinary))
            &&& (r.numeric_scale is Some <==> class is Decimal128)
            &&& (class matches DataTypeClass::Decimal128(p, s) ==> r.numeric_precision == Some(
                p as u64,
            ) && r.numeric_precision_radix == Some(10u64) && r.numeric_scale == Some(s as u64))
        }),
{
    law_columns_lists_every_field(catalogs, ci, si, ti, fi);
}

/// Catalogs listed one after another give their rows of
/// `information_schema.tables` one after another.
pub proof fn law_tables_rows_concat(a: Seq<CatalogView>, b: Seq<CatalogView>)
    ensures
        tables_rows(a + b) == tables_rows(a) + tables_rows(b),
{
    lemma_rows_of_catalogs_concat(a, b, tables_per_table(), tables_per_catalog());
}

/// Catalogs listed one after another give their rows of
/// `information_schema.views` one after another.
pub proof fn law_views_rows_concat(a: Seq<CatalogView>, b: Seq<CatalogView>)
    ensures
        views_rows(a + b) == views_rows(a) + views_rows(b),
{
    lemma_rows_of_catalogs_concat(a, b, views_per_table(), no_rows());
}

/// Catalogs listed one after another give their rows of
/// `information_schema.columns` one after another.
pub proof fn law_columns_rows_concat(a: Seq<CatalogView>, b: Seq<CatalogView>)
    ensures
        columns_rows(a + b) == columns_rows(a) + columns_rows(b),
{
    lemma_rows_of_catalogs_concat(a, b, columns_per_table(), no_rows());
}

} // verus!

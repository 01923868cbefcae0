//! The rows of the information schema's tables, as mathematical values, and
//! the order in which the catalogs produce them.
use vstd::prelude::*;
use crate::catalog::{CatalogView, ColumnDataTypeView, DataTypeClass, SchemaView, TableType, TableView};

verus! {

/// The name of the schema that holds the information schema's tables.
pub const INFORMATION_SCHEMA: &'static str = "information_schema";

/// Name of the table that lists tables.
pub const TABLES: &'static str = "tables";

/// Name of the table that lists views.
pub const VIEWS: &'static str = "views";

/// Name of the table that lists columns.
pub const COLUMNS: &'static str = "columns";

/// A row of `information_schema.tables`.
pub struct TablesRow {
    pub catalog: Seq<char>,
    pub schema: Seq<char>,
    pub table: Seq<char>,
    pub table_type: Seq<char>,
}

/// A row of `information_schema.views`.
pub struct ViewsRow {
    pub catalog: Seq<char>,
    pub schema: Seq<char>,
    pub table: Seq<char>,
    pub definition: Option<Seq<char>>,
}

/// A row of `information_schema.columns`, without the columns that are always null
/// (`column_default`, `character_maximum_length`, `datetime_precision`,
/// `interval_type`).
pub struct ColumnsRow {
    pub catalog: Seq<char>,
    pub schema: Seq<char>,
    pub table: Seq<char>,
    pub column: Seq<char>,
    pub ordinal_position: u64,
    pub is_nullable: Seq<char>,
    pub data_type: Seq<char>,
    pub character_octet_length: Option<u64>,
    pub numeric_precision: Option<u64>,
    pub numeric_precision_radix: Option<u64>,
    pub numeric_scale: Option<u64>,
}

/// The text that `information_schema.tables` gives a table type.
pub open spec fn table_type_text(t: TableType) -> Seq<char> {
    match t {
        TableType::Base => "BASE TABLE"@,
        TableType::View => "VIEW"@,
        TableType::Temporary => "LOCAL TEMPORARY"@,
    }
}

/// `YES` where the column is possibly nullable, `NO` where it is known not to be.
pub open spec fn nullable_text(nullable: bool) -> Seq<char> {
    if nullable {
        "YES"@
    } else {
        "NO"@
    }
}

/// Maximum length in bytes of character or binary data: that of a 32-bit
/// offset array for `Utf8` and `Binary`, of a 64-bit one for the large kinds.
pub open spec fn octet_length_of(class: DataTypeClass) -> Option<u64> {
    match class {
        DataTypeClass::Utf8 | DataTypeClass::Binary => Some(0x7fff_ffffu64),
        DataTypeClass::LargeBinary | DataTypeClass::LargeUtf8 => Some(0x7fff_ffff_ffff_ffffu64),
        _ => None,
    }
}

/// Precision, radix and scale of a numeric type; all null for the others.
pub open spec fn numeric_attributes_of(class: DataTypeClass) -> (Option<u64>, Option<u64>, Option<u64>) {
    match class {
        DataTypeClass::Int8 | DataTypeClass::UInt8 => (Some(8u64), Some(2u64), None),
        DataTypeClass::Int16 | DataTypeClass::UInt16 => (Some(16u64), Some(2u64), None),
        DataTypeClass::Int32 | DataTypeClass::UInt32 => (Some(32u64), Some(2u64), None),
        DataTypeClass::Float16 => (Some(15u64), Some(2u64), None),
        // The figures of PostgreSQL's `real`: 24 binary digits.
        DataTypeClass::Float32 => (Some(24u64), Some(2u64), None),
        // The figures of PostgreSQL's `double precision`: 53 binary digits.
        DataTypeClass::Float64 => (Some(53u64), Some(2u64), None),
        DataTypeClass::Decimal128(precision, scale) => (
            Some(precision as u64),
            Some(10u64),
            Some(scale as u64),
        ),
        _ => (None, None, None),
    }
}

pub open spec fn tables_row(
    catalog: Seq<char>,
    schema: Seq<char>,
    table: Seq<char>,
    table_type: TableType,
) -> TablesRow {
    TablesRow { catalog, schema, table, table_type: table_type_text(table_type) }
}

pub open spec fn views_row(
    catalog: Seq<char>,
    schema: Seq<char>,
    table: Seq<char>,
    definition: Option<Seq<char>>,
) -> ViewsRow {
    ViewsRow { catalog, schema, table, definition }
}

pub open spec fn columns_row(
    catalog: Seq<char>,
    schema: Seq<char>,
    table: Seq<char>,
    column: Seq<char>,
    position: u64,
    nullable: bool,
    data_type: ColumnDataTypeView,
) -> ColumnsRow {
    let numeric = numeric_attributes_of(data_type.class);
    ColumnsRow {
        catalog,
        schema,
        table,
        column,
        ordinal_position: position,
        is_nullable: nullable_text(nullable),
        data_type: data_type.name,
        character_octet_length: octet_length_of(data_type.class),
        numeric_precision: numeric.0,
        numeric_precision_radix: numeric.1,
        numeric_scale: numeric.2,
    }
}

/// Rows that a table of the given catalog and schema contributes.
pub type PerTable<R> = spec_fn(Seq<char>, Seq<char>, TableView) -> Seq<R>;

/// Rows that a catalog contributes after those of its tables.
pub type PerCatalog<R> = spec_fn(Seq<char>) -> Seq<R>;

/// The rows of these tables, table after table.
pub open spec fn rows_of_tables<R>(
    catalog: Seq<char>,
    schema: Seq<char>,
    tables: Seq<TableView>,
    per_table: PerTable<R>,
) -> Seq<R>
    decreases tables.len(),
{
    if tables.len() == 0 {
        Seq::empty()
    } else {
        rows_of_tables(catalog, schema, tables.drop_last(), per_table) + per_table(
            catalog,
            schema,
            tables.last(),
        )
    }
}

/// The rows that one schema contributes: none for the information schema itself.
pub open spec fn rows_of_schema<R>(
    catalog: Seq<char>,
    schema: SchemaView,
    per_table: PerTable<R>,
) -> Seq<R> {
    if schema.name == INFORMATION_SCHEMA@ {
        Seq::empty()
    } else {
        rows_of_tables(catalog, schema.name, schema.tables, per_table)
    }
}

/// The rows of these schemas, schema after schema.
pub open spec fn rows_of_schemas<R>(
    catalog: Seq<char>,
    schemas: Seq<SchemaView>,
    per_table: PerTable<R>,
) -> Seq<R>
    decreases schemas.len(),
{
    if schemas.len() == 0 {
        Seq::empty()
    } else {
        rows_of_schemas(catalog, schemas.drop_last(), per_table) + rows_of_schema(
            catalog,
            schemas.last(),
            per_table,
        )
    }
}

/// The rows that one catalog contributes.
pub open spec fn rows_of_catalog<R>(
    catalog: CatalogView,
    per_table: PerTable<R>,
    per_catalog: PerCatalog<R>,
) -> Seq<R> {
    rows_of_schemas(catalog.name, catalog.schemas, per_table) + per_catalog(catalog.name)
}

/// The rows of these catalogs, catalog after catalog.
pub open spec fn rows_of_catalogs<R>(
    catalogs: Seq<CatalogView>,
    per_table: PerTable<R>,
    per_catalog: PerCatalog<R>,
) -> Seq<R>
    decreases catalogs.len(),
{
    if catalogs.len() == 0 {
        Seq::empty()
    } else {
        rows_of_catalogs(catalogs.drop_last(), per_table, per_catalog) + rows_of_catalog(
            catalogs.last(),
            per_table,
            per_catalog,
        )
    }
}

pub proof fn lemma_rows_of_tables_concat<R>(
    catalog: Seq<char>,
    schema: Seq<char>,
    a: Seq<TableView>,
    b: Seq<TableView>,
    per_table: PerTable<R>,
)
    ensures
        rows_of_tables(catalog, schema, a + b, per_table) == rows_of_tables(
            catalog,
            schema,
            a,
            per_table,
        ) + rows_of_tables(catalog, schema, b, per_table),
    decreases b.len(),
{
    if b.len() == 0 {
        assert(a + b =~= a);
        assert(rows_of_tables(catalog, schema, a, per_table) + Seq::<R>::empty() =~= rows_of_tables(
            catalog,
            schema,
            a,
            per_table,
        ));
    } else {
        lemma_rows_of_tables_concat(catalog, schema, a, b.drop_last(), per_table);
        assert((a + b).drop_last() =~= a + b.drop_last());
        assert((a + b).last() == b.last());
        assert(rows_of_tables(catalog, schema, a + b, per_table) =~= rows_of_tables(
            catalog,
            schema,
            a,
            per_table,
        ) + rows_of_tables(catalog, schema, b, per_table));
    }
}

pub proof fn lemma_rows_of_schemas_concat<R>(
    catalog: Seq<char>,
    a: Seq<SchemaView>,
    b: Seq<SchemaView>,
    per_table: PerTable<R>,
)
    ensures
        rows_of_schemas(catalog, a + b, per_table) == rows_of_schemas(catalog, a, per_table)
            + rows_of_schemas(catalog, b, per_table),
    decreases b.len(),
{
    if b.len() == 0 {
        assert(a + b =~= a);
        assert(rows_of_schemas(catalog, a, per_table) + Seq::<R>::empty() =~= rows_of_schemas(
            catalog,
            a,
            per_table,
        ));
    } else {
        lemma_rows_of_schemas_concat(catalog, a, b.drop_last(), per_table);
        assert((a + b).drop_last() =~= a + b.drop_last());
        assert((a + b).last() == b.last());
        assert(rows_of_schemas(catalog, a + b, per_table) =~= rows_of_schemas(catalog, a, per_table)
            + rows_of_schemas(catalog, b, per_table));
    }
}

pub proof fn lemma_rows_of_catalogs_concat<R>(
    a: Seq<CatalogView>,
    b: Seq<CatalogView>,
    per_table: PerTable<R>,
    per_catalog: PerCatalog<R>,
)
    ensures
        rows_of_catalogs(a + b, per_table, per_catalog) == rows_of_catalogs(
            a,
            per_table,
            per_catalog,
        ) + rows_of_catalogs(b, per_table, per_catalog),
    decreases b.len(),
{
    if b.len() == 0 {
        assert(a + b =~= a);
        assert(rows_of_catalogs(a, per_table, per_catalog) + Seq::<R>::empty() =~= rows_of_catalogs(
            a,
            per_table,
            per_catalog,
        ));
    } else {
        lemma_rows_of_catalogs_concat(a, b.drop_last(), per_table, per_catalog);
        assert((a + b).drop_last() =~= a + b.drop_last());
        assert((a + b).last() == b.last());
        assert(rows_of_catalogs(a + b, per_table, per_catalog) =~= rows_of_catalogs(
            a,
            per_table,
            per_catalog,
        ) + rows_of_catalogs(b, per_table, per_catalog));
    }
}

/// How the rows of a list split at a position `i`: those before, those of
/// element `i`, those after.
pub proof fn lemma_rows_of_catalogs_split<R>(
    catalogs: Seq<CatalogView>,
    i: int,
    per_table: PerTable<R>,
    per_catalog: PerCatalog<R>,
)
    requires
        0 <= i < catalogs.len(),
    ensures
        rows_of_catalogs(catalogs.take(i + 1), per_table, per_catalog) == rows_of_catalogs(
            catalogs.take(i),
            per_table,
            per_catalog,
        ) + rows_of_catalog(catalogs[i], per_table, per_catalog),
        rows_of_catalogs(catalogs, per_table, per_catalog) == rows_of_catalogs(
            catalogs.take(i + 1),
            per_table,
            per_catalog,
        ) + rows_of_catalogs(catalogs.skip(i + 1), per_table, per_catalog),
{
    assert(catalogs.take(i + 1).drop_last() =~= catalogs.take(i));
    assert(catalogs.take(i + 1) + catalogs.skip(i + 1) =~= catalogs);
    lemma_rows_of_catalogs_concat(catalogs.take(i + 1), catalogs.skip(i + 1), per_table, per_catalog);
}

pub proof fn lemma_rows_of_schemas_split<R>(
    catalog: Seq<char>,
    schemas: Seq<SchemaView>,
    j: int,
    per_table: PerTable<R>,
)
    requires
        0 <= j < schemas.len(),
    ensures
        rows_of_schemas(catalog, schemas.take(j + 1), per_table) == rows_of_schemas(
            catalog,
            schemas.take(j),
            per_table,
        ) + rows_of_schema(catalog, schemas[j], per_table),
        rows_of_schemas(catalog, schemas, per_table) == rows_of_schemas(
            catalog,
            schemas.take(j + 1),
            per_table,
        ) + rows_of_schemas(catalog, schemas.skip(j + 1), per_table),
{
    assert(schemas.take(j + 1).drop_last() =~= schemas.take(j));
    assert(schemas.take(j + 1) + schemas.skip(j + 1) =~= schemas);
    lemma_rows_of_schemas_concat(catalog, schemas.take(j + 1), schemas.skip(j + 1), per_table);
}

pub proof fn lemma_rows_of_tables_split<R>(
    catalog: Seq<char>,
    schema: Seq<char>,
    tables: Seq<TableView>,
    k: int,
    per_table: PerTable<R>,
)
    requires
        0 <= k < tables.len(),
    ensures
        rows_of_tables(catalog, schema, tables.take(k + 1), per_table) == rows_of_tables(
            catalog,
            schema,
            tables.take(k),
            per_table,
        ) + per_table(catalog, schema, tables[k]),
        rows_of_tables(catalog, schema, tables, per_table) == rows_of_tables(
            catalog,
            schema,
            tables.take(k + 1),
            per_table,
        ) + rows_of_tables(catalog, schema, tables.skip(k + 1), per_table),
{
    assert(tables.take(k + 1).drop_last() =~= tables.take(k));
    assert(tables.take(k + 1) + tables.skip(k + 1) =~= tables);
    lemma_rows_of_tables_concat(catalog, schema, tables.take(k + 1), tables.skip(k + 1), per_table);
}

/// Table `ti` of schema `si` of catalog `ci` is there, and its schema is
/// not the information schema.
pub open spec fn listed(catalogs: Seq<CatalogView>, ci: int, si: int, ti: int) -> bool {
    &&& 0 <= ci < catalogs.len()
    &&& 0 <= si < catalogs[ci].schemas.len()
    &&& catalogs[ci].schemas[si].name != INFORMATION_SCHEMA@
    &&& 0 <= ti < catalogs[ci].schemas[si].tables.len()
}

/// `x` is one of the rows of the listed table `ti` of schema `si` of catalog `ci`.
pub open spec fn from_table<R>(
    catalogs: Seq<CatalogView>,
    per_table: PerTable<R>,
    ci: int,
    si: int,
    ti: int,
    x: R,
) -> bool {
    &&& listed(catalogs, ci, si, ti)
    &&& per_table(
        catalogs[ci].name,
        catalogs[ci].schemas[si].name,
        catalogs[ci].schemas[si].tables[ti],
    ).contains(x)
}

/// `x` is one of the rows that catalog `ci` contributes after its tables.
pub open spec fn from_catalog<R>(
    catalogs: Seq<CatalogView>,
    per_catalog: PerCatalog<R>,
    ci: int,
    x: R,
) -> bool {
    &&& 0 <= ci < catalogs.len()
    &&& per_catalog(catalogs[ci].name).contains(x)
}

pub proof fn lemma_contains_concat<R>(a: Seq<R>, b: Seq<R>, x: R)
    ensures
        (a + b).contains(x) <==> (a.contains(x) || b.contains(x)),
{
    if a.contains(x) {
        let i = choose|i: int| 0 <= i < a.len() && a[i] == x;
        assert((a + b)[i] == x);
    } else if b.contains(x) {
        let i = choose|i: int| 0 <= i < b.len() && b[i] == x;
        assert((a + b)[a.len() + i] == x);
    }
    if (a + b).contains(x) {
        let i = choose|i: int| 0 <= i < (a + b).len() && (a + b)[i] == x;
        if i < a.len() {
            assert(a[i] == x);
        } else {
            assert(b[i - a.len()] == x);
        }
    }
}

/// The rows of a listed table are among the rows of the catalogs.
pub proof fn lemma_rows_of_catalogs_include<R>(
    catalogs: Seq<CatalogView>,
    per_table: PerTable<R>,
    per_catalog: PerCatalog<R>,
    ci: int,
    si: int,
    ti: int,
    x: R,
)
    requires
        from_table(catalogs, per_table, ci, si, ti, x),
    ensures
        rows_of_catalogs(catalogs, per_table, per_catalog).contains(x),
{
    let c = catalogs[ci];
    let s = c.schemas[si];
    lemma_rows_of_tables_split(c.name, s.name, s.tables, ti, per_table);
    let tables_part = rows_of_tables(c.name, s.name, s.tables.take(ti + 1), per_table);
    lemma_contains_concat(
        rows_of_tables(c.name, s.name, s.tables.take(ti), per_table),
        per_table(c.name, s.name, s.tables[ti]),
        x,
    );
    lemma_contains_concat(
        tables_part,
        rows_of_tables(c.name, s.name, s.tables.skip(ti + 1), per_table),
        x,
    );
    lemma_rows_of_schemas_split(c.name, c.schemas, si, per_table);
    lemma_contains_concat(
        rows_of_schemas(c.name, c.schemas.take(si), per_table),
        rows_of_schema(c.name, s, per_table),
        x,
    );
    lemma_contains_concat(
        rows_of_schemas(c.name, c.schemas.take(si + 1), per_table),
        rows_of_schemas(c.name, c.schemas.skip(si + 1), per_table),
        x,
    );
    lemma_contains_concat(
        rows_of_schemas(c.name, c.schemas, per_table),
        per_catalog(c.name),
        x,
    );
    lemma_rows_of_catalogs_split(catalogs, ci, per_table, per_catalog);
    lemma_contains_concat(
        rows_of_catalogs(catalogs.take(ci), per_table, per_catalog),
        rows_of_catalog(c, per_table, per_catalog),
        x,
    );
    lemma_contains_concat(
        rows_of_catalogs(catalogs.take(ci + 1), per_table, per_catalog),
        rows_of_catalogs(catalogs.skip(ci + 1), per_table, per_catalog),
        x,
    );
}

/// The rows that a catalog contributes after its tables are among the rows
/// of the catalogs.
pub proof fn lemma_rows_of_catalogs_include_catalog<R>(
    catalogs: Seq<CatalogView>,
    per_table: PerTable<R>,
    per_catalog: PerCatalog<R>,
    ci: int,
    x: R,
)
    requires
        from_catalog(catalogs, per_catalog, ci, x),
    ensures
        rows_of_catalogs(catalogs, per_table, per_catalog).contains(x),
{
    let c = catalogs[ci];
    lemma_contains_concat(
        rows_of_schemas(c.name, c.schemas, per_table),
        per_catalog(c.name),
        x,
    );
    lemma_rows_of_catalogs_split(catalogs, ci, per_table, per_catalog);
    lemma_contains_concat(
        rows_of_catalogs(catalogs.take(ci), per_table, per_catalog),
        rows_of_catalog(c, per_table, per_catalog),
        x,
    );
    lemma_contains_concat(
        rows_of_catalogs(catalogs.take(ci + 1), per_table, per_catalog),
        rows_of_catalogs(catalogs.skip(ci + 1), per_table, per_catalog),
        x,
    );
}

proof fn lemma_rows_of_tables_origin<R>(
    catalog: Seq<char>,
    schema: Seq<char>,
    tables: Seq<TableView>,
    per_table: PerTable<R>,
    x: R,
) -> (ti: int)
    requires
        rows_of_tables(catalog, schema, tables, per_table).contains(x),
    ensures
        0 <= ti < tables.len(),
        per_table(catalog, schema, tables[ti]).contains(x),
    decreases tables.len(),
{
    lemma_contains_concat(
        rows_of_tables(catalog, schema, tables.drop_last(), per_table),
        per_table(catalog, schema, tables.last()),
        x,
    );
    if rows_of_tables(catalog, schema, tables.drop_last(), per_table).contains(x) {
        lemma_rows_of_tables_origin(catalog, schema, tables.drop_last(), per_table, x)
    } else {
        tables.len() - 1
    }
}

proof fn lemma_rows_of_schemas_origin<R>(
    catalog: Seq<char>,
    schemas: Seq<SchemaView>,
    per_table: PerTable<R>,
    x: R,
) -> (found: (int, int))
    requires
        rows_of_schemas(catalog, schemas, per_table).contains(x),
    ensures
        0 <= found.0 < schemas.len(),
        schemas[found.0].name != INFORMATION_SCHEMA@,
        0 <= found.1 < schemas[found.0].tables.len(),
        per_table(catalog, schemas[found.0].name, schemas[found.0].tables[found.1]).contains(x),
    decreases schemas.len(),
{
    let last = schemas.last();
    lemma_contains_concat(
        rows_of_schemas(catalog, schemas.drop_last(), per_table),
        rows_of_schema(catalog, last, per_table),
        x,
    );
    if rows_of_schemas(catalog, schemas.drop_last(), per_table).contains(x) {
        lemma_rows_of_schemas_origin(catalog, schemas.drop_last(), per_table, x)
    } else {
        let ti = lemma_rows_of_tables_origin(catalog, last.name, last.tables, per_table, x);
        (schemas.len() - 1, ti)
    }
}

/// Every row of the catalogs comes from a listed table, or from what a
/// catalog contributes after its tables.
pub proof fn lemma_rows_of_catalogs_origin<R>(
    catalogs: Seq<CatalogView>,
    per_table: PerTable<R>,
    per_catalog: PerCatalog<R>,
    x: R,
)
    requires
        rows_of_catalogs(catalogs, per_table, per_catalog).contains(x),
    ensures
        (exists|ci: int, si: int, ti: int| #[trigger] from_table(catalogs, per_table, ci, si, ti, x))
            || (exists|ci: int| #[trigger] from_catalog(catalogs, per_catalog, ci, x)),
    decreases catalogs.len(),
{
    let n = catalogs.len();
    let last = catalogs.last();
    let prefix = catalogs.drop_last();
    lemma_contains_concat(
        rows_of_catalogs(prefix, per_table, per_catalog),
        rows_of_catalog(last, per_table, per_catalog),
        x,
    );
    if rows_of_catalogs(prefix, per_table, per_catalog).contains(x) {
        lemma_rows_of_catalogs_origin(prefix, per_table, per_catalog, x);
        if exists|ci: int, si: int, ti: int| #[trigger] from_table(prefix, per_table, ci, si, ti, x) {
            let (ci, si, ti) = choose|ci: int, si: int, ti: int|
                #[trigger] from_table(prefix, per_table, ci, si, ti, x);
            assert(prefix[ci] == catalogs[ci]);
            assert(from_table(catalogs, per_table, ci, si, ti, x));
        } else {
            let ci = choose|ci: int| #[trigger] from_catalog(prefix, per_catalog, ci, x);
            assert(prefix[ci] == catalogs[ci]);
            assert(from_catalog(catalogs, per_catalog, ci, x));
        }
    } else {
        lemma_contains_concat(
            rows_of_schemas(last.name, last.schemas, per_table),
            per_catalog(last.name),
            x,
        );
        if rows_of_schemas(last.name, last.schemas, per_table).contains(x) {
            let (si, ti) = lemma_rows_of_schemas_origin(last.name, last.schemas, per_table, x);
            assert(from_table(catalogs, per_table, n - 1, si, ti, x));
        } else {
            assert(from_catalog(catalogs, per_catalog, n - 1, x));
        }
    }
}

/// The rows of a list of one catalog are that catalog's rows.
pub proof fn lemma_rows_of_single_catalog<R>(
    catalog: CatalogView,
    per_table: PerTable<R>,
    per_catalog: PerCatalog<R>,
)
    ensures
        rows_of_catalogs(seq![catalog], per_table, per_catalog) == rows_of_catalog(
            catalog,
            per_table,
            per_catalog,
        ),
{
    let one = seq![catalog];
    assert(one.drop_last() =~= Seq::<CatalogView>::empty());
    assert(rows_of_catalogs(one.drop_last(), per_table, per_catalog) == Seq::<R>::empty());
    assert(Seq::<R>::empty() + rows_of_catalog(catalog, per_table, per_catalog) =~= rows_of_catalog(
        catalog,
        per_table,
        per_catalog,
    ));
}

/// A weight for each table, such as one, or its number of fields.
pub type TableWeight = spec_fn(TableView) -> nat;

/// The total weight of these tables.
pub open spec fn tables_weight(tables: Seq<TableView>, weight: TableWeight) -> nat
    decreases tables.len(),
{
    if tables.len() == 0 {
        0
    } else {
        tables_weight(tables.drop_last(), weight) + weight(tables.last())
    }
}

/// The total weight of the tables of these schemas, the information schema
/// left out.
pub open spec fn schemas_weight(schemas: Seq<SchemaView>, weight: TableWeight) -> nat
    decreases schemas.len(),
{
    if schemas.len() == 0 {
        0
    } else if schemas.last().name == INFORMATION_SCHEMA@ {
        schemas_weight(schemas.drop_last(), weight)
    } else {
        schemas_weight(schemas.drop_last(), weight) + tables_weight(schemas.last().tables, weight)
    }
}

/// The total weight of the tables of these catalogs, the information schema
/// left out.
pub open spec fn catalogs_weight(catalogs: Seq<CatalogView>, weight: TableWeight) -> nat
    decreases catalogs.len(),
{
    if catalogs.len() == 0 {
        0
    } else {
        catalogs_weight(catalogs.drop_last(), weight) + schemas_weight(
            catalogs.last().schemas,
            weight,
        )
    }
}

proof fn lemma_rows_of_tables_len<R>(
    catalog: Seq<char>,
    schema: Seq<char>,
    tables: Seq<TableView>,
    per_table: PerTable<R>,
    weight: TableWeight,
)
    requires
        forall|c: Seq<char>, s: Seq<char>, t: TableView| #[trigger] per_table(c, s, t).len() == weight(t),
    ensures
        rows_of_tables(catalog, schema, tables, per_table).len() == tables_weight(tables, weight),
    decreases tables.len(),
{
    if tables.len() > 0 {
        lemma_rows_of_tables_len(catalog, schema, tables.drop_last(), per_table, weight);
        assert(per_table(catalog, schema, tables.last()).len() == weight(tables.last()));
    }
}

proof fn lemma_rows_of_schemas_len<R>(
    catalog: Seq<char>,
    schemas: Seq<SchemaView>,
    per_table: PerTable<R>,
    weight: TableWeight,
)
    requires
        forall|c: Seq<char>, s: Seq<char>, t: TableView| #[trigger] per_table(c, s, t).len() == weight(t),
    ensures
        rows_of_schemas(catalog, schemas, per_table).len() == schemas_weight(schemas, weight),
    decreases schemas.len(),
{
    if schemas.len() > 0 {
        lemma_rows_of_schemas_len(catalog, schemas.drop_last(), per_table, weight);
        let last = schemas.last();
        lemma_rows_of_tables_len(catalog, last.name, last.tables, per_table, weight);
    }
}

/// Where every table contributes as many rows as its weight, and every
/// catalog `extra` rows after those of its tables, the catalogs give the
/// total weight of their tables plus `extra` rows per catalog.
pub proof fn lemma_rows_of_catalogs_len<R>(
    catalogs: Seq<CatalogView>,
    per_table: PerTable<R>,
    per_catalog: PerCatalog<R>,
    weight: TableWeight,
    extra: nat,
)
    requires
        forall|c: Seq<char>, s: Seq<char>, t: TableView| #[trigger] per_table(c, s, t).len() == weight(t),
        forall|c: Seq<char>| #[trigger] per_catalog(c).len() == extra,
    ensures
        rows_of_catalogs(catalogs, per_table, per_catalog).len() == catalogs_weight(catalogs, weight)
            + extra * catalogs.len(),
    decreases catalogs.len(),
{
    if catalogs.len() > 0 {
        let n = catalogs.len();
        let last = catalogs.last();
        lemma_rows_of_catalogs_len(catalogs.drop_last(), per_table, per_catalog, weight, extra);
        lemma_rows_of_schemas_len(last.name, last.schemas, per_table, weight);
        assert(per_catalog(last.name).len() == extra);
        assert(extra * (n - 1) + extra == extra * n) by (nonlinear_arith);
    }
}

/// Precision, radix and scale by kind of type: binary precision and radix 2
/// for the integer and floating-point types, with the integers' precision
/// their width in bits; declared precision and scale in radix 10 for 128-bit
/// decimals; a scale for decimals alone; nothing for the other types.
pub proof fn law_numeric_attributes(class: DataTypeClass)
    ensures
        ({
            let (precision, radix, scale) = numeric_attributes_of(class);
            &&& precision is Some <==> radix is Some
            &&& (radix == Some(2u64) <==> (class is Int8 || class is UInt8 || class is Int16
                || class is UInt16 || class is Int32 || class is UInt32 || class is Float16
                || class is Float32 || class is Float64))
            &&& (radix == Some(10u64) <==> class is Decimal128)
            &&& (scale is Some <==> class is Decimal128)
            &&& ((class is Int8 || class is UInt8) ==> precision == Some(8u64))
            &&& ((class is Int16 || class is UInt16) ==> precision == Some(16u64))
            &&& ((class is Int32 || class is UInt32) ==> precision == Some(32u64))
            &&& (class is Float16 ==> precision == Some(15u64))
            &&& (class is Float32 ==> precision == Some(24u64))
            &&& (class is Float64 ==> precision == Some(53u64))
            &&& (class matches DataTypeClass::Decimal128(p, s) ==> precision == Some(p as u64)
                && scale == Some(s as u64))
        }),
{
}

/// A character octet length for character and binary data alone: that of a
/// 32-bit offset array for `Utf8` and `Binary`, of a 64-bit one for the large
/// kinds.
pub proof fn law_octet_length(class: DataTypeClass)
    ensures
        octet_length_of(class) is Some <==> (class is Utf8 || class is Binary || class is LargeUtf8
            || class is LargeBinary),
        (class is Utf8 || class is Binary) ==> octet_length_of(class) == Some(0x7fff_ffffu64),
        (class is LargeUtf8 || class is LargeBinary) ==> octet_length_of(class) == Some(
            0x7fff_ffff_ffff_ffffu64,
        ),
{
}

} // verus!

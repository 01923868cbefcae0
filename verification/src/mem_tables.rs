//! The information schema's tables as in-memory DataFusion tables: each
//! table's columns (names, Arrow types, nullability), the record batch built
//! from the builders' columns, and the `MemTable` holding it.
//!
//! Columns are based on PostgreSQL's information schema
//! (<https://www.postgresql.org/docs/current/infoschema-columns.html>).
use vstd::prelude::*;
use std::sync::Arc;
use datafusion::arrow::array::ArrayRef;
use datafusion::arrow::datatypes::{DataType, Field as ArrowField, Schema as ArrowSchema};
use datafusion::arrow::record_batch::RecordBatch;
use datafusion::datasource::MemTable;
use datafusion::error::DataFusionError;
use crate::arrow_columns::{uint64_column_values, utf8_column_values, UInt64Column, Utf8Column};
use crate::builders::{
    columns_catalog_cells, columns_column_cells, columns_data_type_cells, columns_nullable_cells,
    columns_octet_length_cells, columns_position_cells, columns_precision_cells,
    columns_radix_cells, columns_scale_cells, columns_schema_cells, columns_table_cells,
    law_columns_columns_full, law_tables_columns_full, law_views_columns_full, null_cells,
    null_numbers, tables_catalog_cells, tables_schema_cells, tables_table_cells, tables_type_cells,
    views_catalog_cells, views_definition_cells, views_schema_cells, views_table_cells,
    InformationSchemaColumnsBuilder, InformationSchemaTablesBuilder, InformationSchemaViewBuilder,
};
use crate::rows::{ColumnsRow, TablesRow, ViewsRow};

verus! {

#[verifier::external_type_specification]
#[verifier::external_body]
pub struct ExMemTable(MemTable);

#[verifier::external_type_specification]
#[verifier::external_body]
pub struct ExDataFusionError(DataFusionError);

/// The Arrow type of a column of the information schema.
#[derive(Clone, Copy, Debug, PartialEq, Eq, Structural)]
pub enum ColumnKind {
    Utf8,
    UInt64,
}

/// A field of an information schema table: name, type, nullability.
#[derive(Clone, Copy, Debug)]
pub struct ColumnSpec {
    pub name: &'static str,
    pub kind: ColumnKind,
    pub nullable: bool,
}

impl View for ColumnSpec {
    type V = (Seq<char>, ColumnKind, bool);

    open spec fn view(&self) -> (Seq<char>, ColumnKind, bool) {
        (self.name@, self.kind, self.nullable)
    }
}

pub open spec fn specs_view(specs: Seq<ColumnSpec>) -> Seq<(Seq<char>, ColumnKind, bool)> {
    specs.map_values(|s: ColumnSpec| s@)
}

/// A built column, ready to become an Arrow array.
pub enum BuiltColumn {
    Utf8(Utf8Column),
    UInt64(UInt64Column),
}

/// The cells of a column.
pub enum ColumnCells {
    Utf8(Seq<Option<Seq<char>>>),
    UInt64(Seq<Option<u64>>),
}

pub open spec fn built_cells(c: BuiltColumn) -> ColumnCells {
    match c {
        BuiltColumn::Utf8(u) => ColumnCells::Utf8(utf8_column_values(u)),
        BuiltColumn::UInt64(u) => ColumnCells::UInt64(uint64_column_values(u)),
    }
}

pub open spec fn columns_view(columns: Seq<BuiltColumn>) -> Seq<ColumnCells> {
    columns.map_values(|c: BuiltColumn| built_cells(c))
}

pub open spec fn cells_len(c: ColumnCells) -> nat {
    match c {
        ColumnCells::Utf8(v) => v.len(),
        ColumnCells::UInt64(v) => v.len(),
    }
}

pub open spec fn cells_kind(c: ColumnCells) -> ColumnKind {
    match c {
        ColumnCells::Utf8(v) => ColumnKind::Utf8,
        ColumnCells::UInt64(v) => ColumnKind::UInt64,
    }
}

pub open spec fn cells_have_null(c: ColumnCells) -> bool {
    match c {
        ColumnCells::Utf8(v) => v.contains(None),
        ColumnCells::UInt64(v) => v.contains(None),
    }
}

/// A record batch takes these columns under these fields: one column per
/// field, at least one column, all of one length, each of its field's type,
/// and no null in a column whose field is not nullable.
pub open spec fn batch_accepts(fields: Seq<(Seq<char>, ColumnKind, bool)>, columns: Seq<ColumnCells>) -> bool {
    &&& fields.len() == columns.len()
    &&& columns.len() > 0
    &&& forall|i: int| 0 <= i < columns.len() ==> cells_len(#[trigger] columns[i]) == cells_len(columns[0])
    &&& forall|i: int| 0 <= i < columns.len() ==> cells_kind(#[trigger] columns[i]) == fields[i].1
    &&& forall|i: int| 0 <= i < columns.len() ==> !fields[i].2 ==> !cells_have_null(#[trigger] columns[i])
}

/// The fields of an in-memory table's schema.
pub uninterp spec fn mem_table_fields(t: MemTable) -> Seq<(Seq<char>, ColumnKind, bool)>;

/// The partitions of an in-memory table: each a list of record batches,
/// each given by the cells of its columns.
pub uninterp spec fn mem_table_partitions(t: MemTable) -> Seq<Seq<Seq<ColumnCells>>>;

/// Builds an in-memory table: the schema made of these fields (`Field::new`
/// with `Utf8` or `UInt64`, `Schema::new`), the arrays the builders finish
/// into, `RecordBatch::try_new` on them (its `ArrowError` carried as
/// `DataFusionError::ArrowError`), then `MemTable::try_new` with that schema
/// and one partition holding the batch.
///
/// `RecordBatch::try_new` fails exactly when the batch does not take the
/// columns (field count, at least one column, no null under a non-nullable
/// field, equal lengths, matching types). `MemTable::try_new` fails only when
/// a batch's schema is not contained in the table's; here both are the same
/// schema, which contains itself (`Schema::contains`, `Field::contains`).
/// On success the table holds those fields and, in its one partition, one
/// batch of those cells.
#[verifier::external_body]
fn mem_table(specs: &Vec<ColumnSpec>, columns: Vec<BuiltColumn>) -> (r: Result<MemTable, DataFusionError>)
    ensures
        r is Ok <==> batch_accepts(specs_view(specs@), columns_view(columns@)),
        r matches Ok(t) ==> mem_table_fields(t) == specs_view(specs@) && mem_table_partitions(t)
            == seq![seq![columns_view(columns@)]],
{
    let fields = specs.iter().map(|s| match s.kind {
        ColumnKind::Utf8 => ArrowField::new(s.name, DataType::Utf8, s.nullable),
        ColumnKind::UInt64 => ArrowField::new(s.name, DataType::UInt64, s.nullable),
    }).collect();
    let arrays = columns.into_iter().map(|c| -> ArrayRef { match c {
        BuiltColumn::Utf8(mut c) => Arc::new(c.builder.finish()),
        BuiltColumn::UInt64(mut c) => Arc::new(c.builder.finish()),
    } }).collect();
    let schema = Arc::new(ArrowSchema::new(fields));
    let batch = RecordBatch::try_new(schema.clone(), arrays).map_err(DataFusionError::ArrowError)?;
    MemTable::try_new(schema, vec![vec![batch]])
}

// ---------------------------------------------------------------------------
// information_schema.tables
// ---------------------------------------------------------------------------

pub open spec fn tables_table_fields() -> Seq<(Seq<char>, ColumnKind, bool)> {
    seq![
        ("table_catalog"@, ColumnKind::Utf8, false),
        ("table_schema"@, ColumnKind::Utf8, false),
        ("table_name"@, ColumnKind::Utf8, false),
        ("table_type"@, ColumnKind::Utf8, false),
    ]
}

/// The columns of `information_schema.tables` holding these rows.
pub open spec fn tables_table_columns(rows: Seq<TablesRow>) -> Seq<ColumnCells> {
    seq![
        ColumnCells::Utf8(tables_catalog_cells(rows)),
        ColumnCells::Utf8(tables_schema_cells(rows)),
        ColumnCells::Utf8(tables_table_cells(rows)),
        ColumnCells::Utf8(tables_type_cells(rows)),
    ]
}

/// The fields of `information_schema.tables`.
pub fn tables_table_schema() -> (specs: Vec<ColumnSpec>)
    ensures
        specs_view(specs@) == tables_table_fields(),
{
    let specs = vec![
        ColumnSpec { name: "table_catalog", kind: ColumnKind::Utf8, nullable: false },
        ColumnSpec { name: "table_schema", kind: ColumnKind::Utf8, nullable: false },
        ColumnSpec { name: "table_name", kind: ColumnKind::Utf8, nullable: false },
        ColumnSpec { name: "table_type", kind: ColumnKind::Utf8, nullable: false },
    ];
    assert(specs_view(specs@) =~= tables_table_fields());
    specs
}

/// `information_schema.tables` as an in-memory table.
pub fn tables_mem_table(builder: InformationSchemaTablesBuilder) -> (table: MemTable)
    requires
        builder.wf(),
    ensures
        mem_table_fields(table) == tables_table_fields(),
        mem_table_partitions(table) == seq![seq![tables_table_columns(builder@)]],
{
    let ghost rows = builder@;
    let specs = tables_table_schema();
    let (catalog_names, schema_names, table_names, table_types) = builder.into_columns();
    let columns = vec![
        BuiltColumn::Utf8(catalog_names),
        BuiltColumn::Utf8(schema_names),
        BuiltColumn::Utf8(table_names),
        BuiltColumn::Utf8(table_types),
    ];
    proof {
        law_tables_columns_full(rows);
        let cells = tables_table_columns(rows);
        assert(columns_view(columns@) =~= cells);
        assert forall|i: int| 0 <= i < cells.len() implies !cells_have_null(#[trigger] cells[i]) by {
            if let ColumnCells::Utf8(v) = cells[i] {
                if v.contains(None) {
                    let k = choose|k: int| 0 <= k < v.len() && v[k] == None::<Seq<char>>;
                    assert(v[k] is Some);
                }
            }
        }
    }
    mem_table(&specs, columns).unwrap()
}


// ---------------------------------------------------------------------------
// information_schema.views
// ---------------------------------------------------------------------------

pub open spec fn views_table_fields() -> Seq<(Seq<char>, ColumnKind, bool)> {
    seq![
        ("table_catalog"@, ColumnKind::Utf8, false),
        ("table_schema"@, ColumnKind::Utf8, false),
        ("table_name"@, ColumnKind::Utf8, false),
        ("definition"@, ColumnKind::Utf8, true),
    ]
}

/// The columns of `information_schema.views` holding these rows.
pub open spec fn views_table_columns(rows: Seq<ViewsRow>) -> Seq<ColumnCells> {
    seq![
        ColumnCells::Utf8(views_catalog_cells(rows)),
        ColumnCells::Utf8(views_schema_cells(rows)),
        ColumnCells::Utf8(views_table_cells(rows)),
        ColumnCells::Utf8(views_definition_cells(rows)),
    ]
}

/// The fields of `information_schema.views`.
pub fn views_table_schema() -> (specs: Vec<ColumnSpec>)
    ensures
        specs_view(specs@) == views_table_fields(),
{
    let specs = vec![
        ColumnSpec { name: "table_catalog", kind: ColumnKind::Utf8, nullable: false },
        ColumnSpec { name: "table_schema", kind: ColumnKind::Utf8, nullable: false },
        ColumnSpec { name: "table_name", kind: ColumnKind::Utf8, nullable: false },
        ColumnSpec { name: "definition", kind: ColumnKind::Utf8, nullable: true },
    ];
    assert(specs_view(specs@) =~= views_table_fields());
    specs
}

/// `information_schema.views` as an in-memory table.
pub fn views_mem_table(builder: InformationSchemaViewBuilder) -> (table: MemTable)
    requires
        builder.wf(),
    ensures
        mem_table_fields(table) == views_table_fields(),
        mem_table_partitions(table) == seq![seq![views_table_columns(builder@)]],
{
    let ghost rows = builder@;
    let specs = views_table_schema();
    let (catalog_names, schema_names, table_names, definitions) = builder.into_columns();
    let columns = vec![
        BuiltColumn::Utf8(catalog_names),
        BuiltColumn::Utf8(schema_names),
        BuiltColumn::Utf8(table_names),
        BuiltColumn::Utf8(definitions),
    ];
    proof {
        law_views_columns_full(rows);
        let cells = views_table_columns(rows);
        let fields = views_table_fields();
        assert(columns_view(columns@) =~= cells);
        assert forall|i: int| 0 <= i < cells.len() && !fields[i].2 implies !cells_have_null(
            #[trigger] cells[i],
        ) by {
            if let ColumnCells::Utf8(v) = cells[i] {
                if v.contains(None) {
                    let k = choose|k: int| 0 <= k < v.len() && v[k] == None::<Seq<char>>;
                    assert(v[k] is Some);
                }
            }
        }
    }
    mem_table(&specs, columns).unwrap()
}


// ---------------------------------------------------------------------------
// information_schema.columns
// ---------------------------------------------------------------------------

pub open spec fn columns_table_fields() -> Seq<(Seq<char>, ColumnKind, bool)> {
    seq![
        ("table_catalog"@, ColumnKind::Utf8, false),
        ("table_schema"@, ColumnKind::Utf8, false),
        ("table_name"@, ColumnKind::Utf8, false),
        ("column_name"@, ColumnKind::Utf8, false),
        ("ordinal_position"@, ColumnKind::UInt64, false),
        ("column_default"@, ColumnKind::Utf8, true),
        ("is_nullable"@, ColumnKind::Utf8, false),
        ("data_type"@, ColumnKind::Utf8, false),
        ("character_maximum_length"@, ColumnKind::UInt64, true),
        ("character_octet_length"@, ColumnKind::UInt64, true),
        ("numeric_precision"@, ColumnKind::UInt64, true),
        ("numeric_precision_radix"@, ColumnKind::UInt64, true),
        ("numeric_scale"@, ColumnKind::UInt64, true),
        ("datetime_precision"@, ColumnKind::UInt64, true),
        ("interval_type"@, ColumnKind::Utf8, true),
    ]
}

/// The columns of `information_schema.columns` holding these rows.
pub open spec fn columns_table_columns(rows: Seq<ColumnsRow>) -> Seq<ColumnCells> {
    seq![
        ColumnCells::Utf8(columns_catalog_cells(rows)),
        ColumnCells::Utf8(columns_schema_cells(rows)),
        ColumnCells::Utf8(columns_table_cells(rows)),
        ColumnCells::Utf8(columns_column_cells(rows)),
        ColumnCells::UInt64(columns_position_cells(rows)),
        ColumnCells::Utf8(null_cells(rows.len())),
        ColumnCells::Utf8(columns_nullable_cells(rows)),
        ColumnCells::Utf8(columns_data_type_cells(rows)),
        ColumnCells::UInt64(null_numbers(rows.len())),
        ColumnCells::UInt64(columns_octet_length_cells(rows)),
        ColumnCells::UInt64(columns_precision_cells(rows)),
        ColumnCells::UInt64(columns_radix_cells(rows)),
        ColumnCells::UInt64(columns_scale_cells(rows)),
        ColumnCells::UInt64(null_numbers(rows.len())),
        ColumnCells::Utf8(null_cells(rows.len())),
    ]
}

/// The fields of `information_schema.columns`.
pub fn columns_table_schema() -> (specs: Vec<ColumnSpec>)
    ensures
        specs_view(specs@) == columns_table_fields(),
{
    let specs = vec![
        ColumnSpec { name: "table_catalog", kind: ColumnKind::Utf8, nullable: false },
        ColumnSpec { name: "table_schema", kind: ColumnKind::Utf8, nullable: false },
        ColumnSpec { name: "table_name", kind: ColumnKind::Utf8, nullable: false },
        ColumnSpec { name: "column_name", kind: ColumnKind::Utf8, nullable: false },
        ColumnSpec { name: "ordinal_position", kind: ColumnKind::UInt64, nullable: false },
        ColumnSpec { name: "column_default", kind: ColumnKind::Utf8, nullable: true },
        ColumnSpec { name: "is_nullable", kind: ColumnKind::Utf8, nullable: false },
        ColumnSpec { name: "data_type", kind: ColumnKind::Utf8, nullable: false },
        ColumnSpec { name: "character_maximum_length", kind: ColumnKind::UInt64, nullable: true },
        ColumnSpec { name: "character_octet_length", kind: ColumnKind::UInt64, nullable: true },
        ColumnSpec { name: "numeric_precision", kind: ColumnKind::UInt64, nullable: true },
        ColumnSpec { name: "numeric_precision_radix", kind: ColumnKind::UInt64, nullable: true },
        ColumnSpec { name: "numeric_scale", kind: ColumnKind::UInt64, nullable: true },
        ColumnSpec { name: "datetime_precision", kind: ColumnKind::UInt64, nullable: true },
        ColumnSpec { name: "interval_type", kind: ColumnKind::Utf8, nullable: true },
    ];
    assert(specs_view(specs@) =~= columns_table_fields());
    specs
}

/// `information_schema.columns` as an in-memory table.
pub fn columns_mem_table(builder: InformationSchemaColumnsBuilder) -> (table: MemTable)
    requires
        builder.wf(),
    ensures
        mem_table_fields(table) == columns_table_fields(),
        mem_table_partitions(table) == seq![seq![columns_table_columns(builder@)]],
{
    let ghost rows = builder@;
    let specs = columns_table_schema();
    let c = builder.into_columns();
    proof {
        law_columns_columns_full(c, rows);
    }
    let columns = vec![
        BuiltColumn::Utf8(c.catalog_names),
        BuiltColumn::Utf8(c.schema_names),
        BuiltColumn::Utf8(c.table_names),
        BuiltColumn::Utf8(c.column_names),
        BuiltColumn::UInt64(c.ordinal_positions),
        BuiltColumn::Utf8(c.column_defaults),
        BuiltColumn::Utf8(c.is_nullables),
        BuiltColumn::Utf8(c.data_types),
        BuiltColumn::UInt64(c.character_maximum_lengths),
        BuiltColumn::UInt64(c.character_octet_lengths),
        BuiltColumn::UInt64(c.numeric_precisions),
        BuiltColumn::UInt64(c.numeric_precision_radixes),
        BuiltColumn::UInt64(c.numeric_scales),
        BuiltColumn::UInt64(c.datetime_precisions),
        BuiltColumn::Utf8(c.interval_types),
    ];
    proof {
        let cells = columns_table_columns(rows);
        assert(columns_view(columns@) =~= cells);
        let fields = columns_table_fields();
        assert forall|i: int| 0 <= i < cells.len() && !fields[i].2 implies !cells_have_null(
            #[trigger] cells[i],
        ) by {
            match cells[i] {
                ColumnCells::Utf8(v) => {
                    if v.contains(None) {
                        let k = choose|k: int| 0 <= k < v.len() && v[k] == None::<Seq<char>>;
                        assert(v[k] is Some);
                    }
                },
                ColumnCells::UInt64(v) => {
                    if v.contains(None) {
                        let k = choose|k: int| 0 <= k < v.len() && v[k] == None::<u64>;
                        assert(v[k] is Some);
                    }
                },
            }
        }
    }
    mem_table(&specs, columns).unwrap()
}
} // verus!

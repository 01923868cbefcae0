use std::future::Future;
use std::task::{Context, Poll, Waker};

use datafusion::arrow::array::{Array, ArrayRef, StringArray, UInt64Array};
use datafusion::arrow::datatypes::DataType;
use datafusion::datasource::{MemTable, TableProvider};
use datafusion::prelude::SessionContext;
use sqlexec::builders::{
    character_octet_length, nullable_name, numeric_attributes, table_type_name,
    InformationSchemaColumnsBuilder, InformationSchemaTablesBuilder, InformationSchemaViewBuilder,
};
use sqlexec::mem_tables::{columns_mem_table, tables_mem_table, views_mem_table};
use sqlexec::names::eq_ignore_ascii_case;
use sqlexec::offsets::ColumnTally;
use sqlexec::{
    Catalog, CatalogList, ColumnDataType, DataTypeClass, Field, InformationSchemaProvider,
    InformationSchemaTable, Schema, Table, TableType,
};

/// Runs a future that never waits (in-memory tables never do).
fn run<F: Future>(future: F) -> F::Output {
    let mut future = Box::pin(future);
    let mut cx = Context::from_waker(Waker::noop());
    loop {
        if let Poll::Ready(v) = future.as_mut().poll(&mut cx) {
            return v;
        }
    }
}

/// The columns of the table's single record batch.
fn read(table: MemTable) -> Vec<ArrayRef> {
    let ctx = SessionContext::new();
    let plan = run(table.scan(&ctx.state(), None, &[], None)).unwrap();
    let stream = plan.execute(0, ctx.task_ctx()).unwrap();
    let batches = run(datafusion::physical_plan::common::collect(stream)).unwrap();
    assert_eq!(batches.len(), 1);
    batches[0].columns().to_vec()
}

/// Name, type and nullability of each field of the table.
fn layout(table: &MemTable) -> Vec<(String, DataType, bool)> {
    table
        .schema()
        .fields()
        .iter()
        .map(|f| (f.name().clone(), f.data_type().clone(), f.is_nullable()))
        .collect()
}

fn strings(column: &ArrayRef) -> Vec<Option<String>> {
    let array = column.as_any().downcast_ref::<StringArray>().unwrap();
    (0..array.len())
        .map(|i| if array.is_null(i) { None } else { Some(array.value(i).to_string()) })
        .collect()
}

fn numbers(column: &ArrayRef) -> Vec<Option<u64>> {
    let array = column.as_any().downcast_ref::<UInt64Array>().unwrap();
    (0..array.len())
        .map(|i| if array.is_null(i) { None } else { Some(array.value(i)) })
        .collect()
}

fn some(values: &[&str]) -> Vec<Option<String>> {
    values.iter().map(|v| Some(v.to_string())).collect()
}

fn field(name: &str, nullable: bool, class: DataTypeClass, rendered: &str) -> Field {
    Field {
        name: name.to_string(),
        nullable,
        data_type: ColumnDataType { class, name: rendered.to_string() },
    }
}

fn table(name: &str, table_type: TableType, definition: Option<&str>, fields: Vec<Field>) -> Table {
    Table {
        name: name.to_string(),
        table_type,
        definition: definition.map(|d| d.to_string()),
        fields,
    }
}

/// Two catalogs; the first has a schema named `information_schema` that must
/// not be listed, a schema with a table and a view, and an empty schema.
fn sample() -> CatalogList {
    CatalogList {
        catalogs: vec![
            Catalog {
                name: "datafusion".to_string(),
                schemas: vec![
                    Schema {
                        name: "information_schema".to_string(),
                        tables: vec![table("hidden", TableType::Base, None, vec![])],
                    },
                    Schema {
                        name: "public".to_string(),
                        tables: vec![
                            table(
                                "t1",
                                TableType::Base,
                                None,
                                vec![
                                    field("a", false, DataTypeClass::Int32, "Int32"),
                                    field("b", true, DataTypeClass::Utf8, "Utf8"),
                                ],
                            ),
                            table(
                                "v1",
                                TableType::View,
                                Some("SELECT 1"),
                                vec![field(
                                    "d",
                                    true,
                                    DataTypeClass::Decimal128(10, 2),
                                    "Decimal128(10, 2)",
                                )],
                            ),
                        ],
                    },
                    Schema { name: "empty".to_string(), tables: vec![] },
                ],
            },
            Catalog {
                name: "other".to_string(),
                schemas: vec![Schema {
                    name: "s".to_string(),
                    tables: vec![table(
                        "tmp",
                        TableType::Temporary,
                        None,
                        vec![field("x", false, DataTypeClass::Other, "Int64")],
                    )],
                }],
            },
        ],
    }
}

#[test]
fn table_type_names() {
    assert_eq!(table_type_name(TableType::Base), "BASE TABLE");
    assert_eq!(table_type_name(TableType::View), "VIEW");
    assert_eq!(table_type_name(TableType::Temporary), "LOCAL TEMPORARY");
}

#[test]
fn nullable_names() {
    assert_eq!(nullable_name(true), "YES");
    assert_eq!(nullable_name(false), "NO");
}

#[test]
fn octet_lengths() {
    assert_eq!(character_octet_length(DataTypeClass::Utf8), Some(2147483647));
    assert_eq!(character_octet_length(DataTypeClass::Binary), Some(2147483647));
    assert_eq!(character_octet_length(DataTypeClass::LargeUtf8), Some(9223372036854775807));
    assert_eq!(character_octet_length(DataTypeClass::LargeBinary), Some(9223372036854775807));
    assert_eq!(character_octet_length(DataTypeClass::Int32), None);
    assert_eq!(character_octet_length(DataTypeClass::Other), None);
}

#[test]
fn numeric_attributes_of_types() {
    assert_eq!(numeric_attributes(DataTypeClass::Int8), (Some(8), Some(2), None));
    assert_eq!(numeric_attributes(DataTypeClass::UInt8), (Some(8), Some(2), None));
    assert_eq!(numeric_attributes(DataTypeClass::Int16), (Some(16), Some(2), None));
    assert_eq!(numeric_attributes(DataTypeClass::UInt16), (Some(16), Some(2), None));
    assert_eq!(numeric_attributes(DataTypeClass::Int32), (Some(32), Some(2), None));
    assert_eq!(numeric_attributes(DataTypeClass::UInt32), (Some(32), Some(2), None));
    assert_eq!(numeric_attributes(DataTypeClass::Float16), (Some(15), Some(2), None));
    assert_eq!(numeric_attributes(DataTypeClass::Float32), (Some(24), Some(2), None));
    assert_eq!(numeric_attributes(DataTypeClass::Float64), (Some(53), Some(2), None));
    assert_eq!(
        numeric_attributes(DataTypeClass::Decimal128(38, 10)),
        (Some(38), Some(10), Some(10))
    );
    // A negative scale is reinterpreted as unsigned.
    assert_eq!(
        numeric_attributes(DataTypeClass::Decimal128(5, -2)),
        (Some(5), Some(10), Some(u64::MAX - 1))
    );
    assert_eq!(numeric_attributes(DataTypeClass::Utf8), (None, None, None));
    assert_eq!(numeric_attributes(DataTypeClass::Other), (None, None, None));
}

#[test]
fn ascii_case_insensitive_match() {
    assert!(eq_ignore_ascii_case("TaBlEs", "tables"));
    assert!(eq_ignore_ascii_case("", ""));
    assert!(!eq_ignore_ascii_case("table", "tables"));
    assert!(!eq_ignore_ascii_case("tables ", "tables"));
    assert!(eq_ignore_ascii_case("Ünicode", "Ünicode"));
    assert!(!eq_ignore_ascii_case("ünicode", "Ünicode"));
}

#[test]
fn tables_builder_appends_rows() {
    let mut builder = InformationSchemaTablesBuilder::new();
    builder.add_table("c", "s", "t", TableType::Base);
    builder.add_table("c2", "s2", "t2", TableType::Temporary);
    let c = read(tables_mem_table(builder));
    let (catalogs, schemas, tables, types) = (&c[0], &c[1], &c[2], &c[3]);
    assert_eq!(strings(catalogs), some(&["c", "c2"]));
    assert_eq!(strings(schemas), some(&["s", "s2"]));
    assert_eq!(strings(tables), some(&["t", "t2"]));
    assert_eq!(strings(types), some(&["BASE TABLE", "LOCAL TEMPORARY"]));
}

#[test]
fn view_builder_keeps_missing_definitions_null() {
    let mut builder = InformationSchemaViewBuilder::new();
    builder.add_view("c", "s", "v", Some("SELECT 1"));
    builder.add_view("c", "s", "t", None);
    let c = read(views_mem_table(builder));
    let (tables, definitions) = (&c[2], &c[3]);
    assert_eq!(strings(tables), some(&["v", "t"]));
    assert_eq!(strings(definitions), vec![Some("SELECT 1".to_string()), None]);
}

#[test]
fn columns_builder_fills_every_column() {
    let mut builder = InformationSchemaColumnsBuilder::new();
    let data_type = ColumnDataType { class: DataTypeClass::LargeUtf8, name: "LargeUtf8".to_string() };
    builder.add_column("c", "s", "t", "col", 4, true, &data_type);
    let columns = read(columns_mem_table(builder));
    assert_eq!(strings(&columns[0]), some(&["c"]));
    assert_eq!(strings(&columns[1]), some(&["s"]));
    assert_eq!(strings(&columns[2]), some(&["t"]));
    assert_eq!(strings(&columns[3]), some(&["col"]));
    assert_eq!(numbers(&columns[4]), vec![Some(4)]);
    assert_eq!(strings(&columns[5]), vec![None]);
    assert_eq!(strings(&columns[6]), some(&["YES"]));
    assert_eq!(strings(&columns[7]), some(&["LargeUtf8"]));
    assert_eq!(numbers(&columns[8]), vec![None]);
    assert_eq!(numbers(&columns[9]), vec![Some(9223372036854775807)]);
    assert_eq!(numbers(&columns[10]), vec![None]);
    assert_eq!(numbers(&columns[11]), vec![None]);
    assert_eq!(numbers(&columns[12]), vec![None]);
    assert_eq!(numbers(&columns[13]), vec![None]);
    assert_eq!(strings(&columns[14]), vec![None]);
}

#[test]
fn make_tables_lists_tables_and_own_tables() {
    let provider = InformationSchemaProvider::new(sample());
    let c = read(tables_mem_table(provider.make_tables()));
    let (catalogs, schemas, tables, types) = (&c[0], &c[1], &c[2], &c[3]);
    assert_eq!(
        strings(catalogs),
        some(&[
            "datafusion", "datafusion", "datafusion", "datafusion", "datafusion", "other", "other",
            "other", "other"
        ])
    );
    assert_eq!(
        strings(schemas),
        some(&[
            "public",
            "public",
            "information_schema",
            "information_schema",
            "information_schema",
            "s",
            "information_schema",
            "information_schema",
            "information_schema"
        ])
    );
    assert_eq!(
        strings(tables),
        some(&["t1", "v1", "tables", "views", "columns", "tmp", "tables", "views", "columns"])
    );
    assert_eq!(
        strings(types),
        some(&[
            "BASE TABLE",
            "VIEW",
            "VIEW",
            "VIEW",
            "VIEW",
            "LOCAL TEMPORARY",
            "VIEW",
            "VIEW",
            "VIEW"
        ])
    );
}

#[test]
fn make_tables_of_no_catalogs_is_empty() {
    let provider = InformationSchemaProvider::new(CatalogList { catalogs: vec![] });
    let c = read(tables_mem_table(provider.make_tables()));
    let catalogs = &c[0];
    assert!(strings(catalogs).is_empty());
}

#[test]
fn make_views_lists_every_table_with_definition() {
    let provider = InformationSchemaProvider::new(sample());
    let c = read(views_mem_table(provider.make_views()));
    let (catalogs, schemas, tables, definitions) = (&c[0], &c[1], &c[2], &c[3]);
    assert_eq!(strings(catalogs), some(&["datafusion", "datafusion", "other"]));
    assert_eq!(strings(schemas), some(&["public", "public", "s"]));
    assert_eq!(strings(tables), some(&["t1", "v1", "tmp"]));
    assert_eq!(strings(definitions), vec![None, Some("SELECT 1".to_string()), None]);
}

#[test]
fn make_columns_lists_every_field_with_position() {
    let provider = InformationSchemaProvider::new(sample());
    let columns = read(columns_mem_table(provider.make_columns()));
    assert_eq!(strings(&columns[2]), some(&["t1", "t1", "v1", "tmp"]));
    assert_eq!(strings(&columns[3]), some(&["a", "b", "d", "x"]));
    assert_eq!(numbers(&columns[4]), vec![Some(0), Some(1), Some(0), Some(0)]);
    assert_eq!(strings(&columns[6]), some(&["NO", "YES", "YES", "NO"]));
    assert_eq!(strings(&columns[7]), some(&["Int32", "Utf8", "Decimal128(10, 2)", "Int64"]));
    assert_eq!(
        numbers(&columns[9]),
        vec![None, Some(2147483647), None, None]
    );
    assert_eq!(numbers(&columns[10]), vec![Some(32), None, Some(10), None]);
    assert_eq!(numbers(&columns[11]), vec![Some(2), None, Some(10), None]);
    assert_eq!(numbers(&columns[12]), vec![None, None, Some(2), None]);
    assert_eq!(strings(&columns[5]), vec![None, None, None, None]);
    assert_eq!(strings(&columns[14]), vec![None, None, None, None]);
}

#[test]
fn table_names_are_the_three_tables() {
    let provider = InformationSchemaProvider::new(sample());
    assert_eq!(provider.table_names(), vec!["tables", "views", "columns"]);
}

#[test]
fn table_matches_names_without_regard_to_case() {
    let provider = InformationSchemaProvider::new(sample());
    assert!(matches!(provider.table("TABLES"), Some(InformationSchemaTable::Tables(_))));
    assert!(matches!(provider.table("Columns"), Some(InformationSchemaTable::Columns(_))));
    assert!(matches!(provider.table("vIeWs"), Some(InformationSchemaTable::Views(_))));
    assert!(provider.table("schemata").is_none());
    assert!(provider.table("tables ").is_none());
    assert!(provider.table("").is_none());
}

#[test]
fn table_exist_agrees_with_table() {
    let provider = InformationSchemaProvider::new(sample());
    for name in ["tables", "TABLES", "Views", "columns", "COLUMNS", "col", "", "viewsx", "tablés"] {
        assert_eq!(provider.table_exist(name), provider.table(name).is_some(), "{}", name);
    }
    assert!(provider.table_exist("VIEWS"));
    assert!(!provider.table_exist("information_schema"));
}

#[test]
fn every_listed_name_exists() {
    let provider = InformationSchemaProvider::new(sample());
    for name in provider.table_names() {
        assert!(provider.table_exist(&name));
        assert!(provider.table(&name).is_some());
    }
}

#[test]
fn small_catalogs_fit_in_offsets() {
    let provider = InformationSchemaProvider::new(sample());
    assert!(provider.tables_fit_offsets());
    assert!(provider.views_fit_offsets());
    assert!(provider.columns_fit_offsets());
    assert!(provider.table_fits_offsets("TABLES"));
    assert!(provider.table_fits_offsets("columns"));
    assert!(provider.table_fits_offsets("views"));
    assert!(provider.table_fits_offsets("no such table"));
}

#[test]
fn column_tally_counts_utf8_bytes() {
    let mut tally = ColumnTally::new();
    tally.add(Some("é"));
    tally.add(None);
    tally.add(Some("abc"));
    assert!(tally.fits());
}

#[test]
fn only_the_exact_information_schema_name_is_skipped() {
    let catalogs = CatalogList {
        catalogs: vec![Catalog {
            name: "c".to_string(),
            schemas: vec![Schema {
                name: "INFORMATION_SCHEMA".to_string(),
                tables: vec![table("t", TableType::Base, None, vec![])],
            }],
        }],
    };
    let provider = InformationSchemaProvider::new(catalogs);
    let c = read(views_mem_table(provider.make_views()));
    let (schemas, tables) = (&c[1], &c[2]);
    assert_eq!(strings(schemas), some(&["INFORMATION_SCHEMA"]));
    assert_eq!(strings(tables), some(&["t"]));
}

#[test]
fn catalog_without_schemas_lists_only_own_tables() {
    let catalogs = CatalogList { catalogs: vec![Catalog { name: "c".to_string(), schemas: vec![] }] };
    let provider = InformationSchemaProvider::new(catalogs);
    let c = read(tables_mem_table(provider.make_tables()));
    let (catalogs, schemas, tables, types) = (&c[0], &c[1], &c[2], &c[3]);
    assert_eq!(strings(catalogs), some(&["c", "c", "c"]));
    assert_eq!(strings(schemas), some(&["information_schema", "information_schema", "information_schema"]));
    assert_eq!(strings(tables), some(&["tables", "views", "columns"]));
    assert_eq!(strings(types), some(&["VIEW", "VIEW", "VIEW"]));
    assert!(strings(&read(views_mem_table(provider.make_views()))[0]).is_empty());
    assert!(strings(&read(columns_mem_table(provider.make_columns()))[0]).is_empty());
}

fn utf8(name: &str, nullable: bool) -> (String, DataType, bool) {
    (name.to_string(), DataType::Utf8, nullable)
}

fn uint64(name: &str, nullable: bool) -> (String, DataType, bool) {
    (name.to_string(), DataType::UInt64, nullable)
}

#[test]
fn tables_table_layout() {
    let table = tables_mem_table(InformationSchemaTablesBuilder::new());
    assert_eq!(
        layout(&table),
        vec![
            utf8("table_catalog", false),
            utf8("table_schema", false),
            utf8("table_name", false),
            utf8("table_type", false),
        ]
    );
}

#[test]
fn views_table_layout() {
    let table = views_mem_table(InformationSchemaViewBuilder::new());
    assert_eq!(
        layout(&table),
        vec![
            utf8("table_catalog", false),
            utf8("table_schema", false),
            utf8("table_name", false),
            utf8("definition", true),
        ]
    );
}

#[test]
fn columns_table_layout() {
    let table = columns_mem_table(InformationSchemaColumnsBuilder::new());
    assert_eq!(
        layout(&table),
        vec![
            utf8("table_catalog", false),
            utf8("table_schema", false),
            utf8("table_name", false),
            utf8("column_name", false),
            uint64("ordinal_position", false),
            utf8("column_default", true),
            utf8("is_nullable", false),
            utf8("data_type", false),
            uint64("character_maximum_length", true),
            uint64("character_octet_length", true),
            uint64("numeric_precision", true),
            uint64("numeric_precision_radix", true),
            uint64("numeric_scale", true),
            uint64("datetime_precision", true),
            utf8("interval_type", true),
        ]
    );
}

#[test]
fn built_tables_hold_one_batch_with_every_row() {
    let provider = InformationSchemaProvider::new(sample());
    let tables = read(tables_mem_table(provider.make_tables()));
    assert!(tables.iter().all(|c| c.len() == 9 && c.null_count() == 0));
    let columns = read(columns_mem_table(provider.make_columns()));
    assert_eq!(columns.len(), 15);
    assert!(columns.iter().all(|c| c.len() == 4));
}

#[test]
fn float64_column_has_double_precision() {
    let mut builder = InformationSchemaColumnsBuilder::new();
    let data_type = ColumnDataType { class: DataTypeClass::Float64, name: "Float64".to_string() };
    builder.add_column("c", "s", "t", "d", 0, true, &data_type);
    let columns = read(columns_mem_table(builder));
    assert_eq!(numbers(&columns[10]), vec![Some(53)]);
    assert_eq!(numbers(&columns[11]), vec![Some(2)]);
    assert_eq!(numbers(&columns[12]), vec![None]);
}

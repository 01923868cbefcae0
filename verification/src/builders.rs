//! Builders of the information schema's tables, filled row by row.
use vstd::prelude::*;
use crate::arrow_columns::{
    fits_utf8_offsets, lemma_fits_prefix, lemma_text_bytes_nulls, str_cell, uint64_column_values,
    utf8_column_values, UInt64Column, Utf8Column,
};
use crate::catalog::{ColumnDataType, DataTypeClass, TableType};
use crate::rows::{
    columns_row, nullable_text, numeric_attributes_of, octet_length_of, table_type_text,
    tables_row, views_row, ColumnsRow, TablesRow, ViewsRow,
};

verus! {

/// The text of a table type in `information_schema.tables`.
pub fn table_type_name(table_type: TableType) -> (name: &'static str)
    ensures
        name@ == table_type_text(table_type),
{
    match table_type {
        TableType::Base => "BASE TABLE",
        TableType::View => "VIEW",
        TableType::Temporary => "LOCAL TEMPORARY",
    }
}

/// The text of `is_nullable` in `information_schema.columns`.
pub fn nullable_name(is_nullable: bool) -> (name: &'static str)
    ensures
        name@ == nullable_text(is_nullable),
{
    if is_nullable {
        "YES"
    } else {
        "NO"
    }
}

/// The `character_octet_length` of a column of the given type.
pub fn character_octet_length(class: DataTypeClass) -> (len: Option<u64>)
    ensures
        len == octet_length_of(class),
        len is Some <==> (class is Utf8 || class is Binary || class is LargeUtf8
            || class is LargeBinary),
        (class is Utf8 || class is Binary) ==> len == Some(0x7fff_ffffu64),
        (class is LargeUtf8 || class is LargeBinary) ==> len == Some(0x7fff_ffff_ffff_ffffu64),
{
    match class {
        DataTypeClass::Utf8 | DataTypeClass::Binary => Some(i32::MAX as u64),
        DataTypeClass::LargeBinary | DataTypeClass::LargeUtf8 => Some(i64::MAX as u64),
        _ => None,
    }
}

/// The `numeric_precision`, `numeric_precision_radix` and `numeric_scale` of
/// a column of the given type.
pub fn numeric_attributes(class: DataTypeClass) -> (attributes: (
    Option<u64>,
    Option<u64>,
    Option<u64>,
))
    ensures
        attributes == numeric_attributes_of(class),
        attributes.0 is Some <==> attributes.1 is Some,
        attributes.2 is Some ==> attributes.1 == Some(10u64),
        attributes.2 is Some <==> class is Decimal128,
        class matches DataTypeClass::Decimal128(p, s) ==> attributes == (
            Some(p as u64),
            Some(10u64),
            Some(s as u64),
        ),
{
    match class {
        DataTypeClass::Int8 | DataTypeClass::UInt8 => (Some(8), Some(2), None),
        DataTypeClass::Int16 | DataTypeClass::UInt16 => (Some(16), Some(2), None),
        DataTypeClass::Int32 | DataTypeClass::UInt32 => (Some(32), Some(2), None),
        DataTypeClass::Float16 => (Some(15), Some(2), None),
        DataTypeClass::Float32 => (Some(24), Some(2), None),
        DataTypeClass::Float64 => (Some(53), Some(2), None),
        DataTypeClass::Decimal128(precision, scale) => (
            Some(precision as u64),
            Some(10),
            Some(scale as u64),
        ),
        _ => (None, None, None),
    }
}

pub open spec fn null_cells(n: nat) -> Seq<Option<Seq<char>>> {
    Seq::new(n, |i: int| None::<Seq<char>>)
}

pub open spec fn null_numbers(n: nat) -> Seq<Option<u64>> {
    Seq::new(n, |i: int| None::<u64>)
}

// ---------------------------------------------------------------------------
// information_schema.tables
// ---------------------------------------------------------------------------

pub open spec fn tables_catalog_cells(rows: Seq<TablesRow>) -> Seq<Option<Seq<char>>> {
    rows.map_values(|r: TablesRow| Some(r.catalog))
}

pub open spec fn tables_schema_cells(rows: Seq<TablesRow>) -> Seq<Option<Seq<char>>> {
    rows.map_values(|r: TablesRow| Some(r.schema))
}

pub open spec fn tables_table_cells(rows: Seq<TablesRow>) -> Seq<Option<Seq<char>>> {
    rows.map_values(|r: TablesRow| Some(r.table))
}

pub open spec fn tables_type_cells(rows: Seq<TablesRow>) -> Seq<Option<Seq<char>>> {
    rows.map_values(|r: TablesRow| Some(r.table_type))
}

/// Each text column of these rows stays within the offsets of a `StringBuilder`.
pub open spec fn tables_fit(rows: Seq<TablesRow>) -> bool {
    &&& fits_utf8_offsets(tables_catalog_cells(rows))
    &&& fits_utf8_offsets(tables_schema_cells(rows))
    &&& fits_utf8_offsets(tables_table_cells(rows))
    &&& fits_utf8_offsets(tables_type_cells(rows))
}

pub proof fn lemma_tables_fit_prefix(a: Seq<TablesRow>, b: Seq<TablesRow>)
    requires
        tables_fit(a + b),
    ensures
        tables_fit(a),
{
    assert(tables_catalog_cells(a + b) =~= tables_catalog_cells(a) + tables_catalog_cells(b));
    assert(tables_schema_cells(a + b) =~= tables_schema_cells(a) + tables_schema_cells(b));
    assert(tables_table_cells(a + b) =~= tables_table_cells(a) + tables_table_cells(b));
    assert(tables_type_cells(a + b) =~= tables_type_cells(a) + tables_type_cells(b));
    lemma_fits_prefix(tables_catalog_cells(a), tables_catalog_cells(b));
    lemma_fits_prefix(tables_schema_cells(a), tables_schema_cells(b));
    lemma_fits_prefix(tables_table_cells(a), tables_table_cells(b));
    lemma_fits_prefix(tables_type_cells(a), tables_type_cells(b));
}

pub proof fn lemma_tables_cells_push(rows: Seq<TablesRow>, row: TablesRow)
    ensures
        tables_catalog_cells(rows.push(row)) == tables_catalog_cells(rows).push(Some(row.catalog)),
        tables_schema_cells(rows.push(row)) == tables_schema_cells(rows).push(Some(row.schema)),
        tables_table_cells(rows.push(row)) == tables_table_cells(rows).push(Some(row.table)),
        tables_type_cells(rows.push(row)) == tables_type_cells(rows).push(Some(row.table_type)),
{
    assert(tables_catalog_cells(rows.push(row)) =~= tables_catalog_cells(rows).push(Some(row.catalog)));
    assert(tables_schema_cells(rows.push(row)) =~= tables_schema_cells(rows).push(Some(row.schema)));
    assert(tables_table_cells(rows.push(row)) =~= tables_table_cells(rows).push(Some(row.table)));
    assert(tables_type_cells(rows.push(row)) =~= tables_type_cells(rows).push(Some(row.table_type)));
}

/// Builds the `information_schema.tables` table row by row.
pub struct InformationSchemaTablesBuilder {
    catalog_names: Utf8Column,
    schema_names: Utf8Column,
    table_names: Utf8Column,
    table_types: Utf8Column,
    rows: Ghost<Seq<TablesRow>>,
}

impl View for InformationSchemaTablesBuilder {
    type V = Seq<TablesRow>;

    closed spec fn view(&self) -> Seq<TablesRow> {
        self.rows@
    }
}

impl InformationSchemaTablesBuilder {
    /// The columns hold exactly the rows of the view.
    pub closed spec fn wf(&self) -> bool {
        &&& utf8_column_values(self.catalog_names) == tables_catalog_cells(self.rows@)
        &&& utf8_column_values(self.schema_names) == tables_schema_cells(self.rows@)
        &&& utf8_column_values(self.table_names) == tables_table_cells(self.rows@)
        &&& utf8_column_values(self.table_types) == tables_type_cells(self.rows@)
    }

    pub fn new() -> (builder: Self)
        ensures
            builder.wf(),
            builder@ == Seq::<TablesRow>::empty(),
    {
        let builder = InformationSchemaTablesBuilder {
            catalog_names: Utf8Column::new(),
            schema_names: Utf8Column::new(),
            table_names: Utf8Column::new(),
            table_types: Utf8Column::new(),
            rows: Ghost(Seq::empty()),
        };
        assert(tables_catalog_cells(builder.rows@) =~= Seq::<Option<Seq<char>>>::empty());
        assert(tables_schema_cells(builder.rows@) =~= Seq::<Option<Seq<char>>>::empty());
        assert(tables_table_cells(builder.rows@) =~= Seq::<Option<Seq<char>>>::empty());
        assert(tables_type_cells(builder.rows@) =~= Seq::<Option<Seq<char>>>::empty());
        builder
    }

    /// Appends the row of one table.
    pub fn add_table(
        &mut self,
        catalog_name: &str,
        schema_name: &str,
        table_name: &str,
        table_type: TableType,
    )
        requires
            old(self).wf(),
            tables_fit(
                old(self)@.push(tables_row(catalog_name@, schema_name@, table_name@, table_type)),
            ),
        ensures
            final(self).wf(),
            final(self)@ == old(self)@.push(
                tables_row(catalog_name@, schema_name@, table_name@, table_type),
            ),
    {
        let ghost row = tables_row(catalog_name@, schema_name@, table_name@, table_type);
        let ghost next = self.rows@.push(row);
        proof {
            lemma_tables_cells_push(self.rows@, row);
        }
        self.catalog_names.append_value(catalog_name);
        self.schema_names.append_value(schema_name);
        self.table_names.append_value(table_name);
        self.table_types.append_value(table_type_name(table_type));
        self.rows = Ghost(next);
    }

    /// The four columns: `table_catalog`, `table_schema`, `table_name`, `table_type`.
    pub fn into_columns(self) -> (columns: (Utf8Column, Utf8Column, Utf8Column, Utf8Column))
        requires
            self.wf(),
        ensures
            utf8_column_values(columns.0) == tables_catalog_cells(self@),
            utf8_column_values(columns.1) == tables_schema_cells(self@),
            utf8_column_values(columns.2) == tables_table_cells(self@),
            utf8_column_values(columns.3) == tables_type_cells(self@),
    {
        (self.catalog_names, self.schema_names, self.table_names, self.table_types)
    }
}

// ---------------------------------------------------------------------------
// information_schema.views
// ---------------------------------------------------------------------------

pub open spec fn views_catalog_cells(rows: Seq<ViewsRow>) -> Seq<Option<Seq<char>>> {
    rows.map_values(|r: ViewsRow| Some(r.catalog))
}

pub open spec fn views_schema_cells(rows: Seq<ViewsRow>) -> Seq<Option<Seq<char>>> {
    rows.map_values(|r: ViewsRow| Some(r.schema))
}

pub open spec fn views_table_cells(rows: Seq<ViewsRow>) -> Seq<Option<Seq<char>>> {
    rows.map_values(|r: ViewsRow| Some(r.table))
}

pub open spec fn views_definition_cells(rows: Seq<ViewsRow>) -> Seq<Option<Seq<char>>> {
    rows.map_values(|r: ViewsRow| r.definition)
}

/// Each text column of these rows stays within the offsets of a `StringBuilder`.
pub open spec fn views_fit(rows: Seq<ViewsRow>) -> bool {
    &&& fits_utf8_offsets(views_catalog_cells(rows))
    &&& fits_utf8_offsets(views_schema_cells(rows))
    &&& fits_utf8_offsets(views_table_cells(rows))
    &&& fits_utf8_offsets(views_definition_cells(rows))
}

pub proof fn lemma_views_fit_prefix(a: Seq<ViewsRow>, b: Seq<ViewsRow>)
    requires
        views_fit(a + b),
    ensures
        views_fit(a),
{
    assert(views_catalog_cells(a + b) =~= views_catalog_cells(a) + views_catalog_cells(b));
    assert(views_schema_cells(a + b) =~= views_schema_cells(a) + views_schema_cells(b));
    assert(views_table_cells(a + b) =~= views_table_cells(a) + views_table_cells(b));
    assert(views_definition_cells(a + b) =~= views_definition_cells(a) + views_definition_cells(
        b,
    ));
    lemma_fits_prefix(views_catalog_cells(a), views_catalog_cells(b));
    lemma_fits_prefix(views_schema_cells(a), views_schema_cells(b));
    lemma_fits_prefix(views_table_cells(a), views_table_cells(b));
    lemma_fits_prefix(views_definition_cells(a), views_definition_cells(b));
}

pub proof fn lemma_views_cells_push(rows: Seq<ViewsRow>, row: ViewsRow)
    ensures
        views_catalog_cells(rows.push(row)) == views_catalog_cells(rows).push(Some(row.catalog)),
        views_schema_cells(rows.push(row)) == views_schema_cells(rows).push(Some(row.schema)),
        views_table_cells(rows.push(row)) == views_table_cells(rows).push(Some(row.table)),
        views_definition_cells(rows.push(row)) == views_definition_cells(rows).push(row.definition),
{
    assert(views_catalog_cells(rows.push(row)) =~= views_catalog_cells(rows).push(Some(row.catalog)));
    assert(views_schema_cells(rows.push(row)) =~= views_schema_cells(rows).push(Some(row.schema)));
    assert(views_table_cells(rows.push(row)) =~= views_table_cells(rows).push(Some(row.table)));
    assert(views_definition_cells(rows.push(row)) =~= views_definition_cells(rows).push(row.definition));
}

/// Builds the `information_schema.views` table row by row.
pub struct InformationSchemaViewBuilder {
    catalog_names: Utf8Column,
    schema_names: Utf8Column,
    table_names: Utf8Column,
    definitions: Utf8Column,
    rows: Ghost<Seq<ViewsRow>>,
}

impl View for InformationSchemaViewBuilder {
    type V = Seq<ViewsRow>;

    closed spec fn view(&self) -> Seq<ViewsRow> {
        self.rows@
    }
}

impl InformationSchemaViewBuilder {
    /// The columns hold exactly the rows of the view.
    pub closed spec fn wf(&self) -> bool {
        &&& utf8_column_values(self.catalog_names) == views_catalog_cells(self.rows@)
        &&& utf8_column_values(self.schema_names) == views_schema_cells(self.rows@)
        &&& utf8_column_values(self.table_names) == views_table_cells(self.rows@)
        &&& utf8_column_values(self.definitions) == views_definition_cells(self.rows@)
    }

    pub fn new() -> (builder: Self)
        ensures
            builder.wf(),
            builder@ == Seq::<ViewsRow>::empty(),
    {
        let builder = InformationSchemaViewBuilder {
            catalog_names: Utf8Column::new(),
            schema_names: Utf8Column::new(),
            table_names: Utf8Column::new(),
            definitions: Utf8Column::new(),
            rows: Ghost(Seq::empty()),
        };
        assert(views_catalog_cells(builder.rows@) =~= Seq::<Option<Seq<char>>>::empty());
        assert(views_schema_cells(builder.rows@) =~= Seq::<Option<Seq<char>>>::empty());
        assert(views_table_cells(builder.rows@) =~= Seq::<Option<Seq<char>>>::empty());
        assert(views_definition_cells(builder.rows@) =~= Seq::<Option<Seq<char>>>::empty());
        builder
    }

    /// Appends the row of one table, with its definition where it has one.
    pub fn add_view(
        &mut self,
        catalog_name: &str,
        schema_name: &str,
        table_name: &str,
        definition: Option<&str>,
    )
        requires
            old(self).wf(),
            views_fit(
                old(self)@.push(
                    views_row(catalog_name@, schema_name@, table_name@, str_cell(definition)),
                ),
            ),
        ensures
            final(self).wf(),
            final(self)@ == old(self)@.push(
                views_row(catalog_name@, schema_name@, table_name@, str_cell(definition)),
            ),
    {
        let ghost row = views_row(catalog_name@, schema_name@, table_name@, str_cell(definition));
        let ghost next = self.rows@.push(row);
        proof {
            lemma_views_cells_push(self.rows@, row);
        }
        self.catalog_names.append_value(catalog_name);
        self.schema_names.append_value(schema_name);
        self.table_names.append_value(table_name);
        self.definitions.append_option(definition);
        self.rows = Ghost(next);
    }

    /// The four columns: `table_catalog`, `table_schema`, `table_name`, `definition`.
    pub fn into_columns(self) -> (columns: (Utf8Column, Utf8Column, Utf8Column, Utf8Column))
        requires
            self.wf(),
        ensures
            utf8_column_values(columns.0) == views_catalog_cells(self@),
            utf8_column_values(columns.1) == views_schema_cells(self@),
            utf8_column_values(columns.2) == views_table_cells(self@),
            utf8_column_values(columns.3) == views_definition_cells(self@),
    {
        (self.catalog_names, self.schema_names, self.table_names, self.definitions)
    }
}

// ---------------------------------------------------------------------------
// information_schema.columns
// ---------------------------------------------------------------------------

pub open spec fn columns_catalog_cells(rows: Seq<ColumnsRow>) -> Seq<Option<Seq<char>>> {
    rows.map_values(|r: ColumnsRow| Some(r.catalog))
}

pub open spec fn columns_schema_cells(rows: Seq<ColumnsRow>) -> Seq<Option<Seq<char>>> {
    rows.map_values(|r: ColumnsRow| Some(r.schema))
}

pub open spec fn columns_table_cells(rows: Seq<ColumnsRow>) -> Seq<Option<Seq<char>>> {
    rows.map_values(|r: ColumnsRow| Some(r.table))
}

pub open spec fn columns_column_cells(rows: Seq<ColumnsRow>) -> Seq<Option<Seq<char>>> {
    rows.map_values(|r: ColumnsRow| Some(r.column))
}

pub open spec fn columns_position_cells(rows: Seq<ColumnsRow>) -> Seq<Option<u64>> {
    rows.map_values(|r: ColumnsRow| Some(r.ordinal_position))
}

pub open spec fn columns_nullable_cells(rows: Seq<ColumnsRow>) -> Seq<Option<Seq<char>>> {
    rows.map_values(|r: ColumnsRow| Some(r.is_nullable))
}

pub open spec fn columns_data_type_cells(rows: Seq<ColumnsRow>) -> Seq<Option<Seq<char>>> {
    rows.map_values(|r: ColumnsRow| Some(r.data_type))
}

pub open spec fn columns_octet_length_cells(rows: Seq<ColumnsRow>) -> Seq<Option<u64>> {
    rows.map_values(|r: ColumnsRow| r.character_octet_length)
}

pub open spec fn columns_precision_cells(rows: Seq<ColumnsRow>) -> Seq<Option<u64>> {
    rows.map_values(|r: ColumnsRow| r.numeric_precision)
}

pub open spec fn columns_radix_cells(rows: Seq<ColumnsRow>) -> Seq<Option<u64>> {
    rows.map_values(|r: ColumnsRow| r.numeric_precision_radix)
}

pub open spec fn columns_scale_cells(rows: Seq<ColumnsRow>) -> Seq<Option<u64>> {
    rows.map_values(|r: ColumnsRow| r.numeric_scale)
}

/// Each text column of these rows stays within the offsets of a `StringBuilder`.
pub open spec fn columns_fit(rows: Seq<ColumnsRow>) -> bool {
    &&& fits_utf8_offsets(columns_catalog_cells(rows))
    &&& fits_utf8_offsets(columns_schema_cells(rows))
    &&& fits_utf8_offsets(columns_table_cells(rows))
    &&& fits_utf8_offsets(columns_column_cells(rows))
    &&& fits_utf8_offsets(columns_nullable_cells(rows))
    &&& fits_utf8_offsets(columns_data_type_cells(rows))
}

pub proof fn lemma_columns_fit_prefix(a: Seq<ColumnsRow>, b: Seq<ColumnsRow>)
    requires
        columns_fit(a + b),
    ensures
        columns_fit(a),
{
    assert(columns_catalog_cells(a + b) =~= columns_catalog_cells(a) + columns_catalog_cells(b));
    assert(columns_schema_cells(a + b) =~= columns_schema_cells(a) + columns_schema_cells(b));
    assert(columns_table_cells(a + b) =~= columns_table_cells(a) + columns_table_cells(b));
    assert(columns_column_cells(a + b) =~= columns_column_cells(a) + columns_column_cells(b));
    assert(columns_nullable_cells(a + b) =~= columns_nullable_cells(a) + columns_nullable_cells(
        b,
    ));
    assert(columns_data_type_cells(a + b) =~= columns_data_type_cells(a)
        + columns_data_type_cells(b));
    lemma_fits_prefix(columns_catalog_cells(a), columns_catalog_cells(b));
    lemma_fits_prefix(columns_schema_cells(a), columns_schema_cells(b));
    lemma_fits_prefix(columns_table_cells(a), columns_table_cells(b));
    lemma_fits_prefix(columns_column_cells(a), columns_column_cells(b));
    lemma_fits_prefix(columns_nullable_cells(a), columns_nullable_cells(b));
    lemma_fits_prefix(columns_data_type_cells(a), columns_data_type_cells(b));
}

pub proof fn lemma_columns_cells_push(rows: Seq<ColumnsRow>, row: ColumnsRow)
    ensures
        columns_catalog_cells(rows.push(row)) == columns_catalog_cells(rows).push(Some(row.catalog)),
        columns_schema_cells(rows.push(row)) == columns_schema_cells(rows).push(Some(row.schema)),
        columns_table_cells(rows.push(row)) == columns_table_cells(rows).push(Some(row.table)),
        columns_column_cells(rows.push(row)) == columns_column_cells(rows).push(Some(row.column)),
        columns_position_cells(rows.push(row)) == columns_position_cells(rows).push(Some(row.ordinal_position)),
        columns_nullable_cells(rows.push(row)) == columns_nullable_cells(rows).push(Some(row.is_nullable)),
        columns_data_type_cells(rows.push(row)) == columns_data_type_cells(rows).push(Some(row.data_type)),
        columns_octet_length_cells(rows.push(row)) == columns_octet_length_cells(rows).push(row.character_octet_length),
        columns_precision_cells(rows.push(row)) == columns_precision_cells(rows).push(row.numeric_precision),
        columns_radix_cells(rows.push(row)) == columns_radix_cells(rows).push(row.numeric_precision_radix),
        columns_scale_cells(rows.push(row)) == columns_scale_cells(rows).push(row.numeric_scale),
        null_cells(rows.push(row).len()) == null_cells(rows.len()).push(None),
        null_numbers(rows.push(row).len()) == null_numbers(rows.len()).push(None),
{
    assert(columns_catalog_cells(rows.push(row)) =~= columns_catalog_cells(rows).push(Some(row.catalog)));
    assert(columns_schema_cells(rows.push(row)) =~= columns_schema_cells(rows).push(Some(row.schema)));
    assert(columns_table_cells(rows.push(row)) =~= columns_table_cells(rows).push(Some(row.table)));
    assert(columns_column_cells(rows.push(row)) =~= columns_column_cells(rows).push(Some(row.column)));
    assert(columns_position_cells(rows.push(row)) =~= columns_position_cells(rows).push(Some(row.ordinal_position)));
    assert(columns_nullable_cells(rows.push(row)) =~= columns_nullable_cells(rows).push(Some(row.is_nullable)));
    assert(columns_data_type_cells(rows.push(row)) =~= columns_data_type_cells(rows).push(Some(row.data_type)));
    assert(columns_octet_length_cells(rows.push(row)) =~= columns_octet_length_cells(rows).push(row.character_octet_length));
    assert(columns_precision_cells(rows.push(row)) =~= columns_precision_cells(rows).push(row.numeric_precision));
    assert(columns_radix_cells(rows.push(row)) =~= columns_radix_cells(rows).push(row.numeric_precision_radix));
    assert(columns_scale_cells(rows.push(row)) =~= columns_scale_cells(rows).push(row.numeric_scale));
    assert(null_cells(rows.push(row).len()) =~= null_cells(rows.len()).push(None));
    assert(null_numbers(rows.push(row).len()) =~= null_numbers(rows.len()).push(None));
}

/// The fifteen columns of `information_schema.columns`, in order.
pub struct InformationSchemaColumns {
    pub catalog_names: Utf8Column,
    pub schema_names: Utf8Column,
    pub table_names: Utf8Column,
    pub column_names: Utf8Column,
    pub ordinal_positions: UInt64Column,
    pub column_defaults: Utf8Column,
    pub is_nullables: Utf8Column,
    pub data_types: Utf8Column,
    pub character_maximum_lengths: UInt64Column,
    pub character_octet_lengths: UInt64Column,
    pub numeric_precisions: UInt64Column,
    pub numeric_precision_radixes: UInt64Column,
    pub numeric_scales: UInt64Column,
    pub datetime_precisions: UInt64Column,
    pub interval_types: Utf8Column,
}

impl InformationSchemaColumns {
    /// The columns hold these rows; the columns that this library always
    /// leaves null hold one null per row.
    pub open spec fn hold(&self, rows: Seq<ColumnsRow>) -> bool {
        &&& utf8_column_values(self.catalog_names) == columns_catalog_cells(rows)
        &&& utf8_column_values(self.schema_names) == columns_schema_cells(rows)
        &&& utf8_column_values(self.table_names) == columns_table_cells(rows)
        &&& utf8_column_values(self.column_names) == columns_column_cells(rows)
        &&& uint64_column_values(self.ordinal_positions) == columns_position_cells(rows)
        &&& utf8_column_values(self.column_defaults) == null_cells(rows.len())
        &&& utf8_column_values(self.is_nullables) == columns_nullable_cells(rows)
        &&& utf8_column_values(self.data_types) == columns_data_type_cells(rows)
        &&& uint64_column_values(self.character_maximum_lengths) == null_numbers(rows.len())
        &&& uint64_column_values(self.character_octet_lengths) == columns_octet_length_cells(rows)
        &&& uint64_column_values(self.numeric_precisions) == columns_precision_cells(rows)
        &&& uint64_column_values(self.numeric_precision_radixes) == columns_radix_cells(rows)
        &&& uint64_column_values(self.numeric_scales) == columns_scale_cells(rows)
        &&& uint64_column_values(self.datetime_precisions) == null_numbers(rows.len())
        &&& utf8_column_values(self.interval_types) == null_cells(rows.len())
    }
}

/// Builds the `information_schema.columns` table row by row.
pub struct InformationSchemaColumnsBuilder {
    columns: InformationSchemaColumns,
    rows: Ghost<Seq<ColumnsRow>>,
}

impl View for InformationSchemaColumnsBuilder {
    type V = Seq<ColumnsRow>;

    closed spec fn view(&self) -> Seq<ColumnsRow> {
        self.rows@
    }
}

impl InformationSchemaColumnsBuilder {
    /// The columns hold exactly the rows of the view.
    pub closed spec fn wf(&self) -> bool {
        self.columns.hold(self.rows@)
    }

    pub fn new() -> (builder: Self)
        ensures
            builder.wf(),
            builder@ == Seq::<ColumnsRow>::empty(),
    {
        // Some array builders ask for an initial capacity; the number of
        // tables is not known here, so a small one is taken.
        let default_capacity: usize = 10;
        let columns = InformationSchemaColumns {
            catalog_names: Utf8Column::new(),
            schema_names: Utf8Column::new(),
            table_names: Utf8Column::new(),
            column_names: Utf8Column::new(),
            ordinal_positions: UInt64Column::with_capacity(default_capacity),
            column_defaults: Utf8Column::new(),
            is_nullables: Utf8Column::new(),
            data_types: Utf8Column::new(),
            character_maximum_lengths: UInt64Column::with_capacity(default_capacity),
            character_octet_lengths: UInt64Column::with_capacity(default_capacity),
            numeric_precisions: UInt64Column::with_capacity(default_capacity),
            numeric_precision_radixes: UInt64Column::with_capacity(default_capacity),
            numeric_scales: UInt64Column::with_capacity(default_capacity),
            datetime_precisions: UInt64Column::with_capacity(default_capacity),
            interval_types: Utf8Column::new(),
        };
        let ghost empty = Seq::<ColumnsRow>::empty();
        assert(columns_catalog_cells(empty) =~= Seq::<Option<Seq<char>>>::empty());
        assert(columns_schema_cells(empty) =~= Seq::<Option<Seq<char>>>::empty());
        assert(columns_table_cells(empty) =~= Seq::<Option<Seq<char>>>::empty());
        assert(columns_column_cells(empty) =~= Seq::<Option<Seq<char>>>::empty());
        assert(columns_position_cells(empty) =~= Seq::<Option<u64>>::empty());
        assert(null_cells(0) =~= Seq::<Option<Seq<char>>>::empty());
        assert(columns_nullable_cells(empty) =~= Seq::<Option<Seq<char>>>::empty());
        assert(columns_data_type_cells(empty) =~= Seq::<Option<Seq<char>>>::empty());
        assert(null_numbers(0) =~= Seq::<Option<u64>>::empty());
        assert(columns_octet_length_cells(empty) =~= Seq::<Option<u64>>::empty());
        assert(columns_precision_cells(empty) =~= Seq::<Option<u64>>::empty());
        assert(columns_radix_cells(empty) =~= Seq::<Option<u64>>::empty());
        assert(columns_scale_cells(empty) =~= Seq::<Option<u64>>::empty());
        InformationSchemaColumnsBuilder { columns, rows: Ghost(empty) }
    }

    /// Appends the row of one column of a table.
    pub fn add_column(
        &mut self,
        catalog_name: &str,
        schema_name: &str,
        table_name: &str,
        column_name: &str,
        column_position: usize,
        is_nullable: bool,
        data_type: &ColumnDataType,
    )
        requires
            old(self).wf(),
            columns_fit(
                old(self)@.push(
                    columns_row(
                        catalog_name@,
                        schema_name@,
                        table_name@,
                        column_name@,
                        column_position as u64,
                        is_nullable,
                        data_type@,
                    ),
                ),
            ),
        ensures
            final(self).wf(),
            final(self)@ == old(self)@.push(
                columns_row(
                    catalog_name@,
                    schema_name@,
                    table_name@,
                    column_name@,
                    column_position as u64,
                    is_nullable,
                    data_type@,
                ),
            ),
    {
        let ghost row = columns_row(
            catalog_name@,
            schema_name@,
            table_name@,
            column_name@,
            column_position as u64,
            is_nullable,
            data_type@,
        );
        let ghost rows = self.rows@;
        let ghost next = rows.push(row);
        proof {
            lemma_columns_cells_push(rows, row);
            lemma_text_bytes_nulls(rows.len());
        }
        let columns = &mut self.columns;
        columns.catalog_names.append_value(catalog_name);
        columns.schema_names.append_value(schema_name);
        columns.table_names.append_value(table_name);
        columns.column_names.append_value(column_name);
        columns.ordinal_positions.append_value(column_position as u64);
        // Column default values are not stored.
        columns.column_defaults.append_null();
        columns.is_nullables.append_value(nullable_name(is_nullable));
        columns.data_types.append_value(data_type.name.as_str());
        // Arrow has no declared maximum length of a string, such as VARCHAR(20).
        columns.character_maximum_lengths.append_option(None);
        columns.character_octet_lengths.append_option(character_octet_length(data_type.class));
        let (numeric_precision, numeric_radix, numeric_scale) = numeric_attributes(
            data_type.class,
        );
        columns.numeric_precisions.append_option(numeric_precision);
        columns.numeric_precision_radixes.append_option(numeric_radix);
        columns.numeric_scales.append_option(numeric_scale);
        columns.datetime_precisions.append_option(None);
        columns.interval_types.append_null();
        self.rows = Ghost(next);
    }

    /// The fifteen columns.
    pub fn into_columns(self) -> (columns: InformationSchemaColumns)
        requires
            self.wf(),
        ensures
            columns.hold(self@),
    {
        self.columns
    }
}

// ---------------------------------------------------------------------------
// Receivers of rows
// ---------------------------------------------------------------------------

/// Something that takes the rows of `information_schema.tables` one by one:
/// the builder, or a tally of their sizes.
pub trait TablesRowSink: Sized {
    /// The rows taken so far.
    spec fn sink_rows(&self) -> Seq<TablesRow>;

    spec fn sink_wf(&self) -> bool;

    /// Whether all these rows can be taken.
    spec fn sink_accepts(rows: Seq<TablesRow>) -> bool;

    proof fn lemma_sink_accepts_prefix(a: Seq<TablesRow>, b: Seq<TablesRow>)
        requires
            Self::sink_accepts(a + b),
        ensures
            Self::sink_accepts(a),
    ;

    fn sink_table(
        &mut self,
        catalog_name: &str,
        schema_name: &str,
        table_name: &str,
        table_type: TableType,
    )
        requires
            old(self).sink_wf(),
            Self::sink_accepts(
                old(self).sink_rows().push(
                    tables_row(catalog_name@, schema_name@, table_name@, table_type),
                ),
            ),
        ensures
            final(self).sink_wf(),
            final(self).sink_rows() == old(self).sink_rows().push(
                tables_row(catalog_name@, schema_name@, table_name@, table_type),
            ),
    ;
}

impl TablesRowSink for InformationSchemaTablesBuilder {
    open spec fn sink_rows(&self) -> Seq<TablesRow> {
        self@
    }

    open spec fn sink_wf(&self) -> bool {
        self.wf()
    }

    open spec fn sink_accepts(rows: Seq<TablesRow>) -> bool {
        tables_fit(rows)
    }

    proof fn lemma_sink_accepts_prefix(a: Seq<TablesRow>, b: Seq<TablesRow>) {
        lemma_tables_fit_prefix(a, b);
    }

    fn sink_table(
        &mut self,
        catalog_name: &str,
        schema_name: &str,
        table_name: &str,
        table_type: TableType,
    ) {
        self.add_table(catalog_name, schema_name, table_name, table_type);
    }
}

/// Something that takes the rows of `information_schema.views` one by one:
/// the builder, or a tally of their sizes.
pub trait ViewsRowSink: Sized {
    /// The rows taken so far.
    spec fn sink_rows(&self) -> Seq<ViewsRow>;

    spec fn sink_wf(&self) -> bool;

    /// Whether all these rows can be taken.
    spec fn sink_accepts(rows: Seq<ViewsRow>) -> bool;

    proof fn lemma_sink_accepts_prefix(a: Seq<ViewsRow>, b: Seq<ViewsRow>)
        requires
            Self::sink_accepts(a + b),
        ensures
            Self::sink_accepts(a),
    ;

    fn sink_view(
        &mut self,
        catalog_name: &str,
        schema_name: &str,
        table_name: &str,
        definition: Option<&str>,
    )
        requires
            old(self).sink_wf(),
            Self::sink_accepts(
                old(self).sink_rows().push(
                    views_row(catalog_name@, schema_name@, table_name@, str_cell(definition)),
                ),
            ),
        ensures
            final(self).sink_wf(),
            final(self).sink_rows() == old(self).sink_rows().push(
                views_row(catalog_name@, schema_name@, table_name@, str_cell(definition)),
            ),
    ;
}

impl ViewsRowSink for InformationSchemaViewBuilder {
    open spec fn sink_rows(&self) -> Seq<ViewsRow> {
        self@
    }

    open spec fn sink_wf(&self) -> bool {
        self.wf()
    }

    open spec fn sink_accepts(rows: Seq<ViewsRow>) -> bool {
        views_fit(rows)
    }

    proof fn lemma_sink_accepts_prefix(a: Seq<ViewsRow>, b: Seq<ViewsRow>) {
        lemma_views_fit_prefix(a, b);
    }

    fn sink_view(
        &mut self,
        catalog_name: &str,
        schema_name: &str,
        table_name: &str,
        definition: Option<&str>,
    ) {
        self.add_view(catalog_name, schema_name, table_name, definition);
    }
}

/// Something that takes the rows of `information_schema.columns` one by one:
/// the builder, or a tally of their sizes.
pub trait ColumnsRowSink: Sized {
    /// The rows taken so far.
    spec fn sink_rows(&self) -> Seq<ColumnsRow>;

    spec fn sink_wf(&self) -> bool;

    /// Whether all these rows can be taken.
    spec fn sink_accepts(rows: Seq<ColumnsRow>) -> bool;

    proof fn lemma_sink_accepts_prefix(a: Seq<ColumnsRow>, b: Seq<ColumnsRow>)
        requires
            Self::sink_accepts(a + b),
        ensures
            Self::sink_accepts(a),
    ;

    fn sink_column(
        &mut self,
        catalog_name: &str,
        schema_name: &str,
        table_name: &str,
        column_name: &str,
        column_position: usize,
        is_nullable: bool,
        data_type: &ColumnDataType,
    )
        requires
            old(self).sink_wf(),
            Self::sink_accepts(
                old(self).sink_rows().push(
                    columns_row(
                        catalog_name@,
                        schema_name@,
                        table_name@,
                        column_name@,
                        column_position as u64,
                        is_nullable,
                        data_type@,
                    ),
                ),
            ),
        ensures
            final(self).sink_wf(),
            final(self).sink_rows() == old(self).sink_rows().push(
                columns_row(
                    catalog_name@,
                    schema_name@,
                    table_name@,
                    column_name@,
                    column_position as u64,
                    is_nullable,
                    data_type@,
                ),
            ),
    ;
}

impl ColumnsRowSink for InformationSchemaColumnsBuilder {
    open spec fn sink_rows(&self) -> Seq<ColumnsRow> {
        self@
    }

    open spec fn sink_wf(&self) -> bool {
        self.wf()
    }

    open spec fn sink_accepts(rows: Seq<ColumnsRow>) -> bool {
        columns_fit(rows)
    }

    proof fn lemma_sink_accepts_prefix(a: Seq<ColumnsRow>, b: Seq<ColumnsRow>) {
        lemma_columns_fit_prefix(a, b);
    }

    fn sink_column(
        &mut self,
        catalog_name: &str,
        schema_name: &str,
        table_name: &str,
        column_name: &str,
        column_position: usize,
        is_nullable: bool,
        data_type: &ColumnDataType,
    ) {
        self.add_column(
            catalog_name,
            schema_name,
            table_name,
            column_name,
            column_position,
            is_nullable,
            data_type,
        );
    }
}

// ---------------------------------------------------------------------------
// Laws on the columns
// ---------------------------------------------------------------------------

/// A column of `n` cells none of which is null.
pub open spec fn full_column<T>(cells: Seq<Option<T>>, n: nat) -> bool {
    cells.len() == n && forall|i: int| 0 <= i < n ==> (#[trigger] cells[i]) is Some
}

/// The four columns of `information_schema.tables` have a cell per row and
/// no null: each of them is declared not nullable.
pub proof fn law_tables_columns_full(rows: Seq<TablesRow>)
    ensures
        full_column(tables_catalog_cells(rows), rows.len()),
        full_column(tables_schema_cells(rows), rows.len()),
        full_column(tables_table_cells(rows), rows.len()),
        full_column(tables_type_cells(rows), rows.len()),
{
}

/// The columns of `information_schema.views` have a cell per row; only
/// `definition`, the one declared nullable, can be null.
pub proof fn law_views_columns_full(rows: Seq<ViewsRow>)
    ensures
        full_column(views_catalog_cells(rows), rows.len()),
        full_column(views_schema_cells(rows), rows.len()),
        full_column(views_table_cells(rows), rows.len()),
        views_definition_cells(rows).len() == rows.len(),
{
}

/// The columns of `information_schema.columns` that are declared not
/// nullable have a cell per row and no null; the others have a cell per row.
pub proof fn law_columns_columns_full(columns: InformationSchemaColumns, rows: Seq<ColumnsRow>)
    requires
        columns.hold(rows),
    ensures
        full_column(utf8_column_values(columns.catalog_names), rows.len()),
        full_column(utf8_column_values(columns.schema_names), rows.len()),
        full_column(utf8_column_values(columns.table_names), rows.len()),
        full_column(utf8_column_values(columns.column_names), rows.len()),
        full_column(uint64_column_values(columns.ordinal_positions), rows.len()),
        full_column(utf8_column_values(columns.is_nullables), rows.len()),
        full_column(utf8_column_values(columns.data_types), rows.len()),
        utf8_column_values(columns.column_defaults).len() == rows.len(),
        uint64_column_values(columns.character_maximum_lengths).len() == rows.len(),
        uint64_column_values(columns.character_octet_lengths).len() == rows.len(),
        uint64_column_values(columns.numeric_precisions).len() == rows.len(),
        uint64_column_values(columns.numeric_precision_radixes).len() == rows.len(),
        uint64_column_values(columns.numeric_scales).len() == rows.len(),
        uint64_column_values(columns.datetime_precisions).len() == rows.len(),
        utf8_column_values(columns.interval_types).len() == rows.len(),
{
}

} // verus!

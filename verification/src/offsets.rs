//! Tallies of the bytes the text columns of the information schema's tables
//! would hold, to tell beforehand whether a table fits in Arrow's 32-bit
//! string offsets.
use vstd::prelude::*;
use vstd::utf8::encode_utf8;
use crate::arrow_columns::{cell_bytes, fits_utf8_offsets, max_utf8_offset, str_cell, text_bytes};
use crate::builders::{
    columns_catalog_cells, columns_column_cells, columns_data_type_cells, columns_fit,
    columns_nullable_cells, columns_schema_cells, columns_table_cells, nullable_name,
    table_type_name, tables_catalog_cells, tables_fit, tables_schema_cells, tables_table_cells,
    tables_type_cells, views_catalog_cells, views_definition_cells, views_fit, views_schema_cells,
    views_table_cells, lemma_columns_cells_push, lemma_tables_cells_push, lemma_views_cells_push,
    ColumnsRowSink, TablesRowSink, ViewsRowSink,
};
use crate::catalog::{ColumnDataType, TableType};
use crate::rows::{columns_row, tables_row, views_row, ColumnsRow, TablesRow, ViewsRow};

verus! {

/// The running byte count of one text column, up to the largest offset.
pub struct ColumnTally {
    bytes: usize,
    overflowed: bool,
    cells: Ghost<Seq<Option<Seq<char>>>>,
}

impl View for ColumnTally {
    type V = Seq<Option<Seq<char>>>;

    closed spec fn view(&self) -> Seq<Option<Seq<char>>> {
        self.cells@
    }
}

impl ColumnTally {
    pub closed spec fn wf(&self) -> bool {
        &&& !self.overflowed ==> self.bytes == text_bytes(self.cells@) && self.bytes
            <= max_utf8_offset()
        &&& self.overflowed ==> text_bytes(self.cells@) > max_utf8_offset()
    }

    pub fn new() -> (tally: Self)
        ensures
            tally.wf(),
            tally@ == Seq::<Option<Seq<char>>>::empty(),
    {
        ColumnTally { bytes: 0, overflowed: false, cells: Ghost(Seq::empty()) }
    }

    /// Counts one more cell.
    pub fn add(&mut self, cell: Option<&str>)
        requires
            old(self).wf(),
        ensures
            final(self).wf(),
            final(self)@ == old(self)@.push(str_cell(cell)),
    {
        let n: usize = match cell {
            Some(s) => s.as_bytes().len(),
            None => 0,
        };
        let ghost next = self.cells@.push(str_cell(cell));
        assert(next.drop_last() =~= self.cells@);
        assert(text_bytes(next) == text_bytes(self.cells@) + cell_bytes(str_cell(cell)));
        assert(n == cell_bytes(str_cell(cell)));
        if !self.overflowed {
            let limit: usize = 0x7fff_ffff;
            if n > limit - self.bytes {
                self.overflowed = true;
            } else {
                self.bytes = self.bytes + n;
            }
        }
        self.cells = Ghost(next);
    }

    /// The cells counted fit in a `StringBuilder`.
    pub fn fits(&self) -> (fits: bool)
        requires
            self.wf(),
        ensures
            fits == fits_utf8_offsets(self@),
    {
        !self.overflowed
    }
}

/// Byte counts of the text columns of `information_schema.tables`.
pub struct TablesTally {
    catalog_names: ColumnTally,
    schema_names: ColumnTally,
    table_names: ColumnTally,
    table_types: ColumnTally,
    rows: Ghost<Seq<TablesRow>>,
}

impl TablesTally {
    pub closed spec fn rows(&self) -> Seq<TablesRow> {
        self.rows@
    }

    pub closed spec fn wf(&self) -> bool {
        &&& self.catalog_names.wf()
        &&& self.schema_names.wf()
        &&& self.table_names.wf()
        &&& self.table_types.wf()
        &&& self.catalog_names@ == tables_catalog_cells(self.rows@)
        &&& self.schema_names@ == tables_schema_cells(self.rows@)
        &&& self.table_names@ == tables_table_cells(self.rows@)
        &&& self.table_types@ == tables_type_cells(self.rows@)
    }

    pub fn new() -> (tally: Self)
        ensures
            tally.wf(),
            tally.rows() == Seq::<TablesRow>::empty(),
    {
        let tally = TablesTally {
            catalog_names: ColumnTally::new(),
            schema_names: ColumnTally::new(),
            table_names: ColumnTally::new(),
            table_types: ColumnTally::new(),
            rows: Ghost(Seq::empty()),
        };
        assert(tables_catalog_cells(tally.rows@) =~= Seq::<Option<Seq<char>>>::empty());
        assert(tables_schema_cells(tally.rows@) =~= Seq::<Option<Seq<char>>>::empty());
        assert(tables_table_cells(tally.rows@) =~= Seq::<Option<Seq<char>>>::empty());
        assert(tables_type_cells(tally.rows@) =~= Seq::<Option<Seq<char>>>::empty());
        tally
    }

    /// The rows counted fit in the table's builders.
    pub fn fits(&self) -> (fits: bool)
        requires
            self.wf(),
        ensures
            fits == tables_fit(self.rows()),
    {
        self.catalog_names.fits() && self.schema_names.fits() && self.table_names.fits()
            && self.table_types.fits()
    }
}

impl TablesRowSink for TablesTally {
    open spec fn sink_rows(&self) -> Seq<TablesRow> {
        self.rows()
    }

    open spec fn sink_wf(&self) -> bool {
        self.wf()
    }

    open spec fn sink_accepts(rows: Seq<TablesRow>) -> bool {
        true
    }

    proof fn lemma_sink_accepts_prefix(a: Seq<TablesRow>, b: Seq<TablesRow>) {
    }

    fn sink_table(
        &mut self,
        catalog_name: &str,
        schema_name: &str,
        table_name: &str,
        table_type: TableType,
    ) {
        let ghost row = tables_row(catalog_name@, schema_name@, table_name@, table_type);
        let ghost next = self.rows@.push(row);
        proof {
            lemma_tables_cells_push(self.rows@, row);
        }
        self.catalog_names.add(Some(catalog_name));
        self.schema_names.add(Some(schema_name));
        self.table_names.add(Some(table_name));
        self.table_types.add(Some(table_type_name(table_type)));
        self.rows = Ghost(next);
    }
}

/// Byte counts of the text columns of `information_schema.views`.
pub struct ViewsTally {
    catalog_names: ColumnTally,
    schema_names: ColumnTally,
    table_names: ColumnTally,
    definitions: ColumnTally,
    rows: Ghost<Seq<ViewsRow>>,
}

impl ViewsTally {
    pub closed spec fn rows(&self) -> Seq<ViewsRow> {
        self.rows@
    }

    pub closed spec fn wf(&self) -> bool {
        &&& self.catalog_names.wf()
        &&& self.schema_names.wf()
        &&& self.table_names.wf()
        &&& self.definitions.wf()
        &&& self.catalog_names@ == views_catalog_cells(self.rows@)
        &&& self.schema_names@ == views_schema_cells(self.rows@)
        &&& self.table_names@ == views_table_cells(self.rows@)
        &&& self.definitions@ == views_definition_cells(self.rows@)
    }

    pub fn new() -> (tally: Self)
        ensures
            tally.wf(),
            tally.rows() == Seq::<ViewsRow>::empty(),
    {
        let tally = ViewsTally {
            catalog_names: ColumnTally::new(),
            schema_names: ColumnTally::new(),
            table_names: ColumnTally::new(),
            definitions: ColumnTally::new(),
            rows: Ghost(Seq::empty()),
        };
        assert(views_catalog_cells(tally.rows@) =~= Seq::<Option<Seq<char>>>::empty());
        assert(views_schema_cells(tally.rows@) =~= Seq::<Option<Seq<char>>>::empty());
        assert(views_table_cells(tally.rows@) =~= Seq::<Option<Seq<char>>>::empty());
        assert(views_definition_cells(tally.rows@) =~= Seq::<Option<Seq<char>>>::empty());
        tally
    }

    /// The rows counted fit in the table's builders.
    pub fn fits(&self) -> (fits: bool)
        requires
            self.wf(),
        ensures
            fits == views_fit(self.rows()),
    {
        self.catalog_names.fits() && self.schema_names.fits() && self.table_names.fits()
            && self.definitions.fits()
    }
}

impl ViewsRowSink for ViewsTally {
    open spec fn sink_rows(&self) -> Seq<ViewsRow> {
        self.rows()
    }

    open spec fn sink_wf(&self) -> bool {
        self.wf()
    }

    open spec fn sink_accepts(rows: Seq<ViewsRow>) -> bool {
        true
    }

    proof fn lemma_sink_accepts_prefix(a: Seq<ViewsRow>, b: Seq<ViewsRow>) {
    }

    fn sink_view(
        &mut self,
        catalog_name: &str,
        schema_name: &str,
        table_name: &str,
        definition: Option<&str>,
    ) {
        let ghost row = views_row(catalog_name@, schema_name@, table_name@, str_cell(definition));
        let ghost next = self.rows@.push(row);
        proof {
            lemma_views_cells_push(self.rows@, row);
        }
        self.catalog_names.add(Some(catalog_name));
        self.schema_names.add(Some(schema_name));
        self.table_names.add(Some(table_name));
        self.definitions.add(definition);
        self.rows = Ghost(next);
    }
}

/// Byte counts of the text columns of `information_schema.columns` (the
/// columns that are always null hold no bytes).
pub struct ColumnsTally {
    catalog_names: ColumnTally,
    schema_names: ColumnTally,
    table_names: ColumnTally,
    column_names: ColumnTally,
    is_nullables: ColumnTally,
    data_types: ColumnTally,
    rows: Ghost<Seq<ColumnsRow>>,
}

impl ColumnsTally {
    pub closed spec fn rows(&self) -> Seq<ColumnsRow> {
        self.rows@
    }

    pub closed spec fn wf(&self) -> bool {
        &&& self.catalog_names.wf()
        &&& self.schema_names.wf()
        &&& self.table_names.wf()
        &&& self.column_names.wf()
        &&& self.is_nullables.wf()
        &&& self.data_types.wf()
        &&& self.catalog_names@ == columns_catalog_cells(self.rows@)
        &&& self.schema_names@ == columns_schema_cells(self.rows@)
        &&& self.table_names@ == columns_table_cells(self.rows@)
        &&& self.column_names@ == columns_column_cells(self.rows@)
        &&& self.is_nullables@ == columns_nullable_cells(self.rows@)
        &&& self.data_types@ == columns_data_type_cells(self.rows@)
    }

    pub fn new() -> (tally: Self)
        ensures
            tally.wf(),
            tally.rows() == Seq::<ColumnsRow>::empty(),
    {
        let tally = ColumnsTally {
            catalog_names: ColumnTally::new(),
            schema_names: ColumnTally::new(),
            table_names: ColumnTally::new(),
            column_names: ColumnTally::new(),
            is_nullables: ColumnTally::new(),
            data_types: ColumnTally::new(),
            rows: Ghost(Seq::empty()),
        };
        let ghost empty = Seq::<ColumnsRow>::empty();
        assert(columns_catalog_cells(empty) =~= Seq::<Option<Seq<char>>>::empty());
        assert(columns_schema_cells(empty) =~= Seq::<Option<Seq<char>>>::empty());
        assert(columns_table_cells(empty) =~= Seq::<Option<Seq<char>>>::empty());
        assert(columns_column_cells(empty) =~= Seq::<Option<Seq<char>>>::empty());
        assert(columns_nullable_cells(empty) =~= Seq::<Option<Seq<char>>>::empty());
        assert(columns_data_type_cells(empty) =~= Seq::<Option<Seq<char>>>::empty());
        tally
    }

    /// The rows counted fit in the table's builders.
    pub fn fits(&self) -> (fits: bool)
        requires
            self.wf(),
        ensures
            fits == columns_fit(self.rows()),
    {
        self.catalog_names.fits() && self.schema_names.fits() && self.table_names.fits()
            && self.column_names.fits() && self.is_nullables.fits() && self.data_types.fits()
    }
}

impl ColumnsRowSink for ColumnsTally {
    open spec fn sink_rows(&self) -> Seq<ColumnsRow> {
        self.rows()
    }

    open spec fn sink_wf(&self) -> bool {
        self.wf()
    }

    open spec fn sink_accepts(rows: Seq<ColumnsRow>) -> bool {
        true
    }

    proof fn lemma_sink_accepts_prefix(a: Seq<ColumnsRow>, b: Seq<ColumnsRow>) {
    }

    fn sink_column(
        &mut self,
        catalog_name: &str,
        schema_name: &str,
        table_name: &str,
        column_name: &str,
        column_position: usize,
        is_nullable: bool,
        data_type: &ColumnDataType,
    ) {
        let ghost row = columns_row(
            catalog_name@,
            schema_name@,
            table_name@,
            column_name@,
            column_position as u64,
            is_nullable,
            data_type@,
        );
        let ghost next = self.rows@.push(row);
        proof {
            lemma_columns_cells_push(self.rows@, row);
        }
        self.catalog_names.add(Some(catalog_name));
        self.schema_names.add(Some(schema_name));
        self.table_names.add(Some(table_name));
        self.column_names.add(Some(column_name));
        self.is_nullables.add(Some(nullable_name(is_nullable)));
        self.data_types.add(Some(data_type.name.as_str()));
        self.rows = Ghost(next);
    }
}

} // verus!

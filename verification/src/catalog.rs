//! What the information schema reads of the catalogs: catalog, schema and
//! table names, each table's type and definition, and each table's fields.
//!
//! A `CatalogList` is a plain copy of what the catalog providers list at the
//! moment it is taken; the information schema is computed from it.
use vstd::prelude::*;

verus! {

/// The kind of a table, as the catalog reports it.
#[derive(Clone, Copy, Debug, PartialEq, Eq, Structural)]
pub enum TableType {
    /// An ordinary table.
    Base,
    /// A table defined by a query.
    View,
    /// A transient table.
    Temporary,
}

/// What the information schema reads of an Arrow data type: the kinds it
/// tells apart, with the precision and scale of a 128-bit decimal.
#[derive(Clone, Copy, Debug, PartialEq, Eq, Structural)]
pub enum DataTypeClass {
    Int8,
    UInt8,
    Int16,
    UInt16,
    Int32,
    UInt32,
    Float16,
    Float32,
    Float64,
    /// Precision and scale.
    Decimal128(u8, i8),
    Utf8,
    Binary,
    LargeBinary,
    LargeUtf8,
    /// Every other data type.
    Other,
}

/// The data type of a field: its class and its name, the `Debug` rendering
/// of the Arrow data type (such as `Utf8` or `Decimal128(10, 2)`).
#[derive(Debug)]
pub struct ColumnDataType {
    pub class: DataTypeClass,
    pub name: String,
}

pub struct ColumnDataTypeView {
    pub class: DataTypeClass,
    pub name: Seq<char>,
}

impl View for ColumnDataType {
    type V = ColumnDataTypeView;

    open spec fn view(&self) -> ColumnDataTypeView {
        ColumnDataTypeView { class: self.class, name: self.name@ }
    }
}

/// A field of a table's schema.
#[derive(Debug)]
pub struct Field {
    pub name: String,
    pub nullable: bool,
    pub data_type: ColumnDataType,
}

pub struct FieldView {
    pub name: Seq<char>,
    pub nullable: bool,
    pub data_type: ColumnDataTypeView,
}

impl View for Field {
    type V = FieldView;

    open spec fn view(&self) -> FieldView {
        FieldView { name: self.name@, nullable: self.nullable, data_type: self.data_type@ }
    }
}

/// A table: its name, type, definition (for a view, where there is one) and fields.
#[derive(Debug)]
pub struct Table {
    pub name: String,
    pub table_type: TableType,
    pub definition: Option<String>,
    pub fields: Vec<Field>,
}

pub struct TableView {
    pub name: Seq<char>,
    pub table_type: TableType,
    pub definition: Option<Seq<char>>,
    pub fields: Seq<FieldView>,
}

pub open spec fn string_option_view(s: Option<String>) -> Option<Seq<char>> {
    match s {
        Some(v) => Some(v@),
        None => None,
    }
}

impl View for Table {
    type V = TableView;

    open spec fn view(&self) -> TableView {
        TableView {
            name: self.name@,
            table_type: self.table_type,
            definition: string_option_view(self.definition),
            fields: self.fields@.map_values(|f: Field| f@),
        }
    }
}

/// A schema: its name and its tables, in the order the schema lists them.
#[derive(Debug)]
pub struct Schema {
    pub name: String,
    pub tables: Vec<Table>,
}

pub struct SchemaView {
    pub name: Seq<char>,
    pub tables: Seq<TableView>,
}

impl View for Schema {
    type V = SchemaView;

    open spec fn view(&self) -> SchemaView {
        SchemaView { name: self.name@, tables: self.tables@.map_values(|t: Table| t@) }
    }
}

/// A catalog: its name and its schemas, in the order the catalog lists them.
#[derive(Debug)]
pub struct Catalog {
    pub name: String,
    pub schemas: Vec<Schema>,
}

pub struct CatalogView {
    pub name: Seq<char>,
    pub schemas: Seq<SchemaView>,
}

impl View for Catalog {
    type V = CatalogView;

    open spec fn view(&self) -> CatalogView {
        CatalogView { name: self.name@, schemas: self.schemas@.map_values(|s: Schema| s@) }
    }
}

/// The catalogs, in the order the catalog list gives their names.
#[derive(Debug)]
pub struct CatalogList {
    pub catalogs: Vec<Catalog>,
}

impl View for CatalogList {
    type V = Seq<CatalogView>;

    open spec fn view(&self) -> Seq<CatalogView> {
        self.catalogs@.map_values(|c: Catalog| c@)
    }
}

} // verus!

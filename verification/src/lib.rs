//! The SQL information schema of a set of catalogs: the rows of its
//! `tables`, `views` and `columns` tables, built into Arrow columns, and the
//! errors of the RPC service.
pub mod arrow_columns;
pub mod catalog;
pub mod rows;
pub mod builders;
pub mod names;
pub mod offsets;
pub mod mem_tables;
pub mod information_schema;
pub mod errors;

pub use catalog::{Catalog, CatalogList, ColumnDataType, DataTypeClass, Field, Schema, Table, TableType};
pub use errors::RpcsrvError;
pub use information_schema::{InformationSchemaProvider, InformationSchemaTable};
pub use rows::{COLUMNS, INFORMATION_SCHEMA, TABLES, VIEWS};

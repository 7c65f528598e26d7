//! Turns records into tables of strings: a header row and rows of cells, with
//! the columns chosen by a selection configuration and JSON-like values
//! rendered as compact or pretty JSON text.
pub mod config;
pub mod field;
pub mod json;
pub mod status;
pub mod table;

pub use config::{OutputConfig, StructTableOptions};
pub use field::{render_value, FieldDescriptor, FieldValue};
pub use json::{serialized_cell, strip_quotes};
pub use status::{record_status, status};
pub use table::{
    attribute_table, build_list_table, build_table, class_headers, columns, data, fields_of,
    list_row, list_rows, Columns, StructTable,
};

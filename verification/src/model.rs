//! The data that the viewer shows of a Parquet file.
use vstd::prelude::*;

verus! {

/// A local date and time: an instant since the Unix epoch and the offset of the
/// local time zone at that instant.
#[derive(Debug, Clone, PartialEq, Eq)]
pub struct LocalTime {
    pub unix_seconds: i64,
    pub subsec_nanos: u32,
    pub utc_offset_seconds: i32,
}

/// Everything the viewer knows of one Parquet file.
#[derive(Debug, PartialEq, Eq)]
pub struct ParquetFileData {
    pub file_meta: FileMetadata,
    pub metadata: ParquetFileMetadata,
    pub row_groups_data: Vec<RowGroupData>,
}

/// What the file system says of the file.
#[derive(Debug, Clone, PartialEq, Eq)]
pub struct FileMetadata {
    pub name: String,
    pub created: LocalTime,
    pub modified: LocalTime,
    pub size: u64,
}

/// The file-level part of the Parquet footer.
#[derive(Debug, PartialEq, Eq)]
pub struct ParquetFileMetadata {
    pub num_rows: u64,
    pub num_columns: usize,
    pub version: i32,
    pub created_by: Option<String>,
    pub num_row_groups: usize,
    pub schema: String,
    pub schema_tree: SchemaField,
    pub key_value_metadata: Vec<(String, String)>,
    pub column_orders: String,
}

/// One row group of the file.
#[derive(Debug, Clone, PartialEq, Eq)]
pub struct RowGroupData {
    pub index: usize,
    pub num_rows: i64,
    pub total_byte_size: i64,
    pub compressed_size: i64,
    pub sorting_columns: Vec<SortingColumnInfo>,
    pub columns: Vec<ColumnChunkInfo>,
}

/// A column by which a row group is sorted.
#[derive(Debug, Clone, PartialEq, Eq)]
pub struct SortingColumnInfo {
    pub column_path: String,
    pub descending: bool,
    pub nulls_first: bool,
}

/// One column chunk of a row group, as text and counts.
#[derive(Debug, Clone, PartialEq, Eq)]
pub struct ColumnChunkInfo {
    pub name: String,
    pub physical_type: String,
    pub logical_type: Option<String>,
    pub converted_type: Option<String>,
    pub encodings: String,
    pub compression: String,
    pub total_compressed_size: i64,
    pub total_uncompressed_size: i64,
    pub num_values: i64,
    pub statistics: Option<ColumnStatistics>,
    pub sort_order: String,
}

/// The statistics of a column chunk, with its bounds as text.
#[derive(Debug, Clone, PartialEq, Eq)]
pub struct ColumnStatistics {
    pub min: Option<String>,
    pub max: Option<String>,
    pub null_count: Option<u64>,
    pub distinct_count: Option<u64>,
}

/// A node of the schema tree.
#[derive(Debug, PartialEq, Eq)]
pub struct SchemaField {
    pub id: Option<i32>,
    pub name: String,
    pub _type: SchemaType,
    pub repetition: Option<String>,
    pub converted_type: Option<String>,
    pub logical_type: Option<String>,
}

/// A schema node is a leaf with a described physical type, or a group of fields.
#[derive(Debug, PartialEq, Eq)]
pub enum SchemaType {
    Primitive(String),
    Group(Vec<SchemaField>),
}

} // verus!

//! Inspection of Parquet files: the data a terminal viewer shows of a file,
//! the styled text of each of its tabs, and the viewer's state machine.
pub mod app;
pub mod args;
pub mod footer;
pub mod format;
pub mod model;
pub mod render;
pub mod source;
pub mod text;

pub use footer::pq_logical_type_to_string;
pub use model::{
    ColumnChunkInfo, ColumnStatistics, FileMetadata, LocalTime, ParquetFileData, ParquetFileMetadata, RowGroupData,
    SchemaField, SchemaType, SortingColumnInfo,
};

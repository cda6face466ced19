use parq::footer::{
    ChunkStatistics, ColumnChunkMeta, FooterMeta, LogicalType, RowGroupMeta, SchemaNode, SchemaNodeKind,
    SortingColumnMeta, StatisticsBounds, TimeUnit, sorting_columns_in_range,
};
use parq::{FileMetadata, LocalTime, ParquetFileData, SchemaField, SchemaType};

fn leaf(name: &str, physical: &str, len: i32, scale: i32, precision: i32, lt: Option<LogicalType>) -> SchemaNode {
    SchemaNode {
        name: name.to_string(),
        id: None,
        repetition: Some("REQUIRED".to_string()),
        converted_type: None,
        logical_type: lt,
        kind: SchemaNodeKind::Primitive {
            physical_type: physical.to_string(),
            type_length: len,
            scale,
            precision,
        },
    }
}

#[test]
fn primitive_descriptions() {
    let f = SchemaField::from_type(&leaf("a", "INT64", -1, -1, -1, None));
    assert_eq!(f._type, SchemaType::Primitive("INT64".to_string()));
    let f = SchemaField::from_type(&leaf("b", "FIXED_LEN_BYTE_ARRAY", 16, 2, 10, Some(LogicalType::Decimal { scale: 2, precision: 10 })));
    assert_eq!(f._type, SchemaType::Primitive("FIXED_LEN_BYTE_ARRAY(length = 16, precision = 10, scale = 2)".to_string()));
    assert_eq!(f.logical_type, Some("decimal(10,2)".to_string()));
    let f = SchemaField::from_type(&leaf("c", "INT32", -1, 0, -1, None));
    assert_eq!(f._type, SchemaType::Primitive("INT32(scale = 0)".to_string()));
    assert_eq!(f.repetition, Some("REQUIRED".to_string()));
    assert_eq!(f.name, "c");
}

#[test]
fn groups_keep_their_fields_in_order() {
    let node = SchemaNode {
        name: "schema".to_string(),
        id: Some(7),
        repetition: None,
        converted_type: Some("LIST".to_string()),
        logical_type: None,
        kind: SchemaNodeKind::Group {
            fields: vec![
                leaf("x", "BOOLEAN", -1, -1, -1, None),
                leaf("t", "INT64", -1, -1, -1, Some(LogicalType::Timestamp { is_adjusted_to_u_t_c: true, unit: TimeUnit::MICROS })),
            ],
        },
    };
    let f = SchemaField::from_type(&node);
    assert_eq!(f.id, Some(7));
    assert_eq!(f.converted_type, Some("LIST".to_string()));
    match f._type {
        SchemaType::Group(children) => {
            assert_eq!(children.len(), 2);
            assert_eq!(children[0].name, "x");
            assert_eq!(children[1].logical_type, Some("timestamp(micros, adjusted to UTC)".to_string()));
        },
        SchemaType::Primitive(_) => panic!("a group became a leaf"),
    }
}

fn file_meta() -> FileMetadata {
    FileMetadata {
        name: "data.parquet".to_string(),
        created: LocalTime { unix_seconds: 10, subsec_nanos: 0, utc_offset_seconds: 0 },
        modified: LocalTime { unix_seconds: 20, subsec_nanos: 0, utc_offset_seconds: 0 },
        size: 1000,
    }
}

#[test]
fn footer_to_file_data() {
    let footer = FooterMeta {
        num_rows: 3,
        version: 1,
        created_by: Some("writer".to_string()),
        schema_debug: "GroupType".to_string(),
        root_schema: SchemaNode {
            name: "schema".to_string(),
            id: None,
            repetition: None,
            converted_type: None,
            logical_type: None,
            kind: SchemaNodeKind::Group { fields: vec![leaf("a", "INT32", -1, -1, -1, None), leaf("b", "BYTE_ARRAY", -1, -1, -1, Some(LogicalType::String))] },
        },
        leaf_paths: vec!["a".to_string(), "b".to_string()],
        key_value_metadata: Some(vec![("k1".to_string(), Some("v1".to_string())), ("k2".to_string(), None)]),
        column_orders_debug: "None".to_string(),
        row_groups: vec![RowGroupMeta {
            num_rows: 3,
            total_byte_size: 64,
            compressed_size: 50,
            sorting_columns: Some(vec![SortingColumnMeta { column_idx: 1, descending: true, nulls_first: false }]),
            columns: vec![ColumnChunkMeta {
                name: "b".to_string(),
                physical_type: "BYTE_ARRAY".to_string(),
                logical_type: Some(LogicalType::String),
                converted_type: Some("UTF8".to_string()),
                encodings: vec!["PLAIN".to_string(), "RLE".to_string(), "RLE_DICTIONARY".to_string()],
                compression: "ZSTD(ZstdLevel(1))".to_string(),
                compressed_size: 30,
                uncompressed_size: 40,
                num_values: 3,
                statistics: Some(ChunkStatistics {
                    bounds: StatisticsBounds::ByteArray { min: Some(b"ant".to_vec()), max: Some(vec![0xff]) },
                    null_count: Some(1),
                    distinct_count: None,
                }),
                sort_order: "UNSIGNED".to_string(),
            }],
        }],
    };
    let data = ParquetFileData::from_footer(file_meta(), &footer);
    assert_eq!(data.file_meta, file_meta());
    let m = &data.metadata;
    assert_eq!(m.num_rows, 3);
    assert_eq!(m.num_columns, 2);
    assert_eq!(m.num_row_groups, 1);
    assert_eq!(m.created_by, Some("writer".to_string()));
    assert_eq!(m.key_value_metadata, vec![("k1".to_string(), "v1".to_string()), ("k2".to_string(), String::new())]);
    assert_eq!(m.schema, "GroupType");
    assert_eq!(m.column_orders, "None");
    let rg = &data.row_groups_data[0];
    assert_eq!(rg.index, 0);
    assert_eq!(rg.sorting_columns.len(), 1);
    assert_eq!(rg.sorting_columns[0].column_path, "b");
    assert!(rg.sorting_columns[0].descending);
    let col = &rg.columns[0];
    assert_eq!(col.encodings, "PLAIN, RLE, RLE_DICTIONARY");
    assert_eq!(col.logical_type, Some("string".to_string()));
    assert_eq!(col.converted_type, Some("UTF8".to_string()));
    let stats = col.statistics.as_ref().unwrap();
    assert_eq!(stats.min, Some("ant".to_string()));
    assert_eq!(stats.max, Some("[255]".to_string()));
    assert_eq!(stats.null_count, Some(1));
    assert_eq!(stats.distinct_count, None);
}

#[test]
fn negative_row_count_wraps_like_a_cast() {
    let footer = FooterMeta {
        num_rows: -1,
        version: 2,
        created_by: None,
        schema_debug: String::new(),
        root_schema: leaf("only", "INT32", -1, -1, -1, None),
        leaf_paths: vec![],
        key_value_metadata: None,
        column_orders_debug: String::new(),
        row_groups: vec![],
    };
    let data = ParquetFileData::from_footer(file_meta(), &footer);
    assert_eq!(data.metadata.num_rows, u64::MAX);
    assert!(data.metadata.key_value_metadata.is_empty());
    assert!(data.row_groups_data.is_empty());
}

#[test]
fn sorting_columns_must_name_leaves() {
    let mut footer = FooterMeta {
        num_rows: 0,
        version: 1,
        created_by: None,
        schema_debug: String::new(),
        root_schema: leaf("a", "INT32", -1, -1, -1, None),
        leaf_paths: vec!["a".to_string()],
        key_value_metadata: None,
        column_orders_debug: String::new(),
        row_groups: vec![RowGroupMeta {
            num_rows: 0,
            total_byte_size: 0,
            compressed_size: 0,
            sorting_columns: Some(vec![SortingColumnMeta { column_idx: 0, descending: false, nulls_first: true }]),
            columns: vec![],
        }],
    };
    assert!(sorting_columns_in_range(&footer));
    footer.row_groups[0].sorting_columns = Some(vec![SortingColumnMeta { column_idx: 1, descending: false, nulls_first: true }]);
    assert!(!sorting_columns_in_range(&footer));
    footer.row_groups[0].sorting_columns = Some(vec![SortingColumnMeta { column_idx: -1, descending: false, nulls_first: true }]);
    assert!(!sorting_columns_in_range(&footer));
    footer.row_groups[0].sorting_columns = None;
    assert!(sorting_columns_in_range(&footer));
}

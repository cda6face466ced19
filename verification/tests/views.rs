use parq::app::App;
use parq::render::{fit_viewport, render_schema_node, TextLine, Tone};
use parq::{
    ColumnChunkInfo, ColumnStatistics, FileMetadata, LocalTime, ParquetFileData, ParquetFileMetadata, RowGroupData,
    SchemaField, SchemaType,
};

fn spans(lines: &[TextLine]) -> Vec<Vec<(String, Tone)>> {
    lines.iter().map(|l| l.spans.iter().map(|s| (s.text.clone(), s.tone)).collect()).collect()
}

fn p(t: &str) -> (String, Tone) {
    (t.to_string(), Tone::Plain)
}

fn c(t: &str) -> (String, Tone) {
    (t.to_string(), Tone::Cyan)
}

fn field(name: &str, t: SchemaType, rep: Option<&str>, lt: Option<&str>, ct: Option<&str>) -> SchemaField {
    SchemaField {
        id: None,
        name: name.to_string(),
        _type: t,
        repetition: rep.map(|s| s.to_string()),
        converted_type: ct.map(|s| s.to_string()),
        logical_type: lt.map(|s| s.to_string()),
    }
}

fn column(name: &str, stats: Option<ColumnStatistics>) -> ColumnChunkInfo {
    ColumnChunkInfo {
        name: name.to_string(),
        physical_type: "INT64".to_string(),
        logical_type: None,
        converted_type: None,
        encodings: "PLAIN, RLE".to_string(),
        compression: "SNAPPY".to_string(),
        total_compressed_size: 120,
        total_uncompressed_size: 240,
        num_values: 10,
        statistics: stats,
        sort_order: "SIGNED".to_string(),
    }
}

fn sample() -> ParquetFileData {
    let tree = field(
        "schema",
        SchemaType::Group(vec![
            field("id", SchemaType::Primitive("INT64".to_string()), Some("REQUIRED"), None, None),
            field("name", SchemaType::Primitive("BYTE_ARRAY".to_string()), Some("OPTIONAL"), Some("string"), Some("UTF8")),
            field(
                "tags",
                SchemaType::Group(vec![field("item", SchemaType::Primitive("INT32".to_string()), Some(""), None, Some("INT_8"))]),
                Some("OPTIONAL"),
                Some("list"),
                None,
            ),
        ]),
        None,
        None,
        None,
    );
    ParquetFileData {
        file_meta: FileMetadata {
            name: "f.parquet".to_string(),
            created: LocalTime { unix_seconds: 1, subsec_nanos: 0, utc_offset_seconds: 3600 },
            modified: LocalTime { unix_seconds: 2, subsec_nanos: 5, utc_offset_seconds: 3600 },
            size: 2048,
        },
        metadata: ParquetFileMetadata {
            num_rows: 10,
            num_columns: 3,
            version: 2,
            created_by: Some("parquet-rs".to_string()),
            num_row_groups: 1,
            schema: "schema".to_string(),
            schema_tree: tree,
            key_value_metadata: vec![("k".to_string(), "v".to_string())],
            column_orders: "None".to_string(),
        },
        row_groups_data: vec![RowGroupData {
            index: 0,
            num_rows: 10,
            total_byte_size: 240,
            compressed_size: 120,
            sorting_columns: vec![],
            columns: vec![
                column("id", Some(ColumnStatistics { min: Some("1".to_string()), max: Some("9".to_string()), null_count: Some(0), distinct_count: None })),
                column("name", None),
            ],
        }],
    }
}

#[test]
fn structure_view() {
    let a = App::new(sample(), "f.parquet".to_string());
    let lines = spans(&a.structure_view_lines());
    assert_eq!(lines, vec![
        vec![c("File Version: "), p("2")],
        vec![c("Total Rows: "), p("10")],
        vec![c("Row Groups: "), p("1")],
        vec![c("Created By: "), p("parquet-rs")],
        vec![p("")],
        vec![("Row Groups:".to_string(), Tone::BoldYellow)],
        vec![p("")],
        vec![("  Row Group ".to_string(), Tone::Green), p("0")],
        vec![p("    Rows: "), p("10")],
        vec![p("    Total Bytes: "), p("240")],
        vec![p("    Columns: "), p("2")],
    ]);
}

#[test]
fn metadata_view() {
    let a = App::new(sample(), "f.parquet".to_string());
    let lines = spans(&a.metadata_view_lines());
    assert_eq!(lines, vec![
        vec![("File Metadata:".to_string(), Tone::BoldYellow)],
        vec![p("")],
        vec![c("Version: "), p("2")],
        vec![c("Total Rows: "), p("10")],
        vec![c("Row Groups: "), p("1")],
        vec![c("Created By: "), p("parquet-rs")],
        vec![p("")],
        vec![("Key-Value Metadata:".to_string(), Tone::BoldYellow)],
        vec![c("  k: "), p("v")],
    ]);
}

#[test]
fn metadata_view_without_pairs() {
    let mut data = sample();
    data.metadata.key_value_metadata.clear();
    data.metadata.created_by = None;
    let a = App::new(data, "f.parquet".to_string());
    assert_eq!(a.metadata_view_lines().len(), 5);
}

#[test]
fn stats_view() {
    let a = App::new(sample(), "f.parquet".to_string());
    let lines = spans(&a.stats_view_lines());
    assert_eq!(lines, vec![
        vec![("Column Statistics:".to_string(), Tone::BoldYellow)],
        vec![p("")],
        vec![("Row Group ".to_string(), Tone::Green), p("0")],
        vec![p("")],
        vec![c("  Column: "), p("id")],
        vec![p("    Type: "), p("INT64")],
        vec![p("    Compression: "), p("SNAPPY")],
        vec![p("    Encodings: "), p("PLAIN, RLE")],
        vec![p("    Values: "), p("10")],
        vec![p("    Compressed Size: "), p("120 bytes")],
        vec![p("    Uncompressed Size: "), p("240 bytes")],
        vec![p("    Min: "), p("1")],
        vec![p("    Max: "), p("9")],
        vec![p("    Null Count: "), p("0")],
        vec![p("")],
        vec![c("  Column: "), p("name")],
        vec![p("    Type: "), p("INT64")],
        vec![p("    Compression: "), p("SNAPPY")],
        vec![p("    Encodings: "), p("PLAIN, RLE")],
        vec![p("    Values: "), p("10")],
        vec![p("    Compressed Size: "), p("120 bytes")],
        vec![p("    Uncompressed Size: "), p("240 bytes")],
        vec![p("")],
    ]);
}

#[test]
fn schema_view() {
    let a = App::new(sample(), "f.parquet".to_string());
    let lines = spans(&a.schema_view_lines());
    let y = |t: &str| (t.to_string(), Tone::BoldYellow);
    let g = |t: &str| (t.to_string(), Tone::Green);
    let gray = |t: &str| (t.to_string(), Tone::Gray);
    let m = |t: &str| (t.to_string(), Tone::Magenta);
    assert_eq!(lines, vec![
        vec![p(""), y("schema ")],
        vec![p("  "), c("id: "), g("INT64"), gray(" (REQUIRED)")],
        vec![p("  "), c("name: "), g("BYTE_ARRAY"), gray(" (OPTIONAL)"), m(" [string]")],
        vec![p("  "), y("tags "), gray("(OPTIONAL)"), m(" [list]")],
        vec![p("    "), c("item: "), g("INT32"), m(" [INT_8]")],
    ]);
}

#[test]
fn schema_node_at_depth_appends() {
    let leaf = field("x", SchemaType::Primitive("BOOLEAN".to_string()), None, None, None);
    let mut lines = Vec::new();
    render_schema_node(&leaf, 2, &mut lines);
    render_schema_node(&leaf, 0, &mut lines);
    assert_eq!(spans(&lines), vec![
        vec![p("    "), c("x: "), (String::from("BOOLEAN"), Tone::Green)],
        vec![p(""), c("x: "), (String::from("BOOLEAN"), Tone::Green)],
    ]);
}

#[test]
fn viewport_clamps_offset_and_shows_a_page() {
    let lines: Vec<u32> = (0..10).collect();
    let (mut offset, mut max) = (usize::MAX, 0usize);
    let (shown, bar) = fit_viewport(&mut offset, &mut max, lines.clone(), 4);
    assert_eq!((offset, max, bar), (6, 6, true));
    assert_eq!(shown, vec![6, 7, 8, 9]);

    offset = 2;
    let (shown, _) = fit_viewport(&mut offset, &mut max, lines.clone(), 4);
    assert_eq!(offset, 2);
    assert_eq!(shown, vec![2, 3, 4, 5]);

    let (shown, bar) = fit_viewport(&mut offset, &mut max, lines.clone(), 20);
    assert_eq!((offset, max, bar), (0, 0, false));
    assert_eq!(shown, lines);

    let (shown, bar) = fit_viewport(&mut offset, &mut max, Vec::<u32>::new(), 0);
    assert_eq!((offset, max, bar, shown.len()), (0, 0, false, 0));
}

#[test]
fn current_view_follows_the_tab() {
    let mut a = App::new(sample(), "f.parquet".to_string());
    assert_eq!(spans(&a.current_view_lines()), spans(&a.structure_view_lines()));
    a.next_tab();
    assert_eq!(spans(&a.current_view_lines()), spans(&a.schema_view_lines()));
    a.next_tab();
    assert_eq!(spans(&a.current_view_lines()), spans(&a.metadata_view_lines()));
    a.next_tab();
    assert_eq!(spans(&a.current_view_lines()), spans(&a.stats_view_lines()));
}

#[test]
fn metadata_values_are_cut_unless_asked_not_to() {
    let mut data = sample();
    let long: String = "é".repeat(305);
    data.metadata.key_value_metadata = vec![("k".to_string(), long.clone()), ("s".to_string(), "short".to_string())];
    let mut a = App::new(data, "f.parquet".to_string());
    assert_eq!(a.max_value_length, 300);
    assert!(!a.no_truncate);
    let lines = spans(&a.metadata_view_lines());
    assert_eq!(lines[8], vec![c("  k: "), p(&"é".repeat(300))]);
    assert_eq!(lines[9], vec![c("  s: "), p("short")]);

    a.set_value_truncation(3, false);
    let lines = spans(&a.metadata_view_lines());
    assert_eq!(lines[8], vec![c("  k: "), p("ééé")]);
    assert_eq!(lines[9], vec![c("  s: "), p("sho")]);

    a.set_value_truncation(3, true);
    let lines = spans(&a.metadata_view_lines());
    assert_eq!(lines[8], vec![c("  k: "), p(&long)]);
    assert_eq!(lines[9], vec![c("  s: "), p("short")]);

    a.set_value_truncation(5, false);
    let lines = spans(&a.metadata_view_lines());
    assert_eq!(lines[9], vec![c("  s: "), p("short")]);
}

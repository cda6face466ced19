//! The footer of a Parquet file as the reader hands it over, and the text the
//! viewer makes of it: logical types, statistics bounds, schema descriptions.
use vstd::prelude::*;
use vstd::utf8::{decode_utf8, valid_utf8};
use crate::model::{
    ColumnChunkInfo, ColumnStatistics, FileMetadata, ParquetFileData, ParquetFileMetadata, RowGroupData, SchemaField,
    SchemaType, SortingColumnInfo,
};
use crate::text::{
    concat3, int_text, nat_text, push_int_text, join_v, texts_v, join_texts, bytes_debug_v, bytes_debug,
};

verus! {

/// The unit of a time or timestamp logical type.
#[allow(non_camel_case_types)]
#[derive(Debug, Clone, Copy, PartialEq, Eq, Structural)]
pub enum TimeUnit {
    MILLIS,
    MICROS,
    NANOS,
}

/// How the edges of a geography are interpolated.
#[allow(non_camel_case_types)]
#[derive(Debug, Clone, Copy, PartialEq, Eq, Structural)]
pub enum EdgeInterpolationAlgorithm {
    SPHERICAL,
    VINCENTY,
    THOMAS,
    ANDOYER,
    KARNEY,
    _Unknown(i32),
}

/// The logical type annotation of a column.
#[allow(non_camel_case_types)]
#[derive(Debug, Clone, PartialEq, Eq)]
pub enum LogicalType {
    String,
    KeyValueMap,
    List,
    Enum,
    Decimal { scale: i32, precision: i32 },
    Date,
    Time { is_adjusted_to_u_t_c: bool, unit: TimeUnit },
    Timestamp { is_adjusted_to_u_t_c: bool, unit: TimeUnit },
    Integer { bit_width: i8, is_signed: bool },
    Unknown,
    Json,
    Bson,
    Uuid,
    Float16,
    Variant { specification_version: Option<i8> },
    Geometry { crs: Option<String> },
    Geography { crs: Option<String>, algorithm: Option<EdgeInterpolationAlgorithm> },
    _Unknown { field_id: i16 },
}

/// The name of a time unit.
pub open spec fn time_unit_v(unit: TimeUnit) -> Seq<char> {
    match unit {
        TimeUnit::MILLIS => "millis"@,
        TimeUnit::MICROS => "micros"@,
        TimeUnit::NANOS => "nanos"@,
    }
}

/// A time or timestamp type: `base(unit, adjusted to UTC)`, with `not ` before
/// `adjusted` when the values are not adjusted.
pub open spec fn time_type_v(base: Seq<char>, adjusted: bool, unit: TimeUnit) -> Seq<char> {
    base + "("@ + time_unit_v(unit) + ", "@ + (if adjusted { Seq::empty() } else { "not "@ }) + "adjusted to UTC)"@
}

/// An edge interpolation algorithm as its variant is written.
pub open spec fn algorithm_v(a: EdgeInterpolationAlgorithm) -> Seq<char> {
    match a {
        EdgeInterpolationAlgorithm::SPHERICAL => "SPHERICAL"@,
        EdgeInterpolationAlgorithm::VINCENTY => "VINCENTY"@,
        EdgeInterpolationAlgorithm::THOMAS => "THOMAS"@,
        EdgeInterpolationAlgorithm::ANDOYER => "ANDOYER"@,
        EdgeInterpolationAlgorithm::KARNEY => "KARNEY"@,
        EdgeInterpolationAlgorithm::_Unknown(n) => "_Unknown("@ + int_text(n as int) + ")"@,
    }
}

/// The settings of a geography type: the CRS, then the algorithm, each when set.
pub open spec fn geography_info_v(crs: Option<String>, algorithm: Option<EdgeInterpolationAlgorithm>) -> Seq<char> {
    match (crs, algorithm) {
        (Some(c), Some(a)) => "crs = "@ + c@ + ", "@ + "algorithm = "@ + algorithm_v(a),
        (Some(c), None) => "crs = "@ + c@,
        (None, Some(a)) => "algorithm = "@ + algorithm_v(a),
        (None, None) => Seq::empty(),
    }
}

/// The text of a logical type.
pub open spec fn logical_type_v(lt: LogicalType) -> Seq<char> {
    match lt {
        LogicalType::String => "string"@,
        LogicalType::KeyValueMap => "map"@,
        LogicalType::List => "list"@,
        LogicalType::Enum => "enum"@,
        LogicalType::Decimal { scale, precision } =>
            "decimal("@ + int_text(precision as int) + ","@ + int_text(scale as int) + ")"@,
        LogicalType::Date => "date"@,
        LogicalType::Time { is_adjusted_to_u_t_c, unit } => time_type_v("time"@, is_adjusted_to_u_t_c, unit),
        LogicalType::Timestamp { is_adjusted_to_u_t_c, unit } =>
            time_type_v("timestamp"@, is_adjusted_to_u_t_c, unit),
        LogicalType::Integer { bit_width, is_signed } =>
            "int("@ + int_text(bit_width as int) + "bit, "@ + (if is_signed { "signed"@ } else { "unsigned"@ }) + ")"@,
        LogicalType::Unknown => "unknown"@,
        LogicalType::Json => "json"@,
        LogicalType::Bson => "bson"@,
        LogicalType::Uuid => "uuid"@,
        LogicalType::Float16 => "float16"@,
        LogicalType::Variant { specification_version } => "variant"@ + match specification_version {
            Some(v) => "(specification_version = "@ + int_text(v as int) + ")"@,
            None => Seq::empty(),
        },
        LogicalType::Geometry { crs } => "geometry"@ + match crs {
            Some(c) => "(crs = "@ + c@ + ")"@,
            None => Seq::empty(),
        },
        LogicalType::Geography { crs, algorithm } => "geography"@ + if crs is None && algorithm is None {
            Seq::empty()
        } else {
            "("@ + geography_info_v(crs, algorithm) + ")"@
        },
        LogicalType::_Unknown { field_id } => "unknown(filed_id = "@ + int_text(field_id as int) + ")"@,
    }
}

fn text_int_between(a: &str, n: i64, c: &str) -> (s: String)
    ensures
        s@ == a@ + int_text(n as int) + c@,
{
    let mut s = String::from_str(a);
    push_int_text(&mut s, n);
    s.append(c);
    s
}

/// The text of a time or timestamp type.
pub fn logical_type_time_to_string(base_type: &str, is_adjusted_to_utc: bool, unit: &TimeUnit) -> (s: String)
    ensures
        s@ == time_type_v(base_type@, is_adjusted_to_utc, *unit),
{
    let unit_text = match unit {
        TimeUnit::MILLIS => "millis",
        TimeUnit::MICROS => "micros",
        TimeUnit::NANOS => "nanos",
    };
    let mut s = String::from_str(base_type);
    s.append("(");
    s.append(unit_text);
    s.append(", ");
    let adjusted = if is_adjusted_to_utc { "" } else { "not " };
    proof {
        reveal_strlit("");
    }
    s.append(adjusted);
    s.append("adjusted to UTC)");
    s
}

fn algorithm_to_string(a: &EdgeInterpolationAlgorithm) -> (s: String)
    ensures
        s@ == algorithm_v(*a),
{
    match a {
        EdgeInterpolationAlgorithm::SPHERICAL => String::from_str("SPHERICAL"),
        EdgeInterpolationAlgorithm::VINCENTY => String::from_str("VINCENTY"),
        EdgeInterpolationAlgorithm::THOMAS => String::from_str("THOMAS"),
        EdgeInterpolationAlgorithm::ANDOYER => String::from_str("ANDOYER"),
        EdgeInterpolationAlgorithm::KARNEY => String::from_str("KARNEY"),
        EdgeInterpolationAlgorithm::_Unknown(n) => text_int_between("_Unknown(", *n as i64, ")"),
    }
}

/// The text of a logical type, as the viewer shows it.
pub fn pq_logical_type_to_string(lt: &LogicalType) -> (s: String)
    ensures
        s@ == logical_type_v(*lt),
{
    match lt {
        LogicalType::String => String::from_str("string"),
        LogicalType::KeyValueMap => String::from_str("map"),
        LogicalType::List => String::from_str("list"),
        LogicalType::Enum => String::from_str("enum"),
        LogicalType::Decimal { scale, precision } => {
            let mut s = text_int_between("decimal(", *precision as i64, ",");
            push_int_text(&mut s, *scale as i64);
            s.append(")");
            s
        },
        LogicalType::Date => String::from_str("date"),
        LogicalType::Time { is_adjusted_to_u_t_c, unit } =>
            logical_type_time_to_string("time", *is_adjusted_to_u_t_c, unit),
        LogicalType::Timestamp { is_adjusted_to_u_t_c, unit } =>
            logical_type_time_to_string("timestamp", *is_adjusted_to_u_t_c, unit),
        LogicalType::Integer { bit_width, is_signed } => {
            let signed = if *is_signed { "signed" } else { "unsigned" };
            let mut s = text_int_between("int(", *bit_width as i64, "bit, ");
            s.append(signed);
            s.append(")");
            s
        },
        LogicalType::Unknown => String::from_str("unknown"),
        LogicalType::Json => String::from_str("json"),
        LogicalType::Bson => String::from_str("bson"),
        LogicalType::Uuid => String::from_str("uuid"),
        LogicalType::Float16 => String::from_str("float16"),
        LogicalType::Variant { specification_version } => {
            let mut s = String::from_str("variant");
            match specification_version {
                Some(v) => {
                    let t = text_int_between("(specification_version = ", *v as i64, ")");
                    s.append(t.as_str());
                },
                None => {},
            }
            s
        },
        LogicalType::Geometry { crs } => {
            let mut s = String::from_str("geometry");
            match crs {
                Some(c) => {
                    let t = concat3("(crs = ", c.as_str(), ")");
                    s.append(t.as_str());
                },
                None => {},
            }
            s
        },
        LogicalType::Geography { crs, algorithm } => {
            let mut parts: Vec<String> = Vec::new();
            match crs {
                Some(c) => {
                    parts.push(concat3("crs = ", c.as_str(), ""));
                },
                None => {},
            }
            match algorithm {
                Some(a) => {
                    let t = algorithm_to_string(a);
                    parts.push(concat3("algorithm = ", t.as_str(), ""));
                },
                None => {},
            }
            let info = join_texts(&parts, ", ");
            proof {
                reveal_strlit("");
                reveal_with_fuel(join_v, 3);
                assert(texts_v(parts@).len() == parts@.len());
                if parts@.len() == 2 {
                    assert(texts_v(parts@).drop_last() =~= seq![texts_v(parts@)[0]]);
                }
                assert(info@ == geography_info_v(*crs, *algorithm));
            }
            let mut s = String::from_str("geography");
            if parts.len() > 0 {
                let t = concat3("(", info.as_str(), ")");
                s.append(t.as_str());
            }
            s
        },
        LogicalType::_Unknown { field_id } => text_int_between("unknown(filed_id = ", *field_id as i64, ")"),
    }
}

// ------------------------------------------------------------------------
// Statistics

/// The bounds of a column chunk's statistics, by physical type. Float bounds
/// arrive as the text Rust's `Display` gives them.
#[allow(inconsistent_fields)]
#[derive(Debug, Clone, PartialEq, Eq)]
pub enum StatisticsBounds {
    Boolean { min: Option<bool>, max: Option<bool> },
    Int32 { min: Option<i32>, max: Option<i32> },
    Int64 { min: Option<i64>, max: Option<i64> },
    Int96 { min: Option<[u32; 3]>, max: Option<[u32; 3]> },
    Float { min: Option<String>, max: Option<String> },
    Double { min: Option<String>, max: Option<String> },
    ByteArray { min: Option<Vec<u8>>, max: Option<Vec<u8>> },
    FixedLenByteArray { min: Option<Vec<u8>>, max: Option<Vec<u8>> },
}

/// The statistics of a column chunk as the footer holds them.
#[derive(Debug, Clone, PartialEq, Eq)]
pub struct ChunkStatistics {
    pub bounds: StatisticsBounds,
    pub null_count: Option<u64>,
    pub distinct_count: Option<u64>,
}

pub open spec fn bool_v(b: bool) -> Seq<char> {
    if b { "true"@ } else { "false"@ }
}

/// An INT96 value as its `{:?}` writes it.
pub open spec fn int96_v(v: Seq<u32>) -> Seq<char> {
    "Int96 { value: ["@ + nat_text(v[0] as nat) + ", "@ + nat_text(v[1] as nat) + ", "@ + nat_text(v[2] as nat) + "] }"@
}

/// Bytes as text when they are UTF-8, else as the list of their values.
pub open spec fn bytes_text_v(bytes: Seq<u8>) -> Seq<char> {
    if valid_utf8(bytes) { decode_utf8(bytes) } else { bytes_debug_v(bytes) }
}

pub open spec fn map_opt<A>(o: Option<A>, f: spec_fn(A) -> Seq<char>) -> Option<Seq<char>> {
    match o {
        Some(a) => Some(f(a)),
        None => None,
    }
}

/// The text of an optional string.
pub open spec fn opt_text(o: Option<String>) -> Option<Seq<char>> {
    match o {
        Some(s) => Some(s@),
        None => None,
    }
}

/// The minimum and maximum of statistics, as text.
pub open spec fn bounds_v(b: StatisticsBounds) -> (Option<Seq<char>>, Option<Seq<char>>) {
    match b {
        StatisticsBounds::Boolean { min, max } => (map_opt(min, |v: bool| bool_v(v)), map_opt(max, |v: bool| bool_v(v))),
        StatisticsBounds::Int32 { min, max } =>
            (map_opt(min, |v: i32| int_text(v as int)), map_opt(max, |v: i32| int_text(v as int))),
        StatisticsBounds::Int64 { min, max } =>
            (map_opt(min, |v: i64| int_text(v as int)), map_opt(max, |v: i64| int_text(v as int))),
        StatisticsBounds::Int96 { min, max } =>
            (map_opt(min, |v: [u32; 3]| int96_v(v@)), map_opt(max, |v: [u32; 3]| int96_v(v@))),
        StatisticsBounds::Float { min, max } => (opt_text(min), opt_text(max)),
        StatisticsBounds::Double { min, max } => (opt_text(min), opt_text(max)),
        StatisticsBounds::ByteArray { min, max } =>
            (map_opt(min, |v: Vec<u8>| bytes_text_v(v@)), map_opt(max, |v: Vec<u8>| bytes_text_v(v@))),
        StatisticsBounds::FixedLenByteArray { min, max } =>
            (map_opt(min, |v: Vec<u8>| bytes_text_v(v@)), map_opt(max, |v: Vec<u8>| bytes_text_v(v@))),
    }
}

/// Decodes UTF-8 bytes into a string, as `String::from_utf8` does.
#[verifier::external_body]
fn utf8_string(bytes: Vec<u8>) -> (r: Option<String>)
    ensures
        r is Some <==> valid_utf8(bytes@),
        r matches Some(s) ==> s@ == decode_utf8(bytes@),
{
    match String::from_utf8(bytes) {
        Ok(s) => Some(s),
        Err(_) => None,
    }
}

fn bytes_text(bytes: &Vec<u8>) -> (s: String)
    ensures
        s@ == bytes_text_v(bytes@),
{
    match utf8_string(bytes.clone()) {
        Some(s) => s,
        None => bytes_debug(bytes),
    }
}

fn bool_text(b: bool) -> (s: String)
    ensures
        s@ == bool_v(b),
{
    if b { String::from_str("true") } else { String::from_str("false") }
}

fn int96_text(v: &[u32; 3]) -> (s: String)
    ensures
        s@ == int96_v(v@),
{
    let mut s = String::from_str("Int96 { value: [");
    crate::text::push_nat_text(&mut s, v[0] as u64);
    s.append(", ");
    crate::text::push_nat_text(&mut s, v[1] as u64);
    s.append(", ");
    crate::text::push_nat_text(&mut s, v[2] as u64);
    s.append("] }");
    s
}

/// The minimum and maximum of a column chunk's statistics, as text.
pub fn format_statistics_min_max(stats: &StatisticsBounds) -> (r: (Option<String>, Option<String>))
    ensures
        (opt_text(r.0), opt_text(r.1)) == bounds_v(*stats),
{
    match stats {
        StatisticsBounds::Boolean { min, max } => (
            match min { Some(v) => Some(bool_text(*v)), None => None },
            match max { Some(v) => Some(bool_text(*v)), None => None },
        ),
        StatisticsBounds::Int32 { min, max } => (
            match min { Some(v) => Some(crate::text::int_to_text(*v as i64)), None => None },
            match max { Some(v) => Some(crate::text::int_to_text(*v as i64)), None => None },
        ),
        StatisticsBounds::Int64 { min, max } => (
            match min { Some(v) => Some(crate::text::int_to_text(*v)), None => None },
            match max { Some(v) => Some(crate::text::int_to_text(*v)), None => None },
        ),
        StatisticsBounds::Int96 { min, max } => (
            match min { Some(v) => Some(int96_text(v)), None => None },
            match max { Some(v) => Some(int96_text(v)), None => None },
        ),
        StatisticsBounds::Float { min, max } => (min.clone(), max.clone()),
        StatisticsBounds::Double { min, max } => (min.clone(), max.clone()),
        StatisticsBounds::ByteArray { min, max } => (
            match min { Some(v) => Some(bytes_text(v)), None => None },
            match max { Some(v) => Some(bytes_text(v)), None => None },
        ),
        StatisticsBounds::FixedLenByteArray { min, max } => (
            match min { Some(v) => Some(bytes_text(v)), None => None },
            match max { Some(v) => Some(bytes_text(v)), None => None },
        ),
    }
}

// ------------------------------------------------------------------------
// Schema

/// A node of the schema as the footer describes it. Display texts of the
/// reader's enums arrive as text; an unset converted type is `None`.
#[derive(Debug, PartialEq, Eq)]
pub struct SchemaNode {
    pub name: String,
    pub id: Option<i32>,
    pub repetition: Option<String>,
    pub converted_type: Option<String>,
    pub logical_type: Option<LogicalType>,
    pub kind: SchemaNodeKind,
}

/// A leaf with its physical type and size settings (negative when unset), or a
/// group of fields.
#[derive(Debug, PartialEq, Eq)]
pub enum SchemaNodeKind {
    Primitive { physical_type: String, type_length: i32, scale: i32, precision: i32 },
    Group { fields: Vec<SchemaNode> },
}

/// The set size settings of a leaf: length, precision, scale.
pub open spec fn size_parts_v(type_length: i32, scale: i32, precision: i32) -> Seq<Seq<char>> {
    (if type_length >= 0 { seq!["length = "@ + int_text(type_length as int)] } else { Seq::empty() })
        + (if precision >= 0 { seq!["precision = "@ + int_text(precision as int)] } else { Seq::empty() })
        + (if scale >= 0 { seq!["scale = "@ + int_text(scale as int)] } else { Seq::empty() })
}

/// The description of a leaf: its physical type, followed by its set size
/// settings in brackets when it has any.
pub open spec fn description_v(physical_type: Seq<char>, type_length: i32, scale: i32, precision: i32) -> Seq<char> {
    let parts = size_parts_v(type_length, scale, precision);
    if parts.len() == 0 {
        physical_type
    } else {
        physical_type + "("@ + join_v(parts, ", "@) + ")"@
    }
}

/// The text of an optional logical type.
pub open spec fn logical_text(lt: Option<LogicalType>) -> Option<Seq<char>> {
    match lt {
        Some(l) => Some(logical_type_v(l)),
        None => None,
    }
}

/// `field` is what the viewer makes of the footer's schema node `node`.
pub open spec fn field_of_node(node: SchemaNode, field: SchemaField) -> bool
    decreases node,
{
    &&& field.id == node.id
    &&& field.name@ == node.name@
    &&& opt_text(field.repetition) == opt_text(node.repetition)
    &&& opt_text(field.converted_type) == opt_text(node.converted_type)
    &&& opt_text(field.logical_type) == logical_text(node.logical_type)
    &&& match node.kind {
        SchemaNodeKind::Primitive { physical_type, type_length, scale, precision } => match field._type {
            SchemaType::Primitive(d) => d@ == description_v(physical_type@, type_length, scale, precision),
            SchemaType::Group(_) => false,
        },
        SchemaNodeKind::Group { fields } => match field._type {
            SchemaType::Group(children) => {
                &&& children.len() == fields.len()
                &&& forall|i: int| 0 <= i < fields.len() ==> field_of_node(fields@[i], #[trigger] children@[i])
            },
            SchemaType::Primitive(_) => false,
        },
    }
}

fn size_part(label: &str, n: i32) -> (s: String)
    ensures
        s@ == label@ + int_text(n as int),
{
    let mut s = String::from_str(label);
    push_int_text(&mut s, n as i64);
    s
}

fn describe_primitive(physical_type: &String, type_length: i32, scale: i32, precision: i32) -> (d: String)
    ensures
        d@ == description_v(physical_type@, type_length, scale, precision),
{
    let mut parts: Vec<String> = Vec::new();
    if type_length >= 0 {
        parts.push(size_part("length = ", type_length));
    }
    if precision >= 0 {
        parts.push(size_part("precision = ", precision));
    }
    if scale >= 0 {
        parts.push(size_part("scale = ", scale));
    }
    assert(texts_v(parts@) =~= size_parts_v(type_length, scale, precision));
    if parts.len() == 0 {
        physical_type.clone()
    } else {
        let joined = join_texts(&parts, ", ");
        let mut d = physical_type.clone();
        d.append("(");
        d.append(joined.as_str());
        d.append(")");
        d
    }
}

fn optional_logical_text(lt: &Option<LogicalType>) -> (r: Option<String>)
    ensures
        opt_text(r) == logical_text(*lt),
{
    match lt {
        Some(l) => Some(pq_logical_type_to_string(l)),
        None => None,
    }
}

impl SchemaField {
    /// The viewer's schema tree for the footer's schema node and its descendants.
    pub fn from_type(node: &SchemaNode) -> (field: Self)
        ensures
            field_of_node(*node, field),
        decreases node,
    {
        let kind = match &node.kind {
            SchemaNodeKind::Primitive { physical_type, type_length, scale, precision } =>
                SchemaType::Primitive(describe_primitive(physical_type, *type_length, *scale, *precision)),
            SchemaNodeKind::Group { fields } => {
                let mut children: Vec<SchemaField> = Vec::new();
                let mut i: usize = 0;
                while i < fields.len()
                    invariant
                        i <= fields.len(),
                        node.kind is Group,
                        node.kind->fields == *fields,
                        children.len() == i,
                        forall|j: int| 0 <= j < i ==> field_of_node(fields@[j], #[trigger] children@[j]),
                    decreases fields.len() - i,
                {
                    proof {
                        assert(decreases_to!(node => node.kind));
                        assert(decreases_to!(node.kind => node.kind->fields));
                        assert(decreases_to!(*fields => fields@));
                        assert(decreases_to!(fields@ => fields@[i as int]));
                    }
                    children.push(SchemaField::from_type(&fields[i]));
                    i = i + 1;
                }
                SchemaType::Group(children)
            },
        };
        SchemaField {
            id: node.id,
            name: node.name.clone(),
            _type: kind,
            repetition: node.repetition.clone(),
            converted_type: node.converted_type.clone(),
            logical_type: optional_logical_text(&node.logical_type),
        }
    }
}

// ------------------------------------------------------------------------
// Row groups and the file

/// A column by which a row group is sorted: the index of a leaf column.
#[derive(Debug, Clone, PartialEq, Eq)]
pub struct SortingColumnMeta {
    pub column_idx: i32,
    pub descending: bool,
    pub nulls_first: bool,
}

/// A column chunk as the footer describes it. Display texts of the reader's
/// enums arrive as text: the physical type, each encoding, the compression (as
/// `{:?}` writes it) and the sort order; an unset converted type is `None`.
#[derive(Debug, Clone, PartialEq, Eq)]
pub struct ColumnChunkMeta {
    pub name: String,
    pub physical_type: String,
    pub logical_type: Option<LogicalType>,
    pub converted_type: Option<String>,
    pub encodings: Vec<String>,
    pub compression: String,
    pub compressed_size: i64,
    pub uncompressed_size: i64,
    pub num_values: i64,
    pub statistics: Option<ChunkStatistics>,
    pub sort_order: String,
}

/// A row group as the footer describes it.
#[derive(Debug, Clone, PartialEq, Eq)]
pub struct RowGroupMeta {
    pub num_rows: i64,
    pub total_byte_size: i64,
    pub compressed_size: i64,
    pub sorting_columns: Option<Vec<SortingColumnMeta>>,
    pub columns: Vec<ColumnChunkMeta>,
}

/// The footer of a Parquet file. `leaf_paths` holds the dotted path of each
/// leaf column of the schema, in schema order; `schema_debug` and
/// `column_orders_debug` are the `{:?}` and `{:#?}` texts of the schema and of
/// the column orders.
#[derive(Debug, PartialEq, Eq)]
pub struct FooterMeta {
    pub num_rows: i64,
    pub version: i32,
    pub created_by: Option<String>,
    pub schema_debug: String,
    pub root_schema: SchemaNode,
    pub leaf_paths: Vec<String>,
    pub key_value_metadata: Option<Vec<(String, Option<String>)>>,
    pub column_orders_debug: String,
    pub row_groups: Vec<RowGroupMeta>,
}

/// `out` is what the viewer makes of the statistics `stats`.
pub open spec fn statistics_of(stats: Option<ChunkStatistics>, out: Option<ColumnStatistics>) -> bool {
    match (stats, out) {
        (Some(s), Some(o)) => {
            &&& (opt_text(o.min), opt_text(o.max)) == bounds_v(s.bounds)
            &&& o.null_count == s.null_count
            &&& o.distinct_count == s.distinct_count
        },
        (None, None) => true,
        _ => false,
    }
}

/// `out` is what the viewer makes of the column chunk `c`.
pub open spec fn chunk_of(c: ColumnChunkMeta, out: ColumnChunkInfo) -> bool {
    &&& out.name@ == c.name@
    &&& out.physical_type@ == c.physical_type@
    &&& opt_text(out.logical_type) == logical_text(c.logical_type)
    &&& opt_text(out.converted_type) == opt_text(c.converted_type)
    &&& out.encodings@ == join_v(texts_v(c.encodings@), ", "@)
    &&& out.compression@ == c.compression@
    &&& out.total_compressed_size == c.compressed_size
    &&& out.total_uncompressed_size == c.uncompressed_size
    &&& out.num_values == c.num_values
    &&& statistics_of(c.statistics, out.statistics)
    &&& out.sort_order@ == c.sort_order@
}

/// The sorting columns of a row group name their leaf columns.
pub open spec fn sorting_columns_valid(rg: RowGroupMeta, paths: Seq<String>) -> bool {
    match rg.sorting_columns {
        Some(scs) => forall|k: int| 0 <= k < scs.len() ==> 0 <= #[trigger] scs@[k].column_idx < paths.len(),
        None => true,
    }
}

/// `out` is what the viewer makes of the sorting column `sc`.
pub open spec fn sorting_of(sc: SortingColumnMeta, paths: Seq<String>, out: SortingColumnInfo) -> bool {
    &&& out.column_path@ == paths[sc.column_idx as int]@
    &&& out.descending == sc.descending
    &&& out.nulls_first == sc.nulls_first
}

/// `out` is what the viewer makes of the `index`th row group `rg`.
pub open spec fn row_group_of(index: int, rg: RowGroupMeta, paths: Seq<String>, out: RowGroupData) -> bool {
    &&& out.index == index
    &&& out.num_rows == rg.num_rows
    &&& out.total_byte_size == rg.total_byte_size
    &&& out.compressed_size == rg.compressed_size
    &&& out.columns.len() == rg.columns.len()
    &&& forall|j: int| 0 <= j < rg.columns.len() ==> chunk_of(rg.columns@[j], #[trigger] out.columns@[j])
    &&& match rg.sorting_columns {
        Some(scs) => {
            &&& out.sorting_columns.len() == scs.len()
            &&& forall|k: int| 0 <= k < scs.len() ==> sorting_of(scs@[k], paths, #[trigger] out.sorting_columns@[k])
        },
        None => out.sorting_columns.len() == 0,
    }
}

/// The value of a key-value pair, empty when unset.
pub open spec fn value_or_empty(v: Option<String>) -> Seq<char> {
    match v {
        Some(s) => s@,
        None => Seq::empty(),
    }
}

/// `out` is what the viewer makes of the key-value pairs `kvs`.
pub open spec fn key_values_of(kvs: Option<Vec<(String, Option<String>)>>, out: Seq<(String, String)>) -> bool {
    match kvs {
        Some(v) => {
            &&& out.len() == v.len()
            &&& forall|k: int| 0 <= k < v.len() ==> {
                &&& (#[trigger] out[k]).0@ == v@[k].0@
                &&& out[k].1@ == value_or_empty(v@[k].1)
            }
        },
        None => out.len() == 0,
    }
}

/// Every sorting column of every row group names a leaf column.
pub open spec fn footer_valid(footer: FooterMeta) -> bool {
    forall|i: int| 0 <= i < footer.row_groups.len() ==> sorting_columns_valid(
        #[trigger] footer.row_groups@[i], footer.leaf_paths@)
}

/// `out` is what the viewer makes of a file with the file system's `file_meta`
/// and the footer `footer`.
pub open spec fn file_data_of(file_meta: FileMetadata, footer: FooterMeta, out: ParquetFileData) -> bool {
    let m = out.metadata;
    &&& out.file_meta == file_meta
    &&& m.num_rows == footer.num_rows as u64
    &&& m.num_columns == footer.leaf_paths.len()
    &&& m.version == footer.version
    &&& opt_text(m.created_by) == opt_text(footer.created_by)
    &&& m.num_row_groups == footer.row_groups.len()
    &&& m.schema@ == footer.schema_debug@
    &&& field_of_node(footer.root_schema, m.schema_tree)
    &&& key_values_of(footer.key_value_metadata, m.key_value_metadata@)
    &&& m.column_orders@ == footer.column_orders_debug@
    &&& out.row_groups_data.len() == footer.row_groups.len()
    &&& forall|i: int| 0 <= i < footer.row_groups.len() ==> row_group_of(
        i, footer.row_groups@[i], footer.leaf_paths@, #[trigger] out.row_groups_data@[i])
}

fn statistics_info(stats: &Option<ChunkStatistics>) -> (r: Option<ColumnStatistics>)
    ensures
        statistics_of(*stats, r),
{
    match stats {
        Some(s) => {
            let (min, max) = format_statistics_min_max(&s.bounds);
            Some(ColumnStatistics { min, max, null_count: s.null_count, distinct_count: s.distinct_count })
        },
        None => None,
    }
}

fn column_info(c: &ColumnChunkMeta) -> (out: ColumnChunkInfo)
    ensures
        chunk_of(*c, out),
{
    ColumnChunkInfo {
        name: c.name.clone(),
        physical_type: c.physical_type.clone(),
        logical_type: optional_logical_text(&c.logical_type),
        converted_type: c.converted_type.clone(),
        encodings: join_texts(&c.encodings, ", "),
        compression: c.compression.clone(),
        total_compressed_size: c.compressed_size,
        total_uncompressed_size: c.uncompressed_size,
        num_values: c.num_values,
        statistics: statistics_info(&c.statistics),
        sort_order: c.sort_order.clone(),
    }
}

fn row_group_data(index: usize, rg: &RowGroupMeta, paths: &Vec<String>) -> (out: RowGroupData)
    requires
        sorting_columns_valid(*rg, paths@),
    ensures
        row_group_of(index as int, *rg, paths@, out),
{
    let mut columns: Vec<ColumnChunkInfo> = Vec::new();
    let mut j: usize = 0;
    while j < rg.columns.len()
        invariant
            j <= rg.columns.len(),
            columns.len() == j,
            forall|k: int| 0 <= k < j ==> chunk_of(rg.columns@[k], #[trigger] columns@[k]),
        decreases rg.columns.len() - j,
    {
        columns.push(column_info(&rg.columns[j]));
        j = j + 1;
    }
    let mut sorting_columns: Vec<SortingColumnInfo> = Vec::new();
    match &rg.sorting_columns {
        Some(scs) => {
            let mut k: usize = 0;
            while k < scs.len()
                invariant
                    k <= scs.len(),
                    rg.sorting_columns == Some(*scs),
                    sorting_columns_valid(*rg, paths@),
                    sorting_columns.len() == k,
                    forall|q: int| 0 <= q < k ==> sorting_of(scs@[q], paths@, #[trigger] sorting_columns@[q]),
                decreases scs.len() - k,
            {
                let sc = &scs[k];
                assert(rg.sorting_columns->0 == *scs);
                assert(0 <= scs@[k as int].column_idx < paths.len());
                let path = paths[sc.column_idx as usize].clone();
                sorting_columns.push(SortingColumnInfo {
                    column_path: path,
                    descending: sc.descending,
                    nulls_first: sc.nulls_first,
                });
                k = k + 1;
            }
        },
        None => {},
    }
    RowGroupData {
        index,
        num_rows: rg.num_rows,
        total_byte_size: rg.total_byte_size,
        compressed_size: rg.compressed_size,
        sorting_columns,
        columns,
    }
}

fn key_value_pairs(kvs: &Option<Vec<(String, Option<String>)>>) -> (out: Vec<(String, String)>)
    ensures
        key_values_of(*kvs, out@),
{
    let mut out: Vec<(String, String)> = Vec::new();
    match kvs {
        Some(v) => {
            let mut k: usize = 0;
            while k < v.len()
                invariant
                    k <= v.len(),
                    *kvs == Some(*v),
                    out.len() == k,
                    forall|q: int| 0 <= q < k ==> {
                        &&& (#[trigger] out@[q]).0@ == v@[q].0@
                        &&& out@[q].1@ == value_or_empty(v@[q].1)
                    },
                decreases v.len() - k,
            {
                let value = match &v[k].1 {
                    Some(s) => s.clone(),
                    None => String::new(),
                };
                out.push((v[k].0.clone(), value));
                k = k + 1;
            }
        },
        None => {},
    }
    out
}

/// Whether every sorting column of every row group names a leaf column.
pub fn sorting_columns_in_range(footer: &FooterMeta) -> (ok: bool)
    ensures
        ok == footer_valid(*footer),
{
    let n = footer.leaf_paths.len();
    let mut i: usize = 0;
    while i < footer.row_groups.len()
        invariant
            i <= footer.row_groups.len(),
            n == footer.leaf_paths.len(),
            forall|q: int| 0 <= q < i ==> sorting_columns_valid(#[trigger] footer.row_groups@[q], footer.leaf_paths@),
        decreases footer.row_groups.len() - i,
    {
        match &footer.row_groups[i].sorting_columns {
            Some(scs) => {
                let mut k: usize = 0;
                while k < scs.len()
                    invariant
                        k <= scs.len(),
                        n == footer.leaf_paths.len(),
                        i < footer.row_groups.len(),
                        footer.row_groups@[i as int].sorting_columns == Some(*scs),
                        forall|q: int| 0 <= q < k ==> 0 <= #[trigger] scs@[q].column_idx < n,
                    decreases scs.len() - k,
                {
                    let idx = scs[k].column_idx;
                    if idx < 0 || idx as usize >= n {
                        assert(!(0 <= scs@[k as int].column_idx < n));
                        let ghost rg = footer.row_groups@[i as int];
                        assert(rg.sorting_columns->0@[k as int].column_idx == idx);
                        assert(!sorting_columns_valid(footer.row_groups@[i as int], footer.leaf_paths@));
                        return false;
                    }
                    k = k + 1;
                }
                assert(sorting_columns_valid(footer.row_groups@[i as int], footer.leaf_paths@));
            },
            None => {},
        }
        i = i + 1;
    }
    true
}

impl ParquetFileData {
    /// What the viewer shows of a file, from what the file system says of it
    /// and from its footer.
    pub fn from_footer(file_meta: FileMetadata, footer: &FooterMeta) -> (data: Self)
        requires
            footer_valid(*footer),
        ensures
            file_data_of(file_meta, *footer, data),
    {
        let mut row_groups_data: Vec<RowGroupData> = Vec::new();
        let mut i: usize = 0;
        while i < footer.row_groups.len()
            invariant
                i <= footer.row_groups.len(),
                footer_valid(*footer),
                row_groups_data.len() == i,
                forall|q: int| 0 <= q < i ==> row_group_of(
                    q, footer.row_groups@[q], footer.leaf_paths@, #[trigger] row_groups_data@[q]),
            decreases footer.row_groups.len() - i,
        {
            assert(sorting_columns_valid(footer.row_groups@[i as int], footer.leaf_paths@));
            row_groups_data.push(row_group_data(i, &footer.row_groups[i], &footer.leaf_paths));
            i = i + 1;
        }
        let metadata = ParquetFileMetadata {
            num_rows: footer.num_rows as u64,
            num_columns: footer.leaf_paths.len(),
            version: footer.version,
            created_by: footer.created_by.clone(),
            num_row_groups: footer.row_groups.len(),
            schema: footer.schema_debug.clone(),
            schema_tree: SchemaField::from_type(&footer.root_schema),
            key_value_metadata: key_value_pairs(&footer.key_value_metadata),
            column_orders: footer.column_orders_debug.clone(),
        };
        ParquetFileData { file_meta, metadata, row_groups_data }
    }
}

/// The text is the path of one of the leaf columns.
pub open spec fn is_leaf_path(p: Seq<char>, paths: Seq<String>) -> bool {
    exists|j: int| 0 <= j < paths.len() && p == #[trigger] paths[j]@
}

/// What the viewer makes of a footer agrees with itself: it counts as many row
/// groups as it lists, each row group knows its position, and each sorting
/// column is the path of a leaf column.
pub proof fn lemma_file_data_consistent(file_meta: FileMetadata, footer: FooterMeta, out: ParquetFileData)
    requires
        footer_valid(footer),
        file_data_of(file_meta, footer, out),
    ensures
        out.metadata.num_row_groups == out.row_groups_data.len(),
        forall|i: int| 0 <= i < out.row_groups_data.len() ==> (#[trigger] out.row_groups_data@[i]).index == i,
        forall|i: int, k: int|
            0 <= i < out.row_groups_data.len() && 0 <= k < out.row_groups_data@[i].sorting_columns.len() ==>
            is_leaf_path(#[trigger] out.row_groups_data@[i].sorting_columns@[k].column_path@, footer.leaf_paths@),
{
    assert forall|i: int, k: int|
        0 <= i < out.row_groups_data.len() && 0 <= k < out.row_groups_data@[i].sorting_columns.len() implies
        is_leaf_path(#[trigger] out.row_groups_data@[i].sorting_columns@[k].column_path@, footer.leaf_paths@) by {
        let rg = footer.row_groups@[i];
        assert(row_group_of(i, rg, footer.leaf_paths@, out.row_groups_data@[i]));
        assert(sorting_columns_valid(rg, footer.leaf_paths@));
        let scs = rg.sorting_columns->0;
        let j = scs@[k].column_idx as int;
        assert(sorting_of(scs@[k], footer.leaf_paths@, out.row_groups_data@[i].sorting_columns@[k]));
        assert(0 <= j < footer.leaf_paths.len());
        assert(out.row_groups_data@[i].sorting_columns@[k].column_path@ == footer.leaf_paths@[j]@);
    }
}

// ------------------------------------------------------------------------
// Laws

/// Every row group and column chunk that the viewer shows carries the footer's
/// own counts, sizes, names and statistics counts, each in its own field: the
/// compressed size is the chunk's compressed size, the uncompressed size its
/// uncompressed size, and so on; sorting columns keep their direction and null
/// order and name the leaf at their index.
pub proof fn lemma_file_data_fields(file_meta: FileMetadata, footer: FooterMeta, out: ParquetFileData)
    requires
        file_data_of(file_meta, footer, out),
    ensures
        out.file_meta == file_meta,
        out.metadata.version == footer.version,
        out.metadata.num_row_groups == footer.row_groups.len(),
        out.metadata.num_columns == footer.leaf_paths.len(),
        out.row_groups_data.len() == footer.row_groups.len(),
        out.metadata.num_rows == footer.num_rows as u64,
        out.metadata.schema@ == footer.schema_debug@,
        out.metadata.column_orders@ == footer.column_orders_debug@,
        out.metadata.created_by is Some <==> footer.created_by is Some,
        footer.created_by is Some ==> out.metadata.created_by->0@ == footer.created_by->0@,
        footer.key_value_metadata is None ==> out.metadata.key_value_metadata.len() == 0,
        footer.key_value_metadata is Some ==> out.metadata.key_value_metadata.len() == footer.key_value_metadata->0.len(),
        forall|k: int| #![trigger out.metadata.key_value_metadata@[k]]
            footer.key_value_metadata is Some && 0 <= k < footer.key_value_metadata->0.len() ==> {
            &&& out.metadata.key_value_metadata@[k].0@ == footer.key_value_metadata->0@[k].0@
            &&& footer.key_value_metadata->0@[k].1 is Some ==>
                out.metadata.key_value_metadata@[k].1@ == footer.key_value_metadata->0@[k].1->0@
            &&& footer.key_value_metadata->0@[k].1 is None ==> out.metadata.key_value_metadata@[k].1@.len() == 0
        },
        forall|i: int| #![trigger out.row_groups_data@[i]] 0 <= i < footer.row_groups.len() ==> {
            &&& out.row_groups_data@[i].index == i
            &&& out.row_groups_data@[i].num_rows == footer.row_groups@[i].num_rows
            &&& out.row_groups_data@[i].total_byte_size == footer.row_groups@[i].total_byte_size
            &&& out.row_groups_data@[i].compressed_size == footer.row_groups@[i].compressed_size
            &&& out.row_groups_data@[i].columns.len() == footer.row_groups@[i].columns.len()
        },
        forall|i: int, j: int| #![trigger out.row_groups_data@[i].columns@[j]]
            0 <= i < footer.row_groups.len() && 0 <= j < footer.row_groups@[i].columns.len() ==> {
            &&& out.row_groups_data@[i].columns@[j].total_compressed_size == footer.row_groups@[i].columns@[j].compressed_size
            &&& out.row_groups_data@[i].columns@[j].total_uncompressed_size == footer.row_groups@[i].columns@[j].uncompressed_size
            &&& out.row_groups_data@[i].columns@[j].num_values == footer.row_groups@[i].columns@[j].num_values
            &&& out.row_groups_data@[i].columns@[j].name@ == footer.row_groups@[i].columns@[j].name@
            &&& out.row_groups_data@[i].columns@[j].physical_type@ == footer.row_groups@[i].columns@[j].physical_type@
            &&& out.row_groups_data@[i].columns@[j].compression@ == footer.row_groups@[i].columns@[j].compression@
            &&& out.row_groups_data@[i].columns@[j].sort_order@ == footer.row_groups@[i].columns@[j].sort_order@
            &&& out.row_groups_data@[i].columns@[j].encodings@
                == join_v(texts_v(footer.row_groups@[i].columns@[j].encodings@), ", "@)
            &&& (out.row_groups_data@[i].columns@[j].converted_type is Some
                <==> footer.row_groups@[i].columns@[j].converted_type is Some)
            &&& (footer.row_groups@[i].columns@[j].converted_type is Some ==>
                out.row_groups_data@[i].columns@[j].converted_type->0@
                    == footer.row_groups@[i].columns@[j].converted_type->0@)
            &&& (out.row_groups_data@[i].columns@[j].logical_type is Some
                <==> footer.row_groups@[i].columns@[j].logical_type is Some)
            &&& (footer.row_groups@[i].columns@[j].logical_type is Some ==>
                out.row_groups_data@[i].columns@[j].logical_type->0@
                    == logical_type_v(footer.row_groups@[i].columns@[j].logical_type->0))
            &&& (out.row_groups_data@[i].columns@[j].statistics is Some <==> footer.row_groups@[i].columns@[j].statistics is Some)
            &&& (footer.row_groups@[i].columns@[j].statistics is Some ==> {
                &&& out.row_groups_data@[i].columns@[j].statistics->0.null_count
                    == footer.row_groups@[i].columns@[j].statistics->0.null_count
                &&& out.row_groups_data@[i].columns@[j].statistics->0.distinct_count
                    == footer.row_groups@[i].columns@[j].statistics->0.distinct_count
            })
        },
        forall|i: int, k: int| #![trigger out.row_groups_data@[i].sorting_columns@[k]]
            0 <= i < footer.row_groups.len() && footer.row_groups@[i].sorting_columns is Some
            && 0 <= k < footer.row_groups@[i].sorting_columns->0.len() ==> {
            &&& out.row_groups_data@[i].sorting_columns@[k].descending
                == footer.row_groups@[i].sorting_columns->0@[k].descending
            &&& out.row_groups_data@[i].sorting_columns@[k].nulls_first
                == footer.row_groups@[i].sorting_columns->0@[k].nulls_first
            &&& out.row_groups_data@[i].sorting_columns@[k].column_path@
                == footer.leaf_paths@[footer.row_groups@[i].sorting_columns->0@[k].column_idx as int]@
        },
{
    assert forall|i: int, j: int|
        0 <= i < footer.row_groups.len() && 0 <= j < footer.row_groups@[i].columns.len() implies
        chunk_of(footer.row_groups@[i].columns@[j], #[trigger] out.row_groups_data@[i].columns@[j]) by {
        assert(row_group_of(i, footer.row_groups@[i], footer.leaf_paths@, out.row_groups_data@[i]));
    }
    assert forall|i: int, k: int|
        0 <= i < footer.row_groups.len() && footer.row_groups@[i].sorting_columns is Some
            && 0 <= k < footer.row_groups@[i].sorting_columns->0.len() implies
        sorting_of(footer.row_groups@[i].sorting_columns->0@[k], footer.leaf_paths@,
            #[trigger] out.row_groups_data@[i].sorting_columns@[k]) by {
        assert(row_group_of(i, footer.row_groups@[i], footer.leaf_paths@, out.row_groups_data@[i]));
    }
    assert(key_values_of(footer.key_value_metadata, out.metadata.key_value_metadata@));
    assert forall|i: int| #![trigger out.row_groups_data@[i]] 0 <= i < footer.row_groups.len() implies
        out.row_groups_data@[i].index == i by {
        assert(row_group_of(i, footer.row_groups@[i], footer.leaf_paths@, out.row_groups_data@[i]));
    }
}

/// A leaf's description is its physical type followed, in brackets, by each
/// size setting that is non-negative, in the order length, precision, scale:
/// each setting is shown exactly when it is non-negative, whatever the others.
pub proof fn lemma_description_settings(p: Seq<char>, len: i32, scale: i32, precision: i32)
    ensures
        ({
            let d = description_v(p, len, scale, precision);
            let l = "length = "@ + int_text(len as int);
            let pr = "precision = "@ + int_text(precision as int);
            let sc = "scale = "@ + int_text(scale as int);
            &&& (len < 0 && precision < 0 && scale < 0 ==> d == p)
            &&& (len >= 0 && precision < 0 && scale < 0 ==> d == p + "("@ + l + ")"@)
            &&& (len < 0 && precision >= 0 && scale < 0 ==> d == p + "("@ + pr + ")"@)
            &&& (len < 0 && precision < 0 && scale >= 0 ==> d == p + "("@ + sc + ")"@)
            &&& (len >= 0 && precision >= 0 && scale < 0 ==> d == p + "("@ + l + ", "@ + pr + ")"@)
            &&& (len >= 0 && precision < 0 && scale >= 0 ==> d == p + "("@ + l + ", "@ + sc + ")"@)
            &&& (len < 0 && precision >= 0 && scale >= 0 ==> d == p + "("@ + pr + ", "@ + sc + ")"@)
            &&& (len >= 0 && precision >= 0 && scale >= 0 ==> d == p + "("@ + l + ", "@ + pr + ", "@ + sc + ")"@)
        }),
{
    reveal_with_fuel(join_v, 4);
    let l = "length = "@ + int_text(len as int);
    let pr = "precision = "@ + int_text(precision as int);
    let sc = "scale = "@ + int_text(scale as int);
    let parts = size_parts_v(len, scale, precision);
    if len >= 0 && precision >= 0 && scale >= 0 {
        assert(parts =~= seq![l, pr, sc]);
        assert(parts.drop_last() =~= seq![l, pr]);
        assert(parts.drop_last().drop_last() =~= seq![l]);
    } else if len >= 0 && precision >= 0 {
        assert(parts =~= seq![l, pr]);
        assert(parts.drop_last() =~= seq![l]);
    } else if len >= 0 && scale >= 0 {
        assert(parts =~= seq![l, sc]);
        assert(parts.drop_last() =~= seq![l]);
    } else if precision >= 0 && scale >= 0 {
        assert(parts =~= seq![pr, sc]);
        assert(parts.drop_last() =~= seq![pr]);
    } else if len >= 0 {
        assert(parts =~= seq![l]);
    } else if precision >= 0 {
        assert(parts =~= seq![pr]);
    } else if scale >= 0 {
        assert(parts =~= seq![sc]);
    } else {
        assert(parts =~= Seq::<Seq<char>>::empty());
    }
}

/// Each leaf of the viewer's schema tree is described by the law above, from
/// its own node's physical type and size settings.
pub proof fn lemma_leaf_description(node: SchemaNode, field: SchemaField)
    requires
        field_of_node(node, field),
        node.kind is Primitive,
    ensures
        field._type is Primitive,
        field._type->Primitive_0@ == description_v(
            node.kind->physical_type@, node.kind->type_length, node.kind->scale, node.kind->precision),
        node.kind->type_length >= 0 && node.kind->precision < 0 && node.kind->scale < 0 ==>
            field._type->Primitive_0@ == node.kind->physical_type@ + "(length = "@
                + int_text(node.kind->type_length as int) + ")"@,
{
    lemma_description_settings(node.kind->physical_type@, node.kind->type_length, node.kind->scale, node.kind->precision);
    reveal_strlit("(length = ");
    reveal_strlit("(");
    reveal_strlit("length = ");
    let p = node.kind->physical_type@;
    let t = int_text(node.kind->type_length as int);
    assert(p + "("@ + ("length = "@ + t) + ")"@ =~= p + "(length = "@ + t + ")"@);
}

/// The text of each bound comes from that same bound: the first text is there
/// exactly when the minimum is, and is the minimum's text; the second likewise
/// for the maximum. Booleans read `true` or `false`, integers their decimal
/// text, floats the text they arrive as, INT96 values their three words, and
/// byte arrays their UTF-8 text or else the list of their bytes.
pub proof fn lemma_bounds_follow_their_source(b: StatisticsBounds, min_text: Option<String>, max_text: Option<String>)
    requires
        (opt_text(min_text), opt_text(max_text)) == bounds_v(b),
    ensures
        match b {
            StatisticsBounds::Boolean { min, max } => {
                &&& (min_text is Some <==> min is Some) && (max_text is Some <==> max is Some)
                &&& min is Some ==> min_text->0@ == if min->0 { "true"@ } else { "false"@ }
                &&& max is Some ==> max_text->0@ == if max->0 { "true"@ } else { "false"@ }
            },
            StatisticsBounds::Int32 { min, max } => {
                &&& (min_text is Some <==> min is Some) && (max_text is Some <==> max is Some)
                &&& min is Some ==> min_text->0@ == int_text(min->0 as int)
                &&& max is Some ==> max_text->0@ == int_text(max->0 as int)
            },
            StatisticsBounds::Int64 { min, max } => {
                &&& (min_text is Some <==> min is Some) && (max_text is Some <==> max is Some)
                &&& min is Some ==> min_text->0@ == int_text(min->0 as int)
                &&& max is Some ==> max_text->0@ == int_text(max->0 as int)
            },
            StatisticsBounds::Int96 { min, max } => {
                &&& (min_text is Some <==> min is Some) && (max_text is Some <==> max is Some)
                &&& min is Some ==> min_text->0@ == "Int96 { value: ["@ + nat_text(min->0@[0] as nat) + ", "@
                    + nat_text(min->0@[1] as nat) + ", "@ + nat_text(min->0@[2] as nat) + "] }"@
                &&& max is Some ==> max_text->0@ == "Int96 { value: ["@ + nat_text(max->0@[0] as nat) + ", "@
                    + nat_text(max->0@[1] as nat) + ", "@ + nat_text(max->0@[2] as nat) + "] }"@
            },
            StatisticsBounds::Float { min, max } => opt_text(min_text) == opt_text(min) && opt_text(max_text) == opt_text(max),
            StatisticsBounds::Double { min, max } => opt_text(min_text) == opt_text(min) && opt_text(max_text) == opt_text(max),
            StatisticsBounds::ByteArray { min, max } => {
                &&& (min_text is Some <==> min is Some) && (max_text is Some <==> max is Some)
                &&& min is Some ==> min_text->0@ == if valid_utf8(min->0@) { decode_utf8(min->0@) } else { bytes_debug_v(min->0@) }
                &&& max is Some ==> max_text->0@ == if valid_utf8(max->0@) { decode_utf8(max->0@) } else { bytes_debug_v(max->0@) }
            },
            StatisticsBounds::FixedLenByteArray { min, max } => {
                &&& (min_text is Some <==> min is Some) && (max_text is Some <==> max is Some)
                &&& min is Some ==> min_text->0@ == if valid_utf8(min->0@) { decode_utf8(min->0@) } else { bytes_debug_v(min->0@) }
                &&& max is Some ==> max_text->0@ == if valid_utf8(max->0@) { decode_utf8(max->0@) } else { bytes_debug_v(max->0@) }
            },
        },
{
}

/// The text of a time or timestamp type names the type's own unit: `millis`,
/// `micros` or `nanos` for MILLIS, MICROS and NANOS, after the base name and
/// before whether the values are adjusted to UTC.
pub proof fn lemma_time_types_name_their_unit(adjusted: bool, unit: TimeUnit)
    ensures
        ({
            let tail = ", "@ + (if adjusted { Seq::<char>::empty() } else { "not "@ }) + "adjusted to UTC)"@;
            let name = match unit {
                TimeUnit::MILLIS => "millis"@,
                TimeUnit::MICROS => "micros"@,
                TimeUnit::NANOS => "nanos"@,
            };
            &&& logical_type_v(LogicalType::Timestamp { is_adjusted_to_u_t_c: adjusted, unit }) == "timestamp("@ + name + tail
            &&& logical_type_v(LogicalType::Time { is_adjusted_to_u_t_c: adjusted, unit }) == "time("@ + name + tail
            &&& logical_type_v(LogicalType::Timestamp { is_adjusted_to_u_t_c: adjusted, unit })
                == time_type_v("timestamp"@, adjusted, unit)
        }),
{
    reveal_strlit("timestamp(");
    reveal_strlit("timestamp");
    reveal_strlit("time(");
    reveal_strlit("time");
    reveal_strlit("(");
    let tail = ", "@ + (if adjusted { Seq::<char>::empty() } else { "not "@ }) + "adjusted to UTC)"@;
    let name = time_unit_v(unit);
    assert(time_type_v("timestamp"@, adjusted, unit) =~= "timestamp("@ + name + tail);
    assert(time_type_v("time"@, adjusted, unit) =~= "time("@ + name + tail);
}

/// The texts of the parametrised logical types show their own parameters in
/// their place: a decimal its precision then its scale, an integer its bit
/// width then its signedness, and a foreign union member its field id.
pub proof fn lemma_logical_type_parameters(scale: i32, precision: i32, bit_width: i8, is_signed: bool, field_id: i16)
    ensures
        logical_type_v(LogicalType::Decimal { scale, precision })
            == "decimal("@ + int_text(precision as int) + ","@ + int_text(scale as int) + ")"@,
        logical_type_v(LogicalType::Integer { bit_width, is_signed })
            == "int("@ + int_text(bit_width as int) + "bit, "@ + (if is_signed { "signed"@ } else { "unsigned"@ }) + ")"@,
        logical_type_v(LogicalType::_Unknown { field_id }) == "unknown(filed_id = "@ + int_text(field_id as int) + ")"@,
        logical_type_v(LogicalType::Date) == "date"@,
        logical_type_v(LogicalType::String) == "string"@,
        logical_type_v(LogicalType::KeyValueMap) == "map"@,
        logical_type_v(LogicalType::Variant { specification_version: Some(bit_width) })
            == "variant(specification_version = "@ + int_text(bit_width as int) + ")"@,
        logical_type_v(LogicalType::Variant { specification_version: None }) == "variant"@,
{
    reveal_strlit("variant");
    reveal_strlit("variant(specification_version = ");
    reveal_strlit("(specification_version = ");
    assert("variant"@ + ("(specification_version = "@ + int_text(bit_width as int) + ")"@)
        =~= "variant(specification_version = "@ + int_text(bit_width as int) + ")"@);
    assert("variant"@ + Seq::<char>::empty() =~= "variant"@);
}

/// Joining puts the separator between each two parts and nowhere else: no
/// parts give nothing, one part gives itself, and one more part adds the
/// separator and that part.
pub proof fn lemma_join_parts(parts: Seq<Seq<char>>, sep: Seq<char>, x: Seq<char>)
    ensures
        join_v(Seq::empty(), sep) == Seq::<char>::empty(),
        join_v(seq![x], sep) == x,
        parts.len() > 0 ==> join_v(parts.push(x), sep) == join_v(parts, sep) + sep + x,
{
    assert(parts.push(x).drop_last() =~= parts);
}

/// Each node of the viewer's schema tree carries its footer node's name, id,
/// repetition and converted type, shows its logical type as text, and a group
/// keeps its fields, in order.
pub proof fn lemma_schema_fields(node: SchemaNode, field: SchemaField)
    requires
        field_of_node(node, field),
    ensures
        field.name@ == node.name@,
        field.id == node.id,
        field.repetition is Some <==> node.repetition is Some,
        node.repetition is Some ==> field.repetition->0@ == node.repetition->0@,
        field.converted_type is Some <==> node.converted_type is Some,
        node.converted_type is Some ==> field.converted_type->0@ == node.converted_type->0@,
        field.logical_type is Some <==> node.logical_type is Some,
        node.logical_type is Some ==> field.logical_type->0@ == logical_type_v(node.logical_type->0),
        node.kind is Primitive <==> field._type is Primitive,
        node.kind is Group ==> field._type->Group_0.len() == node.kind->fields.len(),
        node.kind is Group ==> forall|i: int| 0 <= i < node.kind->fields.len() ==>
            field_of_node(node.kind->fields@[i], #[trigger] field._type->Group_0@[i]),
{
}

/// A geometry type shows its CRS when it has one; a geography type shows, in
/// brackets, its CRS and then its algorithm, each when set, and nothing in
/// brackets when neither is.
pub proof fn lemma_geospatial_types(crs: String, a: EdgeInterpolationAlgorithm)
    ensures
        logical_type_v(LogicalType::Geometry { crs: Some(crs) }) == "geometry"@ + "(crs = "@ + crs@ + ")"@,
        logical_type_v(LogicalType::Geometry { crs: None }) == "geometry"@,
        logical_type_v(LogicalType::Geography { crs: None, algorithm: None }) == "geography"@,
        logical_type_v(LogicalType::Geography { crs: Some(crs), algorithm: None })
            == "geography"@ + "(crs = "@ + crs@ + ")"@,
        logical_type_v(LogicalType::Geography { crs: None, algorithm: Some(a) })
            == "geography"@ + "(algorithm = "@ + algorithm_v(a) + ")"@,
        logical_type_v(LogicalType::Geography { crs: Some(crs), algorithm: Some(a) })
            == "geography"@ + "(crs = "@ + crs@ + ", algorithm = "@ + algorithm_v(a) + ")"@,
{
    reveal_strlit("(crs = ");
    reveal_strlit("crs = ");
    reveal_strlit("(algorithm = ");
    reveal_strlit("algorithm = ");
    reveal_strlit(", algorithm = ");
    reveal_strlit(", ");
    reveal_strlit("(");
    assert("geometry"@ + Seq::<char>::empty() =~= "geometry"@);
    assert("geography"@ + Seq::<char>::empty() =~= "geography"@);
    assert("geography"@ + ("("@ + ("crs = "@ + crs@) + ")"@) =~= "geography"@ + "(crs = "@ + crs@ + ")"@);
    assert("geography"@ + ("("@ + ("algorithm = "@ + algorithm_v(a)) + ")"@)
        =~= "geography"@ + "(algorithm = "@ + algorithm_v(a) + ")"@);
    assert("geography"@ + ("("@ + ("crs = "@ + crs@ + ", "@ + "algorithm = "@ + algorithm_v(a)) + ")"@)
        =~= "geography"@ + "(crs = "@ + crs@ + ", algorithm = "@ + algorithm_v(a) + ")"@);
}

} // verus!

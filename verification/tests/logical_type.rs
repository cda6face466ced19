use parq::footer::{logical_type_time_to_string, EdgeInterpolationAlgorithm, LogicalType, TimeUnit};
use parq::pq_logical_type_to_string;

#[test]
fn logical_type_to_string() {
    assert_eq!(
        pq_logical_type_to_string(&LogicalType::Date),
        "date".to_string()
    );
}

#[test]
fn simple_logical_types() {
    assert_eq!(pq_logical_type_to_string(&LogicalType::String), "string");
    assert_eq!(pq_logical_type_to_string(&LogicalType::KeyValueMap), "map");
    assert_eq!(pq_logical_type_to_string(&LogicalType::List), "list");
    assert_eq!(pq_logical_type_to_string(&LogicalType::Enum), "enum");
    assert_eq!(pq_logical_type_to_string(&LogicalType::Unknown), "unknown");
    assert_eq!(pq_logical_type_to_string(&LogicalType::Json), "json");
    assert_eq!(pq_logical_type_to_string(&LogicalType::Bson), "bson");
    assert_eq!(pq_logical_type_to_string(&LogicalType::Uuid), "uuid");
    assert_eq!(pq_logical_type_to_string(&LogicalType::Float16), "float16");
}

#[test]
fn decimal_shows_precision_then_scale() {
    let lt = LogicalType::Decimal { scale: 2, precision: 10 };
    assert_eq!(pq_logical_type_to_string(&lt), "decimal(10,2)");
    let lt = LogicalType::Decimal { scale: -3, precision: 0 };
    assert_eq!(pq_logical_type_to_string(&lt), "decimal(0,-3)");
}

#[test]
fn time_types() {
    let lt = LogicalType::Time { is_adjusted_to_u_t_c: true, unit: TimeUnit::MILLIS };
    assert_eq!(pq_logical_type_to_string(&lt), "time(millis, adjusted to UTC)");
    let lt = LogicalType::Timestamp { is_adjusted_to_u_t_c: false, unit: TimeUnit::NANOS };
    assert_eq!(pq_logical_type_to_string(&lt), "timestamp(nanos, not adjusted to UTC)");
    assert_eq!(
        logical_type_time_to_string("time", false, &TimeUnit::MICROS),
        "time(micros, not adjusted to UTC)"
    );
}

#[test]
fn integer_types() {
    let lt = LogicalType::Integer { bit_width: 32, is_signed: true };
    assert_eq!(pq_logical_type_to_string(&lt), "int(32bit, signed)");
    let lt = LogicalType::Integer { bit_width: 8, is_signed: false };
    assert_eq!(pq_logical_type_to_string(&lt), "int(8bit, unsigned)");
}

#[test]
fn variant_and_geometry() {
    let lt = LogicalType::Variant { specification_version: Some(1) };
    assert_eq!(pq_logical_type_to_string(&lt), "variant(specification_version = 1)");
    let lt = LogicalType::Variant { specification_version: None };
    assert_eq!(pq_logical_type_to_string(&lt), "variant");
    let lt = LogicalType::Geometry { crs: Some("OGC:CRS84".to_string()) };
    assert_eq!(pq_logical_type_to_string(&lt), "geometry(crs = OGC:CRS84)");
    let lt = LogicalType::Geometry { crs: None };
    assert_eq!(pq_logical_type_to_string(&lt), "geometry");
}

#[test]
fn geography_lists_what_is_set() {
    let lt = LogicalType::Geography { crs: None, algorithm: None };
    assert_eq!(pq_logical_type_to_string(&lt), "geography");
    let lt = LogicalType::Geography { crs: Some("EPSG:4326".to_string()), algorithm: None };
    assert_eq!(pq_logical_type_to_string(&lt), "geography(crs = EPSG:4326)");
    let lt = LogicalType::Geography { crs: None, algorithm: Some(EdgeInterpolationAlgorithm::KARNEY) };
    assert_eq!(pq_logical_type_to_string(&lt), "geography(algorithm = KARNEY)");
    let lt = LogicalType::Geography {
        crs: Some("c".to_string()),
        algorithm: Some(EdgeInterpolationAlgorithm::_Unknown(7)),
    };
    assert_eq!(pq_logical_type_to_string(&lt), "geography(crs = c, algorithm = _Unknown(7))");
}

#[test]
fn unknown_union_member() {
    let lt = LogicalType::_Unknown { field_id: 19 };
    assert_eq!(pq_logical_type_to_string(&lt), "unknown(filed_id = 19)");
}

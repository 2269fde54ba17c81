use sea_orm_spanner::error::DbError;
use sea_orm_spanner::read::{
    convert_column, decode_type_code, fallback_row, fits_plan, plan_column, ColumnMeta, RawColumn,
    ReadPlan, TypeCodeKind,
};
use sea_orm_spanner::value::{ArrayKind, Date, Instant, SqlValue};

fn meta(code: i32, element: Option<i32>) -> ColumnMeta {
    ColumnMeta { code: Some(code), element_code: element }
}

#[test]
fn type_codes() {
    assert_eq!(decode_type_code(1), Some(TypeCodeKind::Bool));
    assert_eq!(decode_type_code(15), Some(TypeCodeKind::Float32));
    assert_eq!(decode_type_code(17), Some(TypeCodeKind::Uuid));
    assert_eq!(decode_type_code(12), None);
    assert_eq!(decode_type_code(-1), None);
}

#[test]
fn plans_by_type() {
    let metas = vec![
        meta(1, None),
        meta(2, None),
        meta(15, None),
        meta(8, Some(6)),
        meta(8, Some(3)),
        meta(10, None),
    ];
    assert_eq!(plan_column(&metas, 0, "a").unwrap(), ReadPlan::Bool);
    assert_eq!(plan_column(&metas, 1, "b").unwrap(), ReadPlan::Int64);
    assert_eq!(plan_column(&metas, 2, "c").unwrap(), ReadPlan::Float64);
    assert_eq!(plan_column(&metas, 3, "d").unwrap(), ReadPlan::StringArray);
    assert_eq!(plan_column(&metas, 4, "e").unwrap(), ReadPlan::Float64Array);
    assert_eq!(plan_column(&metas, 5, "f").unwrap(), ReadPlan::Numeric);
}

#[test]
fn plan_errors() {
    let metas = vec![meta(9, None), meta(8, None), ColumnMeta { code: None, element_code: None }];
    match plan_column(&metas, 0, "s") {
        Err(DbError::Type(m)) => assert_eq!(m, "Unsupported type code 9 for column s at index 0"),
        r => panic!("unexpected {:?}", r),
    }
    match plan_column(&metas, 1, "arr") {
        Err(DbError::Type(m)) => assert_eq!(m, "Unsupported array element type 0 for column arr"),
        r => panic!("unexpected {:?}", r),
    }
    match plan_column(&metas, 2, "x") {
        Err(DbError::Type(m)) => assert_eq!(m, "Missing type metadata for column x at index 2"),
        r => panic!("unexpected {:?}", r),
    }
    match plan_column(&metas, 7, "y") {
        Err(DbError::Type(m)) => assert_eq!(m, "Missing type metadata for column y at index 7"),
        r => panic!("unexpected {:?}", r),
    }
}

#[test]
fn read_failures_name_the_type() {
    match convert_column(ReadPlan::Int64, Err("bad kind".to_string()), "age", 3) {
        Err(DbError::Type(m)) => assert_eq!(m, "Failed to read INT64 column age at index 3: bad kind"),
        r => panic!("unexpected {:?}", r),
    }
    match convert_column(ReadPlan::BoolArray, Err("e".to_string()), "flags", 0) {
        Err(DbError::Type(m)) => assert_eq!(m, "Failed to read ARRAY column flags at index 0: e"),
        r => panic!("unexpected {:?}", r),
    }
}

#[test]
fn scalar_values() {
    assert!(matches!(
        convert_column(ReadPlan::Int64, Ok(RawColumn::Int64(Some(5))), "n", 0),
        Ok(SqlValue::Int(Some(5)))
    ));
    assert!(matches!(
        convert_column(ReadPlan::Int64, Ok(RawColumn::Int64(Some(-2147483648))), "n", 0),
        Ok(SqlValue::Int(Some(-2147483648)))
    ));
    assert!(matches!(
        convert_column(ReadPlan::Int64, Ok(RawColumn::Int64(Some(2147483648))), "n", 0),
        Ok(SqlValue::BigInt(Some(2147483648)))
    ));
    assert!(matches!(
        convert_column(ReadPlan::Int64, Ok(RawColumn::Int64(None)), "n", 0),
        Ok(SqlValue::BigInt(None))
    ));
    assert!(matches!(
        convert_column(ReadPlan::Bool, Ok(RawColumn::Bool(None)), "n", 0),
        Ok(SqlValue::Bool(None))
    ));
    match convert_column(ReadPlan::Timestamp, Ok(RawColumn::Timestamp(Some((1_700_000_000, 5)))), "t", 0) {
        Ok(SqlValue::ChronoDateTime(Some(Instant { secs, nanos, offset }))) => {
            assert_eq!((secs, nanos, offset), (1_700_000_000, 5, 0));
        }
        r => panic!("unexpected {:?}", r),
    }
    match convert_column(ReadPlan::Timestamp, Ok(RawColumn::Timestamp(Some((0, 2_000_000_000)))), "t", 0) {
        Ok(SqlValue::ChronoDateTime(Some(Instant { secs, nanos, .. }))) => assert_eq!((secs, nanos), (0, 0)),
        r => panic!("unexpected {:?}", r),
    }
    match convert_column(ReadPlan::Date, Ok(RawColumn::Date(Some((2025, 12, 25)))), "d", 0) {
        Ok(SqlValue::ChronoDate(Some(Date { year, month, day }))) => assert_eq!((year, month, day), (2025, 12, 25)),
        r => panic!("unexpected {:?}", r),
    }
    assert!(matches!(
        convert_column(ReadPlan::Date, Ok(RawColumn::Date(Some((2025, 2, 30)))), "d", 0),
        Ok(SqlValue::ChronoDate(None))
    ));
}

#[test]
fn numeric_json_and_uuid_values() {
    match convert_column(ReadPlan::Numeric, Ok(RawColumn::Numeric(Some("123.45".to_string()))), "n", 0) {
        Ok(SqlValue::Decimal(Some(p))) => assert_eq!((p.mantissa, p.scale), (12345, 2)),
        r => panic!("unexpected {:?}", r),
    }
    match convert_column(ReadPlan::Numeric, Ok(RawColumn::Numeric(Some("x".to_string()))), "n", 0) {
        Err(DbError::Type(m)) => assert!(m.starts_with("Failed to convert NUMERIC column n to Decimal: ")),
        r => panic!("unexpected {:?}", r),
    }
    match convert_column(ReadPlan::Json, Ok(RawColumn::String(Some("{\"a\": 1}".to_string()))), "j", 0) {
        Ok(SqlValue::Json(Some(t))) => assert_eq!(t, "{\"a\": 1}"),
        r => panic!("unexpected {:?}", r),
    }
    match convert_column(ReadPlan::Json, Ok(RawColumn::String(Some("{".to_string()))), "j", 0) {
        Err(DbError::Type(m)) => assert!(m.starts_with("Failed to parse JSON column j: ")),
        r => panic!("unexpected {:?}", r),
    }
    match convert_column(
        ReadPlan::Uuid,
        Ok(RawColumn::String(Some("550e8400-e29b-41d4-a716-446655440000".to_string()))),
        "u",
        1,
    ) {
        Ok(SqlValue::Uuid(Some(b))) => assert_eq!(b[0], 0x55),
        r => panic!("unexpected {:?}", r),
    }
    match convert_column(ReadPlan::Uuid, Ok(RawColumn::String(Some("nope".to_string()))), "u", 1) {
        Err(DbError::Type(m)) => assert!(m.starts_with("UUID column u at index 1 contains invalid value 'nope': ")),
        r => panic!("unexpected {:?}", r),
    }
}

#[test]
fn array_values() {
    match convert_column(ReadPlan::StringArray, Ok(RawColumn::StringArray(Some(vec!["a".to_string(), "日本語".to_string()]))), "s", 0) {
        Ok(SqlValue::Array(ArrayKind::String, Some(items))) => {
            assert_eq!(items.len(), 2);
            assert!(matches!(&items[1], SqlValue::String(Some(t)) if t == "日本語"));
        }
        r => panic!("unexpected {:?}", r),
    }
    assert!(matches!(
        convert_column(ReadPlan::Int64Array, Ok(RawColumn::Int64Array(None)), "s", 0),
        Ok(SqlValue::Array(ArrayKind::BigInt, None))
    ));
}

#[test]
fn unnamed_columns_are_read_as_strings_up_to_the_first_failure() {
    let reads: Vec<Result<Option<String>, String>> = vec![
        Ok(Some("a".to_string())),
        Ok(None),
        Err("invalid column index".to_string()),
        Ok(Some("never".to_string())),
    ];
    let row = fallback_row(&reads);
    assert_eq!(row.len(), 2);
    assert_eq!(row[0].0, "col_0");
    assert!(matches!(&row[0].1, SqlValue::String(Some(t)) if t == "a"));
    assert_eq!(row[1].0, "col_1");
    assert!(matches!(row[1].1, SqlValue::String(None)));
    let many: Vec<Result<Option<String>, String>> = (0..150).map(|i| Ok(Some(i.to_string()))).collect();
    let row = fallback_row(&many);
    assert_eq!(row.len(), 100);
    assert_eq!(row[99].0, "col_99");
    assert!(fallback_row(&vec![Err("e".to_string())]).is_empty());
}

#[test]
fn cells_fit_their_plans() {
    assert!(fits_plan(ReadPlan::Json, &RawColumn::String(None)));
    assert!(fits_plan(ReadPlan::Int64Array, &RawColumn::Int64Array(Some(vec![1]))));
    assert!(!fits_plan(ReadPlan::Int64, &RawColumn::Bool(Some(true))));
}

use sea_orm_spanner::bind::{bind_value, BindFlavor, BoundParam, Elem, ParamKind};
use sea_orm_spanner::read::{convert_column, RawColumn, ReadPlan};
use sea_orm_spanner::value::{ArrayKind, SqlValue};

#[test]
fn small_integer_reads_back_as_32_bit_integer() {
    let written = SqlValue::SmallInt(Some(-7));
    let raw = match bind_value(BindFlavor::Proxy, "p1", &written) {
        Ok(BoundParam::Int64(v)) => RawColumn::Int64(v),
        r => panic!("unexpected {:?}", r),
    };
    match convert_column(ReadPlan::Int64, Ok(raw), "n", 0) {
        Ok(SqlValue::Int(Some(-7))) => {}
        r => panic!("unexpected {:?}", r),
    }
}

#[test]
fn text_and_null_text_read_back() {
    let written = SqlValue::String(Some("héllo".to_string()));
    let raw = match bind_value(BindFlavor::Proxy, "p1", &written) {
        Ok(BoundParam::String(v)) => RawColumn::String(v),
        r => panic!("unexpected {:?}", r),
    };
    match convert_column(ReadPlan::String, Ok(raw), "s", 1) {
        Ok(SqlValue::String(Some(t))) => assert_eq!(t, "héllo"),
        r => panic!("unexpected {:?}", r),
    }
    let raw = match bind_value(BindFlavor::Proxy, "p2", &SqlValue::String(None)) {
        Ok(BoundParam::String(v)) => RawColumn::String(v),
        r => panic!("unexpected {:?}", r),
    };
    match convert_column(ReadPlan::String, Ok(raw), "s", 1) {
        Ok(SqlValue::String(None)) => {}
        r => panic!("unexpected {:?}", r),
    }
}

#[test]
fn integer_array_reads_back_as_big_integers() {
    let written = SqlValue::Array(
        ArrayKind::Int,
        Some(vec![SqlValue::Int(Some(3)), SqlValue::Int(Some(-4))]),
    );
    let raw = match bind_value(BindFlavor::Proxy, "p1", &written) {
        Ok(BoundParam::Array(ParamKind::Int64, Some(es))) => {
            let xs: Vec<i64> = es
                .iter()
                .map(|e| match e {
                    Elem::Int64(x) => *x,
                    other => panic!("unexpected {:?}", other),
                })
                .collect();
            RawColumn::Int64Array(Some(xs))
        }
        r => panic!("unexpected {:?}", r),
    };
    match convert_column(ReadPlan::Int64Array, Ok(raw), "a", 2) {
        Ok(SqlValue::Array(ArrayKind::BigInt, Some(items))) => {
            assert_eq!(items.len(), 2);
            assert!(matches!(items[0], SqlValue::BigInt(Some(3))));
            assert!(matches!(items[1], SqlValue::BigInt(Some(-4))));
        }
        r => panic!("unexpected {:?}", r),
    }
}

#[test]
fn large_integer_reads_back_as_64_bit_integer() {
    let written = SqlValue::BigInt(Some(5_000_000_000));
    let raw = match bind_value(BindFlavor::Proxy, "p1", &written) {
        Ok(BoundParam::Int64(v)) => RawColumn::Int64(v),
        r => panic!("unexpected {:?}", r),
    };
    match convert_column(ReadPlan::Int64, Ok(raw), "n", 0) {
        Ok(SqlValue::BigInt(Some(5_000_000_000))) => {}
        r => panic!("unexpected {:?}", r),
    }
}

use sea_orm_spanner::bind::{
    bind_all, bind_array, bind_null_array, bind_value, param_name, BindError, BindFlavor,
    BoundParam, Elem, FloatBits, ParamKind,
};
use sea_orm_spanner::value::{ArrayKind, DecimalParts, SqlValue};

#[test]
fn parameter_names() {
    assert_eq!(param_name(1), "p1");
    assert_eq!(param_name(12), "p12");
}

#[test]
fn integers_widen_to_int64() {
    match bind_value(BindFlavor::Proxy, "p1", &SqlValue::SmallInt(Some(-7))) {
        Ok(BoundParam::Int64(Some(-7))) => {}
        r => panic!("unexpected {:?}", r),
    }
    match bind_value(BindFlavor::Proxy, "p1", &SqlValue::Unsigned(Some(u32::MAX))) {
        Ok(BoundParam::Int64(Some(v))) => assert_eq!(v, 4294967295),
        r => panic!("unexpected {:?}", r),
    }
}

#[test]
fn big_unsigned_overflow_is_refused_except_on_the_legacy_path() {
    match bind_value(BindFlavor::Proxy, "p3", &SqlValue::BigUnsigned(Some(u64::MAX))) {
        Err(BindError::Conversion { column, expected, got }) => {
            assert_eq!(column, "p3");
            assert_eq!(expected, "i64");
            assert_eq!(got, "u64 value 18446744073709551615 overflows i64");
        }
        r => panic!("unexpected {:?}", r),
    }
    match bind_value(BindFlavor::Legacy, "p3", &SqlValue::BigUnsigned(Some(u64::MAX))) {
        Ok(BoundParam::Int64(Some(-1))) => {}
        r => panic!("unexpected {:?}", r),
    }
}

#[test]
fn chars_and_decimals_become_text() {
    match bind_value(BindFlavor::Proxy, "p1", &SqlValue::Char(Some('z'))) {
        Ok(BoundParam::String(Some(s))) => assert_eq!(s, "z"),
        r => panic!("unexpected {:?}", r),
    }
    let d = DecimalParts { mantissa: -1050, scale: 2 };
    match bind_value(BindFlavor::Proxy, "p1", &SqlValue::Decimal(Some(d))) {
        Ok(BoundParam::Numeric(Some(s))) => assert_eq!(s, "-10.50"),
        r => panic!("unexpected {:?}", r),
    }
    match bind_value(BindFlavor::Statement, "p1", &SqlValue::Decimal(Some(d))) {
        Ok(BoundParam::String(Some(s))) => assert_eq!(s, "-10.50"),
        r => panic!("unexpected {:?}", r),
    }
}

#[test]
fn json_and_uuid_by_path() {
    let j = SqlValue::Json(Some("{\"a\":1}".to_string()));
    assert!(matches!(bind_value(BindFlavor::Proxy, "p1", &j), Ok(BoundParam::Json(Some(_)))));
    assert!(matches!(bind_value(BindFlavor::Legacy, "p1", &j), Ok(BoundParam::String(Some(_)))));
    let u = SqlValue::Uuid(Some([0u8; 16]));
    match bind_value(BindFlavor::Statement, "p1", &u) {
        Ok(BoundParam::String(Some(s))) => assert_eq!(s, "00000000-0000-0000-0000-000000000000"),
        r => panic!("unexpected {:?}", r),
    }
}

#[test]
fn arrays_bind_on_the_proxy_path_only() {
    let vals = vec![SqlValue::Int(Some(1)), SqlValue::BigInt(Some(2))];
    match bind_array("p1", ArrayKind::Int, &vals) {
        Ok(BoundParam::Array(ParamKind::Int64, Some(es))) => {
            assert_eq!(es.len(), 2);
            assert!(matches!(es[0], Elem::Int64(1)));
            assert!(matches!(es[1], Elem::Int64(2)));
        }
        r => panic!("unexpected {:?}", r),
    }
    let arr = SqlValue::Array(ArrayKind::Int, Some(vals));
    match bind_value(BindFlavor::Statement, "p1", &arr) {
        Err(BindError::Unsupported { column, expected }) => {
            assert_eq!(column, "p1");
            assert_eq!(expected, "supported type");
        }
        r => panic!("unexpected {:?}", r),
    }
}

#[test]
fn array_element_of_the_wrong_kind() {
    let vals = vec![SqlValue::Bool(Some(true)), SqlValue::Int(Some(1))];
    match bind_array("p2", ArrayKind::Bool, &vals) {
        Err(BindError::Element { column, expected, index }) => {
            assert_eq!(column, "p2");
            assert_eq!(expected, "Bool");
            assert_eq!(index, 1);
        }
        r => panic!("unexpected {:?}", r),
    }
    assert!(matches!(
        bind_array("p2", ArrayKind::Other, &vec![]),
        Err(BindError::UnsupportedArray { .. })
    ));
}

#[test]
fn null_arrays_are_typed() {
    assert!(matches!(bind_null_array(ArrayKind::Double), BoundParam::Array(ParamKind::Float64, None)));
    assert!(matches!(bind_null_array(ArrayKind::Uuid), BoundParam::Array(ParamKind::String, None)));
}

#[test]
fn floats_keep_their_bits() {
    let b = 2.5f64.to_bits();
    match bind_value(BindFlavor::Proxy, "p1", &SqlValue::Double(Some(b))) {
        Ok(BoundParam::Float64(Some(FloatBits::F64(x)))) => assert_eq!(x, b),
        r => panic!("unexpected {:?}", r),
    }
}

#[test]
fn all_values_in_order() {
    let vals = vec![SqlValue::Bool(Some(true)), SqlValue::String(None), SqlValue::Other];
    match bind_all(BindFlavor::Proxy, &vals) {
        Err(BindError::Unsupported { column, .. }) => assert_eq!(column, "p3"),
        r => panic!("unexpected {:?}", r),
    }
    let ok = bind_all(BindFlavor::Proxy, &vec![SqlValue::Bool(Some(true)), SqlValue::String(None)]).unwrap();
    assert_eq!(ok.len(), 2);
    assert_eq!(ok[0].0, "p1");
    assert_eq!(ok[1].0, "p2");
    assert!(matches!(ok[1].1, BoundParam::String(None)));
}

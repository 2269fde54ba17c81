use sea_orm_spanner::array::{
    SpannerBoolArray, SpannerBytesArray, SpannerInt64Array, SpannerOptionalBoolArray,
    SpannerOptionalBytesArray, SpannerOptionalInt64Array, SpannerOptionalStringArray,
    SpannerStringArray, WireItem,
};

fn texts(items: &[WireItem]) -> Vec<String> {
    items
        .iter()
        .map(|w| match w {
            WireItem::Text(t) => t.clone(),
            WireItem::Bool(b) => format!("bool:{}", b),
        })
        .collect()
}

#[test]
fn int64_arrays_are_sent_as_decimal_text() {
    let a = SpannerInt64Array(vec![1, -20, i64::MAX]);
    assert_eq!(texts(&a.wire_items()), vec!["1", "-20", "9223372036854775807"]);
    assert!(SpannerOptionalInt64Array::none().wire_items().is_none());
    let s = SpannerOptionalInt64Array::some(vec![7]);
    assert_eq!(texts(&s.wire_items().unwrap()), vec!["7"]);
}

#[test]
fn string_and_bool_arrays() {
    let a = SpannerStringArray(vec!["a".to_string(), "emoji: 🎉".to_string()]);
    assert_eq!(texts(&a.wire_items()), vec!["a", "emoji: 🎉"]);
    let b = SpannerBoolArray(vec![true, false]);
    assert_eq!(texts(&b.wire_items()), vec!["bool:true", "bool:false"]);
    assert!(SpannerOptionalStringArray::none().wire_items().is_none());
    assert_eq!(SpannerOptionalBoolArray::some(vec![true]).wire_items().unwrap().len(), 1);
}

#[test]
fn bytes_arrays_are_sent_as_base64() {
    let a = SpannerBytesArray(vec![b"hello".to_vec(), vec![0xff], vec![]]);
    assert_eq!(texts(&a.wire_items()), vec!["aGVsbG8=", "/w==", ""]);
    assert!(SpannerOptionalBytesArray::none().wire_items().is_none());
    assert_eq!(SpannerOptionalBytesArray::some(vec![vec![1]]).wire_items().unwrap().len(), 1);
}

use sea_orm_spanner::query_builder::{BinOperKind, ExprKind, SpannerQueryBuilder};

#[test]
fn test_placeholder() {
    let builder = SpannerQueryBuilder::new();
    assert_eq!(builder.placeholder(), ("@p", true));
}

#[test]
fn escape_doubles_single_quotes() {
    let b = SpannerQueryBuilder::new();
    assert_eq!(b.escape_string("it's"), "it''s");
    assert_eq!(b.unescape_string("it''s"), "it's");
    assert_eq!(b.unescape_string(&b.escape_string("'''x'")), "'''x'");
    assert_eq!(b.unescape_string("'''"), "''");
}

#[test]
fn precedence_and_associativity() {
    let b = SpannerQueryBuilder::new();
    assert!(b.inner_expr_well_known_greater_precedence(ExprKind::Column));
    assert!(b.inner_expr_well_known_greater_precedence(ExprKind::SubQuery));
    assert!(!b.inner_expr_well_known_greater_precedence(ExprKind::Other));
    assert!(b.well_known_left_associative(BinOperKind::Mod));
    assert!(!b.well_known_left_associative(BinOperKind::Other));
    assert_eq!(b.quote(), ('`', '`'));
}

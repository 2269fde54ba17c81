use sea_orm_spanner::error::{DbError, SpannerDbErr};

#[test]
fn spanner_errors_become_sea_orm_errors() {
    let e = SpannerDbErr::TypeConversion {
        column: "c".to_string(),
        expected: "i64".to_string(),
        got: "x".to_string(),
    };
    assert_eq!(e.message(), "Type conversion error: column=c, expected=i64, got=x");
    match e.into_db_error() {
        DbError::Type(m) => assert_eq!(m, "column=c, expected=i64, got=x"),
        r => panic!("unexpected {:?}", r),
    }
    match SpannerDbErr::InvalidConfig("bad".to_string()).into_db_error() {
        DbError::Conn(m) => assert_eq!(m, "bad"),
        r => panic!("unexpected {:?}", r),
    }
    match SpannerDbErr::Transaction("t".to_string()).into_db_error() {
        DbError::Query(m) => assert_eq!(m, "t"),
        r => panic!("unexpected {:?}", r),
    }
}

#[test]
fn display_texts() {
    assert_eq!(SpannerDbErr::Query("q".to_string()).message(), "Spanner query error: q");
    assert_eq!(DbError::Custom("x".to_string()).display(), "Custom Error: x");
    assert_eq!(DbError::Exec("y".to_string()).display(), "Execution Error: y");
}

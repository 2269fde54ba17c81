use sea_orm_spanner::bind::{BindFlavor, BoundParam};
use sea_orm_spanner::statement::convert_statement;
use sea_orm_spanner::value::SqlValue;

#[test]
fn proxy_statements_are_rewritten_and_bound() {
    let values = Some(vec![SqlValue::Int(Some(1)), SqlValue::String(Some("x".to_string()))]);
    let st = convert_statement(
        BindFlavor::Proxy,
        "SELECT `id` FROM `users` WHERE `id` = ? AND `name` = ?",
        &values,
    )
    .unwrap();
    assert_eq!(st.sql, "SELECT id FROM users WHERE id = @p1 AND name = @p2");
    assert_eq!(st.params.len(), 2);
    assert_eq!(st.params[0].0, "p1");
    assert!(matches!(st.params[0].1, BoundParam::Int64(Some(1))));
    assert_eq!(st.params[1].0, "p2");
}

#[test]
fn executor_statements_keep_their_sql() {
    let st = convert_statement(BindFlavor::Statement, "SELECT `a` FROM t WHERE a = @p1", &None).unwrap();
    assert_eq!(st.sql, "SELECT `a` FROM t WHERE a = @p1");
    assert!(st.params.is_empty());
}

#[test]
fn unbindable_values_stop_the_statement() {
    let values = Some(vec![SqlValue::Other]);
    assert!(convert_statement(BindFlavor::Proxy, "SELECT ?", &values).is_err());
}

#[test]
fn plain_sql_goes_through_unchanged() {
    let st = convert_statement(BindFlavor::Proxy, "SELECT 1 FROM dual WHERE a = b", &None).unwrap();
    assert_eq!(st.sql, "SELECT 1 FROM dual WHERE a = b");
    assert!(st.params.is_empty());
}

use sea_orm_spanner::columns::{checked_column_names, extract_column_names_from_statement};

#[test]
fn names_from_select_list() {
    let sql = "SELECT `users`.`id`, `users`.`name` AS `n`, COUNT(*) AS cnt FROM `users` WHERE `id` = ?";
    assert_eq!(extract_column_names_from_statement(sql), vec!["id", "n", "cnt"]);
}

#[test]
fn star_and_statements_without_select() {
    assert_eq!(extract_column_names_from_statement("SELECT * FROM t"), Vec::<String>::new());
    assert_eq!(
        extract_column_names_from_statement("INSERT INTO t (a) VALUES (1)"),
        Vec::<String>::new()
    );
    assert_eq!(extract_column_names_from_statement("SELECT 1"), Vec::<String>::new());
}

#[test]
fn subquery_in_select_list() {
    let sql = "select a, (select b from x) as c from t";
    assert_eq!(extract_column_names_from_statement(sql), vec!["a", "c"]);
}

#[test]
fn quoted_names_are_unquoted() {
    let sql = "SELECT \"x\".\"col\" , `y` AS \"z\" FROM t";
    assert_eq!(checked_column_names(sql), Some(vec!["col".to_string(), "z".to_string()]));
}

use sea_orm_spanner::rewrite::{find_top_level_from, rewrite_mysql_quotes, rewrite_placeholders};

#[test]
fn placeholders_are_numbered() {
    assert_eq!(
        rewrite_placeholders("SELECT * FROM t WHERE a = ? AND b = ?"),
        "SELECT * FROM t WHERE a = @p1 AND b = @p2"
    );
}

#[test]
fn placeholders_inside_literals_stay() {
    assert_eq!(
        rewrite_placeholders("SELECT '?', \"?\", 'it''s ?' FROM t WHERE x = ?"),
        "SELECT '?', \"?\", 'it''s ?' FROM t WHERE x = @p1"
    );
}

#[test]
fn many_placeholders() {
    let sql = "?,?,?,?,?,?,?,?,?,?,?";
    assert_eq!(
        rewrite_placeholders(sql),
        "@p1,@p2,@p3,@p4,@p5,@p6,@p7,@p8,@p9,@p10,@p11"
    );
}

#[test]
fn backticks_are_dropped_outside_literals() {
    assert_eq!(
        rewrite_mysql_quotes("SELECT `a`, '`b`' FROM `t`"),
        "SELECT a, '`b`' FROM t"
    );
}

#[test]
fn top_level_from_skips_subqueries() {
    let sql = "SELECT (SELECT x FROM y) AS z, FROMAGE FROM t";
    assert_eq!(find_top_level_from(sql, 6), Some(39));
    assert_eq!(find_top_level_from("SELECT a", 6), None);
    assert_eq!(find_top_level_from("SELECT a FROM", 6), Some(9));
}

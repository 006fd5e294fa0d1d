use sqlite_undo::error::UndoError;
use sqlite_undo::sql::{
    append_decimal, delete_above_sql, delete_interval_sql, drop_trigger_sql, is_recorder_name,
    select_interval_sql, table_info_sql, table_triggers_sql, ColumnInfo, BEGIN, COMMIT,
    CREATE_LOG, DROP_LOG, LOG_NEXT, LOG_TAIL, TRIGGER_NAMES,
};

fn column(cid: i32, name: &str) -> ColumnInfo {
    ColumnInfo {
        cid,
        name: name.to_owned(),
        decl_type: String::new(),
        notnull: false,
        dflt_value: None,
        pk: 0,
    }
}

fn decimal(n: i32) -> String {
    let mut text = String::new();
    append_decimal(&mut text, n);
    text
}

#[test]
fn decimal_numerals() {
    assert_eq!(decimal(0), "0");
    assert_eq!(decimal(7), "7");
    assert_eq!(decimal(9), "9");
    assert_eq!(decimal(10), "10");
    assert_eq!(decimal(404), "404");
    assert_eq!(decimal(1000), "1000");
    assert_eq!(decimal(-1), "-1");
    assert_eq!(decimal(-120), "-120");
    assert_eq!(decimal(i32::MAX), "2147483647");
    assert_eq!(decimal(i32::MIN), "-2147483648");
}

#[test]
fn append_decimal_keeps_what_was_there() {
    let mut text = "seq>".to_owned();

    append_decimal(&mut text, 42);
    append_decimal(&mut text, -3);

    assert_eq!(text, "seq>42-3");
}

#[test]
fn decimal_agrees_with_the_standard_rendering() {
    for n in [-100000, -99, -10, -9, 1, 11, 99, 100, 101, 65535, 123456789] {
        assert_eq!(decimal(n), n.to_string());
    }
}

#[test]
fn triggers_of_a_table_with_one_column() {
    let sql = table_triggers_sql("tbl1", &vec![column(0, "a")]).unwrap();

    assert_eq!(
        sql,
        "CREATE TEMP TRIGGER _tbl1_it AFTER INSERT ON tbl1 BEGIN\n  \
         INSERT INTO undolog VALUES(NULL,'DELETE FROM tbl1 WHERE rowid='||new.rowid);\nEND;\n\
         CREATE TEMP TRIGGER _tbl1_ut AFTER UPDATE ON tbl1 BEGIN\n  \
         INSERT INTO undolog VALUES(NULL,'UPDATE tbl1 SET a='||quote(old.a)||' WHERE rowid='||old.rowid);\nEND;\n\
         CREATE TEMP TRIGGER _tbl1_dt BEFORE DELETE ON tbl1 BEGIN\n  \
         INSERT INTO undolog VALUES(NULL,'INSERT INTO tbl1(rowid,a) VALUES('||old.rowid||','||quote(old.a)||')');\nEND;\n"
    );
}

#[test]
fn triggers_of_a_table_with_three_columns() {
    let cols = vec![column(0, "id"), column(1, "name"), column(2, "age")];

    let sql = table_triggers_sql("people", &cols).unwrap();

    assert_eq!(
        sql,
        "CREATE TEMP TRIGGER _people_it AFTER INSERT ON people BEGIN\n  \
         INSERT INTO undolog VALUES(NULL,'DELETE FROM people WHERE rowid='||new.rowid);\nEND;\n\
         CREATE TEMP TRIGGER _people_ut AFTER UPDATE ON people BEGIN\n  \
         INSERT INTO undolog VALUES(NULL,'UPDATE people SET id='||quote(old.id)||',name='||quote(old.name)||',age='||quote(old.age)||' WHERE rowid='||old.rowid);\nEND;\n\
         CREATE TEMP TRIGGER _people_dt BEFORE DELETE ON people BEGIN\n  \
         INSERT INTO undolog VALUES(NULL,'INSERT INTO people(rowid,id,name,age) VALUES('||old.rowid||','||quote(old.id)||','||quote(old.name)||','||quote(old.age)||')');\nEND;\n"
    );
}

#[test]
fn triggers_of_a_table_without_columns() {
    let r = table_triggers_sql("tbl1", &Vec::new());

    assert!(matches!(r, Err(UndoError::NoColumns)));
}

#[test]
fn table_info_pragma() {
    assert_eq!(table_info_sql("tbl1"), "pragma table_info(tbl1)");
    assert_eq!(table_info_sql(""), "pragma table_info()");
}

#[test]
fn interval_statements() {
    assert_eq!(
        select_interval_sql(1, 4),
        "SELECT sql FROM undolog WHERE seq>=1 AND seq<=4 ORDER BY seq DESC"
    );
    assert_eq!(
        select_interval_sql(12, 11),
        "SELECT sql FROM undolog WHERE seq>=12 AND seq<=11 ORDER BY seq DESC"
    );
    assert_eq!(delete_interval_sql(1, 4), "DELETE FROM undolog WHERE seq>=1 AND seq<=4");
    assert_eq!(delete_interval_sql(-2, 30), "DELETE FROM undolog WHERE seq>=-2 AND seq<=30");
}

#[test]
fn delete_above_the_mark() {
    assert_eq!(delete_above_sql(0), "DELETE FROM undolog WHERE seq>0");
    assert_eq!(delete_above_sql(2), "DELETE FROM undolog WHERE seq>2");
    assert_eq!(delete_above_sql(i32::MAX), "DELETE FROM undolog WHERE seq>2147483647");
}

#[test]
fn drop_trigger_statement() {
    assert_eq!(drop_trigger_sql("_tbl1_it"), "DROP TRIGGER _tbl1_it;");
}

#[test]
fn recorder_names() {
    assert!(is_recorder_name("_tbl1_it"));
    assert!(is_recorder_name("_tbl1_ut"));
    assert!(is_recorder_name("_tbl1_dt"));
    assert!(is_recorder_name("_a_b_c_dt"));
    assert!(is_recorder_name("__it"));
    assert!(is_recorder_name("_caf\u{e9}_ut"));

    assert!(!is_recorder_name(""));
    assert!(!is_recorder_name("_it"));
    assert!(!is_recorder_name("_dt"));
    assert!(!is_recorder_name("tbl1_it"));
    assert!(!is_recorder_name("_tbl1_xt"));
    assert!(!is_recorder_name("_tbl1_iT"));
    assert!(!is_recorder_name("_tbl1it"));
    assert!(!is_recorder_name("_tbl1_it "));
    assert!(!is_recorder_name("_tbl1_i"));
    assert!(!is_recorder_name("audit"));
}

#[test]
fn fixed_statements() {
    assert_eq!(DROP_LOG, "DROP TABLE undolog");
    assert_eq!(CREATE_LOG, "CREATE TEMP TABLE undolog(seq integer primary key, sql text)");
    assert_eq!(LOG_TAIL, "SELECT coalesce(max(seq),0) FROM undolog");
    assert_eq!(LOG_NEXT, "SELECT coalesce(max(seq),0)+1 FROM undolog");
    assert_eq!(TRIGGER_NAMES, "SELECT name FROM sqlite_temp_schema WHERE type='trigger'");
    assert_eq!(BEGIN, "BEGIN");
    assert_eq!(COMMIT, "COMMIT");
}

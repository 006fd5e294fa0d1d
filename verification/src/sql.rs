//! The SQL text that the engine hands to the database.
//!
//! Every statement is defined as a sequence of characters, and each builder
//! is proved to return exactly that sequence.

use crate::error::UndoError;
use vstd::prelude::*;
use vstd::string::*;

verus! {

/// The character that stands for the digit `d`.
pub open spec fn digit(d: int) -> char
    recommends
        0 <= d < 10,
{
    seq!['0', '1', '2', '3', '4', '5', '6', '7', '8', '9'][d]
}

/// The decimal numeral of a natural number, without leading zeros.
pub open spec fn natural(n: nat) -> Seq<char>
    decreases n,
{
    if n < 10 {
        seq![digit(n as int)]
    } else {
        natural(n / 10).push(digit((n % 10) as int))
    }
}

/// The decimal numeral of an integer, as SQL reads it: a minus sign before
/// the magnitude of a negative number, nothing before the others.
pub open spec fn decimal(n: int) -> Seq<char> {
    if n < 0 {
        seq!['-'] + natural((-n) as nat)
    } else {
        natural(n as nat)
    }
}

fn digit_str(d: u64) -> (r: &'static str)
    requires
        d < 10,
    ensures
        r@ == seq![digit(d as int)],
{
    proof {
        reveal_strlit("0");
        reveal_strlit("1");
        reveal_strlit("2");
        reveal_strlit("3");
        reveal_strlit("4");
        reveal_strlit("5");
        reveal_strlit("6");
        reveal_strlit("7");
        reveal_strlit("8");
        reveal_strlit("9");
    }
    let r = if d == 0 {
        "0"
    } else if d == 1 {
        "1"
    } else if d == 2 {
        "2"
    } else if d == 3 {
        "3"
    } else if d == 4 {
        "4"
    } else if d == 5 {
        "5"
    } else if d == 6 {
        "6"
    } else if d == 7 {
        "7"
    } else if d == 8 {
        "8"
    } else {
        "9"
    };
    assert(r@ =~= seq![digit(d as int)]);
    r
}

fn append_natural(text: &mut String, n: u64)
    ensures
        final(text)@ == old(text)@ + natural(n as nat),
    decreases n,
{
    if n >= 10 {
        append_natural(text, n / 10);
    }
    text.append(digit_str(n % 10));
    assert(text@ =~= old(text)@ + natural(n as nat));
}

/// Appends the decimal numeral of `n` to `text`.
pub fn append_decimal(text: &mut String, n: i32)
    ensures
        final(text)@ == old(text)@ + decimal(n as int),
{
    if n < 0 {
        proof {
            reveal_strlit("-");
        }
        text.append("-");
        let magnitude: u64 = (-(n as i64)) as u64;
        append_natural(text, magnitude);
        assert(text@ =~= old(text)@ + decimal(n as int));
    } else {
        append_natural(text, n as u64);
    }
}

/// One column of a table, as the schema pragma reports it.
#[derive(Debug)]
pub struct ColumnInfo {
    /// Position of the column in the table, from zero.
    pub cid: i32,
    /// Name of the column.
    pub name: String,
    /// Declared type, empty where the table declares none.
    pub decl_type: String,
    /// Whether the column is declared `NOT NULL`.
    pub notnull: bool,
    /// Text of the default value, if the column has one.
    pub dflt_value: Option<String>,
    /// Position of the column in the primary key, zero outside it.
    pub pk: i32,
}

/// The names of the columns, in table order.
pub open spec fn column_names(cols: Seq<ColumnInfo>) -> Seq<Seq<char>> {
    cols.map_values(|c: ColumnInfo| c.name@)
}

/// The `SET` clause that gives every column its old value back:
/// `SET c1='||quote(old.c1)||',c2='||quote(old.c2)||'`, as the text stands
/// inside the trigger, where it is part of an SQL string expression.
pub open spec fn assignments(names: Seq<Seq<char>>) -> Seq<char>
    decreases names.len(),
{
    if names.len() == 0 {
        Seq::empty()
    } else {
        assignments(names.drop_last()) + (if names.len() == 1 {
            "SET "@
        } else {
            ","@
        }) + names.last() + "='||quote(old."@ + names.last() + ")||'"@
    }
}

/// The column list of the re-insert, after `rowid`: `,c1,c2`.
pub open spec fn column_list(names: Seq<Seq<char>>) -> Seq<char>
    decreases names.len(),
{
    if names.len() == 0 {
        Seq::empty()
    } else {
        column_list(names.drop_last()) + ","@ + names.last()
    }
}

/// The values of the re-insert, after the row id:
/// `,'||quote(old.c1)||','||quote(old.c2)||'`.
pub open spec fn quoted_values(names: Seq<Seq<char>>) -> Seq<char>
    decreases names.len(),
{
    if names.len() == 0 {
        Seq::empty()
    } else {
        quoted_values(names.drop_last()) + ",'||quote(old."@ + names.last() + ")||'"@
    }
}

/// The name of the trigger on `tbl` with the given tag: `_<tbl>_<tag>t`.
pub open spec fn trigger_name(tbl: Seq<char>, tag: Seq<char>) -> Seq<char> {
    "_"@ + tbl + "_"@ + tag + "t"@
}

/// A temporary trigger on `tbl` that fires on `event` and appends to the log
/// the value of the SQL expression `reversal`.
pub open spec fn trigger(
    tbl: Seq<char>,
    tag: Seq<char>,
    event: Seq<char>,
    reversal: Seq<char>,
) -> Seq<char> {
    "CREATE TEMP TRIGGER "@ + trigger_name(tbl, tag) + " "@ + event + " ON "@ + tbl
        + " BEGIN\n  INSERT INTO undolog VALUES(NULL,"@ + reversal + ");\nEND;\n"@
}

/// After an insert, the log receives the delete of the new row.
pub open spec fn insert_trigger(tbl: Seq<char>) -> Seq<char> {
    trigger(tbl, "i"@, "AFTER INSERT"@, "'DELETE FROM "@ + tbl + " WHERE rowid='||new.rowid"@)
}

/// After an update, the log receives the update that restores the old values.
pub open spec fn update_trigger(tbl: Seq<char>, names: Seq<Seq<char>>) -> Seq<char> {
    trigger(
        tbl,
        "u"@,
        "AFTER UPDATE"@,
        "'UPDATE "@ + tbl + " "@ + assignments(names) + " WHERE rowid='||old.rowid"@,
    )
}

/// Before a delete, the log receives the insert of the row that is about to go.
pub open spec fn delete_trigger(tbl: Seq<char>, names: Seq<Seq<char>>) -> Seq<char> {
    trigger(
        tbl,
        "d"@,
        "BEFORE DELETE"@,
        "'INSERT INTO "@ + tbl + "(rowid"@ + column_list(names) + ") VALUES('||old.rowid||'"@
            + quoted_values(names) + ")'"@,
    )
}

/// The batch that installs the three recording triggers of one table.
pub open spec fn table_triggers(tbl: Seq<char>, names: Seq<Seq<char>>) -> Seq<char> {
    insert_trigger(tbl) + update_trigger(tbl, names) + delete_trigger(tbl, names)
}

fn trigger_sql(tbl: &str, tag: &str, event: &str, reversal: &str) -> (sql: String)
    ensures
        sql@ == trigger(tbl@, tag@, event@, reversal@),
{
    let mut name = "_".to_owned();
    name.append(tbl);
    name.append("_");
    name.append(tag);
    name.append("t");

    let mut sql = "CREATE TEMP TRIGGER ".to_owned();
    sql.append(name.as_str());
    sql.append(" ");
    sql.append(event);
    sql.append(" ON ");
    sql.append(tbl);
    sql.append(" BEGIN\n  INSERT INTO undolog VALUES(NULL,");
    sql.append(reversal);
    sql.append(");\nEND;\n");
    sql
}

fn append_assignments(sql: &mut String, cols: &Vec<ColumnInfo>)
    ensures
        final(sql)@ == old(sql)@ + assignments(column_names(cols@)),
{
    let ghost before = sql@;
    let ghost names = column_names(cols@);
    let mut sep: &str = "SET ";
    let mut i: usize = 0;
    while i < cols.len()
        invariant
            i <= cols.len(),
            names == column_names(cols@),
            sep@ == (if i == 0 {
                "SET "@
            } else {
                ","@
            }),
            sql@ == before + assignments(names.take(i as int)),
        decreases cols.len() - i,
    {
        let name = cols[i].name.as_str();
        sql.append(sep);
        sql.append(name);
        sql.append("='||quote(old.");
        sql.append(name);
        sql.append(")||'");
        sep = ",";
        proof {
            let grown = names.take(i + 1);
            assert(grown.drop_last() =~= names.take(i as int));
            assert(grown.last() == name@);
            assert(sql@ =~= before + assignments(grown));
        }
        i += 1;
    }
    assert(names.take(cols.len() as int) =~= names);
}

fn append_column_list(sql: &mut String, cols: &Vec<ColumnInfo>)
    ensures
        final(sql)@ == old(sql)@ + column_list(column_names(cols@)),
{
    let ghost before = sql@;
    let ghost names = column_names(cols@);
    let mut i: usize = 0;
    while i < cols.len()
        invariant
            i <= cols.len(),
            names == column_names(cols@),
            sql@ == before + column_list(names.take(i as int)),
        decreases cols.len() - i,
    {
        let name = cols[i].name.as_str();
        sql.append(",");
        sql.append(name);
        proof {
            let grown = names.take(i + 1);
            assert(grown.drop_last() =~= names.take(i as int));
            assert(grown.last() == name@);
            assert(sql@ =~= before + column_list(grown));
        }
        i += 1;
    }
    assert(names.take(cols.len() as int) =~= names);
}

fn append_quoted_values(sql: &mut String, cols: &Vec<ColumnInfo>)
    ensures
        final(sql)@ == old(sql)@ + quoted_values(column_names(cols@)),
{
    let ghost before = sql@;
    let ghost names = column_names(cols@);
    let mut i: usize = 0;
    while i < cols.len()
        invariant
            i <= cols.len(),
            names == column_names(cols@),
            sql@ == before + quoted_values(names.take(i as int)),
        decreases cols.len() - i,
    {
        let name = cols[i].name.as_str();
        sql.append(",'||quote(old.");
        sql.append(name);
        sql.append(")||'");
        proof {
            let grown = names.take(i + 1);
            assert(grown.drop_last() =~= names.take(i as int));
            assert(grown.last() == name@);
            assert(sql@ =~= before + quoted_values(grown));
        }
        i += 1;
    }
    assert(names.take(cols.len() as int) =~= names);
}

/// Builds the batch that installs the insert, update and delete triggers of
/// `tbl`, whose columns are `cols`. A table without columns cannot be
/// recorded.
pub fn table_triggers_sql(tbl: &str, cols: &Vec<ColumnInfo>) -> (r: Result<String, UndoError>)
    ensures
        cols@.len() == 0 ==> r == Err::<String, UndoError>(UndoError::NoColumns),
        cols@.len() > 0 ==> r is Ok && r->Ok_0@ == table_triggers(tbl@, column_names(cols@)),
{
    if cols.len() == 0 {
        return Err(UndoError::NoColumns);
    }
    let mut reversal = "'DELETE FROM ".to_owned();
    reversal.append(tbl);
    reversal.append(" WHERE rowid='||new.rowid");
    let mut sql = trigger_sql(tbl, "i", "AFTER INSERT", reversal.as_str());

    let mut reversal = "'UPDATE ".to_owned();
    reversal.append(tbl);
    reversal.append(" ");
    append_assignments(&mut reversal, cols);
    reversal.append(" WHERE rowid='||old.rowid");
    let update = trigger_sql(tbl, "u", "AFTER UPDATE", reversal.as_str());
    sql.append(update.as_str());

    let mut reversal = "'INSERT INTO ".to_owned();
    reversal.append(tbl);
    reversal.append("(rowid");
    append_column_list(&mut reversal, cols);
    reversal.append(") VALUES('||old.rowid||'");
    append_quoted_values(&mut reversal, cols);
    reversal.append(")'");
    let delete = trigger_sql(tbl, "d", "BEFORE DELETE", reversal.as_str());
    sql.append(delete.as_str());

    Ok(sql)
}

/// Drops the log table.
pub const DROP_LOG: &'static str = "DROP TABLE undolog";

/// Creates the log table: one reversal statement per row, numbered by `seq`.
pub const CREATE_LOG: &'static str = "CREATE TEMP TABLE undolog(seq integer primary key, sql text)";

/// Asks for the sequence number of the last log row, 0 for an empty log.
pub const LOG_TAIL: &'static str = "SELECT coalesce(max(seq),0) FROM undolog";

/// Asks for the sequence number that the next log row will get.
pub const LOG_NEXT: &'static str = "SELECT coalesce(max(seq),0)+1 FROM undolog";

/// Asks for the names of all temporary triggers.
pub const TRIGGER_NAMES: &'static str = "SELECT name FROM sqlite_temp_schema WHERE type='trigger'";

/// Opens a transaction.
pub const BEGIN: &'static str = "BEGIN";

/// Commits the open transaction.
pub const COMMIT: &'static str = "COMMIT";

/// The pragma that lists the columns of `tbl`.
pub open spec fn table_info(tbl: Seq<char>) -> Seq<char> {
    "pragma table_info("@ + tbl + ")"@
}

/// The query for the reversal statements of the log rows `begin..=end`, the
/// latest first.
pub open spec fn select_interval(begin: int, end: int) -> Seq<char> {
    "SELECT sql FROM undolog WHERE seq>="@ + decimal(begin) + " AND seq<="@ + decimal(end)
        + " ORDER BY seq DESC"@
}

/// The statement that removes the log rows `begin..=end`.
pub open spec fn delete_interval(begin: int, end: int) -> Seq<char> {
    "DELETE FROM undolog WHERE seq>="@ + decimal(begin) + " AND seq<="@ + decimal(end)
}

/// The statement that removes the log rows above row `mark`.
pub open spec fn delete_above(mark: int) -> Seq<char> {
    "DELETE FROM undolog WHERE seq>"@ + decimal(mark)
}

/// The statement that drops the trigger `name`.
pub open spec fn drop_trigger(name: Seq<char>) -> Seq<char> {
    "DROP TRIGGER "@ + name + ";"@
}

/// Whether `name` follows the naming of the recording triggers: an
/// underscore, any text, and one of `_it`, `_ut`, `_dt`.
pub open spec fn recorder_name(name: Seq<char>) -> bool {
    let n = name.len() as int;
    &&& n >= 4
    &&& name[0] == '_'
    &&& name[n - 3] == '_'
    &&& (name[n - 2] == 'i' || name[n - 2] == 'u' || name[n - 2] == 'd')
    &&& name[n - 1] == 't'
}

/// Builds the pragma that lists the columns of `tbl`.
pub fn table_info_sql(tbl: &str) -> (sql: String)
    ensures
        sql@ == table_info(tbl@),
{
    let mut sql = "pragma table_info(".to_owned();
    sql.append(tbl);
    sql.append(")");
    sql
}

/// Builds the query for the reversal statements of the log rows
/// `begin..=end`, the latest first.
pub fn select_interval_sql(begin: i32, end: i32) -> (sql: String)
    ensures
        sql@ == select_interval(begin as int, end as int),
{
    let mut sql = "SELECT sql FROM undolog WHERE seq>=".to_owned();
    append_decimal(&mut sql, begin);
    sql.append(" AND seq<=");
    append_decimal(&mut sql, end);
    sql.append(" ORDER BY seq DESC");
    sql
}

/// Builds the statement that removes the log rows `begin..=end`.
pub fn delete_interval_sql(begin: i32, end: i32) -> (sql: String)
    ensures
        sql@ == delete_interval(begin as int, end as int),
{
    let mut sql = "DELETE FROM undolog WHERE seq>=".to_owned();
    append_decimal(&mut sql, begin);
    sql.append(" AND seq<=");
    append_decimal(&mut sql, end);
    sql
}

/// Builds the statement that removes the log rows above row `mark`.
pub fn delete_above_sql(mark: i32) -> (sql: String)
    ensures
        sql@ == delete_above(mark as int),
{
    let mut sql = "DELETE FROM undolog WHERE seq>".to_owned();
    append_decimal(&mut sql, mark);
    sql
}

/// Builds the statement that drops the trigger `name`.
pub fn drop_trigger_sql(name: &str) -> (sql: String)
    ensures
        sql@ == drop_trigger(name@),
{
    let mut sql = "DROP TRIGGER ".to_owned();
    sql.append(name);
    sql.append(";");
    sql
}

/// Tells whether `name` follows the naming of the recording triggers.
pub fn is_recorder_name(name: &str) -> (r: bool)
    ensures
        r == recorder_name(name@),
{
    let n = name.unicode_len();
    if n < 4 {
        return false;
    }
    let tag = name.get_char(n - 2);
    name.get_char(0) == '_' && name.get_char(n - 3) == '_' && (tag == 'i' || tag == 'u' || tag
        == 'd') && name.get_char(n - 1) == 't'
}

/// Every name that the recording triggers are given is recognised as one.
pub proof fn recorder_names_are_recognised(tbl: Seq<char>)
    ensures
        recorder_name(trigger_name(tbl, "i"@)),
        recorder_name(trigger_name(tbl, "u"@)),
        recorder_name(trigger_name(tbl, "d"@)),
{
    reveal_strlit("_");
    reveal_strlit("t");
    reveal_strlit("i");
    reveal_strlit("u");
    reveal_strlit("d");
}

} // verus!

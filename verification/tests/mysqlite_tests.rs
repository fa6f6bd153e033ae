use my_rust_course::myrust::MyPrint;
use my_rust_course::mysqlite::{
    creation_text, list_todos, MySQLite, ReadError, SQLiteState, SqlReply, SqlRequest, Todo, TodoError, TodoRows,
};

const SEP: &str = "=============================================\n";
const HEADER: &str = "\n ID |Status|    Title   | Created At\n---------------------------------------------\n";

fn todo(id: i32, title: &str, done: bool, created_at: &str) -> Todo {
    Todo { id, title: title.to_string(), done, created_at: created_at.to_string() }
}

fn row(t: &Todo) -> String {
    let status = if t.done { "✔" } else { "✗" };
    format!("{:>4}|{:^5}| {:<10} | {:^12}\n", t.id, status, t.title, t.created_at)
}

fn sample_rows() -> Vec<Todo> {
    vec![
        todo(1, "buy milk", false, "2024-01-02 03:04:05"),
        todo(12, "a title longer than ten", true, "x"),
    ]
}

fn listing() -> String {
    let mut s = HEADER.to_string();
    for t in sample_rows() {
        s += &row(&t);
    }
    s
}

fn empty_list() -> SqlReply {
    SqlReply::Listed(TodoRows::Read(vec![], None))
}

fn is_db_error(r: &Result<SqlRequest, TodoError>, text: &str) -> bool {
    matches!(r, Err(TodoError::Database(e)) if e == text)
}

fn has_timestamp_shape(s: &str) -> bool {
    let b: Vec<char> = s.chars().collect();
    let n = b.len();
    if n < 19 {
        return false;
    }
    let digit = |i: usize| b[i].is_ascii_digit();
    let year: Vec<char> = b[..n - 15].to_vec();
    let year_ok = (year.len() == 4 && year.iter().all(|c| c.is_ascii_digit()))
        || (year.len() >= 5 && (year[0] == '+' || year[0] == '-') && year[1..].iter().all(|c| c.is_ascii_digit()));
    year_ok
        && b[n - 15] == '-'
        && digit(n - 14)
        && digit(n - 13)
        && b[n - 12] == '-'
        && digit(n - 11)
        && digit(n - 10)
        && b[n - 9] == ' '
        && digit(n - 8)
        && digit(n - 7)
        && b[n - 6] == ':'
        && digit(n - 5)
        && digit(n - 4)
        && b[n - 3] == ':'
        && digit(n - 2)
        && digit(n - 1)
}

#[test]
fn list_draws_rows_like_format() {
    let mut p = MyPrint::new();
    assert_eq!(list_todos(&mut p, &TodoRows::Read(sample_rows(), None)), Ok(()));
    assert_eq!(p.flush(), listing());
}

#[test]
fn list_marks_completed_and_pending() {
    let mut p = MyPrint::new();
    list_todos(&mut p, &TodoRows::Read(vec![todo(1, "a", true, "c"), todo(2, "b", false, "c")], None)).unwrap();
    let out = p.flush();
    assert!(out.contains("|  ✔  | a"));
    assert!(out.contains("|  ✗  | b"));
}

#[test]
fn list_hands_errors_back() {
    let mut p = MyPrint::new();
    assert_eq!(
        list_todos(&mut p, &TodoRows::Failed("no such table: todo".to_string())),
        Err("no such table: todo".to_string())
    );
    assert_eq!(p.flush(), "no such table: todo\n");
    let mut p = MyPrint::new();
    assert_eq!(
        list_todos(&mut p, &TodoRows::Read(vec![todo(3, "t", true, "c")], Some("bad row".to_string()))),
        Err("bad row".to_string())
    );
    assert_eq!(p.flush(), HEADER.to_string() + &row(&todo(3, "t", true, "c")) + "bad row\n");
}

#[test]
fn new_window_lists_first() {
    let w = MySQLite::new();
    assert!(!w.enable);
    assert_eq!(w.state, SQLiteState::List);
    assert_eq!(w.input, "");
    assert_eq!(w.output, "");
}

#[test]
fn standby_does_nothing() {
    let mut w = MySQLite::new();
    w.state = SQLiteState::Standby;
    w.output = "old".to_string();
    assert!(matches!(w.my_sqlite(SqlReply::Start), Ok(SqlRequest::Nothing)));
    assert_eq!(w.output, "old");
    assert_eq!(w.state, SQLiteState::Standby);
}

#[test]
fn list_round() {
    let mut w = MySQLite::new();
    w.input = "typed".to_string();
    assert!(matches!(w.my_sqlite(SqlReply::Start), Ok(SqlRequest::List)));
    assert_eq!(w.state, SQLiteState::Standby);
    assert!(matches!(w.my_sqlite(SqlReply::Listed(TodoRows::Read(sample_rows(), None))), Ok(SqlRequest::Done)));
    assert_eq!(w.output, listing() + SEP);
    assert_eq!(w.input, "");
    // the next round does nothing until a command is chosen
    assert!(matches!(w.my_sqlite(SqlReply::Start), Ok(SqlRequest::Nothing)));
}

#[test]
fn add_round_with_the_clock() {
    let mut w = MySQLite::new();
    w.state = SQLiteState::Add;
    w.input = " buy milk ".to_string();
    match w.my_sqlite(SqlReply::Start) {
        Ok(SqlRequest::Insert { title, done, created_at }) => {
            assert_eq!(title, " buy milk ");
            assert_eq!(done, 0);
            assert!(has_timestamp_shape(&created_at), "{:?}", created_at);
            assert!(created_at.as_str() > "2020");
        }
        _ => panic!("expected an insert"),
    }
    assert!(matches!(w.my_sqlite(SqlReply::Inserted(Ok(()))), Ok(SqlRequest::List)));
    assert!(matches!(w.my_sqlite(empty_list()), Ok(SqlRequest::Done)));
    assert_eq!(w.output, HEADER.to_string() + SEP + "📝 Todo added successfully\n");
}

#[test]
fn add_round_at_a_given_time() {
    let mut w = MySQLite::new();
    w.state = SQLiteState::Add;
    w.input = "x".to_string();
    match w.my_sqlite_at(SqlReply::Start, Some("2024-05-06 07:08:09".to_string())) {
        Ok(SqlRequest::Insert { title, done, created_at }) => {
            assert_eq!(title, "x");
            assert_eq!(done, 0);
            assert_eq!(created_at, "2024-05-06 07:08:09");
        }
        _ => panic!("expected an insert"),
    }
}

#[test]
fn add_without_a_clock_fails() {
    let mut w = MySQLite::new();
    w.state = SQLiteState::Add;
    w.input = "x".to_string();
    w.output = "before".to_string();
    assert!(matches!(w.my_sqlite_at(SqlReply::Start, None), Ok(SqlRequest::List)));
    assert_eq!(w.state, SQLiteState::Standby);
    assert!(matches!(w.my_sqlite(empty_list()), Err(TodoError::Clock)));
    assert_eq!(w.output, HEADER.to_string() + SEP);
    assert_eq!(w.input, "");
    // the window is idle again: a reply to no request changes nothing
    assert!(matches!(w.my_sqlite(SqlReply::Inserted(Ok(()))), Ok(SqlRequest::Nothing)));
}

#[test]
fn add_refuses_blank_title() {
    let mut w = MySQLite::new();
    w.state = SQLiteState::Add;
    w.input = "   ".to_string();
    assert!(matches!(w.my_sqlite(SqlReply::Start), Ok(SqlRequest::List)));
    assert!(matches!(w.my_sqlite(empty_list()), Ok(SqlRequest::Done)));
    assert_eq!(w.output, HEADER.to_string() + SEP + "❗ Todo TITLE is EMPTY!\n");
    assert_eq!(w.input, "");
}

#[test]
fn add_hands_back_insert_error() {
    let mut w = MySQLite::new();
    w.state = SQLiteState::Add;
    w.input = "x".to_string();
    w.output = "before".to_string();
    assert!(matches!(w.my_sqlite_at(SqlReply::Start, Some("2024-05-06 07:08:09".to_string())), Ok(SqlRequest::Insert { .. })));
    assert!(matches!(w.my_sqlite(SqlReply::Inserted(Err("disk I/O error".to_string()))), Ok(SqlRequest::List)));
    assert_eq!(w.output, "before");
    let r = w.my_sqlite(empty_list());
    assert!(is_db_error(&r, "disk I/O error"));
    assert_eq!(w.output, HEADER.to_string() + SEP + "disk I/O error\n");
    assert_eq!(w.input, "");
    assert!(matches!(w.my_sqlite(empty_list()), Ok(SqlRequest::Nothing)));
}

#[test]
fn list_error_ends_the_round() {
    let mut w = MySQLite::new();
    w.input = "7".to_string();
    w.my_sqlite(SqlReply::Start).unwrap();
    let r = w.my_sqlite(SqlReply::Listed(TodoRows::Failed("locked".to_string())));
    assert!(is_db_error(&r, "locked"));
    assert_eq!(w.output, "locked\n".to_string() + SEP);
    assert_eq!(w.input, "");
    let mut w = MySQLite::new();
    w.my_sqlite(SqlReply::Start).unwrap();
    let r = w.my_sqlite(SqlReply::Listed(TodoRows::Read(sample_rows(), Some("bad row".to_string()))));
    assert!(is_db_error(&r, "bad row"));
    assert_eq!(w.output, listing() + "bad row\n" + SEP);
}

#[test]
fn first_error_wins_over_list_error() {
    let mut w = MySQLite::new();
    w.state = SQLiteState::Delete;
    w.input = "4".to_string();
    w.my_sqlite(SqlReply::Start).unwrap();
    w.my_sqlite(SqlReply::Deleted(Err("busy".to_string()))).unwrap();
    let r = w.my_sqlite(SqlReply::Listed(TodoRows::Failed("locked".to_string())));
    assert!(is_db_error(&r, "busy"));
    assert_eq!(w.output, "locked\n".to_string() + SEP + "❗ Todo ID not found!\n");
}

#[test]
fn toggle_round_flips_status() {
    for (current, new) in [(1, 0), (0, 1), (5, 1)] {
        let mut w = MySQLite::new();
        w.state = SQLiteState::Toggle;
        w.input = " 12 ".to_string();
        assert!(matches!(w.my_sqlite(SqlReply::Start), Ok(SqlRequest::ReadDone { id: 12 })));
        match w.my_sqlite(SqlReply::DoneRead(Ok(current))) {
            Ok(SqlRequest::WriteDone { id, done }) => {
                assert_eq!(id, 12);
                assert_eq!(done, new);
            }
            _ => panic!("expected a write"),
        }
        assert!(matches!(w.my_sqlite(SqlReply::DoneWritten(Ok(()))), Ok(SqlRequest::List)));
        w.my_sqlite(empty_list()).unwrap();
        assert_eq!(w.output, HEADER.to_string() + SEP + "🔄 12 Todo status updated\n");
    }
}

#[test]
fn todo_from_row_reads_done_column() {
    let t = Todo::from_row(5, "t".to_string(), 1, "c".to_string());
    assert_eq!((t.id, t.title.as_str(), t.done, t.created_at.as_str()), (5, "t", true, "c"));
    assert!(!Todo::from_row(5, "t".to_string(), 0, "c".to_string()).done);
    assert!(!Todo::from_row(5, "t".to_string(), 2, "c".to_string()).done);
}

#[test]
fn toggle_twice_restores_table() {
    let mut table = std::collections::BTreeMap::from([(3, 1), (4, 0)]);
    let before = table.clone();
    for _ in 0..2 {
        let mut w = MySQLite::new();
        w.state = SQLiteState::Toggle;
        w.input = "3".to_string();
        w.my_sqlite(SqlReply::Start).unwrap();
        match w.my_sqlite(SqlReply::DoneRead(Ok(table[&3]))) {
            Ok(SqlRequest::WriteDone { id, done }) => {
                table.insert(id, done);
            }
            _ => panic!("expected a write"),
        }
    }
    assert_eq!(table, before);
}

#[test]
fn toggle_twice_restores() {
    let mut done = 1;
    for _ in 0..2 {
        let mut w = MySQLite::new();
        w.state = SQLiteState::Toggle;
        w.input = "3".to_string();
        w.my_sqlite(SqlReply::Start).unwrap();
        match w.my_sqlite(SqlReply::DoneRead(Ok(done))) {
            Ok(SqlRequest::WriteDone { done: d, .. }) => done = d,
            _ => panic!("expected a write"),
        }
    }
    assert_eq!(done, 1);
}

#[test]
fn toggle_errors() {
    let mut w = MySQLite::new();
    w.state = SQLiteState::Toggle;
    w.input = "abc".to_string();
    assert!(matches!(w.my_sqlite(SqlReply::Start), Ok(SqlRequest::List)));
    w.my_sqlite(empty_list()).unwrap();
    assert_eq!(w.output, HEADER.to_string() + SEP + "❗ Todo ID is WRONG!\n");

    let mut w = MySQLite::new();
    w.state = SQLiteState::Toggle;
    w.input = "9".to_string();
    w.my_sqlite(SqlReply::Start).unwrap();
    assert!(matches!(w.my_sqlite(SqlReply::DoneRead(Err(ReadError::NoRows))), Ok(SqlRequest::List)));
    w.my_sqlite(empty_list()).unwrap();
    assert_eq!(w.output, HEADER.to_string() + SEP + "❗ Todo ID not found!\n");

    let mut w = MySQLite::new();
    w.state = SQLiteState::Toggle;
    w.input = "9".to_string();
    w.my_sqlite(SqlReply::Start).unwrap();
    assert!(matches!(w.my_sqlite(SqlReply::DoneRead(Err(ReadError::Other("boom".to_string())))), Ok(SqlRequest::List)));
    let r = w.my_sqlite(empty_list());
    assert!(is_db_error(&r, "boom"));
    assert_eq!(w.output, HEADER.to_string() + SEP + "boom\n");

    let mut w = MySQLite::new();
    w.state = SQLiteState::Toggle;
    w.input = "9".to_string();
    w.my_sqlite(SqlReply::Start).unwrap();
    w.my_sqlite(SqlReply::DoneRead(Ok(0))).unwrap();
    assert!(matches!(w.my_sqlite(SqlReply::DoneWritten(Err("busy".to_string()))), Ok(SqlRequest::List)));
    let r = w.my_sqlite(empty_list());
    assert!(is_db_error(&r, "busy"));
    assert_eq!(w.output, HEADER.to_string() + SEP + "busy\n");
    assert_eq!(w.input, "");
}

#[test]
fn delete_round() {
    let mut w = MySQLite::new();
    w.state = SQLiteState::Delete;
    w.input = "-4".to_string();
    assert!(matches!(w.my_sqlite(SqlReply::Start), Ok(SqlRequest::Delete { id: -4 })));
    assert!(matches!(w.my_sqlite(SqlReply::Deleted(Ok(1))), Ok(SqlRequest::List)));
    w.my_sqlite(empty_list()).unwrap();
    assert_eq!(w.output, HEADER.to_string() + SEP + "🗑 Deleted todo -4\n");
}

#[test]
fn delete_not_found_and_errors() {
    let mut w = MySQLite::new();
    w.state = SQLiteState::Delete;
    w.input = "4".to_string();
    w.my_sqlite(SqlReply::Start).unwrap();
    w.my_sqlite(SqlReply::Deleted(Ok(0))).unwrap();
    w.my_sqlite(empty_list()).unwrap();
    assert_eq!(w.output, HEADER.to_string() + SEP + "❗ Todo ID not found!\n");

    let mut w = MySQLite::new();
    w.state = SQLiteState::Delete;
    w.input = "4".to_string();
    w.my_sqlite(SqlReply::Start).unwrap();
    assert!(matches!(w.my_sqlite(SqlReply::Deleted(Err("constraint".to_string()))), Ok(SqlRequest::List)));
    let r = w.my_sqlite(empty_list());
    assert!(is_db_error(&r, "constraint"));
    assert_eq!(w.output, HEADER.to_string() + SEP + "❗ Todo ID not found!\n");

    let mut w = MySQLite::new();
    w.state = SQLiteState::Delete;
    w.input = "2147483648".to_string();
    assert!(matches!(w.my_sqlite(SqlReply::Start), Ok(SqlRequest::List)));
}

#[test]
fn unexpected_reply_changes_nothing() {
    let mut w = MySQLite::new();
    assert!(matches!(w.my_sqlite(SqlReply::Inserted(Ok(()))), Ok(SqlRequest::Nothing)));
    assert_eq!(w.state, SQLiteState::List);
    w.my_sqlite(SqlReply::Start).unwrap();
    assert!(matches!(w.my_sqlite(SqlReply::Start), Ok(SqlRequest::Nothing)));
    assert!(matches!(w.my_sqlite(empty_list()), Ok(SqlRequest::Done)));
    assert_eq!(w.output, HEADER.to_string() + SEP);
}

#[test]
fn creation_text_writes_utc_time() {
    assert_eq!(creation_text(0, 0), Some("1970-01-01 00:00:00".to_string()));
    assert_eq!(creation_text(1_700_000_000, 0), Some("2023-11-14 22:13:20".to_string()));
    assert_eq!(creation_text(1_700_000_000, 999_999_999), Some("2023-11-14 22:13:20".to_string()));
    assert_eq!(creation_text(86_399, 0), Some("1970-01-01 23:59:59".to_string()));
}

#[test]
fn creation_text_out_of_range() {
    assert_eq!(creation_text(u64::MAX, 0), None);
    assert_eq!(creation_text(9_223_372_036_854_775_808, 0), None);
    assert_eq!(creation_text(9_223_372_036_854_775_807, 0), None);
}

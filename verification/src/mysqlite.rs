//! # Todo list kept in SQLite
//!
//! The decisions of the todo list: which database request a command needs,
//! what the user is told, and how the list is drawn. The database itself is
//! reached by the caller, which runs [`MySQLite::my_sqlite`] as a loop: it
//! performs each [`SqlRequest`] and hands the outcome back as a
//! [`SqlReply`], until the round is [`SqlRequest::Done`]. A failing
//! request still lets the round list the todos and show its messages, the
//! error's text among them; the error is then handed back as a
//! [`TodoError`].
//!
//! - Add a todo item
//! - List all todo items
//! - Toggle completed / pending status
//! - Delete a todo item
use vstd::prelude::*;
use crate::myrust::MyPrint;
use crate::text::{
    align_center, align_left, align_right, all_digits, dec, decimal, is_blank, is_digit, line,
    is_ws, law_id_with_spaces, parse_id, parse_id_str, push_aligned, trim, Align,
};

verus! {

/// Which command the todo window runs next.
#[derive(Debug, Clone, Copy, PartialEq, Eq, Structural)]
pub enum SQLiteState {
    Add,
    List,
    Toggle,
    Delete,
    Standby,
}

/// A todo item, one row of the `todo` table.
#[derive(Debug)]
pub struct Todo {
    /// Unique todo ID
    pub id: i32,
    /// Todo title
    pub title: String,
    /// Completion status
    pub done: bool,
    /// Creation timestamp (string format)
    pub created_at: String,
}

impl Todo {
    /// A todo from a row of the `todo` table: the `done` column holds 1
    /// for a completed todo.
    pub fn from_row(id: i32, title: String, done: i32, created_at: String) -> (r: Todo)
        ensures
            r.id == id,
            r.title == title,
            r.done == (done == 1),
            r.created_at == created_at,
    {
        Todo { id, title, done: done == 1, created_at }
    }
}

/// What the list query gave back.
#[derive(Debug)]
pub enum TodoRows {
    /// The query could not be prepared or run; the error's text.
    Failed(String),
    /// The rows read in id order, and the text of the error that stopped
    /// the reading early, if one did.
    Read(Vec<Todo>, Option<String>),
}

/// Why reading a todo's status gave no value.
#[derive(Debug)]
pub enum ReadError {
    /// No todo has that id.
    NoRows,
    /// Any other error; its text.
    Other(String),
}

/// A request to the database, or the end of a round.
#[derive(Debug)]
pub enum SqlRequest {
    /// Nothing to do: the window is on standby, or the reply was not the
    /// one awaited.
    Nothing,
    /// Insert a todo with this title, status and creation time.
    Insert { title: String, done: i32, created_at: String },
    /// Read the `done` column of the todo with this id.
    ReadDone { id: i32 },
    /// Write `done` of the todo with this id.
    WriteDone { id: i32, done: i32 },
    /// Delete the todo with this id.
    Delete { id: i32 },
    /// Read all todos in id order.
    List,
    /// The round is over; `output` holds what it printed.
    Done,
}

/// Why a round ended without its result.
#[derive(Debug)]
pub enum TodoError {
    /// The database failed; the error's text.
    Database(String),
    /// The system clock could not give the creation time of a new todo:
    /// it reads before 1970 or beyond the dates that can be written.
    Clock,
}

/// What the database answered, or the start of a round.
#[derive(Debug)]
pub enum SqlReply {
    /// Start a round for the current `state`.
    Start,
    /// The insert succeeded, or the error's text.
    Inserted(Result<(), String>),
    /// The `done` value read.
    DoneRead(Result<i32, ReadError>),
    /// The status write succeeded, or the error's text.
    DoneWritten(Result<(), String>),
    /// The number of rows deleted, or the error's text.
    Deleted(Result<usize, String>),
    /// The rows of the list query.
    Listed(TodoRows),
}

/// Where a round stands: which answer it waits for.
#[derive(Debug, Clone, Copy, PartialEq, Eq, Structural)]
pub enum RoundStage {
    Idle,
    AwaitInsert,
    AwaitRead(i32),
    AwaitWrite(i32),
    AwaitDelete(i32),
    AwaitList,
}

/// The round in progress: the answer awaited, the messages so far and the
/// error that a failed request left for the round's end.
pub struct SqlRound {
    stage: RoundStage,
    message_out: MyPrint,
    error: Option<TodoError>,
}

impl SqlRound {
    /// Where the round stands.
    pub closed spec fn stage(&self) -> RoundStage {
        self.stage
    }

    /// The messages the round has printed so far.
    pub closed spec fn message(&self) -> Seq<Seq<char>> {
        self.message_out.chunks()
    }

    /// The error the round hands back at its end, if a request failed.
    pub closed spec fn pending(&self) -> Option<TodoError> {
        self.error
    }

    /// No round in progress.
    pub fn new() -> (r: Self)
        ensures
            r.stage() == RoundStage::Idle,
            r.message() == Seq::<Seq<char>>::empty(),
            r.pending() is None,
    {
        SqlRound { stage: RoundStage::Idle, message_out: MyPrint::new(), error: None }
    }
}

/// The todo window: its command, its input line, its output text and the
/// round in progress.
pub struct MySQLite {
    pub enable: bool,
    pub state: SQLiteState,
    pub input: String,
    pub output: String,
    pub round: SqlRound,
}

// ---------------------------------------------------------------------
// Texts
// ---------------------------------------------------------------------

/// The rule that opens every round's messages.
pub open spec fn sep_line() -> Seq<char> {
    line("============================================="@)
}

pub open spec fn title_empty_line() -> Seq<char> {
    line("❗ Todo TITLE is EMPTY!"@)
}

pub open spec fn added_line() -> Seq<char> {
    line("📝 Todo added successfully"@)
}

pub open spec fn wrong_id_line() -> Seq<char> {
    line("❗ Todo ID is WRONG!"@)
}

pub open spec fn not_found_line() -> Seq<char> {
    line("❗ Todo ID not found!"@)
}

pub open spec fn toggled_line(id: i32) -> Seq<char> {
    line("🔄 "@ + dec(id as int) + " Todo status updated"@)
}

pub open spec fn deleted_line(id: i32) -> Seq<char> {
    line("🗑 Deleted todo "@ + dec(id as int))
}

/// The status mark of a todo: a check mark when completed, a cross when
/// pending.
pub open spec fn status_mark(done: bool) -> Seq<char> {
    if done {
        "✔"@
    } else {
        "✗"@
    }
}

/// One row of the list, as `"{:>4}|{:^5}| {:<10} | {:^12}"` draws it.
pub open spec fn todo_line(t: Todo) -> Seq<char> {
    line(
        align_right(dec(t.id as int), 4) + "|"@ + align_center(status_mark(t.done), 5) + "| "@
            + align_left(t.title@, 10) + " | "@ + align_center(t.created_at@, 12),
    )
}

/// The header of the list.
pub open spec fn list_header() -> Seq<Seq<char>> {
    seq![
        line("\n ID |Status|    Title   | Created At"@),
        line("---------------------------------------------"@),
    ]
}

/// What the list prints for the todos read: the header and a row each.
pub open spec fn list_chunks(ts: Seq<Todo>) -> Seq<Seq<char>> {
    list_header() + Seq::new(ts.len(), |i: int| todo_line(ts[i]))
}

/// The new `done` value when a todo is toggled: completed (1) becomes
/// pending (0), anything else becomes completed.
pub open spec fn toggled(done: i32) -> i32 {
    if done == 1 {
        0
    } else {
        1
    }
}

/// A year as chrono's `%Y` writes it: four digits, or a sign and at least
/// four digits.
pub open spec fn year_text(p: Seq<char>) -> bool {
    ||| p.len() == 4 && all_digits(p)
    ||| p.len() >= 5 && (p[0] == '+' || p[0] == '-') && all_digits(p.drop_first())
}

/// A time as `"%Y-%m-%d %H:%M:%S"` writes it: the year, then
/// `-MM-DD HH:MM:SS` with two digits each.
pub open spec fn timestamp_shape(s: Seq<char>) -> bool {
    let n = s.len();
    &&& n >= 19
    &&& year_text(s.take(n - 15))
    &&& s[n - 15] == '-'
    &&& is_digit(s[n - 14]) && is_digit(s[n - 13])
    &&& s[n - 12] == '-'
    &&& is_digit(s[n - 11]) && is_digit(s[n - 10])
    &&& s[n - 9] == ' '
    &&& is_digit(s[n - 8]) && is_digit(s[n - 7])
    &&& s[n - 6] == ':'
    &&& is_digit(s[n - 5]) && is_digit(s[n - 4])
    &&& s[n - 3] == ':'
    &&& is_digit(s[n - 2]) && is_digit(s[n - 1])
}

#[verifier::external_type_specification]
#[verifier::external_body]
pub struct ExSystemTime(std::time::SystemTime);

/// Calls `std::time::SystemTime::now`: the system clock's reading, of
/// which nothing is claimed.
#[verifier::external_body]
fn system_now() -> std::time::SystemTime {
    std::time::SystemTime::now()
}

/// Calls `SystemTime::duration_since(UNIX_EPOCH)` on `t`: the time since
/// the start of 1970, or `None` when `t` is before it. The value rests on
/// the clock reading `t`, so nothing is claimed of it.
#[verifier::external_body]
fn since_unix_epoch(t: &std::time::SystemTime) -> Option<std::time::Duration> {
    match t.duration_since(std::time::UNIX_EPOCH) {
        Ok(d) => Some(d),
        Err(_) => None,
    }
}

/// Calls `Duration::as_secs`: the whole seconds of `d`. `d` is opaque
/// here, so nothing is claimed of the value.
#[verifier::external_body]
fn whole_secs(d: &std::time::Duration) -> u64 {
    d.as_secs()
}

/// Calls `Duration::subsec_nanos`: the nanoseconds of `d` past its whole
/// seconds, which the documentation gives as always under one billion.
#[verifier::external_body]
fn nanos_past_secs(d: &std::time::Duration) -> (r: u32)
    ensures
        r < 1_000_000_000,
{
    d.subsec_nanos()
}

/// The UTC date and time `secs` seconds and `nanos` nanoseconds after the
/// start of 1970, as `"%Y-%m-%d %H:%M:%S"` writes it; `None` where chrono
/// has no such date.
pub uninterp spec fn utc_text(secs: i64, nanos: u32) -> Option<Seq<char>>;

/// Calls `chrono::DateTime::from_timestamp(secs, nanos)` and formats the
/// UTC date and time it gives with `"%Y-%m-%d %H:%M:%S"`.
/// `from_timestamp` gives `None` for seconds out of chrono's range or an
/// invalid nanosecond. The text has the shape that chrono's `%Y` (four
/// digits, or a sign and at least four), `%m`, `%d`, `%H`, `%M` and `%S`
/// (two digits each) and the separators give.
#[verifier::external_body]
fn utc_timestamp(secs: i64, nanos: u32) -> (r: Option<String>)
    ensures
        r is Some <==> utc_text(secs, nanos) is Some,
        r is Some ==> r.unwrap()@ == utc_text(secs, nanos).unwrap(),
        r is Some ==> timestamp_shape(r.unwrap()@),
{
    match chrono::DateTime::from_timestamp(secs, nanos) {
        Some(dt) => Some(dt.format("%Y-%m-%d %H:%M:%S").to_string()),
        None => None,
    }
}

/// The creation time written for a clock reading of `secs` whole seconds
/// and `nanos` nanoseconds since the start of 1970: the UTC time as
/// `"%Y-%m-%d %H:%M:%S"` writes it; `None` when the seconds do not fit in
/// an `i64` or chrono has no such date.
pub open spec fn creation_spec(secs: u64, nanos: u32) -> Option<Seq<char>> {
    if secs <= i64::MAX {
        utc_text(secs as i64, nanos)
    } else {
        None
    }
}

/// Writes the creation time for a clock reading of `secs` whole seconds
/// and `nanos` nanoseconds since the start of 1970 (see [`creation_spec`]).
pub fn creation_text(secs: u64, nanos: u32) -> (r: Option<String>)
    ensures
        opt_view(r) == creation_spec(secs, nanos),
        r is Some ==> timestamp_shape(r.unwrap()@),
{
    if secs <= 9223372036854775807u64 {
        utc_timestamp(secs as i64, nanos)
    } else {
        None
    }
}

/// The creation time for the system clock's current reading (see
/// [`creation_text`]), or `None` when the clock reads before 1970 or
/// beyond the dates chrono can write.
fn creation_time() -> (r: Option<String>)
    ensures
        clock_text(opt_view(r)),
{
    let now = system_now();
    match since_unix_epoch(&now) {
        Some(d) => {
            let secs = whole_secs(&d);
            let nanos = nanos_past_secs(&d);
            let r = creation_text(secs, nanos);
            assert(r is Some ==> creation_spec(secs, nanos) == Some(r.unwrap()@));
            r
        },
        None => None,
    }
}

/// Draws one row of the list.
fn format_todo(t: &Todo) -> (r: String)
    ensures
        r@.push('\n') == todo_line(*t),
{
    let mut s = String::new();
    let id = decimal(t.id as i64);
    push_aligned(&mut s, id.as_str(), 4, Align::Right);
    s.append("|");
    let status = if t.done {
        "✔"
    } else {
        "✗"
    };
    push_aligned(&mut s, status, 5, Align::Center);
    s.append("| ");
    push_aligned(&mut s, t.title.as_str(), 10, Align::Left);
    s.append(" | ");
    push_aligned(&mut s, t.created_at.as_str(), 12, Align::Center);
    s
}

/// What the list prints for the rows the query gave: the query's error
/// when it failed; else the header, a row per todo read, and the error
/// that cut the reading short, if one did.
pub open spec fn listed_chunks(rows: TodoRows) -> Seq<Seq<char>> {
    match rows {
        TodoRows::Failed(e) => seq![line(e@)],
        TodoRows::Read(ts, err) => list_chunks(ts@) + match err {
            Some(e) => seq![line(e@)],
            None => Seq::empty(),
        },
    }
}

/// The error of the list query, if it failed or was cut short.
pub open spec fn list_error(rows: TodoRows) -> Option<String> {
    match rows {
        TodoRows::Failed(e) => Some(e),
        TodoRows::Read(_, err) => err,
    }
}

/// Prints the list for the rows the query gave (see [`listed_chunks`]) and
/// hands back the query's error, if there was one.
pub fn list_todos(print_out: &mut MyPrint, rows: &TodoRows) -> (r: Result<(), String>)
    ensures
        final(print_out).chunks() == old(print_out).chunks() + listed_chunks(*rows),
        final(print_out).inputs() == old(print_out).inputs(),
        r == match list_error(*rows) {
            Some(e) => Err::<(), String>(e),
            None => Ok(()),
        },
{
    match rows {
        TodoRows::Failed(e) => {
            print_out.print_line(e);
            assert(print_out.chunks() =~= old(print_out).chunks() + listed_chunks(*rows));
            Err(e.clone())
        },
        TodoRows::Read(ts, err) => {
            print_out.print_line("\n ID |Status|    Title   | Created At");
            print_out.print_line("---------------------------------------------");
            let ghost c0 = print_out.chunks();
            let ghost body = Seq::new(ts@.len(), |i: int| todo_line(ts@[i]));
            let n = ts.len();
            let mut i: usize = 0;
            while i < n
                invariant
                    i <= n,
                    n == ts@.len(),
                    body == Seq::new(ts@.len(), |i: int| todo_line(ts@[i])),
                    print_out.chunks() == c0 + body.take(i as int),
                    print_out.inputs() == old(print_out).inputs(),
                decreases n - i,
            {
                print_out.print_line(format_todo(&ts[i]));
                i = i + 1;
                assert(print_out.chunks() =~= c0 + body.take(i as int));
            }
            assert(body.take(n as int) =~= body);
            match err {
                Some(e) => {
                    print_out.print_line(e);
                    assert(print_out.chunks() =~= old(print_out).chunks() + listed_chunks(*rows));
                    Err(e.clone())
                },
                None => {
                    assert(print_out.chunks() =~= old(print_out).chunks() + listed_chunks(*rows));
                    Ok(())
                },
            }
        },
    }
}

/// The fields a step within a round keeps: the window flag, the command,
/// the input line, the output text and the error kept for the end.
pub open spec fn keeps_fields(pre: MySQLite, post: MySQLite) -> bool {
    &&& post.enable == pre.enable
    &&& post.state == pre.state
    &&& post.input == pre.input
    &&& post.output == pre.output
    &&& post.round.pending() == pre.round.pending()
}

/// A step that goes on to the list with one more message line.
pub open spec fn to_list(
    pre: MySQLite,
    post: MySQLite,
    r: Result<SqlRequest, TodoError>,
    msg: Seq<char>,
) -> bool {
    &&& keeps_fields(pre, post)
    &&& r == Ok::<SqlRequest, TodoError>(SqlRequest::List)
    &&& post.stage() == RoundStage::AwaitList
    &&& post.message() == pre.message().push(msg)
}

/// A step whose database request failed with `e`: `msg` becomes a message
/// line, the error is kept for the round's end, and the round goes on to
/// the list.
pub open spec fn fails_to_list(
    pre: MySQLite,
    post: MySQLite,
    r: Result<SqlRequest, TodoError>,
    e: String,
    msg: Seq<char>,
) -> bool {
    &&& post.enable == pre.enable
    &&& post.state == pre.state
    &&& post.input == pre.input
    &&& post.output == pre.output
    &&& post.round.pending() == Some(TodoError::Database(e))
    &&& r == Ok::<SqlRequest, TodoError>(SqlRequest::List)
    &&& post.stage() == RoundStage::AwaitList
    &&& post.message() == pre.message().push(msg)
}

/// The view of an optional string.
pub open spec fn opt_view(o: Option<String>) -> Option<Seq<char>> {
    match o {
        Some(s) => Some(s@),
        None => None,
    }
}

/// A round's first step: the command is taken and the window goes on
/// standby; the messages start with the rule and no error is kept yet.
/// `now` is the creation time that a new todo gets, when the clock could
/// give one.
pub open spec fn start_step(
    pre: MySQLite,
    post: MySQLite,
    now: Option<Seq<char>>,
    r: Result<SqlRequest, TodoError>,
) -> bool {
    &&& post.enable == pre.enable
    &&& post.input == pre.input
    &&& post.output == pre.output
    &&& post.state == SQLiteState::Standby
    &&& match pre.state {
        SQLiteState::List => {
            &&& r == Ok::<SqlRequest, TodoError>(SqlRequest::List)
            &&& post.stage() == RoundStage::AwaitList
            &&& post.message() == seq![sep_line()]
            &&& post.round.pending() is None
        },
        SQLiteState::Add => if trim(pre.input@).len() == 0 {
            &&& r == Ok::<SqlRequest, TodoError>(SqlRequest::List)
            &&& post.stage() == RoundStage::AwaitList
            &&& post.message() == seq![sep_line(), title_empty_line()]
            &&& post.round.pending() is None
        } else {
            match now {
                Some(t) => {
                    &&& r matches Ok(SqlRequest::Insert { title, done, created_at })
                        && title@ == pre.input@ && done == 0 && created_at@ == t
                    &&& post.stage() == RoundStage::AwaitInsert
                    &&& post.message() == seq![sep_line()]
                    &&& post.round.pending() is None
                },
                None => {
                    &&& r == Ok::<SqlRequest, TodoError>(SqlRequest::List)
                    &&& post.stage() == RoundStage::AwaitList
                    &&& post.message() == seq![sep_line()]
                    &&& post.round.pending() == Some(TodoError::Clock)
                },
            }
        },
        SQLiteState::Toggle => match parse_id(pre.input@) {
            Some(id) => {
                &&& r == Ok::<SqlRequest, TodoError>(SqlRequest::ReadDone { id })
                &&& post.stage() == RoundStage::AwaitRead(id)
                &&& post.message() == seq![sep_line()]
                &&& post.round.pending() is None
            },
            None => {
                &&& r == Ok::<SqlRequest, TodoError>(SqlRequest::List)
                &&& post.stage() == RoundStage::AwaitList
                &&& post.message() == seq![sep_line(), wrong_id_line()]
                &&& post.round.pending() is None
            },
        },
        SQLiteState::Delete => match parse_id(pre.input@) {
            Some(id) => {
                &&& r == Ok::<SqlRequest, TodoError>(SqlRequest::Delete { id })
                &&& post.stage() == RoundStage::AwaitDelete(id)
                &&& post.message() == seq![sep_line()]
                &&& post.round.pending() is None
            },
            None => {
                &&& r == Ok::<SqlRequest, TodoError>(SqlRequest::List)
                &&& post.stage() == RoundStage::AwaitList
                &&& post.message() == seq![sep_line(), wrong_id_line()]
                &&& post.round.pending() is None
            },
        },
        SQLiteState::Standby => false,
    }
}

/// What a round hands back at its end: the error a request left, else the
/// list query's error, else that the round is done.
pub open spec fn round_result(pending: Option<TodoError>, rows: TodoRows) -> Result<
    SqlRequest,
    TodoError,
> {
    match pending {
        Some(e) => Err(e),
        None => match list_error(rows) {
            Some(e) => Err(TodoError::Database(e)),
            None => Ok(SqlRequest::Done),
        },
    }
}

/// One step of a round of the todo window, from `pre` to `post`, given the
/// reply and the creation time `now` of a new todo, with the next request,
/// or at the round's end its result.
pub open spec fn my_sqlite_step(
    pre: MySQLite,
    post: MySQLite,
    reply: SqlReply,
    now: Option<Seq<char>>,
    r: Result<SqlRequest, TodoError>,
) -> bool {
    match (pre.stage(), reply) {
        (RoundStage::Idle, SqlReply::Start) => if pre.state == SQLiteState::Standby {
            r == Ok::<SqlRequest, TodoError>(SqlRequest::Nothing) && post == pre
        } else {
            start_step(pre, post, now, r)
        },
        (RoundStage::AwaitInsert, SqlReply::Inserted(res)) => match res {
            Ok(_) => to_list(pre, post, r, added_line()),
            Err(e) => fails_to_list(pre, post, r, e, line(e@)),
        },
        (RoundStage::AwaitRead(id), SqlReply::DoneRead(res)) => match res {
            Ok(v) => {
                &&& keeps_fields(pre, post)
                &&& r == Ok::<SqlRequest, TodoError>(SqlRequest::WriteDone { id, done: toggled(v) })
                &&& post.stage() == RoundStage::AwaitWrite(id)
                &&& post.message() == pre.message()
            },
            Err(ReadError::NoRows) => to_list(pre, post, r, not_found_line()),
            Err(ReadError::Other(e)) => fails_to_list(pre, post, r, e, line(e@)),
        },
        (RoundStage::AwaitWrite(id), SqlReply::DoneWritten(res)) => match res {
            Ok(_) => to_list(pre, post, r, toggled_line(id)),
            Err(e) => fails_to_list(pre, post, r, e, line(e@)),
        },
        (RoundStage::AwaitDelete(id), SqlReply::Deleted(res)) => match res {
            Ok(n) => to_list(
                pre,
                post,
                r,
                if n == 0 {
                    not_found_line()
                } else {
                    deleted_line(id)
                },
            ),
            Err(e) => fails_to_list(pre, post, r, e, not_found_line()),
        },
        (RoundStage::AwaitList, SqlReply::Listed(rows)) => {
            &&& r == round_result(pre.round.pending(), rows)
            &&& post.enable == pre.enable
            &&& post.state == pre.state
            &&& post.input@ == Seq::<char>::empty()
            &&& post.output@ == listed_chunks(rows).flatten() + pre.message().flatten()
            &&& post.stage() == RoundStage::Idle
            &&& post.message() == Seq::<Seq<char>>::empty()
            &&& post.round.pending() is None
        },
        _ => r == Ok::<SqlRequest, TodoError>(SqlRequest::Nothing) && post == pre,
    }
}

/// The creation time is one the clock could give: `YYYY-MM-DD HH:MM:SS`,
/// the text [`creation_text`] writes for some reading of whole seconds and
/// nanoseconds since the start of 1970.
pub open spec fn clock_text(now: Option<Seq<char>>) -> bool {
    now is Some ==> {
        &&& timestamp_shape(now.unwrap())
        &&& exists|s: u64, n: u32|
            n < 1_000_000_000 && #[trigger] creation_spec(s, n) == Some(now.unwrap())
    }
}

impl MySQLite {
    /// Where the round stands.
    pub open spec fn stage(&self) -> RoundStage {
        self.round.stage()
    }

    /// The messages the round has printed so far.
    pub open spec fn message(&self) -> Seq<Seq<char>> {
        self.round.message()
    }

    /// A closed todo window that lists on its next round.
    pub fn new() -> (r: Self)
        ensures
            !r.enable,
            r.state == SQLiteState::List,
            r.input@ == Seq::<char>::empty(),
            r.output@ == Seq::<char>::empty(),
            r.stage() == RoundStage::Idle,
            r.message() == Seq::<Seq<char>>::empty(),
            r.round.pending() is None,
    {
        MySQLite {
            enable: false,
            state: SQLiteState::List,
            input: String::new(),
            output: String::new(),
            round: SqlRound::new(),
        }
    }

    /// Reads the id a toggle or delete works on; a wrong id is refused
    /// with a message.
    fn read_id(&self, print_out: &mut MyPrint) -> (r: Option<i32>)
        ensures
            r == parse_id(self.input@),
            r is None ==> final(print_out).chunks() == old(print_out).chunks().push(
                wrong_id_line(),
            ),
            r is Some ==> final(print_out).chunks() == old(print_out).chunks(),
            final(print_out).inputs() == old(print_out).inputs(),
    {
        match parse_id_str(self.input.as_str()) {
            Some(n) => Some(n),
            None => {
                print_out.print_line("❗ Todo ID is WRONG!");
                None
            },
        }
    }

    /// A database request failed with `e`: `shown` becomes a message line,
    /// the error is kept for the round's end, and the round goes on to the
    /// list.
    fn request_failed(&mut self, e: String, shown: &str) -> (r: Result<SqlRequest, TodoError>)
        ensures
            fails_to_list(*old(self), *final(self), r, e, line(shown@)),
    {
        self.round.message_out.print_line(shown);
        self.round.error = Some(TodoError::Database(e));
        self.round.stage = RoundStage::AwaitList;
        Ok(SqlRequest::List)
    }

    /// Runs one step of a round, as [`MySQLite::my_sqlite`] does, with
    /// `now` as the creation time of a todo that the step adds.
    pub fn my_sqlite_at(&mut self, reply: SqlReply, now: Option<String>) -> (r: Result<
        SqlRequest,
        TodoError,
    >)
        ensures
            my_sqlite_step(*old(self), *final(self), reply, opt_view(now), r),
    {
        match (self.round.stage, reply) {
            (RoundStage::Idle, SqlReply::Start) => {
                if self.state == SQLiteState::Standby {
                    return Ok(SqlRequest::Nothing);
                }
                let mut message_out = MyPrint::new();
                message_out.print_line("=============================================");
                assert(message_out.chunks() =~= seq![sep_line()]);
                let state = self.state;
                self.state = SQLiteState::Standby;
                self.round.error = None;
                let r = match state {
                    SQLiteState::List => {
                        self.round.stage = RoundStage::AwaitList;
                        Ok(SqlRequest::List)
                    },
                    SQLiteState::Add => {
                        if is_blank(self.input.as_str()) {
                            message_out.print_line("❗ Todo TITLE is EMPTY!");
                            self.round.stage = RoundStage::AwaitList;
                            Ok(SqlRequest::List)
                        } else {
                            match now {
                                Some(created_at) => {
                                    self.round.stage = RoundStage::AwaitInsert;
                                    Ok(
                                        SqlRequest::Insert {
                                            title: self.input.clone(),
                                            done: 0,
                                            created_at,
                                        },
                                    )
                                },
                                None => {
                                    self.round.error = Some(TodoError::Clock);
                                    self.round.stage = RoundStage::AwaitList;
                                    Ok(SqlRequest::List)
                                },
                            }
                        }
                    },
                    SQLiteState::Toggle => match self.read_id(&mut message_out) {
                        Some(id) => {
                            self.round.stage = RoundStage::AwaitRead(id);
                            Ok(SqlRequest::ReadDone { id })
                        },
                        None => {
                            self.round.stage = RoundStage::AwaitList;
                            Ok(SqlRequest::List)
                        },
                    },
                    SQLiteState::Delete => match self.read_id(&mut message_out) {
                        Some(id) => {
                            self.round.stage = RoundStage::AwaitDelete(id);
                            Ok(SqlRequest::Delete { id })
                        },
                        None => {
                            self.round.stage = RoundStage::AwaitList;
                            Ok(SqlRequest::List)
                        },
                    },
                    SQLiteState::Standby => Ok(SqlRequest::Nothing),
                };
                self.round.message_out = message_out;
                proof {
                    if state == SQLiteState::Add && trim(old(self).input@).len() == 0 {
                        assert(self.message() =~= seq![sep_line(), title_empty_line()]);
                    }
                    if (state == SQLiteState::Toggle || state == SQLiteState::Delete) && parse_id(
                        old(self).input@,
                    ) is None {
                        assert(self.message() =~= seq![sep_line(), wrong_id_line()]);
                    }
                }
                r
            },
            (RoundStage::AwaitInsert, SqlReply::Inserted(res)) => {
                match res {
                    Ok(_) => {
                        self.round.message_out.print_line("📝 Todo added successfully");
                        self.round.stage = RoundStage::AwaitList;
                        Ok(SqlRequest::List)
                    },
                    Err(e) => {
                        let shown = e.clone();
                        self.request_failed(e, shown.as_str())
                    },
                }
            },
            (RoundStage::AwaitRead(id), SqlReply::DoneRead(res)) => {
                match res {
                    Ok(current) => {
                        let new_status = if current == 1 {
                            0
                        } else {
                            1
                        };
                        self.round.stage = RoundStage::AwaitWrite(id);
                        Ok(SqlRequest::WriteDone { id, done: new_status })
                    },
                    Err(ReadError::NoRows) => {
                        self.round.message_out.print_line("❗ Todo ID not found!");
                        self.round.stage = RoundStage::AwaitList;
                        Ok(SqlRequest::List)
                    },
                    Err(ReadError::Other(e)) => {
                        let shown = e.clone();
                        self.request_failed(e, shown.as_str())
                    },
                }
            },
            (RoundStage::AwaitWrite(id), SqlReply::DoneWritten(res)) => {
                match res {
                    Ok(_) => {
                        let mut t = "🔄 ".to_owned();
                        t.append(decimal(id as i64).as_str());
                        t.append(" Todo status updated");
                        self.round.message_out.print_line(t);
                        self.round.stage = RoundStage::AwaitList;
                        Ok(SqlRequest::List)
                    },
                    Err(e) => {
                        let shown = e.clone();
                        self.request_failed(e, shown.as_str())
                    },
                }
            },
            (RoundStage::AwaitDelete(id), SqlReply::Deleted(res)) => {
                match res {
                    Ok(n) => {
                        if n == 0 {
                            self.round.message_out.print_line("❗ Todo ID not found!");
                        } else {
                            let mut t = "🗑 Deleted todo ".to_owned();
                            t.append(decimal(id as i64).as_str());
                            self.round.message_out.print_line(&t);
                        }
                        self.round.stage = RoundStage::AwaitList;
                        Ok(SqlRequest::List)
                    },
                    Err(e) => self.request_failed(e, "❗ Todo ID not found!"),
                }
            },
            (RoundStage::AwaitList, SqlReply::Listed(rows)) => {
                let mut print_out = MyPrint::new();
                let listed = list_todos(&mut print_out, &rows);
                assert(print_out.chunks() =~= listed_chunks(rows));
                self.input.clear();
                let mut message_out = MyPrint::new();
                std::mem::swap(&mut message_out, &mut self.round.message_out);
                let ghost msg = message_out.chunks();
                assert(msg == old(self).message());
                let mut out = print_out.flush();
                out.append(message_out.flush().as_str());
                self.output = out;
                self.round.stage = RoundStage::Idle;
                assert(self.message() =~= Seq::<Seq<char>>::empty());
                let mut kept: Option<TodoError> = None;
                std::mem::swap(&mut kept, &mut self.round.error);
                match kept {
                    Some(e) => Err(e),
                    None => match listed {
                        Err(e) => Err(TodoError::Database(e)),
                        Ok(()) => Ok(SqlRequest::Done),
                    },
                }
            },
            _ => Ok(SqlRequest::Nothing),
        }
    }

    /// Runs one step of a round: takes the reply to the last request and
    /// returns the next request. A round starts with [`SqlReply::Start`]
    /// unless the window is on standby. Its last step, the reply to
    /// [`SqlRequest::List`], always clears the input line and sets `output`
    /// to the list followed by the round's messages; it gives
    /// [`SqlRequest::Done`], or the error of a request that failed during
    /// the round. A todo that is added gets as its creation time what
    /// [`creation_text`] writes for the system clock's current reading; when
    /// the clock gives none, nothing is added and the round ends with
    /// [`TodoError::Clock`].
    pub fn my_sqlite(&mut self, reply: SqlReply) -> (r: Result<SqlRequest, TodoError>)
        ensures
            exists|now: Option<Seq<char>>|
                #[trigger] clock_text(now) && my_sqlite_step(*old(self), *final(self), reply, now, r),
    {
        let needs_clock = match &reply {
            SqlReply::Start => self.round.stage == RoundStage::Idle && self.state == SQLiteState::Add
                && !is_blank(self.input.as_str()),
            _ => false,
        };
        let now = if needs_clock {
            creation_time()
        } else {
            None
        };
        let ghost nv = opt_view(now);
        assert(clock_text(nv));
        let r = self.my_sqlite_at(reply, now);
        assert(clock_text(nv) && my_sqlite_step(*old(self), *self, reply, nv, r));
        r
    }
}

/// The reply a stage waits for.
pub open spec fn awaits(stage: RoundStage, reply: SqlReply) -> bool {
    match (stage, reply) {
        (RoundStage::Idle, SqlReply::Start) => true,
        (RoundStage::AwaitInsert, SqlReply::Inserted(_)) => true,
        (RoundStage::AwaitRead(_), SqlReply::DoneRead(_)) => true,
        (RoundStage::AwaitWrite(_), SqlReply::DoneWritten(_)) => true,
        (RoundStage::AwaitDelete(_), SqlReply::Deleted(_)) => true,
        (RoundStage::AwaitList, SqlReply::Listed(_)) => true,
        _ => false,
    }
}

/// How many replies a round still needs at most, from each stage.
pub open spec fn steps_left(stage: RoundStage) -> nat {
    match stage {
        RoundStage::Idle => 0,
        RoundStage::AwaitList => 1,
        RoundStage::AwaitInsert => 2,
        RoundStage::AwaitWrite(_) => 2,
        RoundStage::AwaitDelete(_) => 2,
        RoundStage::AwaitRead(_) => 3,
    }
}

/// Every round ends: a started round needs at most four replies, since each
/// awaited reply brings it closer to its end. Only the last step, the
/// answer to the list request, ends it; it leaves the window idle with the
/// input line cleared and the output set, whether or not a request failed.
pub proof fn law_round_ends(
    pre: MySQLite,
    post: MySQLite,
    reply: SqlReply,
    now: Option<Seq<char>>,
    r: Result<SqlRequest, TodoError>,
)
    requires
        my_sqlite_step(pre, post, reply, now, r),
        awaits(pre.stage(), reply),
    ensures
        pre.stage() == RoundStage::Idle && pre.state != SQLiteState::Standby ==> post.stage()
            != RoundStage::Idle && steps_left(post.stage()) <= 3 && post.state
            == SQLiteState::Standby && r is Ok,
        pre.stage() != RoundStage::Idle ==> steps_left(post.stage()) < steps_left(pre.stage()),
        pre.stage() != RoundStage::Idle ==> post.state == pre.state,
        pre.stage() != RoundStage::Idle && pre.stage() != RoundStage::AwaitList ==> r is Ok
            && post.stage() != RoundStage::Idle,
        pre.stage() == RoundStage::AwaitList ==> post.stage() == RoundStage::Idle && post.input@
            == Seq::<char>::empty() && (r is Ok ==> r == Ok::<SqlRequest, TodoError>(
            SqlRequest::Done,
        )),
{
}

/// A new todo is stored pending: the insert that an add step asks for
/// has status 0.
pub proof fn law_added_pending(
    pre: MySQLite,
    post: MySQLite,
    reply: SqlReply,
    now: Option<Seq<char>>,
    r: Result<SqlRequest, TodoError>,
)
    requires
        my_sqlite_step(pre, post, reply, now, r),
        r matches Ok(SqlRequest::Insert { .. }),
    ensures
        r matches Ok(SqlRequest::Insert { done, .. }) && done == 0,
        r matches Ok(SqlRequest::Insert { title, created_at, .. }) && title@ == pre.input@
            && now == Some(created_at@),
        pre.state == SQLiteState::Add && pre.stage() == RoundStage::Idle && reply is Start,
        trim(pre.input@).len() > 0,
        post.stage() == RoundStage::AwaitInsert && post.input == pre.input,
{
}

/// An id typed with whitespace around it is read as that id: when the
/// input line is the decimal text of an `i32` with any whitespace before
/// and after it, a delete round asks to delete that id and a toggle round
/// asks to read that id's status, with no message but the rule.
pub proof fn law_id_typed_with_spaces(
    pre: MySQLite,
    post: MySQLite,
    now: Option<Seq<char>>,
    r: Result<SqlRequest, TodoError>,
    lead: Seq<char>,
    id: i32,
    trail: Seq<char>,
)
    requires
        pre.stage() == RoundStage::Idle,
        my_sqlite_step(pre, post, SqlReply::Start, now, r),
        pre.input@ == lead + dec(id as int) + trail,
        forall|k: int| 0 <= k < lead.len() ==> is_ws(#[trigger] lead[k]),
        forall|k: int| 0 <= k < trail.len() ==> is_ws(#[trigger] trail[k]),
    ensures
        pre.state == SQLiteState::Delete ==> r == Ok::<SqlRequest, TodoError>(
            SqlRequest::Delete { id },
        ) && post.stage() == RoundStage::AwaitDelete(id) && post.message() == seq![sep_line()],
        pre.state == SQLiteState::Toggle ==> r == Ok::<SqlRequest, TodoError>(
            SqlRequest::ReadDone { id },
        ) && post.stage() == RoundStage::AwaitRead(id) && post.message() == seq![sep_line()],
{
    law_id_with_spaces(lead, id, trail);
}

/// The list keeps the query's order: for the rows read, the list is the
/// header, then one row per todo in the order given, each with its id
/// right-aligned in 4 columns, its status mark (a check mark when completed,
/// a cross when pending) centred in 5, its title left-aligned in 10 and its
/// creation time centred in 12; the error that cut the reading short comes
/// last. A query that failed lists only its error.
pub proof fn law_list_in_query_order(ts: Vec<Todo>, err: Option<String>)
    ensures
        listed_chunks(TodoRows::Read(ts, err)).len() == ts@.len() + 2 + (if err is Some {
            1int
        } else {
            0int
        }),
        listed_chunks(TodoRows::Read(ts, err))[0] == "\n ID |Status|    Title   | Created At"@.push(
            '\n',
        ),
        listed_chunks(TodoRows::Read(ts, err))[1]
            == "---------------------------------------------"@.push('\n'),
        forall|i: int|
            0 <= i < ts@.len() ==> #[trigger] listed_chunks(TodoRows::Read(ts, err))[i + 2] == (
            align_right(dec(ts@[i].id as int), 4) + "|"@ + align_center(
                if ts@[i].done {
                    "✔"@
                } else {
                    "✗"@
                },
                5,
            ) + "| "@ + align_left(ts@[i].title@, 10) + " | "@ + align_center(
                ts@[i].created_at@,
                12,
            )).push('\n'),
        err matches Some(e) ==> listed_chunks(TodoRows::Read(ts, err))[ts@.len() + 2int] == e@.push(
            '\n',
        ),
        forall|e: String| #[trigger] listed_chunks(TodoRows::Failed(e)) == seq![e@.push('\n')],
{
    let c = listed_chunks(TodoRows::Read(ts, err));
    assert forall|i: int| 0 <= i < ts@.len() implies #[trigger] c[i + 2] == todo_line(ts@[i]) by {}
}

/// Toggling twice restores the status: for a todo that is completed (1)
/// or pending (0), two toggles give back the value it had.
pub proof fn law_toggle_twice(done: i32)
    requires
        done == 0 || done == 1,
    ensures
        toggled(toggled(done)) == done,
{
}

/// The `done` column of the todo table after a status write: the write
/// changes the row it names and leaves every other row as it was; a
/// write to an id that has no row changes nothing.
pub open spec fn written(table: Map<i32, i32>, id: i32, done: i32) -> Map<i32, i32> {
    if table.contains_key(id) {
        table.insert(id, done)
    } else {
        table
    }
}

/// Two toggle rounds on the same todo restore the table: when a round
/// reads the todo's status from the table (0 or 1) and its write is
/// applied, and a second round reads the status back from the changed
/// table and its write is applied too, the table is as it was; after the
/// first round the todo's status differs from what it was.
pub proof fn law_toggle_rounds_restore(
    table: Map<i32, i32>,
    id: i32,
    pre1: MySQLite,
    post1: MySQLite,
    now1: Option<Seq<char>>,
    r1: Result<SqlRequest, TodoError>,
    pre2: MySQLite,
    post2: MySQLite,
    now2: Option<Seq<char>>,
    r2: Result<SqlRequest, TodoError>,
)
    requires
        table.contains_key(id),
        table[id] == 0 || table[id] == 1,
        pre1.stage() == RoundStage::AwaitRead(id),
        my_sqlite_step(pre1, post1, SqlReply::DoneRead(Ok(table[id])), now1, r1),
        pre2.stage() == RoundStage::AwaitRead(id),
        my_sqlite_step(
            pre2,
            post2,
            SqlReply::DoneRead(Ok(written(table, id, r1->Ok_0->WriteDone_done)[id])),
            now2,
            r2,
        ),
    ensures
        r1 matches Ok(SqlRequest::WriteDone { id: i1, done: w1 }) && i1 == id
            && written(table, id, w1)[id] != table[id],
        r2 matches Ok(SqlRequest::WriteDone { id: i2, done: w2 }) && i2 == id
            && written(written(table, id, r1->Ok_0->WriteDone_done), id, w2) == table,
{
    let w1 = toggled(table[id]);
    assert(written(written(table, id, w1), id, toggled(w1)) =~= table);
}

/// A list round shows the list and then the rule: started on `List`, and
/// answered with the rows of the query, it ends with the input line empty
/// and the output the listed rows followed by the line of `=`; it is done
/// unless the query failed.
pub proof fn law_list_round_output(
    pre: MySQLite,
    mid: MySQLite,
    post: MySQLite,
    now1: Option<Seq<char>>,
    now2: Option<Seq<char>>,
    r1: Result<SqlRequest, TodoError>,
    r2: Result<SqlRequest, TodoError>,
    rows: TodoRows,
)
    requires
        pre.stage() == RoundStage::Idle,
        pre.state == SQLiteState::List,
        my_sqlite_step(pre, mid, SqlReply::Start, now1, r1),
        my_sqlite_step(mid, post, SqlReply::Listed(rows), now2, r2),
    ensures
        r1 == Ok::<SqlRequest, TodoError>(SqlRequest::List),
        post.input@ == Seq::<char>::empty(),
        post.output@ == listed_chunks(rows).flatten()
            + "============================================="@.push('\n'),
        list_error(rows) is None ==> r2 == Ok::<SqlRequest, TodoError>(SqlRequest::Done),
        list_error(rows) matches Some(e) ==> r2 == Err::<SqlRequest, TodoError>(
            TodoError::Database(e),
        ),
{
    lemma_flatten_one(sep_line());
}

proof fn lemma_flatten_one(a: Seq<char>)
    ensures
        seq![a].flatten() == a,
{
    let one = seq![a];
    assert(one.first() == a);
    assert(one.drop_first() =~= Seq::<Seq<char>>::empty());
    assert(one.drop_first().flatten() =~= Seq::<char>::empty());
    assert(one.flatten() =~= a);
}

/// An add round that succeeds stores the typed title and reports it: with a
/// title that is not blank and a clock reading, the round asks to insert
/// the whole input line as a pending todo with that creation time, and
/// once the insert succeeds and the rows are read, the output is the list,
/// the line of `=`, and the line saying the todo was added.
pub proof fn law_add_round_output(
    pre: MySQLite,
    mid1: MySQLite,
    mid2: MySQLite,
    post: MySQLite,
    t: Seq<char>,
    now2: Option<Seq<char>>,
    now3: Option<Seq<char>>,
    r1: Result<SqlRequest, TodoError>,
    r2: Result<SqlRequest, TodoError>,
    r3: Result<SqlRequest, TodoError>,
    rows: TodoRows,
)
    requires
        pre.stage() == RoundStage::Idle,
        pre.state == SQLiteState::Add,
        trim(pre.input@).len() > 0,
        my_sqlite_step(pre, mid1, SqlReply::Start, Some(t), r1),
        my_sqlite_step(mid1, mid2, SqlReply::Inserted(Ok(())), now2, r2),
        my_sqlite_step(mid2, post, SqlReply::Listed(rows), now3, r3),
    ensures
        r1 matches Ok(SqlRequest::Insert { title, done, created_at }) && title@ == pre.input@
            && done == 0 && created_at@ == t,
        r2 == Ok::<SqlRequest, TodoError>(SqlRequest::List),
        post.input@ == Seq::<char>::empty(),
        post.output@ == listed_chunks(rows).flatten()
            + "============================================="@.push('\n')
            + "📝 Todo added successfully"@.push('\n'),
{
    let m = seq![sep_line(), added_line()];
    assert(mid2.message() =~= m);
    assert(m.drop_first() =~= seq![added_line()]);
    lemma_flatten_one(added_line());
    assert(m.flatten() =~= sep_line() + added_line());
}

} // verus!

//! The query layer: which statement each operation sends to the store, in
//! which order it asks for a connection and runs the statement, and what it
//! makes of the answer.
//!
//! Nothing here waits for the store. Every operation is a function from what
//! has happened so far (an [`Event`]) to what to do next (a [`Step`]); the
//! caller acquires the connection, runs the statement and comes back with the
//! outcome.

use vstd::prelude::*;
use vstd::string::*;
use crate::data::{Timestamp, Todo, TodoRequest, TodoUpdateRequest, TodoView};
use crate::data::todo_views;
use crate::error::{Error, ErrorView};

verus! {

/// The configuration the query layer works with. The table name and the
/// column list come from the operator, never from a request.
#[derive(Debug)]
pub struct Settings {
    /// Where the store is, as a connection URL.
    pub database_url: String,
    /// The most connections that may be open at once; 0 sets no limit.
    pub max_open: u64,
    /// The most connections kept open while unused; 0 sets no limit.
    pub max_idle: u64,
    /// How many seconds a request waits for a connection before it fails.
    pub timeout_seconds: u64,
    /// The table that holds the items.
    pub table: String,
    /// The columns a listing selects, comma-separated: `*`, or a list that
    /// names `id`, `name`, `created_at` and `checked`.
    pub select_fields: String,
}

/// The most connections that a pool can be told to hold open: the pool
/// counts them in a word of which it keeps three bits for itself.
pub open spec fn most_open() -> int {
    (usize::MAX as int) / 8
}

impl Settings {
    /// Whether a pool can be built from these settings: the wait for a
    /// connection lasts at least a second, and the limit on open connections
    /// is one that the pool can count.
    pub open spec fn valid(&self) -> bool {
        &&& self.timeout_seconds > 0
        &&& self.max_open <= most_open()
    }

    /// Whether a pool can be built from these settings.
    pub fn is_valid(&self) -> (valid: bool)
        ensures
            valid == self.valid(),
    {
        let most: usize = usize::MAX / 8;
        self.timeout_seconds > 0 && self.max_open <= most as u64
    }
}

/// `tokio_postgres::Config`: a parsed connection URL.
#[verifier::external_type_specification]
#[verifier::external_body]
pub struct ExConfig(mobc_postgres::tokio_postgres::Config);

/// The pool of connections to the store: a `mobc::Pool` of Postgres
/// connections without TLS. Nothing is known of it here but the limits it
/// was built with; connections are taken from `pool` by the caller.
#[verifier::external_body]
pub struct DBPool {
    pub pool: mobc::Pool<mobc_postgres::PgConnectionManager<mobc_postgres::tokio_postgres::NoTls>>,
}

/// The most connections that a pool was built to hold open at once; 0 for
/// no limit.
pub uninterp spec fn built_max_open(pool: DBPool) -> u64;

/// The most unused connections that a pool was built to keep; 0 for no
/// limit.
pub uninterp spec fn built_max_idle(pool: DBPool) -> u64;

/// For how many seconds a pool was built to let a request wait for a
/// connection.
pub uninterp spec fn built_timeout_seconds(pool: DBPool) -> u64;

/// The limit on unused connections that a pool gets: the one asked for, but
/// no more than a limit on open connections allows.
pub open spec fn idle_limit(max_open: u64, max_idle: u64) -> u64 {
    if max_open > 0 && max_idle > max_open {
        max_open
    } else {
        max_idle
    }
}

/// Whether `tokio_postgres::Config::from_str` accepts a connection URL.
pub uninterp spec fn config_parses(url: Seq<char>) -> bool;

/// Calls `tokio_postgres::Config::from_str`, which reads a connection URL
/// (or a key-value connection string) and touches nothing else. The result
/// is the parsed configuration where the parser accepts the text, and the
/// text of the parser's error where it does not.
#[verifier::external_body]
fn parse_config(url: &str) -> (config: Result<mobc_postgres::tokio_postgres::Config, String>)
    ensures
        config is Ok <==> config_parses(url@),
{
    match url.parse::<mobc_postgres::tokio_postgres::Config>() {
        Ok(config) => Ok(config),
        Err(error) => Err(error.to_string()),
    }
}

/// Calls `mobc::Pool::builder`, sets `max_open`, `max_idle` and
/// `get_timeout` on the builder and builds the pool over a
/// `PgConnectionManager` without TLS. Building opens no connection. The
/// builder refuses a wait of zero seconds, and the semaphore that counts the
/// open connections refuses more than `usize::MAX >> 3` of them, so both are
/// left out. The pool is
/// built with the limit on open connections and the wait as given, and with
/// the limit on unused connections lowered to the limit on open ones where
/// that is set and smaller.
#[verifier::external_body]
fn build_pool(
    config: mobc_postgres::tokio_postgres::Config,
    max_open: u64,
    max_idle: u64,
    timeout_seconds: u64,
) -> (pool: DBPool)
    requires
        timeout_seconds > 0,
        max_open <= most_open(),
    ensures
        built_max_open(pool) == max_open,
        built_max_idle(pool) == idle_limit(max_open, max_idle),
        built_timeout_seconds(pool) == timeout_seconds,
{
    let manager = mobc_postgres::PgConnectionManager::new(
        config,
        mobc_postgres::tokio_postgres::NoTls,
    );
    let pool = mobc::Pool::builder().max_open(max_open).max_idle(max_idle).get_timeout(
        Some(std::time::Duration::from_secs(timeout_seconds)),
    ).build(manager);
    DBPool { pool }
}

/// Builds the connection pool for the store at `settings.database_url`, with
/// the limits of the settings. No connection is opened yet.
///
/// The pool is built exactly where the URL is one that the driver accepts;
/// otherwise the result is the text of the driver's objection.
pub fn create_pool(settings: &Settings) -> (pool: Result<DBPool, String>)
    requires
        settings.valid(),
    ensures
        pool is Ok <==> config_parses(settings.database_url@),
        pool matches Ok(built) ==> {
            &&& built_max_open(built) == settings.max_open
            &&& built_max_idle(built) == idle_limit(settings.max_open, settings.max_idle)
            &&& built_timeout_seconds(built) == settings.timeout_seconds
        },
{
    match parse_config(settings.database_url.as_str()) {
        Ok(config) => Ok(
            build_pool(config, settings.max_open, settings.max_idle, settings.timeout_seconds),
        ),
        Err(cause) => Err(cause),
    }
}

/// A value bound to a placeholder of a statement.
#[derive(Debug)]
pub enum Param {
    Text(String),
    Flag(bool),
    Int(i32),
}

/// The mathematical content of a [`Param`].
pub enum ParamView {
    Text(Seq<char>),
    Flag(bool),
    Int(i32),
}

impl View for Param {
    type V = ParamView;

    open spec fn view(&self) -> ParamView {
        match self {
            Param::Text(text) => ParamView::Text(text@),
            Param::Flag(flag) => ParamView::Flag(*flag),
            Param::Int(number) => ParamView::Int(*number),
        }
    }
}

/// One parameterized statement: its text, in which `$1`, `$2`, ... stand for
/// the values, and the values in that order.
#[derive(Debug)]
pub struct Statement {
    pub text: String,
    pub params: Vec<Param>,
}

/// The mathematical content of a [`Statement`].
pub struct StatementView {
    pub text: Seq<char>,
    pub params: Seq<ParamView>,
}

impl View for Statement {
    type V = StatementView;

    open spec fn view(&self) -> StatementView {
        StatementView {
            text: self.text@,
            params: Seq::new(self.params@.len(), |i: int| self.params@[i]@),
        }
    }
}

/// The text that inserts one item and returns the stored row.
pub open spec fn insert_text(table: Seq<char>) -> Seq<char> {
    "INSERT INTO "@ + table + " (name) VALUES ($1) RETURNING *"@
}

/// The text that lists the items, newest first, all of them or those whose
/// name matches the pattern bound to `$1`.
pub open spec fn select_text(fields: Seq<char>, table: Seq<char>, filtered: bool) -> Seq<char> {
    "SELECT "@ + fields + " FROM "@ + table + " "@ + (if filtered {
        "WHERE name like $1"@
    } else {
        ""@
    }) + " ORDER BY created_at DESC"@
}

/// The text that replaces the name and the mark of the item with the id bound
/// to `$3`, and returns the stored row.
pub open spec fn update_text(table: Seq<char>) -> Seq<char> {
    "UPDATE "@ + table + " SET name = $1, checked = $2 WHERE id = $3 RETURNING *"@
}

/// The text that deletes the item with the id bound to `$1`.
pub open spec fn delete_text(table: Seq<char>) -> Seq<char> {
    "DELETE FROM "@ + table + " WHERE id = $1"@
}

/// The text of the liveness probe.
pub open spec fn probe_text() -> Seq<char> {
    "SELECT 1"@
}

/// One value of a row that the store returned.
#[derive(Debug)]
pub enum Cell {
    /// A 32-bit integer.
    Int(i32),
    /// A text.
    Text(String),
    /// An instant with time zone.
    Time(Timestamp),
    /// A boolean.
    Flag(bool),
    /// A null, or a value of any other type.
    Other,
}

/// The mathematical content of a [`Cell`].
pub enum CellView {
    Int(i32),
    Text(Seq<char>),
    Time(Timestamp),
    Flag(bool),
    Other,
}

impl View for Cell {
    type V = CellView;

    open spec fn view(&self) -> CellView {
        match self {
            Cell::Int(number) => CellView::Int(*number),
            Cell::Text(text) => CellView::Text(text@),
            Cell::Time(instant) => CellView::Time(*instant),
            Cell::Flag(flag) => CellView::Flag(*flag),
            Cell::Other => CellView::Other,
        }
    }
}

/// One column of a row that the store returned: its name and its value.
#[derive(Debug)]
pub struct Column {
    pub name: String,
    pub cell: Cell,
}

/// The mathematical content of a [`Column`].
pub struct ColumnView {
    pub name: Seq<char>,
    pub cell: CellView,
}

impl View for Column {
    type V = ColumnView;

    open spec fn view(&self) -> ColumnView {
        ColumnView { name: self.name@, cell: self.cell@ }
    }
}

/// A row that the store returned: its columns, in the order of the store.
#[derive(Debug)]
pub struct Row {
    pub columns: Vec<Column>,
}

impl View for Row {
    type V = Seq<ColumnView>;

    open spec fn view(&self) -> Seq<ColumnView> {
        Seq::new(self.columns@.len(), |i: int| self.columns@[i]@)
    }
}

/// The value of the first column with the given name, if there is one.
pub open spec fn cell_named(columns: Seq<ColumnView>, name: Seq<char>) -> Option<CellView>
    decreases columns.len(),
{
    if columns.len() == 0 {
        None
    } else if columns[0].name == name {
        Some(columns[0].cell)
    } else {
        cell_named(columns.skip(1), name)
    }
}

/// A column is found under its name wherever it stands, as long as no column
/// before it has the same name.
pub proof fn lemma_cell_named_is_first(columns: Seq<ColumnView>, name: Seq<char>, at: int)
    requires
        0 <= at < columns.len(),
        columns[at].name == name,
        forall|j: int| 0 <= j < at ==> (#[trigger] columns[j]).name != name,
    ensures
        cell_named(columns, name) == Some(columns[at].cell),
    decreases at,
{
    if at > 0 {
        let rest = columns.skip(1);
        assert(columns[0].name != name);
        assert(rest[at - 1] == columns[at]);
        assert forall|j: int| 0 <= j < at - 1 implies (#[trigger] rest[j]).name != name by {
            assert(rest[j] == columns[j + 1]);
        }
        lemma_cell_named_is_first(rest, name, at - 1);
    }
}

/// Under a name that no column has, nothing is found.
pub proof fn lemma_cell_named_is_absent(columns: Seq<ColumnView>, name: Seq<char>)
    requires
        forall|j: int| 0 <= j < columns.len() ==> (#[trigger] columns[j]).name != name,
    ensures
        cell_named(columns, name) is None,
    decreases columns.len(),
{
    if columns.len() > 0 {
        let rest = columns.skip(1);
        assert(columns[0].name != name);
        assert forall|j: int| 0 <= j < rest.len() implies (#[trigger] rest[j]).name != name by {
            assert(rest[j] == columns[j + 1]);
        }
        lemma_cell_named_is_absent(rest, name);
    }
}

/// The item that a row holds, read by the names of its columns: `id` an
/// integer, `name` a text that is not empty, `created_at` an instant and
/// `checked` a boolean. A row that lacks one of them, or holds another kind
/// of value or a null under one of these names, holds no item. Where the
/// columns stand in the row, and what other columns there are, plays no
/// part.
pub open spec fn todo_of_row(columns: Seq<ColumnView>) -> Option<TodoView> {
    match (
        cell_named(columns, "id"@),
        cell_named(columns, "name"@),
        cell_named(columns, "created_at"@),
        cell_named(columns, "checked"@),
    ) {
        (
            Some(CellView::Int(id)),
            Some(CellView::Text(name)),
            Some(CellView::Time(created_at)),
            Some(CellView::Flag(checked)),
        ) => if name.len() > 0 {
            Some(TodoView { id, name, created_at, checked })
        } else {
            None
        },
        _ => None,
    }
}

/// The items that rows hold, in the same order, where every row holds one.
pub open spec fn todos_of_rows(rows: Seq<Row>) -> Option<Seq<TodoView>> {
    if forall|i: int| 0 <= i < rows.len() ==> todo_of_row(#[trigger] rows[i]@) is Some {
        Some(Seq::new(rows.len(), |i: int| todo_of_row(rows[i]@)->0))
    } else {
        None
    }
}

/// The cause that is reported for a row that holds no item.
pub open spec fn no_todo_text() -> Seq<char> {
    "the row holds no todo"@
}

/// What an operation makes of a row: the item it holds, or the failure of
/// the statement that returned a row without one.
pub open spec fn row_outcome(columns: Seq<ColumnView>) -> Result<TodoView, ErrorView> {
    match todo_of_row(columns) {
        Some(todo) => Ok(todo),
        None => Err(ErrorView::DBQuery(no_todo_text())),
    }
}

/// What an operation makes of rows: the items they hold, or the failure of
/// the statement that returned a row without one.
pub open spec fn rows_outcome(rows: Seq<Row>) -> Result<Seq<TodoView>, ErrorView> {
    match todos_of_rows(rows) {
        Some(todos) => Ok(todos),
        None => Err(ErrorView::DBQuery(no_todo_text())),
    }
}

/// Finds the value of the first column with the given name.
fn find_cell<'a>(row: &'a Row, name: &str) -> (found: Option<&'a Cell>)
    ensures
        match cell_named(row@, name@) {
            Some(cell) => found matches Some(held) && held@ == cell,
            None => found is None,
        },
{
    let wanted = String::from_str(name);
    let ghost all = row@;
    let mut i: usize = 0;
    assert(all.skip(0) == all);
    while i < row.columns.len()
        invariant
            i <= row.columns@.len(),
            all == row@,
            wanted@ == name@,
            cell_named(all, name@) == cell_named(all.skip(i as int), name@),
        decreases row.columns@.len() - i,
    {
        let ghost rest = all.skip(i as int);
        proof {
            assert(rest[0] == row.columns@[i as int]@);
            assert(rest.skip(1) == all.skip(i + 1));
        }
        if row.columns[i].name == wanted {
            return Some(&row.columns[i].cell);
        }
        i += 1;
    }
    None
}

/// Reads the item that a row holds, by the names of its columns. A row that
/// holds none gives none: no field is ever taken from a column of another
/// name or kind.
pub fn row_to_todo(row: &Row) -> (todo: Option<Todo>)
    ensures
        match todo_of_row(row@) {
            Some(held) => todo matches Some(read) && read@ == held,
            None => todo is None,
        },
        todo matches Some(read) ==> read@.valid(),
{
    let id = match find_cell(row, "id") {
        Some(Cell::Int(number)) => *number,
        _ => {
            return None;
        },
    };
    let name = match find_cell(row, "name") {
        Some(Cell::Text(text)) => text,
        _ => {
            return None;
        },
    };
    let created_at = match find_cell(row, "created_at") {
        Some(Cell::Time(instant)) => *instant,
        _ => {
            return None;
        },
    };
    let checked = match find_cell(row, "checked") {
        Some(Cell::Flag(flag)) => *flag,
        _ => {
            return None;
        },
    };
    if name.as_str().is_empty() {
        return None;
    }
    Some(Todo { id, name: name.clone(), created_at, checked })
}

/// The failure that is reported for a row that holds no item.
fn no_todo() -> (error: Error)
    ensures
        error@ == ErrorView::DBQuery(no_todo_text()),
{
    Error::DBQuery(String::from_str("the row holds no todo"))
}

/// What has happened so far in one store operation. `R` is what the statement
/// of the operation returns when it succeeds.
#[derive(Debug)]
pub enum Event<R> {
    /// Nothing yet.
    Start,
    /// The pool was asked for a connection and gave one, or failed with the
    /// given cause.
    Acquired(Result<(), String>),
    /// The statement was run on the connection and returned, or failed with
    /// the given cause.
    Ran(Result<R, String>),
}

/// What to do next in one store operation. `T` is what the operation yields,
/// `E` how it fails.
#[derive(Debug)]
pub enum Step<T, E> {
    /// Ask the pool for a connection and come back with `Event::Acquired`.
    Acquire,
    /// Run this statement on the connection and come back with `Event::Ran`.
    Run(Statement),
    /// The operation is over, with this result.
    Done(Result<T, E>),
}

/// The statement that `create_todo` runs.
pub open spec fn insert_statement(table: Seq<char>, name: Seq<char>) -> StatementView {
    StatementView { text: insert_text(table), params: seq![ParamView::Text(name)] }
}

/// The statement that `fetch_todos` runs.
pub open spec fn select_statement(
    fields: Seq<char>,
    table: Seq<char>,
    search: Option<Seq<char>>,
) -> StatementView {
    StatementView {
        text: select_text(fields, table, search is Some),
        params: match search {
            Some(pattern) => seq![ParamView::Text(pattern)],
            None => seq![],
        },
    }
}

/// The statement that `update_todo` runs.
pub open spec fn update_statement(
    table: Seq<char>,
    id: i32,
    name: Seq<char>,
    checked: bool,
) -> StatementView {
    StatementView {
        text: update_text(table),
        params: seq![ParamView::Text(name), ParamView::Flag(checked), ParamView::Int(id)],
    }
}

/// The statement that `delete_todo` runs.
pub open spec fn delete_statement(table: Seq<char>, id: i32) -> StatementView {
    StatementView { text: delete_text(table), params: seq![ParamView::Int(id)] }
}

/// The statement of the liveness probe.
pub open spec fn probe_statement() -> StatementView {
    StatementView { text: probe_text(), params: seq![] }
}

/// The statement that applies a schema script.
pub open spec fn script_statement(script: Seq<char>) -> StatementView {
    StatementView { text: script, params: seq![] }
}

/// No statement holds a value of a request in its text: the text is made of
/// the configured table and columns and of fixed words, and the values
/// travel beside it, each bound to its placeholder.
pub proof fn lemma_text_ignores_values(
    fields: Seq<char>,
    table: Seq<char>,
    id: i32,
    name: Seq<char>,
    checked: bool,
    other_id: i32,
    other_name: Seq<char>,
    other_checked: bool,
)
    ensures
        insert_statement(table, name).text == insert_statement(table, other_name).text,
        select_statement(fields, table, Some(name)).text == select_statement(
            fields,
            table,
            Some(other_name),
        ).text,
        update_statement(table, id, name, checked).text == update_statement(
            table,
            other_id,
            other_name,
            other_checked,
        ).text,
        delete_statement(table, id).text == delete_statement(table, other_id).text,
{
}

/// The course that every one-statement operation takes: first a connection,
/// then `statement`, then the end. A connection that could not be had ends
/// the operation with `DBPoolConnection`, a statement that failed with
/// `DBQuery`, each with the cause it was given, and a statement that
/// returned ends it.
pub open spec fn proceeds<R, T>(
    event: Event<R>,
    step: Step<T, Error>,
    statement: StatementView,
) -> bool {
    match event {
        Event::Start => step is Acquire,
        Event::Acquired(Ok(_)) => step matches Step::Run(run) && run@ == statement,
        Event::Acquired(Err(cause)) => step matches Step::Done(Err(error)) && error@
            == ErrorView::DBPoolConnection(cause@),
        Event::Ran(Ok(_)) => step is Done,
        Event::Ran(Err(cause)) => step matches Step::Done(Err(error)) && error@
            == ErrorView::DBQuery(cause@),
    }
}

/// How an operation ends on a row: with the item that the row holds, or
/// with the failure for a row that holds none.
pub open spec fn ends_with_row(row: Seq<ColumnView>, step: Step<Todo, Error>) -> bool {
    match row_outcome(row) {
        Ok(held) => step matches Step::Done(Ok(todo)) && todo@ == held,
        Err(failure) => step matches Step::Done(Err(error)) && error@ == failure,
    }
}

/// Ends an operation on the row that its statement returned.
fn end_with_row(row: &Row) -> (step: Step<Todo, Error>)
    ensures
        ends_with_row(row@, step),
{
    match row_to_todo(row) {
        Some(todo) => Step::Done(Ok(todo)),
        None => Step::Done(Err(no_todo())),
    }
}

fn text_param(text: &String) -> (params: Vec<Param>)
    ensures
        params@.len() == 1,
        params@[0]@ == ParamView::Text(text@),
{
    let mut params: Vec<Param> = Vec::new();
    params.push(Param::Text(text.clone()));
    params
}

fn insert_of(table: &String, name: &String) -> (statement: Statement)
    ensures
        statement@ == insert_statement(table@, name@),
{
    let mut text = String::from_str("INSERT INTO ");
    text.append(table.as_str());
    text.append(" (name) VALUES ($1) RETURNING *");
    let statement = Statement { text, params: text_param(name) };
    assert(statement@.params =~= insert_statement(table@, name@).params);
    statement
}

fn select_of(fields: &String, table: &String, search: &Option<String>) -> (statement: Statement)
    ensures
        statement@ == select_statement(
            fields@,
            table@,
            match search {
                Some(pattern) => Some(pattern@),
                None => None,
            },
        ),
{
    let where_clause = match search {
        Some(_) => "WHERE name like $1",
        None => "",
    };
    let mut text = String::from_str("SELECT ");
    text.append(fields.as_str());
    text.append(" FROM ");
    text.append(table.as_str());
    text.append(" ");
    text.append(where_clause);
    text.append(" ORDER BY created_at DESC");
    let params = match search {
        Some(pattern) => text_param(pattern),
        None => Vec::new(),
    };
    let statement = Statement { text, params };
    assert(statement@.params =~= select_statement(
        fields@,
        table@,
        match search {
            Some(pattern) => Some(pattern@),
            None => None,
        },
    ).params);
    statement
}

fn update_of(table: &String, id: i32, name: &String, checked: bool) -> (statement: Statement)
    ensures
        statement@ == update_statement(table@, id, name@, checked),
{
    let mut text = String::from_str("UPDATE ");
    text.append(table.as_str());
    text.append(" SET name = $1, checked = $2 WHERE id = $3 RETURNING *");
    let mut params = text_param(name);
    params.push(Param::Flag(checked));
    params.push(Param::Int(id));
    let statement = Statement { text, params };
    assert(statement@.params =~= update_statement(table@, id, name@, checked).params);
    statement
}

fn delete_of(table: &String, id: i32) -> (statement: Statement)
    ensures
        statement@ == delete_statement(table@, id),
{
    let mut text = String::from_str("DELETE FROM ");
    text.append(table.as_str());
    text.append(" WHERE id = $1");
    let mut params: Vec<Param> = Vec::new();
    params.push(Param::Int(id));
    let statement = Statement { text, params };
    assert(statement@.params =~= delete_statement(table@, id).params);
    statement
}

/// The statement of the liveness probe: it touches no table and returns no
/// row that anyone reads.
pub fn probe() -> (statement: Statement)
    ensures
        statement@ == probe_statement(),
{
    let statement = Statement { text: String::from_str("SELECT 1"), params: Vec::new() };
    assert(statement@.params =~= probe_statement().params);
    statement
}

/// Makes of the pool's answer the connection, or the error of this crate that
/// says that none could be had.
pub fn get_db_con<C>(acquired: Result<C, String>) -> (connection: Result<C, Error>)
    ensures
        match acquired {
            Ok(held) => connection == Ok::<C, Error>(held),
            Err(cause) => connection matches Err(error) && error@ == ErrorView::DBPoolConnection(
                cause@,
            ),
        },
{
    match acquired {
        Ok(held) => Ok(held),
        Err(cause) => Err(Error::DBPoolConnection(cause)),
    }
}

/// Applies the schema script once, at startup.
///
/// `script` is what reading the script file gave: its text, or the cause for
/// which it could not be read. Without the text the operation ends at once
/// with `ReadFile` and asks for no connection. With it, it takes a
/// connection, runs the whole text as one statement without values, and ends
/// well, or with `DBPoolConnection` or `DBInit`.
pub fn init_db(script: &Result<String, String>, event: Event<()>) -> (step: Step<(), Error>)
    ensures
        match (script, event) {
            (Err(cause), _) => step matches Step::Done(Err(error)) && error@ == ErrorView::ReadFile(
                cause@,
            ),
            (Ok(_), Event::Start) => step is Acquire,
            (Ok(text), Event::Acquired(Ok(_))) => step matches Step::Run(run) && run@
                == script_statement(text@),
            (Ok(_), Event::Acquired(Err(cause))) => step matches Step::Done(Err(error)) && error@
                == ErrorView::DBPoolConnection(cause@),
            (Ok(_), Event::Ran(Ok(_))) => step matches Step::Done(Ok(_)),
            (Ok(_), Event::Ran(Err(cause))) => step matches Step::Done(Err(error)) && error@
                == ErrorView::DBInit(cause@),
        },
{
    let text = match script {
        Ok(text) => text,
        Err(cause) => {
            return Step::Done(Err(Error::ReadFile(cause.clone())));
        },
    };
    match event {
        Event::Start => Step::Acquire,
        Event::Acquired(acquired) => match get_db_con(acquired) {
            Ok(_) => {
                let statement = Statement { text: text.clone(), params: Vec::new() };
                assert(statement@.params =~= script_statement(text@).params);
                Step::Run(statement)
            },
            Err(error) => Step::Done(Err(error)),
        },
        Event::Ran(Ok(_)) => Step::Done(Ok(())),
        Event::Ran(Err(cause)) => Step::Done(Err(Error::DBInit(cause))),
    }
}

/// Inserts one item with the given name and yields the row as stored, with
/// the id and the creation time that the store assigned.
///
/// The name is not empty. The statement is to return exactly one row; the
/// caller reports anything else as a failure of the statement. A row that
/// holds no item ends the operation with `DBQuery`.
pub fn create_todo(settings: &Settings, body: &TodoRequest, event: Event<Row>) -> (step: Step<
    Todo,
    Error,
>)
    requires
        body.valid(),
    ensures
        proceeds(event, step, insert_statement(settings.table@, body.name@)),
        event matches Event::Ran(Ok(row)) ==> ends_with_row(row@, step),
        step matches Step::Done(Ok(todo)) ==> todo@.valid(),
{
    match event {
        Event::Start => Step::Acquire,
        Event::Acquired(acquired) => match get_db_con(acquired) {
            Ok(_) => Step::Run(insert_of(&settings.table, &body.name)),
            Err(error) => Step::Done(Err(error)),
        },
        Event::Ran(Ok(row)) => end_with_row(&row),
        Event::Ran(Err(cause)) => Step::Done(Err(Error::DBQuery(cause))),
    }
}

/// Reads the items that rows hold, in the same order; one row that holds
/// none fails them all.
fn rows_to_todos(rows: &Vec<Row>) -> (read: Result<Vec<Todo>, Error>)
    ensures
        match rows_outcome(rows@) {
            Ok(held) => read matches Ok(todos) && todo_views(todos@) == held,
            Err(failure) => read matches Err(error) && error@ == failure,
        },
        read matches Ok(todos) ==> forall|i: int|
            0 <= i < todos@.len() ==> (#[trigger] todos@[i])@.valid(),
{
    let mut todos: Vec<Todo> = Vec::new();
    let mut i: usize = 0;
    while i < rows.len()
        invariant
            i <= rows@.len(),
            todos@.len() == i,
            forall|j: int| 0 <= j < i ==> todo_of_row(#[trigger] rows@[j]@) is Some,
            forall|j: int| 0 <= j < i ==> (#[trigger] todos@[j])@ == todo_of_row(rows@[j]@)->0,
            forall|j: int| 0 <= j < i ==> (#[trigger] todos@[j])@.valid(),
        decreases rows@.len() - i,
    {
        match row_to_todo(&rows[i]) {
            Some(todo) => {
                todos.push(todo);
            },
            None => {
                assert(todo_of_row(rows@[i as int]@) is None);
                return Err(no_todo());
            },
        }
        i += 1;
    }
    assert(todo_views(todos@) =~= todos_of_rows(rows@)->0);
    Ok(todos)
}

/// Lists the items, newest first: all of them, or those whose name matches
/// `search`. The rows come from one statement, and the items are theirs, in
/// the order in which the store returned them. One row that holds no item
/// ends the operation with `DBQuery`.
pub fn fetch_todos(settings: &Settings, search: &Option<String>, event: Event<Vec<Row>>) -> (step:
    Step<Vec<Todo>, Error>)
    ensures
        proceeds(
            event,
            step,
            select_statement(
                settings.select_fields@,
                settings.table@,
                match search {
                    Some(pattern) => Some(pattern@),
                    None => None,
                },
            ),
        ),
        event matches Event::Ran(Ok(rows)) ==> match rows_outcome(rows@) {
            Ok(held) => step matches Step::Done(Ok(todos)) && todo_views(todos@) == held,
            Err(failure) => step matches Step::Done(Err(error)) && error@ == failure,
        },
        step matches Step::Done(Ok(todos)) ==> forall|i: int|
            0 <= i < todos@.len() ==> (#[trigger] todos@[i])@.valid(),
{
    match event {
        Event::Start => Step::Acquire,
        Event::Acquired(acquired) => match get_db_con(acquired) {
            Ok(_) => Step::Run(select_of(&settings.select_fields, &settings.table, search)),
            Err(error) => Step::Done(Err(error)),
        },
        Event::Ran(Ok(rows)) => Step::Done(rows_to_todos(&rows)),
        Event::Ran(Err(cause)) => Step::Done(Err(Error::DBQuery(cause))),
    }
}

/// Replaces the name and the mark of the item with the given id and yields
/// the row as stored. Neither the id nor the creation time is written.
///
/// The name is not empty. The statement is to return exactly one row. Where
/// no item has the id, the store returns none, the caller reports that as a
/// failure of the statement, and the operation ends with `DBQuery`; so it
/// does on a row that holds no item.
pub fn update_todo(settings: &Settings, id: i32, body: &TodoUpdateRequest, event: Event<Row>) -> (step:
    Step<Todo, Error>)
    requires
        body.valid(),
    ensures
        proceeds(event, step, update_statement(settings.table@, id, body.name@, body.checked)),
        event matches Event::Ran(Ok(row)) ==> ends_with_row(row@, step),
        step matches Step::Done(Ok(todo)) ==> todo@.valid(),
{
    match event {
        Event::Start => Step::Acquire,
        Event::Acquired(acquired) => match get_db_con(acquired) {
            Ok(_) => Step::Run(update_of(&settings.table, id, &body.name, body.checked)),
            Err(error) => Step::Done(Err(error)),
        },
        Event::Ran(Ok(row)) => end_with_row(&row),
        Event::Ran(Err(cause)) => Step::Done(Err(Error::DBQuery(cause))),
    }
}

/// Deletes the item with the given id and yields the number of rows that the
/// store says it deleted. That no row had the id is no failure.
pub fn delete_todo(settings: &Settings, id: i32, event: Event<u64>) -> (step: Step<u64, Error>)
    ensures
        proceeds(event, step, delete_statement(settings.table@, id)),
        event matches Event::Ran(Ok(count)) ==> step matches Step::Done(Ok(deleted)) && deleted
            == count,
{
    match event {
        Event::Start => Step::Acquire,
        Event::Acquired(acquired) => match get_db_con(acquired) {
            Ok(_) => Step::Run(delete_of(&settings.table, id)),
            Err(error) => Step::Done(Err(error)),
        },
        Event::Ran(Ok(count)) => Step::Done(Ok(count)),
        Event::Ran(Err(cause)) => Step::Done(Err(Error::DBQuery(cause))),
    }
}

} // verus!

//! The handlers: one per route. Each runs one operation of the query layer
//! and turns what it yields into the answer for the client, or into the
//! rejection that the error translation answers.

use vstd::prelude::*;
use crate::data::{Todo, TodoRequest, TodoResponse, TodoUpdateRequest, TodoView};
use crate::data::response_views;
use crate::db;
use crate::db::{ColumnView, Event, Row, Settings, StatementView, Step};
use crate::error::{rejected, verdict, Cause, CauseView, Error, ErrorView, Rejection, Verdict, OK};

verus! {

/// The query string of a listing: an optional pattern for the name.
#[derive(Debug)]
pub struct SearchQuery {
    pub search: Option<String>,
}

impl SearchQuery {
    /// The pattern, as the contracts speak of it.
    pub open spec fn pattern(&self) -> Option<Seq<char>> {
        match self.search {
            Some(pattern) => Some(pattern@),
            None => None,
        }
    }
}

/// What a handler answers when all went well: always with status 200.
#[derive(Debug)]
pub enum Reply {
    /// No body.
    Empty,
    /// One item, as a JSON object.
    Todo(TodoResponse),
    /// Items, as a JSON array in this order.
    Todos(Vec<TodoResponse>),
}

/// The mathematical content of a [`Reply`].
pub enum ReplyView {
    Empty,
    Todo(TodoView),
    Todos(Seq<TodoView>),
}

impl View for Reply {
    type V = ReplyView;

    open spec fn view(&self) -> ReplyView {
        match self {
            Reply::Empty => ReplyView::Empty,
            Reply::Todo(response) => ReplyView::Todo(response@),
            Reply::Todos(responses) => ReplyView::Todos(response_views(responses@)),
        }
    }
}

impl Reply {
    /// The HTTP status that every reply is sent with.
    pub fn status(&self) -> (status: u16)
        ensures
            status == OK,
    {
        OK
    }
}

/// The course that every handler takes: first a connection, then
/// `statement`, then the end. A connection that could not be had rejects the
/// request with `DBPoolConnection`, a statement that failed with `DBQuery`,
/// each with the cause it was given, and a statement that succeeded is
/// returned ends the request.
pub open spec fn handles<R>(
    event: Event<R>,
    step: Step<Reply, Rejection>,
    statement: StatementView,
) -> bool {
    match event {
        Event::Start => step is Acquire,
        Event::Acquired(Ok(_)) => step matches Step::Run(run) && run@ == statement,
        Event::Acquired(Err(cause)) => step matches Step::Done(Err(rejection)) && rejection@
            == rejected(ErrorView::DBPoolConnection(cause@)),
        Event::Ran(Ok(_)) => step is Done,
        Event::Ran(Err(cause)) => step matches Step::Done(Err(rejection)) && rejection@ == rejected(
            ErrorView::DBQuery(cause@),
        ),
    }
}

/// How a handler ends on a row: it answers with the item that the row holds,
/// or rejects the request with the failure for a row that holds none.
pub open spec fn answers_row(row: Seq<ColumnView>, step: Step<Reply, Rejection>) -> bool {
    match db::row_outcome(row) {
        Ok(held) => step matches Step::Done(Ok(reply)) && reply@ == ReplyView::Todo(held),
        Err(failure) => step matches Step::Done(Err(rejection)) && rejection@ == rejected(failure),
    }
}

/// The rejection of a request whose body has not the expected shape.
pub open spec fn invalid_body() -> Seq<CauseView> {
    seq![CauseView::InvalidBody]
}

/// Turns the end of an operation that yields an item into the end of the
/// request.
fn answer_with_item(step: Step<Todo, Error>) -> (answered: Step<Reply, Rejection>)
    ensures
        match step {
            Step::Acquire => answered is Acquire,
            Step::Run(statement) => answered matches Step::Run(run) && run@ == statement@,
            Step::Done(Ok(todo)) => answered matches Step::Done(Ok(reply)) && reply@
                == ReplyView::Todo(todo@),
            Step::Done(Err(error)) => answered matches Step::Done(Err(rejection)) && rejection@
                == rejected(error@),
        },
{
    match step {
        Step::Acquire => Step::Acquire,
        Step::Run(statement) => Step::Run(statement),
        Step::Done(Ok(todo)) => Step::Done(Ok(Reply::Todo(TodoResponse::of(todo)))),
        Step::Done(Err(error)) => Step::Done(Err(Rejection::custom(error))),
    }
}

/// A request whose statement failed is answered with "Could not Execute
/// request" and status 400, whatever the handler and whatever the cause: an
/// update of an id that no item has, too.
pub proof fn lemma_failed_statement_is_bad_request<R>(
    event: Event<R>,
    step: Step<Reply, Rejection>,
    statement: StatementView,
)
    requires
        handles(event, step, statement),
        event matches Event::Ran(Err(_)),
    ensures
        step matches Step::Done(Err(rejection)) && verdict(rejection@) == Verdict::QueryFailed,
        Verdict::QueryFailed.status() == 400,
        Verdict::QueryFailed.message() == "Could not Execute request"@,
{
    let rejection = step->Done_0->Err_0;
    crate::error::lemma_single_failure(rejection@[0]->Application_0);
}

/// A request whose body has not the expected shape, an empty name too, is
/// answered with "Invalid Body" and status 400.
pub proof fn lemma_invalid_body_is_bad_request()
    ensures
        verdict(invalid_body()) == Verdict::InvalidBody,
        Verdict::InvalidBody.status() == 400,
        Verdict::InvalidBody.message() == "Invalid Body"@,
{
    assert(invalid_body()[0] == CauseView::InvalidBody);
}

/// A request whose statement returned a row that holds no item is answered
/// like one whose statement failed: no item is made up from it.
pub proof fn lemma_row_without_item_is_bad_request(
    row: Seq<ColumnView>,
    step: Step<Reply, Rejection>,
)
    requires
        answers_row(row, step),
        db::todo_of_row(row) is None,
    ensures
        step matches Step::Done(Err(rejection)) && verdict(rejection@) == Verdict::QueryFailed,
{
    crate::error::lemma_single_failure(ErrorView::DBQuery(db::no_todo_text()));
}

/// A request for which the pool had no connection is answered with "Internal
/// Server Error" and status 500, whatever the handler and whatever the
/// cause: no request waits without end.
pub proof fn lemma_no_connection_is_internal<R>(
    event: Event<R>,
    step: Step<Reply, Rejection>,
    statement: StatementView,
)
    requires
        handles(event, step, statement),
        event matches Event::Acquired(Err(_)),
    ensures
        step matches Step::Done(Err(rejection)) && verdict(rejection@) == Verdict::Internal,
        Verdict::Internal.status() == 500,
        Verdict::Internal.message() == "Internal Server Error"@,
{
    let rejection = step->Done_0->Err_0;
    crate::error::lemma_single_failure(rejection@[0]->Application_0);
}

/// Proves that the store answers: takes a connection and runs the probe on
/// it. Whatever the probe returns, the reply is empty.
pub fn health_handler(event: Event<u64>) -> (step: Step<Reply, Rejection>)
    ensures
        handles(event, step, db::probe_statement()),
        event matches Event::Ran(Ok(_)) ==> step matches Step::Done(Ok(reply)) && reply@
            == ReplyView::Empty,
{
    match event {
        Event::Start => Step::Acquire,
        Event::Acquired(acquired) => match db::get_db_con(acquired) {
            Ok(_) => Step::Run(db::probe()),
            Err(error) => Step::Done(Err(Rejection::custom(error))),
        },
        Event::Ran(Ok(_)) => Step::Done(Ok(Reply::Empty)),
        Event::Ran(Err(cause)) => Step::Done(Err(Rejection::custom(Error::DBQuery(cause)))),
    }
}

/// Creates an item and answers with it as stored. A body whose name is
/// empty has not the expected shape: the request is rejected at once, and
/// the store is not asked.
pub fn create_todo_handler(settings: &Settings, body: &TodoRequest, event: Event<Row>) -> (step:
    Step<Reply, Rejection>)
    ensures
        !body.valid() ==> (step matches Step::Done(Err(rejection)) && rejection@
            == invalid_body()),
        body.valid() ==> handles(event, step, db::insert_statement(settings.table@, body.name@)),
        body.valid() ==> (event matches Event::Ran(Ok(row)) ==> answers_row(row@, step)),
        step matches Step::Done(Ok(reply)) ==> (reply@ matches ReplyView::Todo(item)
            && item.valid()),
{
    if !body.is_valid() {
        return Step::Done(Err(Rejection::because(Cause::InvalidBody)));
    }
    answer_with_item(db::create_todo(settings, body, event))
}

/// Lists the items, all or those that match the query, and answers with
/// them in the order in which the store returned them. No match is an empty
/// list, not a failure.
pub fn list_todos_handler(settings: &Settings, query: &SearchQuery, event: Event<Vec<Row>>) -> (step:
    Step<Reply, Rejection>)
    ensures
        handles(
            event,
            step,
            db::select_statement(settings.select_fields@, settings.table@, query.pattern()),
        ),
        event matches Event::Ran(Ok(rows)) ==> match db::rows_outcome(rows@) {
            Ok(held) => step matches Step::Done(Ok(reply)) && reply@ == ReplyView::Todos(held),
            Err(failure) => step matches Step::Done(Err(rejection)) && rejection@ == rejected(
                failure,
            ),
        },
{
    match db::fetch_todos(settings, &query.search, event) {
        Step::Acquire => Step::Acquire,
        Step::Run(statement) => Step::Run(statement),
        Step::Done(Ok(todos)) => {
            let ghost stored = todos@;
            let mut responses: Vec<TodoResponse> = Vec::new();
            for todo in items: todos
                invariant
                    items.seq() == stored,
                    responses@.len() == items.index(),
                    forall|j: int| 0 <= j < responses@.len() ==> (#[trigger] responses@[j])@
                        == stored[j]@,
            {
                responses.push(TodoResponse::of(todo));
            }
            assert(response_views(responses@) =~= crate::data::todo_views(stored));
            Step::Done(Ok(Reply::Todos(responses)))
        },
        Step::Done(Err(error)) => Step::Done(Err(Rejection::custom(error))),
    }
}

/// Replaces the name and the mark of the item with the given id and answers
/// with it as stored. An id that no item has is a failed statement, and
/// rejects the request with `DBQuery`. A body whose name is empty has not
/// the expected shape: the request is rejected at once, and the store is not
/// asked.
pub fn update_todo_handler(
    settings: &Settings,
    id: i32,
    body: &TodoUpdateRequest,
    event: Event<Row>,
) -> (step: Step<Reply, Rejection>)
    ensures
        !body.valid() ==> (step matches Step::Done(Err(rejection)) && rejection@
            == invalid_body()),
        body.valid() ==> handles(
            event,
            step,
            db::update_statement(settings.table@, id, body.name@, body.checked),
        ),
        body.valid() ==> (event matches Event::Ran(Ok(row)) ==> answers_row(row@, step)),
        step matches Step::Done(Ok(reply)) ==> (reply@ matches ReplyView::Todo(item)
            && item.valid()),
{
    if !body.is_valid() {
        return Step::Done(Err(Rejection::because(Cause::InvalidBody)));
    }
    answer_with_item(db::update_todo(settings, id, body, event))
}

/// Deletes the item with the given id. However many rows the store says it
/// deleted, none included, the reply is empty.
pub fn delete_todo_handler(settings: &Settings, id: i32, event: Event<u64>) -> (step: Step<
    Reply,
    Rejection,
>)
    ensures
        handles(event, step, db::delete_statement(settings.table@, id)),
        event matches Event::Ran(Ok(_)) ==> step matches Step::Done(Ok(reply)) && reply@
            == ReplyView::Empty,
{
    match db::delete_todo(settings, id, event) {
        Step::Acquire => Step::Acquire,
        Step::Run(statement) => Step::Run(statement),
        Step::Done(Ok(_)) => Step::Done(Ok(Reply::Empty)),
        Step::Done(Err(error)) => Step::Done(Err(Rejection::custom(error))),
    }
}

} // verus!

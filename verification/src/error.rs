//! The closed set of failures and their translation to HTTP answers.

use vstd::prelude::*;
use vstd::string::*;

verus! {

/// Everything that can go wrong below the HTTP layer. Each kind carries the
/// text of its underlying cause.
#[derive(Debug)]
pub enum Error {
    /// The pool handed out no connection: it was exhausted, timed out or closed.
    DBPoolConnection(String),
    /// The store rejected or failed a statement, or returned no row where one
    /// was expected.
    DBQuery(String),
    /// The schema script could not be applied.
    DBInit(String),
    /// A required file could not be read.
    ReadFile(String),
}

/// The mathematical content of an [`Error`].
pub enum ErrorView {
    DBPoolConnection(Seq<char>),
    DBQuery(Seq<char>),
    DBInit(Seq<char>),
    ReadFile(Seq<char>),
}

impl ErrorView {
    /// The text of the underlying cause.
    pub open spec fn cause(self) -> Seq<char> {
        match self {
            ErrorView::DBPoolConnection(cause) => cause,
            ErrorView::DBQuery(cause) => cause,
            ErrorView::DBInit(cause) => cause,
            ErrorView::ReadFile(cause) => cause,
        }
    }

    /// What introduces the cause in the rendered message.
    pub open spec fn prefix(self) -> Seq<char> {
        match self {
            ErrorView::DBPoolConnection(_) => "error getting connection from DB pool: "@,
            ErrorView::DBQuery(_) => "error executing DB query: "@,
            ErrorView::DBInit(_) => "error creating table: "@,
            ErrorView::ReadFile(_) => "error reading file: "@,
        }
    }

    /// The rendered message: the kind's prefix, then the cause.
    pub open spec fn message(self) -> Seq<char> {
        self.prefix() + self.cause()
    }
}

impl View for Error {
    type V = ErrorView;

    open spec fn view(&self) -> ErrorView {
        match self {
            Error::DBPoolConnection(cause) => ErrorView::DBPoolConnection(cause@),
            Error::DBQuery(cause) => ErrorView::DBQuery(cause@),
            Error::DBInit(cause) => ErrorView::DBInit(cause@),
            Error::ReadFile(cause) => ErrorView::ReadFile(cause@),
        }
    }
}

impl Error {
    /// A human-readable rendering, for logs. It never reaches a client.
    pub fn message(&self) -> (text: String)
        ensures
            text@ == self@.message(),
    {
        match self {
            Error::DBPoolConnection(cause) => {
                String::from_str("error getting connection from DB pool: ").concat(cause.as_str())
            },
            Error::DBQuery(cause) => {
                String::from_str("error executing DB query: ").concat(cause.as_str())
            },
            Error::DBInit(cause) => {
                String::from_str("error creating table: ").concat(cause.as_str())
            },
            Error::ReadFile(cause) => {
                String::from_str("error reading file: ").concat(cause.as_str())
            },
        }
    }
}

/// HTTP status of a request that was answered.
pub const OK: u16 = 200;

/// HTTP status of a request the store could not execute, or whose body did
/// not decode.
pub const BAD_REQUEST: u16 = 400;

/// HTTP status of a request for a path that is not served.
pub const NOT_FOUND: u16 = 404;

/// HTTP status of a request for a served path with a method it does not take.
pub const METHOD_NOT_ALLOWED: u16 = 405;

/// HTTP status of every other failure.
pub const INTERNAL_SERVER_ERROR: u16 = 500;

/// One reason for which a request was turned away.
#[derive(Debug)]
pub enum Cause {
    /// The body did not decode into the shape the route expects.
    InvalidBody,
    /// The path is served, but not with this method.
    MethodNotAllowed,
    /// A handler failed with an [`Error`].
    Application(Error),
    /// Any reason this crate does not tell apart.
    Other,
}

/// The mathematical content of a [`Cause`].
pub enum CauseView {
    InvalidBody,
    MethodNotAllowed,
    Application(ErrorView),
    Other,
}

impl View for Cause {
    type V = CauseView;

    open spec fn view(&self) -> CauseView {
        match self {
            Cause::InvalidBody => CauseView::InvalidBody,
            Cause::MethodNotAllowed => CauseView::MethodNotAllowed,
            Cause::Application(error) => CauseView::Application(error@),
            Cause::Other => CauseView::Other,
        }
    }
}

/// A request that was turned away, with the reasons collected on its way, in
/// the order in which they arose. No reason at all means that no route
/// matched.
#[derive(Debug)]
pub struct Rejection {
    pub causes: Vec<Cause>,
}

impl View for Rejection {
    type V = Seq<CauseView>;

    open spec fn view(&self) -> Seq<CauseView> {
        Seq::new(self.causes@.len(), |i: int| self.causes@[i]@)
    }
}

/// The first application error among `causes`, if there is one.
pub open spec fn first_application(causes: Seq<CauseView>) -> Option<ErrorView>
    decreases causes.len(),
{
    if causes.len() == 0 {
        None
    } else if let CauseView::Application(error) = causes[0] {
        Some(error)
    } else {
        first_application(causes.skip(1))
    }
}

/// How a rejection is answered.
#[derive(Clone, Copy, Debug, PartialEq, Eq, Structural)]
pub enum Verdict {
    NotFound,
    InvalidBody,
    QueryFailed,
    MethodNotAllowed,
    Internal,
}

impl Verdict {
    /// The HTTP status of the answer.
    pub open spec fn status(self) -> u16 {
        match self {
            Verdict::NotFound => NOT_FOUND,
            Verdict::InvalidBody => BAD_REQUEST,
            Verdict::QueryFailed => BAD_REQUEST,
            Verdict::MethodNotAllowed => METHOD_NOT_ALLOWED,
            Verdict::Internal => INTERNAL_SERVER_ERROR,
        }
    }

    /// The one message the client is shown.
    pub open spec fn message(self) -> Seq<char> {
        match self {
            Verdict::NotFound => "Not Found"@,
            Verdict::InvalidBody => "Invalid Body"@,
            Verdict::QueryFailed => "Could not Execute request"@,
            Verdict::MethodNotAllowed => "Method Not Allowed"@,
            Verdict::Internal => "Internal Server Error"@,
        }
    }
}

/// The translation table. The first row that applies decides:
/// no cause at all; an undecodable body; an application error, by the kind of
/// the first one; a refused method; anything else.
pub open spec fn verdict(causes: Seq<CauseView>) -> Verdict {
    if causes.len() == 0 {
        Verdict::NotFound
    } else if causes.contains(CauseView::InvalidBody) {
        Verdict::InvalidBody
    } else if let Some(error) = first_application(causes) {
        if error is DBQuery {
            Verdict::QueryFailed
        } else {
            Verdict::Internal
        }
    } else if causes.contains(CauseView::MethodNotAllowed) {
        Verdict::MethodNotAllowed
    } else {
        Verdict::Internal
    }
}

/// The rejection of a request whose handler failed with `error`.
pub open spec fn rejected(error: ErrorView) -> Seq<CauseView> {
    seq![CauseView::Application(error)]
}

/// A request that failed with one application error is answered by the kind
/// of that error alone: a failed statement is the client's to mend, every
/// other failure is internal.
pub proof fn lemma_single_failure(error: ErrorView)
    ensures
        verdict(rejected(error)) == if error is DBQuery {
            Verdict::QueryFailed
        } else {
            Verdict::Internal
        },
{
    let causes = rejected(error);
    assert(causes[0] == CauseView::Application(error));
    assert(!causes.contains(CauseView::InvalidBody)) by {
        if causes.contains(CauseView::InvalidBody) {
            let i = choose|i: int| 0 <= i < causes.len() && causes[i] == CauseView::InvalidBody;
            assert(causes[i] == causes[0]);
        }
    }
    assert(first_application(causes) == Some(error));
}

/// "Not Found" is the answer to exactly the rejections without a cause.
pub proof fn lemma_not_found_means_no_cause(causes: Seq<CauseView>)
    ensures
        verdict(causes) == Verdict::NotFound <==> causes.len() == 0,
{
}

/// The answer tells the client nothing of the causes but what the table
/// reads: two rejections whose causes differ only in the text they carry
/// get the same verdict.
pub proof fn lemma_verdict_ignores_cause_text(first: Seq<CauseView>, second: Seq<CauseView>)
    requires
        first.len() == second.len(),
        forall|i: int| 0 <= i < first.len() ==> same_kind(#[trigger] first[i], second[i]),
    ensures
        verdict(first) == verdict(second),
{
    lemma_contains_same_kind(first, second, CauseView::InvalidBody);
    lemma_contains_same_kind(first, second, CauseView::MethodNotAllowed);
    lemma_first_application_same_kind(first, second);
}

/// Whether two causes differ at most in the text of the error they carry.
pub open spec fn same_kind(first: CauseView, second: CauseView) -> bool {
    match (first, second) {
        (CauseView::InvalidBody, CauseView::InvalidBody) => true,
        (CauseView::MethodNotAllowed, CauseView::MethodNotAllowed) => true,
        (CauseView::Other, CauseView::Other) => true,
        (CauseView::Application(one), CauseView::Application(other)) => {
            &&& one is DBPoolConnection <==> other is DBPoolConnection
            &&& one is DBQuery <==> other is DBQuery
            &&& one is DBInit <==> other is DBInit
            &&& one is ReadFile <==> other is ReadFile
        },
        _ => false,
    }
}

proof fn lemma_contains_same_kind(first: Seq<CauseView>, second: Seq<CauseView>, cause: CauseView)
    requires
        first.len() == second.len(),
        forall|i: int| 0 <= i < first.len() ==> same_kind(#[trigger] first[i], second[i]),
        cause !is Application,
    ensures
        first.contains(cause) <==> second.contains(cause),
{
    if first.contains(cause) {
        let i = choose|i: int| 0 <= i < first.len() && first[i] == cause;
        assert(same_kind(first[i], second[i]));
        assert(second[i] == cause);
    }
    if second.contains(cause) {
        let i = choose|i: int| 0 <= i < second.len() && second[i] == cause;
        assert(same_kind(first[i], second[i]));
        assert(first[i] == cause);
    }
}

proof fn lemma_first_application_same_kind(first: Seq<CauseView>, second: Seq<CauseView>)
    requires
        first.len() == second.len(),
        forall|i: int| 0 <= i < first.len() ==> same_kind(#[trigger] first[i], second[i]),
    ensures
        match (first_application(first), first_application(second)) {
            (Some(one), Some(other)) => one is DBQuery <==> other is DBQuery,
            (None, None) => true,
            _ => false,
        },
    decreases first.len(),
{
    if first.len() > 0 {
        assert(same_kind(first[0], second[0]));
        if !(first[0] is Application) {
            assert forall|i: int| 0 <= i < first.skip(1).len() implies same_kind(
                #[trigger] first.skip(1)[i],
                second.skip(1)[i],
            ) by {
                assert(same_kind(first[i + 1], second[i + 1]));
            }
            lemma_first_application_same_kind(first.skip(1), second.skip(1));
        }
    }
}

/// The JSON body of every error answer: an object with the one field `message`.
#[derive(Debug)]
pub struct ErrorResponse {
    pub message: String,
}

/// An error answer, ready to be sent.
#[derive(Debug)]
pub struct ErrorReply {
    /// The HTTP status.
    pub status: u16,
    /// The body.
    pub body: ErrorResponse,
    /// Whether the rejection is to be written to the server's log before the
    /// answer leaves: true exactly for the internal errors.
    pub logged: bool,
}

impl Rejection {
    /// The rejection of a request that no route matched.
    pub fn not_found() -> (rejection: Rejection)
        ensures
            rejection@ == Seq::<CauseView>::empty(),
    {
        Rejection { causes: Vec::new() }
    }

    /// The rejection of a request for one reason.
    pub fn because(cause: Cause) -> (rejection: Rejection)
        ensures
            rejection@ == seq![cause@],
    {
        let mut causes: Vec<Cause> = Vec::new();
        causes.push(cause);
        Rejection { causes }
    }

    /// The rejection of a request whose handler failed.
    pub fn custom(error: Error) -> (rejection: Rejection)
        ensures
            rejection@ == seq![CauseView::Application(error@)],
    {
        Rejection::because(Cause::Application(error))
    }

    /// Whether no route matched.
    pub fn is_not_found(&self) -> (none: bool)
        ensures
            none == (self@.len() == 0),
    {
        self.causes.len() == 0
    }
}

/// Classifies a rejection by the translation table.
fn classify(rejection: &Rejection) -> (found: Verdict)
    ensures
        found == verdict(rejection@),
{
    let n = rejection.causes.len();
    if n == 0 {
        return Verdict::NotFound;
    }
    let ghost all = rejection@;
    let mut invalid_body = false;
    let mut method_not_allowed = false;
    let mut application: Option<bool> = None;
    let mut i: usize = 0;
    while i < n
        invariant
            i <= n,
            n == rejection.causes@.len(),
            all == rejection@,
            invalid_body == all.take(i as int).contains(CauseView::InvalidBody),
            method_not_allowed == all.take(i as int).contains(CauseView::MethodNotAllowed),
            application == match first_application(all.take(i as int)) {
                Some(error) => Some(error is DBQuery),
                None => None,
            },
        decreases n - i,
    {
        let ghost before = all.take(i as int);
        let ghost after = all.take(i + 1);
        proof {
            assert(after == before.push(all[i as int]));
            assert(all[i as int] == rejection.causes@[i as int]@);
            lemma_first_application_push(before, all[i as int]);
            assert forall|c: CauseView| after.contains(c) <==> (before.contains(c) || c == all[i as int]) by {
                if before.contains(c) {
                    let j = choose|j: int| 0 <= j < before.len() && before[j] == c;
                    assert(after[j] == c);
                }
                if c == all[i as int] {
                    assert(after[i as int] == c);
                }
            }
        }
        match &rejection.causes[i] {
            Cause::InvalidBody => {
                invalid_body = true;
            },
            Cause::MethodNotAllowed => {
                method_not_allowed = true;
            },
            Cause::Application(error) => {
                if application.is_none() {
                    application = Some(matches!(error, Error::DBQuery(_)));
                }
            },
            Cause::Other => {},
        }
        i += 1;
    }
    proof {
        assert(all.take(n as int) == all);
    }
    if invalid_body {
        Verdict::InvalidBody
    } else if let Some(query_failed) = application {
        if query_failed {
            Verdict::QueryFailed
        } else {
            Verdict::Internal
        }
    } else if method_not_allowed {
        Verdict::MethodNotAllowed
    } else {
        Verdict::Internal
    }
}

/// Appending a cause changes the first application error only when there was
/// none before and the new cause is one.
proof fn lemma_first_application_push(causes: Seq<CauseView>, cause: CauseView)
    ensures
        first_application(causes.push(cause)) == match first_application(causes) {
            Some(error) => Some(error),
            None => match cause {
                CauseView::Application(error) => Some(error),
                _ => None,
            },
        },
    decreases causes.len(),
{
    let longer = causes.push(cause);
    reveal_with_fuel(first_application, 3);
    if causes.len() == 0 {
        assert(longer.skip(1).len() == 0);
    } else {
        assert(longer[0] == causes[0]);
        assert(longer.skip(1) == causes.skip(1).push(cause));
        lemma_first_application_push(causes.skip(1), cause);
    }
}

/// Turns a rejection into the answer the client gets: the status and the
/// message of the translation table, and nothing of the cause.
pub fn handle_rejection(err: &Rejection) -> (reply: ErrorReply)
    ensures
        reply.status == verdict(err@).status(),
        reply.body.message@ == verdict(err@).message(),
        reply.logged == (verdict(err@) == Verdict::Internal),
{
    let found = classify(err);
    let (status, message, logged) = match found {
        Verdict::NotFound => (NOT_FOUND, "Not Found", false),
        Verdict::InvalidBody => (BAD_REQUEST, "Invalid Body", false),
        Verdict::QueryFailed => (BAD_REQUEST, "Could not Execute request", false),
        Verdict::MethodNotAllowed => (METHOD_NOT_ALLOWED, "Method Not Allowed", false),
        Verdict::Internal => (INTERNAL_SERVER_ERROR, "Internal Server Error", true),
    };
    ErrorReply { status, body: ErrorResponse { message: String::from_str(message) }, logged }
}

} // verus!

use todo_api::error::{
    handle_rejection, Cause, Error, Rejection, BAD_REQUEST, INTERNAL_SERVER_ERROR,
    METHOD_NOT_ALLOWED, NOT_FOUND, OK,
};

fn cause(text: &str) -> String {
    text.to_string()
}

#[test]
fn status_constants_are_the_http_numbers() {
    assert_eq!(OK, 200);
    assert_eq!(BAD_REQUEST, 400);
    assert_eq!(NOT_FOUND, 404);
    assert_eq!(METHOD_NOT_ALLOWED, 405);
    assert_eq!(INTERNAL_SERVER_ERROR, 500);
}

#[test]
fn message_of_pool_error() {
    let error = Error::DBPoolConnection(cause("Time out in the connection pool"));
    assert_eq!(
        error.message(),
        "error getting connection from DB pool: Time out in the connection pool"
    );
}

#[test]
fn message_of_query_error() {
    let error = Error::DBQuery(cause("query returned an unexpected number of rows"));
    assert_eq!(
        error.message(),
        "error executing DB query: query returned an unexpected number of rows"
    );
}

#[test]
fn message_of_init_error() {
    let error = Error::DBInit(cause("syntax error"));
    assert_eq!(error.message(), "error creating table: syntax error");
}

#[test]
fn message_of_read_error() {
    let error = Error::ReadFile(cause("No such file or directory (os error 2)"));
    assert_eq!(
        error.message(),
        "error reading file: No such file or directory (os error 2)"
    );
}

#[test]
fn message_with_empty_cause_is_the_prefix() {
    assert_eq!(Error::DBQuery(String::new()).message(), "error executing DB query: ");
}

#[test]
fn no_cause_is_not_found() {
    let rejection = Rejection::not_found();
    assert!(rejection.is_not_found());
    let reply = handle_rejection(&rejection);
    assert_eq!(reply.status, 404);
    assert_eq!(reply.body.message, "Not Found");
    assert!(!reply.logged);
}

#[test]
fn undecodable_body_is_invalid_body() {
    let rejection = Rejection::because(Cause::InvalidBody);
    assert!(!rejection.is_not_found());
    let reply = handle_rejection(&rejection);
    assert_eq!(reply.status, 400);
    assert_eq!(reply.body.message, "Invalid Body");
    assert!(!reply.logged);
}

#[test]
fn query_failure_is_could_not_execute() {
    let reply = handle_rejection(&Rejection::custom(Error::DBQuery(cause("no rows"))));
    assert_eq!(reply.status, 400);
    assert_eq!(reply.body.message, "Could not Execute request");
    assert!(!reply.logged);
}

#[test]
fn refused_method_is_method_not_allowed() {
    let reply = handle_rejection(&Rejection::because(Cause::MethodNotAllowed));
    assert_eq!(reply.status, 405);
    assert_eq!(reply.body.message, "Method Not Allowed");
    assert!(!reply.logged);
}

#[test]
fn pool_failure_is_internal_and_logged() {
    let reply = handle_rejection(&Rejection::custom(Error::DBPoolConnection(cause(
        "Time out in the connection pool",
    ))));
    assert_eq!(reply.status, 500);
    assert_eq!(reply.body.message, "Internal Server Error");
    assert!(reply.logged);
}

#[test]
fn startup_errors_are_internal() {
    let reply = handle_rejection(&Rejection::custom(Error::DBInit(cause("x"))));
    assert_eq!(reply.status, 500);
    assert_eq!(reply.body.message, "Internal Server Error");
    assert!(reply.logged);
    let reply = handle_rejection(&Rejection::custom(Error::ReadFile(cause("y"))));
    assert_eq!(reply.status, 500);
    assert!(reply.logged);
}

#[test]
fn unknown_cause_is_internal_and_logged() {
    let reply = handle_rejection(&Rejection::because(Cause::Other));
    assert_eq!(reply.status, 500);
    assert_eq!(reply.body.message, "Internal Server Error");
    assert!(reply.logged);
}

#[test]
fn invalid_body_wins_over_every_other_cause() {
    let rejection = Rejection {
        causes: vec![
            Cause::MethodNotAllowed,
            Cause::Application(Error::DBPoolConnection(cause("t"))),
            Cause::Other,
            Cause::InvalidBody,
        ],
    };
    let reply = handle_rejection(&rejection);
    assert_eq!(reply.status, 400);
    assert_eq!(reply.body.message, "Invalid Body");
    assert!(!reply.logged);
}

#[test]
fn application_error_wins_over_refused_method() {
    let rejection = Rejection {
        causes: vec![Cause::MethodNotAllowed, Cause::Application(Error::DBQuery(cause("q")))],
    };
    let reply = handle_rejection(&rejection);
    assert_eq!(reply.status, 400);
    assert_eq!(reply.body.message, "Could not Execute request");
}

#[test]
fn first_application_error_decides() {
    let rejection = Rejection {
        causes: vec![
            Cause::Other,
            Cause::Application(Error::DBPoolConnection(cause("p"))),
            Cause::Application(Error::DBQuery(cause("q"))),
        ],
    };
    let reply = handle_rejection(&rejection);
    assert_eq!(reply.status, 500);
    assert!(reply.logged);
    let rejection = Rejection {
        causes: vec![
            Cause::Application(Error::DBQuery(cause("q"))),
            Cause::Application(Error::DBPoolConnection(cause("p"))),
        ],
    };
    let reply = handle_rejection(&rejection);
    assert_eq!(reply.status, 400);
    assert!(!reply.logged);
}

#[test]
fn refused_method_wins_over_unknown_cause() {
    let rejection = Rejection { causes: vec![Cause::Other, Cause::MethodNotAllowed] };
    let reply = handle_rejection(&rejection);
    assert_eq!(reply.status, 405);
    assert_eq!(reply.body.message, "Method Not Allowed");
}

#[test]
fn answer_never_shows_the_cause() {
    let secret = "relation \"todo\" does not exist at character 13";
    for error in [
        Error::DBPoolConnection(cause(secret)),
        Error::DBQuery(cause(secret)),
        Error::DBInit(cause(secret)),
        Error::ReadFile(cause(secret)),
    ] {
        let reply = handle_rejection(&Rejection::custom(error));
        assert!(!reply.body.message.contains("todo"));
        assert!(
            reply.body.message == "Could not Execute request"
                || reply.body.message == "Internal Server Error"
        );
    }
}

#[test]
fn same_kinds_with_other_texts_get_the_same_answer() {
    let first = Rejection {
        causes: vec![Cause::Other, Cause::Application(Error::DBQuery(cause("one")))],
    };
    let second = Rejection {
        causes: vec![Cause::Other, Cause::Application(Error::DBQuery(cause("another")))],
    };
    let first = handle_rejection(&first);
    let second = handle_rejection(&second);
    assert_eq!(first.status, second.status);
    assert_eq!(first.body.message, second.body.message);
    assert_eq!(first.logged, second.logged);
}

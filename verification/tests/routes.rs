use todo_api::route::{route, Method, Route};

#[test]
fn health_is_served_with_get() {
    assert_eq!(route(Method::Get, "/health"), Route::Health);
    assert_eq!(route(Method::Get, "/health/"), Route::Health);
}

#[test]
fn health_takes_no_other_method() {
    assert_eq!(route(Method::Post, "/health"), Route::MethodNotAllowed);
    assert_eq!(route(Method::Put, "/health"), Route::MethodNotAllowed);
    assert_eq!(route(Method::Delete, "/health"), Route::MethodNotAllowed);
    assert_eq!(route(Method::Other, "/health"), Route::MethodNotAllowed);
}

#[test]
fn nothing_is_served_below_health() {
    assert_eq!(route(Method::Get, "/health/db"), Route::NotFound);
    assert_eq!(route(Method::Get, "/health//"), Route::NotFound);
    assert_eq!(route(Method::Get, "/healthy"), Route::NotFound);
    assert_eq!(route(Method::Get, "/healt"), Route::NotFound);
}

#[test]
fn todo_lists_and_creates() {
    assert_eq!(route(Method::Get, "/todo"), Route::ListTodos);
    assert_eq!(route(Method::Post, "/todo"), Route::CreateTodo);
    assert_eq!(route(Method::Get, "/todo/"), Route::ListTodos);
    assert_eq!(route(Method::Post, "/todo/"), Route::CreateTodo);
    assert_eq!(route(Method::Get, "todo"), Route::ListTodos);
}

#[test]
fn nothing_else_is_served_below_todo() {
    for method in [Method::Get, Method::Post, Method::Put, Method::Delete, Method::Other] {
        assert_eq!(route(method, "/todo/extra"), Route::NotFound);
        assert_eq!(route(method, "/todo/anything/else"), Route::NotFound);
        assert_eq!(route(method, "/todo/42/more"), Route::NotFound);
        assert_eq!(route(method, "/todo/42//"), Route::NotFound);
        assert_eq!(route(method, "/todo//"), Route::NotFound);
        assert_eq!(route(method, "/todo//5"), Route::NotFound);
        assert_eq!(route(method, "/todo/abc"), Route::NotFound);
        assert_eq!(route(method, "/todo/2147483648"), Route::NotFound);
    }
}

#[test]
fn todo_updates_and_deletes_by_id() {
    assert_eq!(route(Method::Put, "/todo/1"), Route::UpdateTodo(1));
    assert_eq!(route(Method::Delete, "/todo/1"), Route::DeleteTodo(1));
    assert_eq!(route(Method::Put, "/todo/42/"), Route::UpdateTodo(42));
    assert_eq!(route(Method::Delete, "/todo/42/"), Route::DeleteTodo(42));
    assert_eq!(route(Method::Put, "todo/5"), Route::UpdateTodo(5));
}

#[test]
fn an_item_is_neither_listed_nor_created() {
    assert_eq!(route(Method::Get, "/todo/7"), Route::MethodNotAllowed);
    assert_eq!(route(Method::Post, "/todo/7"), Route::MethodNotAllowed);
    assert_eq!(route(Method::Other, "/todo/7"), Route::MethodNotAllowed);
}

#[test]
fn ids_may_carry_a_sign_and_leading_zeros() {
    assert_eq!(route(Method::Put, "/todo/+12"), Route::UpdateTodo(12));
    assert_eq!(route(Method::Put, "/todo/-12"), Route::UpdateTodo(-12));
    assert_eq!(route(Method::Delete, "/todo/007"), Route::DeleteTodo(7));
    assert_eq!(route(Method::Delete, "/todo/-0"), Route::DeleteTodo(0));
    assert_eq!(route(Method::Put, "/todo/0"), Route::UpdateTodo(0));
    assert_eq!(route(Method::Put, "/todo/00000000000000000000001"), Route::UpdateTodo(1));
}

#[test]
fn ids_span_the_32_bit_range() {
    assert_eq!(route(Method::Put, "/todo/2147483647"), Route::UpdateTodo(i32::MAX));
    assert_eq!(route(Method::Put, "/todo/-2147483648"), Route::UpdateTodo(i32::MIN));
    assert_eq!(route(Method::Put, "/todo/2147483648"), Route::NotFound);
    assert_eq!(route(Method::Put, "/todo/+2147483648"), Route::NotFound);
    assert_eq!(route(Method::Put, "/todo/-2147483649"), Route::NotFound);
    assert_eq!(route(Method::Delete, "/todo/99999999999999999999999"), Route::NotFound);
    assert_eq!(route(Method::Delete, "/todo/21474836470"), Route::NotFound);
}

#[test]
fn ids_agree_with_the_standard_parser() {
    for segment in [
        "0", "1", "-1", "+1", "12a", "a12", "+", "-", "--1", "+-1", "1.5", " 1", "1 ", "0x10",
        "2147483647", "2147483648", "-2147483648", "-2147483649", "4294967296", "\u{663}",
    ] {
        let path = format!("/todo/{}", segment);
        let expected = match segment.parse::<i32>() {
            Ok(id) => Route::UpdateTodo(id),
            Err(_) => Route::NotFound,
        };
        assert_eq!(route(Method::Put, &path), expected);
    }
}

#[test]
fn update_and_delete_need_an_id() {
    assert_eq!(route(Method::Put, "/todo"), Route::MethodNotAllowed);
    assert_eq!(route(Method::Delete, "/todo"), Route::MethodNotAllowed);
    assert_eq!(route(Method::Put, "/todo/"), Route::MethodNotAllowed);
    assert_eq!(route(Method::Delete, "/todo/"), Route::MethodNotAllowed);
}

#[test]
fn patch_on_todo_is_method_not_allowed() {
    assert_eq!(route(Method::Other, "/todo"), Route::MethodNotAllowed);
    assert_eq!(route(Method::Other, "/todo/"), Route::MethodNotAllowed);
    assert_eq!(route(Method::Other, "/todo/1"), Route::MethodNotAllowed);
}

#[test]
fn unmapped_paths_are_not_found() {
    for method in [Method::Get, Method::Post, Method::Put, Method::Delete, Method::Other] {
        assert_eq!(route(method, "/"), Route::NotFound);
        assert_eq!(route(method, ""), Route::NotFound);
        assert_eq!(route(method, "/todos"), Route::NotFound);
        assert_eq!(route(method, "/tod"), Route::NotFound);
        assert_eq!(route(method, "//todo"), Route::NotFound);
        assert_eq!(route(method, "/api/todo"), Route::NotFound);
        assert_eq!(route(method, "/Todo"), Route::NotFound);
    }
}

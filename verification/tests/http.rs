use multithreaded_kv_store::http::{route, Route};

#[test]
fn routes_of_request_lines() {
    assert_eq!(route("GET / HTTP/1.1"), Route::Home);
    assert_eq!(route("GET /create-kv HTTP/1.1"), Route::CreateKv);
    assert_eq!(route("GET /write HTTP/1.1"), Route::Write);
    assert_eq!(route("GET /sleep HTTP/1.1"), Route::Sleep);
    assert_eq!(route("GET /sleep HTTP/1.0"), Route::NotFound);
    assert_eq!(route(""), Route::NotFound);
}

#[test]
fn message_response_carries_byte_length() {
    let page = Route::CreateKv.page(true);
    assert_eq!(
        page.render("ignored"),
        "HTTP/1.1 200 OK\r\nContent-Length: 26 \r\n\r\n my_kv Created Successfully"
    );
    let page = Route::CreateKv.page(false);
    assert_eq!(
        page.render(""),
        "HTTP/1.1 200 OK\r\nContent-Length: 22 \r\n\r\n Failed to create my_kv"
    );
}

#[test]
fn page_response_uses_file_content() {
    let page = Route::NotFound.page(false);
    assert_eq!(page.filename, "pages/404.html");
    let body = "é".repeat(60);
    let expected = format!("HTTP/1.1 404 OK\r\nContent-Length: 120 \r\n\r\n {body}");
    assert_eq!(page.render(&body), expected);
    let home = Route::Home.page(false);
    assert_eq!(home.render(""), "HTTP/1.1 200 OK\r\nContent-Length: 0 \r\n\r\n ");
}

#[test]
fn write_route_answers_without_body() {
    assert_eq!(Route::Write.page(false).render(""), "\r\n\r\n");
    assert_eq!(Route::Sleep.page(false).filename, "pages/sleep.html");
}

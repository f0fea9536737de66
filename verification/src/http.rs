//! The demo HTTP front end of the store: which page a request line asks
//! for, and the text of the response.

use vstd::prelude::*;
use vstd::string::StringExecFns;
use vstd::utf8::encode_utf8;

use crate::text::{append_decimal, decimal, str_eq};

verus! {

/// The pages that the server knows.
#[derive(Clone, Copy, Debug, PartialEq, Eq)]
pub enum Route {
    Home,
    CreateKv,
    Write,
    Sleep,
    NotFound,
}

/// The page that a request line asks for.
pub open spec fn route_of(request_line: Seq<char>) -> Route {
    if request_line == "GET / HTTP/1.1"@ {
        Route::Home
    } else if request_line == "GET /create-kv HTTP/1.1"@ {
        Route::CreateKv
    } else if request_line == "GET /write HTTP/1.1"@ {
        Route::Write
    } else if request_line == "GET /sleep HTTP/1.1"@ {
        Route::Sleep
    } else {
        Route::NotFound
    }
}

/// Finds the page that `request_line` asks for.
pub fn route(request_line: &str) -> (r: Route)
    ensures
        r == route_of(request_line@),
{
    if str_eq(request_line, "GET / HTTP/1.1") {
        Route::Home
    } else if str_eq(request_line, "GET /create-kv HTTP/1.1") {
        Route::CreateKv
    } else if str_eq(request_line, "GET /write HTTP/1.1") {
        Route::Write
    } else if str_eq(request_line, "GET /sleep HTTP/1.1") {
        Route::Sleep
    } else {
        Route::NotFound
    }
}

/// What a route answers: a status line, and either a page file to send
/// (`filename` not empty) or a message (`msg`, possibly empty).
pub struct Page {
    pub status_line: &'static str,
    pub filename: &'static str,
    pub msg: &'static str,
}

/// The status line, file name and message of a route; `kv_created` tells
/// whether the store that `CreateKv` asks for could be opened.
pub open spec fn page_of(route: Route, kv_created: bool) -> (Seq<char>, Seq<char>, Seq<char>) {
    match route {
        Route::Home => ("HTTP/1.1 200 OK"@, "pages/home.html"@, ""@),
        Route::CreateKv => if kv_created {
            ("HTTP/1.1 200 OK"@, ""@, "my_kv Created Successfully"@)
        } else {
            ("HTTP/1.1 200 OK"@, ""@, "Failed to create my_kv"@)
        },
        Route::Write => (""@, ""@, ""@),
        Route::Sleep => ("HTTP/1.1 200 OK"@, "pages/sleep.html"@, ""@),
        Route::NotFound => ("HTTP/1.1 404 OK"@, "pages/404.html"@, ""@),
    }
}

impl Route {
    /// The answer of this route.
    pub fn page(self, kv_created: bool) -> (p: Page)
        ensures
            (p.status_line@, p.filename@, p.msg@) == page_of(self, kv_created),
    {
        match self {
            Route::Home => Page { status_line: "HTTP/1.1 200 OK", filename: "pages/home.html", msg: "" },
            Route::CreateKv => if kv_created {
                Page { status_line: "HTTP/1.1 200 OK", filename: "", msg: "my_kv Created Successfully" }
            } else {
                Page { status_line: "HTTP/1.1 200 OK", filename: "", msg: "Failed to create my_kv" }
            },
            Route::Write => Page { status_line: "", filename: "", msg: "" },
            Route::Sleep => Page { status_line: "HTTP/1.1 200 OK", filename: "pages/sleep.html", msg: "" },
            Route::NotFound => Page { status_line: "HTTP/1.1 404 OK", filename: "pages/404.html", msg: "" },
        }
    }
}

/// A response with a body: status line, the body's length in bytes, body.
pub open spec fn response_with_body(status_line: Seq<char>, body: Seq<char>) -> Seq<char> {
    status_line + "\r\nContent-Length: "@ + decimal(encode_utf8(body).len()) + " \r\n\r\n "@ + body
}

/// A response without a body.
pub open spec fn response_without_body(status_line: Seq<char>) -> Seq<char> {
    status_line + "\r\n\r\n"@
}

/// The response text of a page: the page file's content when the page has
/// a file, else its message, else nothing but the status line.
pub open spec fn page_response(
    status_line: Seq<char>,
    filename: Seq<char>,
    msg: Seq<char>,
    page_content: Seq<char>,
) -> Seq<char> {
    if filename.len() == 0 {
        if msg.len() == 0 {
            response_without_body(status_line)
        } else {
            response_with_body(status_line, msg)
        }
    } else {
        response_with_body(status_line, page_content)
    }
}

impl Page {
    /// The response text of this page; `page_content` is the content of the
    /// page file, and is not used when the page has none.
    pub fn render(&self, page_content: &str) -> (r: String)
        ensures
            r@ == page_response(self.status_line@, self.filename@, self.msg@, page_content@),
    {
        if self.filename.is_empty() {
            if self.msg.is_empty() {
                let mut response = String::from_str(self.status_line);
                response.append("\r\n\r\n");
                response
            } else {
                render_with_body(self.status_line, self.msg)
            }
        } else {
            render_with_body(self.status_line, page_content)
        }
    }
}

/// `response_with_body(status_line@, body@)`.
fn render_with_body(status_line: &str, body: &str) -> (r: String)
    ensures
        r@ == response_with_body(status_line@, body@),
{
    let length = body.as_bytes().len();
    let mut response = String::from_str(status_line);
    response.append("\r\nContent-Length: ");
    append_decimal(&mut response, length);
    response.append(" \r\n\r\n ");
    response.append(body);
    response
}

} // verus!

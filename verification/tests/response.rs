use simple_web_server::response::push_decimal;
use simple_web_server::{response, Page};

#[test]
fn root_request_gets_the_greeting() {
    let page = Page::select("GET / HTTP/1.1");
    assert_eq!(page, Page::Hello);
    assert_eq!(page.status_line(), "HTTP/1.1 200 OK\r\n\r\n");
    assert_eq!(page.filename(), "hello.html");
}

#[test]
fn any_other_request_gets_not_found() {
    for line in ["", "GET /x HTTP/1.1", "GET / HTTP/1.0", "POST / HTTP/1.1", "GET / HTTP/1.1 ", "get / http/1.1"] {
        let page = Page::select(line);
        assert_eq!(page, Page::NotFound);
        assert_eq!(page.status_line(), "HTTP/1.1 404 NOT FOUND\r\n\r\n");
        assert_eq!(page.filename(), "404.html");
    }
}

#[test]
fn response_carries_length_and_contents() {
    assert_eq!(
        response("HTTP/1.1 200 OK\r\n\r\n", "<h1>Hi</h1>"),
        "HTTP/1.1 200 OK\r\n\r\n\r\nContent-Length: 11\r\n<h1>Hi</h1>\r\n"
    );
    assert_eq!(
        response(Page::NotFound.status_line(), ""),
        "HTTP/1.1 404 NOT FOUND\r\n\r\n\r\nContent-Length: 0\r\n\r\n"
    );
}

#[test]
fn response_length_counts_bytes() {
    assert_eq!(response("S", "h\u{e9}!"), "S\r\nContent-Length: 4\r\nh\u{e9}!\r\n");
    let long = "x".repeat(1203);
    assert_eq!(
        response("S", &long),
        format!("S\r\nContent-Length: 1203\r\n{}\r\n", long)
    );
}

#[test]
fn decimal_numerals() {
    for n in [0usize, 7, 9, 10, 11, 99, 100, 101, 4096, 1_000_000, usize::MAX] {
        let mut out = String::from("n=");
        push_decimal(&mut out, n);
        assert_eq!(out, format!("n={}", n));
    }
}

use my_server::request_handler::{index_path, Answer, HttpCodes, PathKind, Probe, RequestHandler};

fn handler() -> RequestHandler {
    RequestHandler::new("/srv/www".to_string(), true).unwrap()
}

fn probe(kind: PathKind, index_exists: bool) -> Probe {
    Probe { kind, index_exists }
}

#[test]
fn codes_table_lines() {
    let codes = HttpCodes::new();
    assert_eq!(codes.get(200), "HTTP/1.1 200 OK");
    assert_eq!(codes.get(301), "HTTP/1.1 301 Moved Permanently");
    assert_eq!(codes.get(400), "HTTP/1.1 400 Bad Request");
    assert_eq!(codes.get(404), "HTTP/1.1 404 Not Found");
    assert_eq!(codes.get(501), "HTTP/1.1 501 Not Implemented");
}

#[test]
fn codes_table_unknown() {
    let codes = HttpCodes::new();
    assert_eq!(codes.get(500), "Unknown");
    assert_eq!(codes.get(0), "Unknown");
}

#[test]
fn new_rejects_missing_directory() {
    match RequestHandler::new("/nowhere".to_string(), false) {
        Err(message) => assert_eq!(message, "No such directory. /nowhere not found."),
        Ok(_) => panic!("a missing root must be rejected"),
    }
}

#[test]
fn get_path_joins_with_separator() {
    let h = handler();
    assert_eq!(h.get_path("404.html"), b"/srv/www/404.html".to_vec());
    let h = RequestHandler::new("/srv/www/".to_string(), true).unwrap();
    assert_eq!(h.get_path("404.html"), b"/srv/www/404.html".to_vec());
    assert_eq!(h.get_path("/etc/x"), b"/etc/x".to_vec());
}

#[test]
fn requested_path_strips_slashes() {
    let h = handler();
    assert_eq!(h.requested_path("GET /a/b.html HTTP/1.1\r\n\r\n"), Some(b"/srv/www/ab.html".to_vec()));
    assert_eq!(h.requested_path("GET / HTTP/1.1\r\n\r\n"), Some(b"/srv/www/".to_vec()));
    assert_eq!(h.requested_path("POST / HTTP/1.1\r\n\r\n"), None);
    assert_eq!(h.requested_path("GET"), None);
}

#[test]
fn handle_not_get_is_501() {
    let reply = handler().handle("POST / HTTP/1.1\r\n\r\n".to_string(), probe(PathKind::File, false));
    assert_eq!(reply.code, 501);
    assert_eq!(reply.file, b"/srv/www/501.html".to_vec());
}

#[test]
fn handle_get_without_target_is_400() {
    let reply = handler().handle("GET\r\n\r\n".to_string(), probe(PathKind::Missing, false));
    assert_eq!(reply.code, 400);
    assert_eq!(reply.file, b"/srv/www/400.html".to_vec());
}

#[test]
fn handle_existing_file_is_200() {
    let reply = handler().handle("GET /page.html HTTP/1.1\r\n\r\n".to_string(), probe(PathKind::File, false));
    assert_eq!(reply.code, 200);
    assert_eq!(reply.file, b"/srv/www/page.html".to_vec());
}

#[test]
fn handle_directory_with_index_is_200() {
    let reply = handler().handle("GET /docs/ HTTP/1.1\r\n\r\n".to_string(), probe(PathKind::Directory, true));
    assert_eq!(reply.code, 200);
    assert_eq!(reply.file, b"/srv/www/docs/index.html".to_vec());
}

#[test]
fn handle_directory_without_index_is_404() {
    let reply = handler().handle("GET /docs/ HTTP/1.1\r\n\r\n".to_string(), probe(PathKind::Directory, false));
    assert_eq!(reply.code, 404);
    assert_eq!(reply.file, b"/srv/www/404.html".to_vec());
}

#[test]
fn handle_missing_is_404() {
    let reply = handler().handle("GET /nothing HTTP/1.1\r\n\r\n".to_string(), probe(PathKind::Missing, true));
    assert_eq!(reply.code, 404);
    assert_eq!(reply.file, b"/srv/www/404.html".to_vec());
}

#[test]
fn redirect_get_builds_location() {
    let answer = handler().redirect("GET /a/b HTTP/1.1\r\n\r\n".to_string(), "https://example.org".to_string());
    match answer {
        Answer::Ready(bytes) => assert_eq!(
            bytes,
            b"HTTP/1.1 301 Moved Permanently\r\nLocation: https://example.org/a/b\r\n\r\n".to_vec()
        ),
        Answer::Serve(_) => panic!("a GET must be redirected"),
    }
}

#[test]
fn redirect_other_method_serves_400() {
    let answer = handler().redirect("PUT / HTTP/1.1\r\n\r\n".to_string(), "https://example.org".to_string());
    match answer {
        Answer::Serve(reply) => {
            assert_eq!(reply.code, 400);
            assert_eq!(reply.file, b"/srv/www/400.html".to_vec());
        }
        Answer::Ready(_) => panic!("only a GET is redirected"),
    }
}

#[test]
fn format_response_frames_body() {
    let bytes = handler().format_response(200, "hello");
    assert_eq!(bytes, b"HTTP/1.1 200 OK\r\nContent-Length: 5\r\n\r\nhello\r\n\r\n".to_vec());
}

#[test]
fn format_response_counts_bytes_not_chars() {
    let bytes = handler().format_response(404, "h\u{e9}");
    let mut expected = b"HTTP/1.1 404 Not Found\r\nContent-Length: 3\r\n\r\n".to_vec();
    expected.extend_from_slice("h\u{e9}".as_bytes());
    expected.extend_from_slice(b"\r\n\r\n");
    assert_eq!(bytes, expected);
}

#[test]
fn format_response_empty_and_long_body() {
    let bytes = handler().format_response(999, "");
    assert_eq!(bytes, b"Unknown\r\nContent-Length: 0\r\n\r\n\r\n\r\n".to_vec());
    let body = "x".repeat(1234);
    let bytes = handler().format_response(200, &body);
    let head = b"HTTP/1.1 200 OK\r\nContent-Length: 1234\r\n\r\n";
    assert_eq!(&bytes[..head.len()], &head[..]);
    assert_eq!(bytes.len(), head.len() + 1234 + 4);
}

#[test]
fn index_path_appends_index() {
    assert_eq!(index_path(b"/srv/www/docs"), b"/srv/www/docs/index.html".to_vec());
    assert_eq!(index_path(b"/srv/www/"), b"/srv/www/index.html".to_vec());
}

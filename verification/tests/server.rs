use http_server::bytes::usize_to_decimal;
use http_server::queue::JobQueue;
use http_server::request::{parse_request, Header, ParseError};
use http_server::response::{serialize_response, Response, Status};
use http_server::router::{
    handle_files, handle_request, handle_route, handle_user_agent, is_safe_filename, route, Plan,
    RouteDecision,
};

fn bytes(s: &str) -> Vec<u8> {
    s.as_bytes().to_vec()
}

fn reply(head: &str) -> Response {
    match handle_request(&bytes(head)) {
        Plan::Reply(r) => r,
        Plan::NeedFile(f) => panic!(
            "expected a finished reply, got a file request for {:?}",
            String::from_utf8_lossy(&f)
        ),
    }
}

fn header_pair(h: &Header) -> (String, String) {
    (
        String::from_utf8(h.name.clone()).unwrap(),
        String::from_utf8(h.value.clone()).unwrap(),
    )
}

#[test]
fn unknown_path_is_not_found() {
    let r = reply("GET /nothing/here HTTP/1.1\r\nHost: x\r\n\r\n");
    assert!(matches!(r.status, Status::NotFound404));
    assert!(r.headers.is_empty());
    assert!(r.body.is_empty());
    assert_eq!(serialize_response(&r), bytes("HTTP/1.1 404 Not Found\r\n\r\n"));
}

#[test]
fn near_miss_prefixes_are_not_found() {
    // "/echo" without the trailing slash matches nothing, nor does "/echoes/".
    for path in ["/echo", "/echoes/x", "/files", "/user-agent2", "//"] {
        let r = reply(&format!("GET {} HTTP/1.1\r\n\r\n", path));
        assert!(matches!(r.status, Status::NotFound404), "path {}", path);
        assert!(r.body.is_empty());
    }
}

#[test]
fn root_is_empty_ok() {
    let r = reply("GET / HTTP/1.1\r\nHost: localhost\r\n\r\n");
    assert!(matches!(r.status, Status::Ok200));
    assert!(r.headers.is_empty());
    assert!(r.body.is_empty());
    assert_eq!(serialize_response(&r), bytes("HTTP/1.1 200 OK\r\n\r\n"));
}

#[test]
fn echo_returns_body_and_exact_length() {
    let r = reply("GET /echo/abc HTTP/1.1\r\n\r\n");
    assert!(matches!(r.status, Status::Ok200));
    assert_eq!(r.body, bytes("abc"));
    assert_eq!(header_pair(&r.headers[0]), ("Content-Type".into(), "text/plain".into()));
    assert_eq!(header_pair(&r.headers[1]), ("Content-Length".into(), "3".into()));
    assert_eq!(
        serialize_response(&r),
        bytes("HTTP/1.1 200 OK\r\nContent-Type: text/plain\r\nContent-Length: 3\r\n\r\nabc")
    );
}

#[test]
fn echo_empty_remainder() {
    let r = reply("GET /echo/ HTTP/1.1\r\n\r\n");
    assert!(matches!(r.status, Status::Ok200));
    assert!(r.body.is_empty());
    assert_eq!(header_pair(&r.headers[1]), ("Content-Length".into(), "0".into()));
}

#[test]
fn echo_keeps_slashes_verbatim() {
    let r = reply("GET /echo/a/b/c HTTP/1.1\r\n\r\n");
    assert_eq!(r.body, bytes("a/b/c"));
    assert_eq!(header_pair(&r.headers[1]), ("Content-Length".into(), "5".into()));
}

#[test]
fn echo_keeps_non_ascii_bytes() {
    let mut head = bytes("GET /echo/");
    let payload: [u8; 4] = [0xC3, 0xA9, 0xFF, 0x80];
    head.extend_from_slice(&payload);
    head.extend_from_slice(b" HTTP/1.1\r\n\r\n");
    let r = match handle_request(&head) {
        Plan::Reply(r) => r,
        Plan::NeedFile(_) => panic!("expected a reply"),
    };
    assert!(matches!(r.status, Status::Ok200));
    assert_eq!(r.body, payload.to_vec());
    assert_eq!(header_pair(&r.headers[1]), ("Content-Length".into(), "4".into()));
}

#[test]
fn user_agent_is_echoed_with_length() {
    let r = reply("GET /user-agent HTTP/1.1\r\nHost: x\r\nUser-Agent: curl/7.64\r\n\r\n");
    assert!(matches!(r.status, Status::Ok200));
    assert_eq!(r.body, bytes("curl/7.64"));
    assert_eq!(header_pair(&r.headers[1]), ("Content-Length".into(), "9".into()));
}

#[test]
fn user_agent_handler_looks_up_by_name() {
    // The header is found wherever it stands, not at a fixed line index.
    let headers = vec![
        Header { name: bytes("User-Agent"), value: bytes("curl/7.64") },
        Header { name: bytes("Host"), value: bytes("x") },
    ];
    let r = handle_user_agent(&headers);
    assert!(matches!(r.status, Status::Ok200));
    assert_eq!(r.body, bytes("curl/7.64"));
}

#[test]
fn user_agent_absent_is_not_found() {
    let r = reply("GET /user-agent HTTP/1.1\r\nHost: x\r\n\r\n");
    assert!(matches!(r.status, Status::NotFound404));
    assert!(r.body.is_empty());
}

#[test]
fn files_route_defers_to_the_file_read() {
    match handle_request(&bytes("GET /files/foo.txt HTTP/1.1\r\n\r\n")) {
        Plan::NeedFile(f) => assert_eq!(f, bytes("foo.txt")),
        Plan::Reply(_) => panic!("expected a file request"),
    }
}

#[test]
fn file_content_is_served_as_octet_stream() {
    let r = handle_files(Some(bytes("hello")));
    assert!(matches!(r.status, Status::Ok200));
    assert_eq!(
        header_pair(&r.headers[0]),
        ("Content-Type".into(), "application/octet-stream".into())
    );
    assert_eq!(header_pair(&r.headers[1]), ("Content-Length".into(), "5".into()));
    assert_eq!(r.body, bytes("hello"));
    assert_eq!(
        serialize_response(&r),
        bytes(
            "HTTP/1.1 200 OK\r\nContent-Type: application/octet-stream\r\nContent-Length: 5\r\n\r\nhello"
        )
    );
}

#[test]
fn missing_file_is_not_found() {
    let r = handle_files(None);
    assert!(matches!(r.status, Status::NotFound404));
    assert!(r.headers.is_empty());
    assert!(r.body.is_empty());
}

#[test]
fn traversal_filenames_are_rejected_before_any_read() {
    let r = reply("GET /files/../secret HTTP/1.1\r\n\r\n");
    assert!(matches!(r.status, Status::NotFound404));
    let r = reply("GET /files/a/../../b HTTP/1.1\r\n\r\n");
    assert!(matches!(r.status, Status::NotFound404));
    let r = reply("GET /files//etc/passwd HTTP/1.1\r\n\r\n");
    assert!(matches!(r.status, Status::NotFound404));
    let r = reply("GET /files/ HTTP/1.1\r\n\r\n");
    assert!(matches!(r.status, Status::NotFound404));
}

#[test]
fn safe_filename_check() {
    assert!(is_safe_filename(&bytes("foo.txt")));
    assert!(is_safe_filename(&bytes("dir/inner.bin")));
    assert!(!is_safe_filename(&bytes("")));
    assert!(!is_safe_filename(&bytes("/abs")));
    assert!(!is_safe_filename(&bytes("../up")));
    assert!(!is_safe_filename(&bytes("a/../b")));
    // The containment check is conservative: any ".." is refused.
    assert!(!is_safe_filename(&bytes("a..b")));
}

#[test]
fn missing_path_token_is_a_bad_request() {
    match parse_request(&bytes("GET\r\n\r\n")) {
        Err(e) => assert_eq!(e, ParseError::MissingPath),
        Ok(_) => panic!("a request line without a space has no path"),
    }
    let r = reply("GET\r\n\r\n");
    assert!(matches!(r.status, Status::BadRequest400));
    assert_eq!(serialize_response(&r), bytes("HTTP/1.1 400 Bad Request\r\n\r\n"));
}

#[test]
fn parse_splits_method_path_headers_and_body() {
    let req = parse_request(&bytes(
        "POST /echo/x HTTP/1.1\r\nHost: localhost:4221\r\nAccept: */*\r\n\r\npayload",
    ))
    .unwrap();
    assert_eq!(req.method, bytes("POST"));
    assert_eq!(req.path, bytes("/echo/x"));
    assert_eq!(req.headers.len(), 2);
    assert_eq!(header_pair(&req.headers[0]), ("Host".into(), "localhost:4221".into()));
    assert_eq!(header_pair(&req.headers[1]), ("Accept".into(), "*/*".into()));
    assert_eq!(req.body, bytes("payload"));
}

#[test]
fn parse_accepts_bare_line_feeds() {
    let req = parse_request(&bytes("GET /user-agent HTTP/1.1\nUser-Agent: wget\n\n")).unwrap();
    assert_eq!(req.path, bytes("/user-agent"));
    assert_eq!(header_pair(&req.headers[0]), ("User-Agent".into(), "wget".into()));
}

#[test]
fn parse_keeps_headers_in_arrival_order_with_duplicates() {
    let req =
        parse_request(&bytes("GET / HTTP/1.1\r\nA: 1\r\nB: 2\r\nA: 3\r\n\r\n")).unwrap();
    let names: Vec<String> = req.headers.iter().map(|h| header_pair(h).0).collect();
    assert_eq!(names, vec!["A", "B", "A"]);
    assert_eq!(header_pair(&req.headers[2]).1, "3");
}

#[test]
fn header_without_colon_keeps_line_as_name() {
    let req = parse_request(&bytes("GET / HTTP/1.1\r\nweird line\r\n\r\n")).unwrap();
    assert_eq!(header_pair(&req.headers[0]), ("weird line".into(), "".into()));
}

#[test]
fn header_value_keeps_extra_spaces_beyond_the_first() {
    let req = parse_request(&bytes("GET / HTTP/1.1\r\nA:  two\r\n\r\n")).unwrap();
    assert_eq!(header_pair(&req.headers[0]), ("A".into(), " two".into()));
}

#[test]
fn truncated_head_still_parses() {
    let req = parse_request(&bytes("GET / HTTP/1.1\r\nHost: x")).unwrap();
    assert_eq!(req.path, bytes("/"));
    assert_eq!(header_pair(&req.headers[0]), ("Host".into(), "x".into()));
    assert!(req.body.is_empty());
}

#[test]
fn route_priority_order() {
    assert!(matches!(route(&bytes("/")), RouteDecision::Root));
    match route(&bytes("/echo/zz")) {
        RouteDecision::Echo(rest) => assert_eq!(rest, bytes("zz")),
        _ => panic!("echo prefix must win"),
    }
    match route(&bytes("/files/a.txt")) {
        RouteDecision::Files(rest) => assert_eq!(rest, bytes("a.txt")),
        _ => panic!("files prefix must win"),
    }
    assert!(matches!(route(&bytes("/user-agent")), RouteDecision::UserAgent));
    assert!(matches!(route(&bytes("/other")), RouteDecision::NotFound));
}

#[test]
fn echo_handler_rejects_foreign_paths() {
    let r = handle_route(&bytes("/files/x"));
    assert!(matches!(r.status, Status::NotFound404));
    let r = handle_route(&bytes("/echo/hi"));
    assert_eq!(r.body, bytes("hi"));
}

#[test]
fn decimal_digits_are_exact() {
    assert_eq!(usize_to_decimal(0), bytes("0"));
    assert_eq!(usize_to_decimal(7), bytes("7"));
    assert_eq!(usize_to_decimal(10), bytes("10"));
    assert_eq!(usize_to_decimal(12345), bytes("12345"));
    assert_eq!(usize_to_decimal(1000000), bytes("1000000"));
}

#[test]
fn long_echo_has_matching_length_header() {
    let payload = "x".repeat(4096);
    let r = reply(&format!("GET /echo/{} HTTP/1.1\r\n\r\n", payload));
    assert_eq!(r.body.len(), 4096);
    assert_eq!(header_pair(&r.headers[1]).1, "4096");
}

#[test]
fn queue_delivers_in_fifo_order() {
    let mut q: JobQueue<u32> = JobQueue::new();
    assert!(q.is_empty());
    assert_eq!(q.dequeue(), None);
    q.enqueue(1);
    q.enqueue(2);
    q.enqueue(3);
    assert_eq!(q.len(), 3);
    assert_eq!(q.dequeue(), Some(1));
    assert_eq!(q.dequeue(), Some(2));
    assert_eq!(q.dequeue(), Some(3));
    assert_eq!(q.dequeue(), None);
    assert!(q.is_empty());
}

#[test]
fn serialized_responses_are_independent_per_request() {
    // Two different connections' bodies never mix: each reply is a pure
    // function of its own head.
    let a = serialize_response(&reply("GET /echo/first HTTP/1.1\r\n\r\n"));
    let b = serialize_response(&reply("GET /echo/second HTTP/1.1\r\n\r\n"));
    assert_eq!(
        a,
        bytes("HTTP/1.1 200 OK\r\nContent-Type: text/plain\r\nContent-Length: 5\r\n\r\nfirst")
    );
    assert_eq!(
        b,
        bytes("HTTP/1.1 200 OK\r\nContent-Type: text/plain\r\nContent-Length: 6\r\n\r\nsecond")
    );
}

use grafana_prowl_notifier::errors::RequestError;
use grafana_prowl_notifier::http::{find_subsequence, Framer, Request, Response};

#[test]
fn send_response_with_none() {
    let status_line = b"HTTP/1.1 200 OK".to_vec();
    let headers = vec![
        b"X-Something: Or the other".to_vec(),
        b"X-Order: persists".to_vec(),
    ];
    let response = Response::new(status_line, headers, None);
    let mut stream: Vec<u8> = Vec::new();
    response.send(&mut stream);
    let expected =
        b"HTTP/1.1 200 OK\r\nX-Something: Or the other\r\nX-Order: persists\r\nConnection: close";
    assert_eq!(expected.to_vec(), stream);
}

#[test]
fn send_response_with_some() {
    let status_line = b"HTTP/1.1 404 Not Found".to_vec();
    let headers = vec![
        b"X-Something: Or the other".to_vec(),
        b"X-Order: persists".to_vec(),
    ];
    let body = b"Nala".to_vec();
    let response = Response::new(status_line, headers, Some(body));
    let mut stream: Vec<u8> = Vec::new();
    response.send(&mut stream);
    let expected = b"HTTP/1.1 404 Not Found\r\nX-Something: Or the other\r\nX-Order: persists\r\nConnection: close\r\nContent-Length: 4\r\n\r\nNala";
    assert_eq!(expected.to_vec(), stream);
}

#[test]
fn request_from_stream_happy_case() {
    let message = b"GET / HTTP/1.1\r\nX-Something: Or the other\r\nX-Order: persists\r\nConnection: close\r\nContent-Length: 4\r\n\r\nNala";
    let result = Request::from_stream(message).expect("Failed to parse request");
    assert_eq!(result.body().as_slice(), b"Nala");
    assert_eq!(result.request_line().method().as_slice(), b"GET");
    assert_eq!(result.request_line().path().as_slice(), b"/");
}

#[test]
fn request_from_stream_extra_data() {
    let message = b"POST /somewhere HTTP/1.1\r\nX-Something: Or the other\r\nX-Order: persists\r\nConnection: close\r\nContent-Length: 4\r\n\r\nNala is the best dog.";
    let result = Request::from_stream(message).expect("Failed to parse request");
    assert_eq!(result.body().as_slice(), b"Nala");
    assert_eq!(result.request_line().method().as_slice(), b"POST");
    assert_eq!(result.request_line().path().as_slice(), b"/somewhere");
}

#[test]
fn request_from_stream_missing_data() {
    let message = b"POST /somewhere HTTP/1.1\r\nX-Something: Or the other\r\nX-Order: persists\r\nConnection: close\r\nContent-Length: 42\r\n\r\nNala is the best dog.";
    let result = Request::from_stream(message);
    assert!(matches!(result, Err(RequestError::BadContentLength(42, 21))));
}

#[test]
fn request_from_stream_post_no_content_length() {
    let message = b"POST /somewhere HTTP/1.1\r\nX-Something: Or the other\r\nX-Order: persists\r\nConnection: close\r\n\r\nNala";
    let result = Request::from_stream(message);
    assert!(matches!(result, Err(RequestError::NoContentLength)));
}

#[test]
fn request_from_stream_get_no_content_length() {
    let message = b"GET /somewhere HTTP/1.1\r\nX-Something: Or the other\r\nX-Order: persists\r\nConnection: close\r\n\r\n";
    let result = Request::from_stream(message).expect("Failed to parse request");
    assert_eq!(result.body().as_slice(), b"");
    assert_eq!(result.request_line().method().as_slice(), b"GET");
    assert_eq!(result.request_line().path().as_slice(), b"/somewhere");
}

#[test]
fn request_from_stream_bad_content_length() {
    let message = b"X-Something: Or the other\r\nX-Order: persists\r\nConnection: close\r\nContent-Length: four\r\n\r\nNala";
    let result = Request::from_stream(message);
    assert!(matches!(result, Err(RequestError::NoContentLength)));
}

#[test]
fn request_from_stream_bad_request_line_empty() {
    // Without \r\n, it would think X-Something: is the method and "or" is the path.
    let message = b"\r\nX-Something: Or the other\r\nX-Order: persists\r\nConnection: close\r\nContent-Length: 42\r\n\r\nNala";
    let result = Request::from_stream(message);
    assert!(matches!(result, Err(RequestError::RequestLineParse)));
}

#[test]
fn request_from_stream_bad_request_line_no_path() {
    let message = b"GET\r\nX-Something: Or the other\r\nX-Order: persists\r\nConnection: close\r\nContent-Length: 42\r\n\r\nNala";
    let result = Request::from_stream(message);
    assert!(matches!(result, Err(RequestError::RequestLineParse)));
}

#[test]
fn request_from_stream_invalid_utf8_body() {
    let mut message =
        b"POST / HTTP/1.1\r\nContent-Length: 2\r\n\r\n".to_vec();
    message.push(0xFF);
    message.push(0xFE);
    let result = Request::from_stream(&message);
    assert!(matches!(result, Err(RequestError::BadMessage)));
}

#[test]
fn find_subsequence_first_match() {
    assert_eq!(find_subsequence(b"abcabc", b"bc"), Some(1));
    assert_eq!(find_subsequence(b"abcabc", b"cb"), None);
    assert_eq!(find_subsequence(b"abc", b""), Some(0));
}

#[test]
fn framer_stops_once_body_is_complete() {
    let mut framer = Framer::new();
    framer.push_chunk(b"POST / HTTP/1.1\r\nContent-Length: 4\r\n");
    assert!(!framer.done());
    framer.push_chunk(b"\r\nNa");
    assert!(!framer.done());
    framer.push_chunk(b"la");
    assert!(framer.done());
    let request = framer.finish().expect("Failed to parse request");
    assert_eq!(request.body().as_slice(), b"Nala");
}

#[test]
fn framer_reports_expect_continue() {
    let mut framer = Framer::new();
    framer.push_chunk(b"POST / HTTP/1.1\r\nExpect: 100-continue\r\n");
    assert!(framer.wants_continue());
    assert!(!framer.done());
}

#[test]
fn bad_content_length_error_text() {
    let text = RequestError::BadContentLength(42, 21).describe();
    assert_eq!(
        text,
        b"Sender said they had 42 bytes, but only sent 21 bytes.".to_vec()
    );
}

#[test]
fn request_without_any_newline() {
    let result = Request::from_stream(b"GARBAGE");
    assert!(matches!(result, Err(RequestError::NoRequestLine)));
}

#[test]
fn request_without_header_separator() {
    let result = Request::from_stream(b"GET / HTTP/1.1\nX-Only-Newlines: yes\n");
    assert!(matches!(result, Err(RequestError::NoMessageBody)));
}

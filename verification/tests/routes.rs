use search_api_server::pages::HttpResponse;
use search_api_server::routes::{
    dispatch, echo_response, handle_request, report_level, request_size, root_path, route, Action,
    ReportLevel, RequestSize, Route,
};

#[test]
fn root_paths_start_with_a_slash() {
    assert_eq!(root_path("/v1/chat/completions"), "/v1");
    assert_eq!(root_path("/"), "/");
    assert_eq!(root_path(""), "/");
    assert_eq!(root_path("*"), "/");
}

#[test]
fn echo_and_model_api_take_their_whole_subtree() {
    assert_eq!(route("/echo"), Route::Echo);
    assert_eq!(route("/echo/"), Route::Echo);
    assert_eq!(route("/echo/x/y"), Route::Echo);
    assert_eq!(route("/v1"), Route::Llama);
    assert_eq!(route("/v1/models"), Route::Llama);
    assert_eq!(route("//v1/./models"), Route::Llama);
}

#[test]
fn everything_else_is_a_page() {
    for path in ["/", "", "/index.html", "/v10", "/V1", "/v1.html", "/a/v1", "/../v1", "/echo2"] {
        assert_eq!(route(path), Route::Page, "{:?}", path);
    }
}

#[test]
fn echo_replies_with_its_text() {
    let expected =
        HttpResponse { status: 200, content_type: None, body: b"echo test".to_vec() };
    assert_eq!(echo_response(), expected);
    assert_eq!(dispatch("/echo", "chatbot-ui"), Action::Respond(expected));
}

#[test]
fn model_requests_are_forwarded() {
    assert_eq!(dispatch("/v1/models", "chatbot-ui"), Action::Forward);
}

#[test]
fn page_requests_read_below_the_web_root() {
    match dispatch("/", "chatbot-ui") {
        Action::ReadPage(request) => {
            assert_eq!(request.file, "chatbot-ui//index.html");
            assert_eq!(request.content_type, "text/html");
            assert_eq!(request.fallback, "chatbot-ui/404.html");
        }
        other => panic!("{:?}", other),
    }
}

#[test]
fn sizes_of_post_requests_are_reported() {
    assert_eq!(request_size("POST", Some(b"123")), RequestSize::Reported(123));
    assert_eq!(request_size("POST", Some(b"+7")), RequestSize::Reported(7));
    assert_eq!(request_size("POST", None), RequestSize::Reported(0));
    assert_eq!(request_size("POST", Some(b"")), RequestSize::Malformed);
    assert_eq!(request_size("POST", Some(b"12, 12")), RequestSize::Malformed);
    assert_eq!(request_size("POST", Some(b"18446744073709551616")), RequestSize::Malformed);
    assert_eq!(request_size("GET", Some(b"123")), RequestSize::Unreported);
    assert_eq!(request_size("GET", Some(b"x")), RequestSize::Unreported);
    assert_eq!(request_size("post", Some(b"123")), RequestSize::Unreported);
}

#[test]
fn responses_are_errors_from_400_on() {
    assert_eq!(report_level(200), ReportLevel::Info);
    assert_eq!(report_level(399), ReportLevel::Info);
    assert_eq!(report_level(400), ReportLevel::Error);
    assert_eq!(report_level(500), ReportLevel::Error);
}

#[test]
fn requests_are_sized_and_acted_on() {
    assert_eq!(
        handle_request("GET", None, "/v1/models", "ui"),
        (RequestSize::Unreported, Some(Action::Forward))
    );
    assert_eq!(
        handle_request("POST", Some(b"17"), "/v1/chat/completions", "ui"),
        (RequestSize::Reported(17), Some(Action::Forward))
    );
    assert_eq!(
        handle_request("POST", None, "/echo", "ui"),
        (RequestSize::Reported(0), Some(Action::Respond(echo_response())))
    );
    assert_eq!(
        handle_request("GET", Some(b"x"), "/style.css", "ui"),
        (RequestSize::Unreported, Some(dispatch("/style.css", "ui")))
    );
}

#[test]
fn a_malformed_size_ends_the_request() {
    for path in ["/", "/echo", "/v1/models", "/style.css"] {
        assert_eq!(
            handle_request("POST", Some(b"many"), path, "ui"),
            (RequestSize::Malformed, None)
        );
        assert!(handle_request("PUT", Some(b"many"), path, "ui").1.is_some());
    }
}

#[test]
fn a_size_that_is_no_text_ends_the_request() {
    for value in [&b"\xff"[..], b"12\x80", b"\xb2", b"1\x7f", b"\x001", b"\xef\xbc\x91", b"+\xff"] {
        assert_eq!(request_size("POST", Some(value)), RequestSize::Malformed, "{:?}", value);
        assert_eq!(
            handle_request("POST", Some(value), "/echo", "ui"),
            (RequestSize::Malformed, None)
        );
        assert_eq!(
            handle_request("GET", Some(value), "/echo", "ui"),
            (RequestSize::Unreported, Some(Action::Respond(echo_response())))
        );
    }
}

#[test]
fn every_byte_but_a_digit_spoils_a_size() {
    for byte in 0..=255u8 {
        let expected = match std::str::from_utf8(&[b'4', byte]).ok().map(|s| s.parse::<u64>()) {
            Some(Ok(size)) => RequestSize::Reported(size),
            _ => RequestSize::Malformed,
        };
        assert_eq!(request_size("POST", Some(&[b'4', byte])), expected, "{}", byte);
    }
}

use search_api_server::pages::{
    not_found_response, static_request, static_response, HttpResponse, PageStep, StaticRequest,
};

fn text(s: &str) -> String {
    s.to_string()
}

#[test]
fn content_types_follow_the_extension() {
    for (path, content_type) in [
        ("/", "text/html"),
        ("/index.html", "text/html"),
        ("/INDEX.HTML", "text/html"),
        ("/style.css", "text/css"),
        ("/logo.png", "image/png"),
        ("/a/b/data.json", "application/json"),
        ("/favicon.ico", "image/x-icon"),
    ] {
        assert_eq!(static_response(path, "ui").content_type, content_type, "{:?}", path);
    }
}

#[test]
fn files_without_known_extension_are_plain_text() {
    for path in ["/LICENSE", "/a/b", "", "/file.unknownext", "/.hidden", "/a.html/b"] {
        assert_eq!(static_response(path, "ui").content_type, "text/plain", "{:?}", path);
    }
}

#[test]
fn root_and_index_page_are_one() {
    assert_eq!(static_response("/", "ui"), static_response("/index.html", "ui"));
    assert_ne!(static_response("//", "ui"), static_response("/index.html", "ui"));
}

#[test]
fn files_lie_below_the_root() {
    assert_eq!(
        static_request("/a/b.css", "ui", text("text/css")),
        StaticRequest {
            file: text("ui//a/b.css"),
            content_type: text("text/css"),
            fallback: text("ui/404.html"),
        }
    );
    assert_eq!(static_request("/", "", text("x")).file, "//index.html");
}

#[test]
fn a_file_that_was_read_is_sent() {
    let request = static_response("/style.css", "ui");
    assert_eq!(
        request.page_read(Some(vec![1, 2, 3])),
        PageStep::Respond(HttpResponse {
            status: 200,
            content_type: Some(text("text/css")),
            body: vec![1, 2, 3],
        })
    );
    let request = static_response("/style.css", "ui");
    assert_eq!(
        request.page_read(Some(vec![])),
        PageStep::Respond(HttpResponse {
            status: 200,
            content_type: Some(text("text/css")),
            body: vec![],
        })
    );
}

#[test]
fn a_missing_file_leads_to_the_fallback() {
    let request = static_response("/missing.png", "ui");
    assert_eq!(request.page_read(None), PageStep::ReadFallback(text("ui/404.html")));
    assert_eq!(
        not_found_response(Some(b"gone".to_vec())),
        HttpResponse {
            status: 404,
            content_type: Some(text("text/html")),
            body: b"gone".to_vec(),
        }
    );
    assert_eq!(
        not_found_response(None),
        HttpResponse { status: 404, content_type: Some(text("text/html")), body: vec![] }
    );
}

//! Responses, and the files of the web user interface that they carry.

use crate::text::same_text;
use vstd::prelude::*;

verus! {

/// An HTTP response: its status, the `Content-Type` header where it has one, and its body.
#[derive(Debug, PartialEq, Eq)]
pub struct HttpResponse {
    pub status: u16,
    pub content_type: Option<String>,
    pub body: Vec<u8>,
}

pub struct HttpResponseView {
    pub status: u16,
    pub content_type: Option<Seq<char>>,
    pub body: Seq<u8>,
}

impl View for HttpResponse {
    type V = HttpResponseView;

    open spec fn view(&self) -> HttpResponseView {
        HttpResponseView {
            status: self.status,
            content_type: match self.content_type {
                Some(text) => Some(text@),
                None => None,
            },
            body: self.body@,
        }
    }
}

/// What it takes to answer a request for a file: the file to read, the type that its content is
/// sent with, and the page to read where the file cannot be read.
#[derive(Debug, PartialEq, Eq)]
pub struct StaticRequest {
    pub file: String,
    pub content_type: String,
    pub fallback: String,
}

pub struct StaticRequestView {
    pub file: Seq<char>,
    pub content_type: Seq<char>,
    pub fallback: Seq<char>,
}

impl View for StaticRequest {
    type V = StaticRequestView;

    open spec fn view(&self) -> StaticRequestView {
        StaticRequestView {
            file: self.file@,
            content_type: self.content_type@,
            fallback: self.fallback@,
        }
    }
}

/// What to do once the file of a `StaticRequest` was read, or could not be.
#[derive(Debug, PartialEq, Eq)]
pub enum PageStep {
    /// Send this response.
    Respond(HttpResponse),
    /// Read the page at this path and answer with `not_found_response`.
    ReadFallback(String),
}

pub enum PageStepView {
    Respond(HttpResponseView),
    ReadFallback(Seq<char>),
}

impl View for PageStep {
    type V = PageStepView;

    open spec fn view(&self) -> PageStepView {
        match self {
            PageStep::Respond(response) => PageStepView::Respond(response@),
            PageStep::ReadFallback(path) => PageStepView::ReadFallback(path@),
        }
    }
}

/// The bytes that were read from a file, if they could be.
pub open spec fn bytes_of(content: Option<Vec<u8>>) -> Option<Seq<u8>> {
    match content {
        Some(bytes) => Some(bytes@),
        None => None,
    }
}

/// The page that a request for `path` means: the root stands for the index page.
pub open spec fn page_of(path: Seq<char>) -> Seq<char> {
    if path == "/"@ {
        "/index.html"@
    } else {
        path
    }
}

/// How a request for `path` is answered from the files below `root`, where the content of the
/// page is of type `content_type`.
pub open spec fn static_request_of(
    path: Seq<char>,
    root: Seq<char>,
    content_type: Seq<char>,
) -> StaticRequestView {
    StaticRequestView {
        file: root + "/"@ + page_of(path),
        content_type,
        fallback: root + "/404.html"@,
    }
}

/// What follows the attempt to read the file of `request`.
pub open spec fn after_page(request: StaticRequestView, content: Option<Seq<u8>>) -> PageStepView {
    match content {
        Some(body) => PageStepView::Respond(
            HttpResponseView { status: 200, content_type: Some(request.content_type), body },
        ),
        None => PageStepView::ReadFallback(request.fallback),
    }
}

/// The answer to a request for a file that cannot be read.
pub open spec fn not_found(page: Option<Seq<u8>>) -> HttpResponseView {
    HttpResponseView {
        status: 404,
        content_type: Some("text/html"@),
        body: match page {
            Some(body) => body,
            None => Seq::empty(),
        },
    }
}

/// The answer to `request` where reading its file gives `content` and reading its fallback gives
/// `fallback`.
pub open spec fn static_outcome(
    request: StaticRequestView,
    content: Option<Seq<u8>>,
    fallback: Option<Seq<u8>>,
) -> HttpResponseView {
    match after_page(request, content) {
        PageStepView::Respond(response) => response,
        PageStepView::ReadFallback(_) => not_found(fallback),
    }
}

/// The media type that `mime_guess` gives for the file name extension of a path.
pub uninterp spec fn content_type_of(path: Seq<char>) -> Seq<char>;

/// Calls `mime_guess::from_path`, takes the first guess or plain text with `first_or_text_plain`,
/// and writes it out. The crate looks up the extension of the slash-separated path in a fixed
/// table, so that the result is a function of the path; a path without a dot has no extension,
/// and is taken for plain text.
#[verifier::external_body]
fn guess_content_type(path: &str) -> (r: String)
    ensures
        r@ == content_type_of(path@),
        !path@.contains('.') ==> r@ == "text/plain"@,
{
    mime_guess::from_path(path).first_or_text_plain().to_string()
}

/// How a request for `path_str` is answered from the files below `root`, given the media type of
/// the page that it means.
pub fn static_request(path_str: &str, root: &str, content_type: String) -> (r: StaticRequest)
    ensures
        r@ == static_request_of(path_str@, root@, content_type@),
        path_str@ != "/"@ ==> r.file@ == root@ + "/"@ + path_str@,
        path_str@ == "/"@ ==> r.file@ == root@ + "/"@ + "/index.html"@,
        r.content_type@ == content_type@,
        r.fallback@ == root@ + "/404.html"@,
{
    let page = page(path_str);
    StaticRequest {
        file: root.to_string().concat("/").concat(page),
        content_type,
        fallback: root.to_string().concat("/404.html"),
    }
}

/// The page that a request for `path_str` means.
fn page<'a>(path_str: &'a str) -> (r: &'a str)
    ensures
        r@ == page_of(path_str@),
        path_str@ != "/"@ ==> r@ == path_str@,
        path_str@ == "/"@ ==> r@ == "/index.html"@,
{
    if same_text(path_str, "/") {
        "/index.html"
    } else {
        path_str
    }
}

/// How a request for `path_str` is answered from the files below `root`.
pub fn static_response(path_str: &str, root: &str) -> (r: StaticRequest)
    ensures
        r@ == static_request_of(path_str@, root@, content_type_of(page_of(path_str@))),
        !page_of(path_str@).contains('.') ==> r.content_type@ == "text/plain"@,
        path_str@ != "/"@ ==> r.file@ == root@ + "/"@ + path_str@,
        path_str@ != "/"@ ==> r.content_type@ == content_type_of(path_str@),
        path_str@ == "/"@ ==> r.file@ == root@ + "/"@ + "/index.html"@,
        path_str@ == "/"@ ==> r.content_type@ == content_type_of("/index.html"@),
        r.fallback@ == root@ + "/404.html"@,
{
    let content_type = guess_content_type(page(path_str));
    static_request(path_str, root, content_type)
}

impl StaticRequest {
    /// What to do once the file was read, or could not be.
    pub fn page_read(self, content: Option<Vec<u8>>) -> (r: PageStep)
        ensures
            r@ == after_page(self@, bytes_of(content)),
            match content {
                Some(body) => {
                    &&& r matches PageStep::Respond(response)
                    &&& response.status == 200
                    &&& response.content_type == Some(self.content_type)
                    &&& response.body@ == body@
                },
                None => r == PageStep::ReadFallback(self.fallback),
            },
    {
        match content {
            Some(body) => PageStep::Respond(
                HttpResponse { status: 200, content_type: Some(self.content_type), body },
            ),
            None => PageStep::ReadFallback(self.fallback),
        }
    }
}

/// The answer to a request for a file that cannot be read, with the bytes of the page that says
/// so, if there is one.
pub fn not_found_response(page: Option<Vec<u8>>) -> (r: HttpResponse)
    ensures
        r@ == not_found(bytes_of(page)),
        r.status == 404,
        r.content_type is Some,
        r.content_type->0@ == "text/html"@,
        match page {
            Some(body) => r.body@ == body@,
            None => r.body@.len() == 0,
        },
{
    let body: Vec<u8> = match page {
        Some(body) => body,
        None => Vec::new(),
    };
    HttpResponse { status: 404, content_type: Some("text/html".to_string()), body }
}

/// The root of the site and its index page are one page: the same file, the same type, the same
/// fallback.
pub proof fn root_is_index(root: Seq<char>)
    ensures
        page_of("/"@) == page_of("/index.html"@),
        static_request_of("/"@, root, content_type_of(page_of("/"@))) == static_request_of(
            "/index.html"@,
            root,
            content_type_of(page_of("/index.html"@)),
        ),
{
    reveal_strlit("/");
    reveal_strlit("/index.html");
    assert("/index.html"@.len() != "/"@.len());
}

/// A request for a file succeeds exactly where the file can be read, and then carries its bytes
/// under its own type. Otherwise the status says that it was not found and the fallback page, or
/// nothing, comes as HTML.
pub proof fn found_iff_read(
    request: StaticRequestView,
    content: Option<Seq<u8>>,
    fallback: Option<Seq<u8>>,
)
    ensures
        ({
            let response = static_outcome(request, content, fallback);
            &&& response.status == 200 <==> content is Some
            &&& response.status == 404 <==> content is None
            &&& content is Some ==> response.body == content->0
            &&& content is Some ==> response.content_type == Some(request.content_type)
            &&& content is None ==> response.content_type == Some("text/html"@)
            &&& content is None && fallback is Some ==> response.body == fallback->0
            &&& content is None && fallback is None ==> response.body.len() == 0
        }),
{
}

/// Only the root of the site stands for another page. For every other path the file that is read
/// is the root directory, a slash and that very path, and the type is that of the path.
pub proof fn paths_are_read_as_they_are(
    path: Seq<char>,
    root: Seq<char>,
    content_type: Seq<char>,
    request: StaticRequest,
)
    requires
        request@ == static_request_of(path, root, content_type),
    ensures
        path != "/"@ ==> request.file@ == root + "/"@ + path,
        path == "/"@ ==> request.file@ == root + "/"@ + "/index.html"@,
        request.content_type@ == content_type,
        request.fallback@ == root + "/404.html"@,
{
}

/// The type of a page is looked up for the path itself, and for the root of the site under the
/// name of the index page.
pub proof fn pages_are_named_by_their_paths(path: Seq<char>)
    ensures
        path != "/"@ ==> page_of(path) == path,
        path == "/"@ ==> page_of(path) == "/index.html"@,
{
}

/// Different paths below one root directory read different files, but for the root of the site and
/// its index page.
pub proof fn different_paths_read_different_files(
    a: Seq<char>,
    b: Seq<char>,
    root: Seq<char>,
    content_type: Seq<char>,
)
    requires
        a != b,
        !(a == "/"@ && b == "/index.html"@),
        !(a == "/index.html"@ && b == "/"@),
    ensures
        static_request_of(a, root, content_type).file != static_request_of(
            b,
            root,
            content_type,
        ).file,
{
    let below = (root + "/"@).len() as int;
    assert(static_request_of(a, root, content_type).file.skip(below) == page_of(a));
    assert(static_request_of(b, root, content_type).file.skip(below) == page_of(b));
}

/// A file that could not be read leads to the fallback page of the request, and one that was read
/// to a response with its bytes.
pub proof fn reading_decides_what_follows(
    request: StaticRequest,
    content: Option<Vec<u8>>,
    step: PageStep,
)
    requires
        step@ == after_page(request@, bytes_of(content)),
    ensures
        content is None ==> {
            &&& step matches PageStep::ReadFallback(path)
            &&& path@ == request.fallback@
        },
        content is Some ==> {
            &&& step matches PageStep::Respond(response)
            &&& response.status == 200
            &&& response.content_type matches Some(text)
            &&& text@ == request.content_type@
            &&& response.body@ == content->0@
        },
{
}

/// A page that says that a file was not found is sent as it was read, and nothing in its place
/// where it cannot be read either.
pub proof fn missing_files_are_answered(page: Option<Vec<u8>>, response: HttpResponse)
    requires
        response@ == not_found(bytes_of(page)),
    ensures
        response.status == 404,
        response.content_type matches Some(text) && text@ == "text/html"@,
        page matches Some(body) ==> response.body@ == body@,
        page is None ==> response.body@.len() == 0,
{
}

} // verus!

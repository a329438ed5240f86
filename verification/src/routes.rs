//! Where requests go.

use crate::pages::{
    static_response, HttpResponse, HttpResponseView, StaticRequest, StaticRequestView,
};
use crate::path::second_component;
use crate::text::{parse_number, same_text};
use vstd::prelude::*;
use vstd::string::*;

verus! {

/// What answers a request.
#[derive(Debug, Clone, Copy, PartialEq, Eq, Structural)]
pub enum Route {
    /// A fixed reply, to see that the server is up.
    Echo,
    /// The model API.
    Llama,
    /// The files of the web user interface.
    Page,
}

/// What to do with a request.
#[derive(Debug, PartialEq, Eq)]
pub enum Action {
    /// Send this response.
    Respond(HttpResponse),
    /// Hand the request to the model API.
    Forward,
    /// Read a file and go on with `StaticRequest::page_read`.
    ReadPage(StaticRequest),
}

pub enum ActionView {
    Respond(HttpResponseView),
    Forward,
    ReadPage(StaticRequestView),
}

impl View for Action {
    type V = ActionView;

    open spec fn view(&self) -> ActionView {
        match self {
            Action::Respond(response) => ActionView::Respond(response@),
            Action::Forward => ActionView::Forward,
            Action::ReadPage(request) => ActionView::ReadPage(request@),
        }
    }
}

/// The size that a request declares for its body, as far as it is reported.
#[derive(Debug, Clone, Copy, PartialEq, Eq, Structural)]
pub enum RequestSize {
    /// Only the size of a `POST` request is reported.
    Unreported,
    Reported(u64),
    /// The header does not hold a number.
    Malformed,
}

/// How loud a response is reported.
#[derive(Debug, Clone, Copy, PartialEq, Eq, Structural)]
pub enum ReportLevel {
    Info,
    Error,
}

/// The root of `path`: a slash and the second component of the path.
pub open spec fn root_path_of(path: Seq<char>) -> Seq<char> {
    "/"@ + crate::path::second_component_of(path)
}

/// What answers a request for `path`: only the root of the path counts.
pub open spec fn route_of(path: Seq<char>) -> Route {
    if root_path_of(path) == "/echo"@ {
        Route::Echo
    } else if root_path_of(path) == "/v1"@ {
        Route::Llama
    } else {
        Route::Page
    }
}

/// The reply of `Route::Echo`.
pub open spec fn echo() -> HttpResponseView {
    HttpResponseView { status: 200, content_type: None, body: "echo test".spec_bytes() }
}

/// What to do with a request for `path`, where `page` is how the web user interface answers it.
pub open spec fn action_of(path: Seq<char>, page: StaticRequestView) -> ActionView {
    match route_of(path) {
        Route::Echo => ActionView::Respond(echo()),
        Route::Llama => ActionView::Forward,
        Route::Page => ActionView::ReadPage(page),
    }
}

/// The reported size of a request with this method and this `Content-Length` header.
pub open spec fn request_size_of(
    method: Seq<char>,
    content_length: Option<Seq<u8>>,
) -> RequestSize {
    if method != "POST"@ {
        RequestSize::Unreported
    } else {
        match content_length {
            None => RequestSize::Reported(0),
            Some(value) => match crate::text::number_of(crate::text::characters_of(value)) {
                Some(size) => RequestSize::Reported(size),
                None => RequestSize::Malformed,
            },
        }
    }
}

/// What is reported of the size of a request and what to do with it, where `action` is what its
/// path asks for. Nothing is done with a request whose size is malformed.
pub open spec fn handled(
    method: Seq<char>,
    content_length: Option<Seq<u8>>,
    action: ActionView,
) -> (RequestSize, Option<ActionView>) {
    match request_size_of(method, content_length) {
        RequestSize::Malformed => (RequestSize::Malformed, None),
        size => (size, Some(action)),
    }
}

/// The bytes of an optional header.
pub open spec fn header_of(header: Option<&[u8]>) -> Option<Seq<u8>> {
    match header {
        Some(value) => Some(value@),
        None => None,
    }
}

/// The text of a header value. Only visible ASCII characters, spaces and tabs make up a text.
pub open spec fn header_text(value: Seq<u8>) -> Option<Seq<char>> {
    if forall|i: int| 0 <= i < value.len() ==> 32 <= #[trigger] value[i] < 127 || value[i] == 9 {
        Some(crate::text::characters_of(value))
    } else {
        None
    }
}

/// What is to be done, if anything is.
pub open spec fn action_view(action: Option<Action>) -> Option<ActionView> {
    match action {
        Some(action) => Some(action@),
        None => None,
    }
}

/// The root of `path_str`: a slash and the second component of the path.
pub fn root_path(path_str: &str) -> (r: String)
    ensures
        r@ == root_path_of(path_str@),
        r@ == "/"@ + crate::path::second_component_of(path_str@),
{
    "/".to_string().concat(second_component(path_str))
}

/// What answers a request for `path_str`.
pub fn route(path_str: &str) -> (r: Route)
    ensures
        r == route_of(path_str@),
        r == Route::Echo <==> crate::path::second_component_of(path_str@) == "echo"@,
        r == Route::Llama <==> crate::path::second_component_of(path_str@) == "v1"@,
{
    proof {
        second_component_decides_route(path_str@);
    }
    let root_path = root_path(path_str);
    if same_text(root_path.as_str(), "/echo") {
        Route::Echo
    } else if same_text(root_path.as_str(), "/v1") {
        Route::Llama
    } else {
        Route::Page
    }
}

/// The reply of `Route::Echo`.
pub fn echo_response() -> (r: HttpResponse)
    ensures
        r@ == echo(),
        r.status == 200,
        r.content_type is None,
        r.body@ == "echo test".spec_bytes(),
{
    HttpResponse { status: 200, content_type: None, body: "echo test".as_bytes_vec() }
}

/// What to do with a request for `path_str`, where the files of the web user interface lie below
/// `web_ui`.
pub fn dispatch(path_str: &str, web_ui: &str) -> (r: Action)
    ensures
        r@ == action_of(
            path_str@,
            crate::pages::static_request_of(
                path_str@,
                web_ui@,
                crate::pages::content_type_of(crate::pages::page_of(path_str@)),
            ),
        ),
        match r {
            Action::Respond(response) => {
                &&& crate::path::second_component_of(path_str@) == "echo"@
                &&& response.status == 200
                &&& response.content_type is None
                &&& response.body@ == "echo test".spec_bytes()
            },
            Action::Forward => crate::path::second_component_of(path_str@) == "v1"@,
            Action::ReadPage(request) => {
                &&& crate::path::second_component_of(path_str@) != "echo"@
                &&& crate::path::second_component_of(path_str@) != "v1"@
                &&& path_str@ != "/"@ ==> request.file@ == web_ui@ + "/"@ + path_str@
                &&& path_str@ == "/"@ ==> request.file@ == web_ui@ + "/"@ + "/index.html"@
                &&& path_str@ != "/"@ ==> request.content_type@ == crate::pages::content_type_of(
                    path_str@,
                )
                &&& path_str@ == "/"@ ==> request.content_type@ == crate::pages::content_type_of(
                    "/index.html"@,
                )
                &&& request.fallback@ == web_ui@ + "/404.html"@
            },
        },
{
    match route(path_str) {
        Route::Echo => Action::Respond(echo_response()),
        Route::Llama => Action::Forward,
        Route::Page => Action::ReadPage(static_response(path_str, web_ui)),
    }
}

/// The reported size of a request with this method and this `Content-Length` header.
pub fn request_size(method: &str, content_length: Option<&[u8]>) -> (r: RequestSize)
    ensures
        r == request_size_of(method@, header_of(content_length)),
        method@ != "POST"@ ==> r == RequestSize::Unreported,
        method@ == "POST"@ ==> match content_length {
            None => r == RequestSize::Reported(0),
            Some(value) => match crate::text::number_of(crate::text::characters_of(value@)) {
                Some(size) => r == RequestSize::Reported(size),
                None => r == RequestSize::Malformed,
            },
        },
{
    if !same_text(method, "POST") {
        return RequestSize::Unreported;
    }
    match content_length {
        None => RequestSize::Reported(0),
        Some(value) => match parse_number(value) {
            Some(size) => RequestSize::Reported(size),
            None => RequestSize::Malformed,
        },
    }
}

/// What is reported of the size of a request, and what to do with it: nothing where the size is
/// malformed, which ends the request before anything is read or forwarded, and otherwise what its
/// path asks for.
pub fn handle_request(
    method: &str,
    content_length: Option<&[u8]>,
    path_str: &str,
    web_ui: &str,
) -> (r: (RequestSize, Option<Action>))
    ensures
        (r.0, action_view(r.1)) == handled(
            method@,
            header_of(content_length),
            action_of(
                path_str@,
                crate::pages::static_request_of(
                    path_str@,
                    web_ui@,
                    crate::pages::content_type_of(crate::pages::page_of(path_str@)),
                ),
            ),
        ),
        r.1 is None <==> r.0 is Malformed,
        method@ != "POST"@ ==> r.0 == RequestSize::Unreported,
        method@ == "POST"@ ==> match content_length {
            None => r.0 == RequestSize::Reported(0),
            Some(value) => match crate::text::number_of(crate::text::characters_of(value@)) {
                Some(size) => r.0 == RequestSize::Reported(size),
                None => r.0 == RequestSize::Malformed,
            },
        },
        r.1 matches Some(action) ==> match action {
            Action::Respond(response) => {
                &&& crate::path::second_component_of(path_str@) == "echo"@
                &&& response.status == 200
                &&& response.content_type is None
                &&& response.body@ == "echo test".spec_bytes()
            },
            Action::Forward => crate::path::second_component_of(path_str@) == "v1"@,
            Action::ReadPage(request) => {
                &&& crate::path::second_component_of(path_str@) != "echo"@
                &&& crate::path::second_component_of(path_str@) != "v1"@
                &&& path_str@ != "/"@ ==> request.file@ == web_ui@ + "/"@ + path_str@
                &&& path_str@ == "/"@ ==> request.file@ == web_ui@ + "/"@ + "/index.html"@
                &&& path_str@ != "/"@ ==> request.content_type@ == crate::pages::content_type_of(
                    path_str@,
                )
                &&& path_str@ == "/"@ ==> request.content_type@ == crate::pages::content_type_of(
                    "/index.html"@,
                )
                &&& request.fallback@ == web_ui@ + "/404.html"@
            },
        },
{
    let size = request_size(method, content_length);
    match size {
        RequestSize::Malformed => (size, None),
        _ => (size, Some(dispatch(path_str, web_ui))),
    }
}

/// A response is reported as an error from status 400 on.
pub fn report_level(status: u16) -> (r: ReportLevel)
    ensures
        r == if status < 400 {
            ReportLevel::Info
        } else {
            ReportLevel::Error
        },
        r == ReportLevel::Error <==> 400 <= status,
{
    if status < 400 {
        ReportLevel::Info
    } else {
        ReportLevel::Error
    }
}

/// A byte that no text holds does not stand in a number.
proof fn lemma_numbers_are_text(value: Seq<u8>)
    requires
        crate::text::number_of(crate::text::characters_of(value)) is Some,
    ensures
        header_text(value) is Some,
{
    let text = crate::text::characters_of(value);
    let digits = crate::text::unsigned_part(text);
    let start = text.len() - digits.len();
    assert forall|i: int| 0 <= i < value.len() implies 32 <= #[trigger] value[i] < 127 by {
        assert(text[i] == value[i] as char);
        if start <= i {
            assert(crate::text::is_digit(digits[i - start]));
        }
    }
}

/// A request is acted on unless it is a `POST` whose `Content-Length` header is no text or a text
/// that is not a number, and what is then done does not depend on its method or its size.
pub proof fn only_malformed_sizes_stop_requests(
    method: Seq<char>,
    content_length: Option<Seq<u8>>,
    action: ActionView,
)
    ensures
        handled(method, content_length, action).1 is None <==> {
            &&& method == "POST"@
            &&& content_length is Some
            &&& match header_text(content_length->0) {
                Some(text) => crate::text::number_of(text) is None,
                None => true,
            }
        },
        handled(method, content_length, action).1 is Some ==> handled(
            method,
            content_length,
            action,
        ).1 == Some(action),
{
    if let Some(value) = content_length {
        if crate::text::number_of(crate::text::characters_of(value)) is Some {
            lemma_numbers_are_text(value);
        }
    }
}

/// Everything below a first name goes where the name itself goes.
pub proof fn route_is_that_of_first_name(name: Seq<char>, rest: Seq<char>)
    requires
        name.len() > 0,
        name != seq!['.'],
        forall|i: int| 0 <= i < name.len() ==> name[i] != '/',
    ensures
        root_path_of("/"@ + name) == "/"@ + name,
        root_path_of("/"@ + name + "/"@ + rest) == "/"@ + name,
        route_of("/"@ + name + "/"@ + rest) == route_of("/"@ + name),
{
    reveal_strlit("/");
    assert("/"@ == seq!['/']);
    crate::path::second_component_is_first_name(name, rest);
}

/// The model API answers its root and everything below it.
pub proof fn model_api_is_below_v1(rest: Seq<char>)
    ensures
        route_of("/v1"@) == Route::Llama,
        route_of("/v1/"@ + rest) == Route::Llama,
{
    reveal_strlit("/");
    reveal_strlit("v1");
    reveal_strlit("/v1");
    reveal_strlit("/v1/");
    reveal_strlit("/echo");
    assert("/"@ + "v1"@ == "/v1"@);
    assert("/v1/"@ + rest == "/"@ + "v1"@ + "/"@ + rest);
    assert("v1"@ != seq!['.']) by {
        assert("v1"@.len() == 2);
    }
    assert("/v1"@ != "/echo"@) by {
        assert("/v1"@.len() != "/echo"@.len());
    }
    route_is_that_of_first_name("v1"@, rest);
}

/// The fixed reply answers its root and everything below it.
pub proof fn echo_is_below_echo(rest: Seq<char>)
    ensures
        route_of("/echo"@) == Route::Echo,
        route_of("/echo/"@ + rest) == Route::Echo,
{
    reveal_strlit("/");
    reveal_strlit("echo");
    reveal_strlit("/echo");
    reveal_strlit("/echo/");
    assert("/"@ + "echo"@ == "/echo"@);
    assert("/echo/"@ + rest == "/"@ + "echo"@ + "/"@ + rest);
    assert("echo"@ != seq!['.']) by {
        assert("echo"@.len() == 4);
    }
    route_is_that_of_first_name("echo"@, rest);
}

/// Every other name belongs to the web user interface.
pub proof fn other_names_are_pages(name: Seq<char>, rest: Seq<char>)
    requires
        name.len() > 0,
        name != seq!['.'],
        forall|i: int| 0 <= i < name.len() ==> name[i] != '/',
        name != "echo"@,
        name != "v1"@,
    ensures
        route_of("/"@ + name) == Route::Page,
        route_of("/"@ + name + "/"@ + rest) == Route::Page,
{
    reveal_strlit("/");
    reveal_strlit("echo");
    reveal_strlit("/echo");
    reveal_strlit("v1");
    reveal_strlit("/v1");
    route_is_that_of_first_name(name, rest);
    let root = "/"@ + name;
    assert(root.skip(1) == name);
    assert("/echo"@.skip(1) == "echo"@);
    assert("/v1"@.skip(1) == "v1"@);
}

/// The second component of a path decides what answers it, and nothing else does.
pub proof fn second_component_decides_route(path: Seq<char>)
    ensures
        root_path_of(path) == "/"@ + crate::path::second_component_of(path),
        route_of(path) == Route::Echo <==> crate::path::second_component_of(path) == "echo"@,
        route_of(path) == Route::Llama <==> crate::path::second_component_of(path) == "v1"@,
{
    reveal_strlit("/");
    reveal_strlit("echo");
    reveal_strlit("/echo");
    reveal_strlit("v1");
    reveal_strlit("/v1");
    let component = crate::path::second_component_of(path);
    assert("/"@ + "echo"@ == "/echo"@);
    assert("/"@ + "v1"@ == "/v1"@);
    assert(("/"@ + component).skip(1) == component);
    assert("/echo"@.skip(1) == "echo"@);
    assert("/v1"@.skip(1) == "v1"@);
}

/// The root of the site and the empty path belong to the web user interface.
pub proof fn site_root_is_a_page()
    ensures
        route_of("/"@) == Route::Page,
        route_of(seq![]) == Route::Page,
{
    reveal_strlit("/");
    reveal_strlit("echo");
    reveal_strlit("v1");
    assert("/"@ == seq!['/']);
    assert("echo"@.len() == 4 && "v1"@.len() == 2);
    crate::path::second_component_skips_slashes_and_dots(seq![]);
    second_component_decides_route("/"@);
    second_component_decides_route(seq![]);
}

/// What is done with a request follows from its path: the fixed reply, the model API, or the file
/// of the web user interface that the request asks for.
pub proof fn actions_follow_the_path(path: Seq<char>, request: StaticRequestView, action: Action)
    requires
        action@ == action_of(path, request),
    ensures
        action is Forward <==> crate::path::second_component_of(path) == "v1"@,
        action is Respond <==> crate::path::second_component_of(path) == "echo"@,
        action matches Action::Respond(response) ==> {
            &&& response.status == 200
            &&& response.content_type is None
            &&& response.body@ == "echo test".spec_bytes()
        },
        action matches Action::ReadPage(page) ==> {
            &&& page.file@ == request.file
            &&& page.content_type@ == request.content_type
            &&& page.fallback@ == request.fallback
        },
{
    reveal_strlit("echo");
    reveal_strlit("v1");
    assert("echo"@.len() == 4 && "v1"@.len() == 2);
    second_component_decides_route(path);
}

/// Only the size of a `POST` is reported: that of its `Content-Length` header, or none at all where
/// it has no such header.
pub proof fn only_posts_have_sizes(method: Seq<char>, content_length: Option<&[u8]>)
    ensures
        method != "POST"@ ==> request_size_of(method, header_of(content_length))
            == RequestSize::Unreported,
        method == "POST"@ && content_length is None ==> request_size_of(
            method,
            header_of(content_length),
        ) == RequestSize::Reported(0),
        method == "POST"@ && content_length is Some ==> request_size_of(
            method,
            header_of(content_length),
        ) == match crate::text::number_of(crate::text::characters_of(content_length->0@)) {
            Some(size) => RequestSize::Reported(size),
            None => RequestSize::Malformed,
        },
{
}

/// A request is handled under the size that is reported of it, and its action is not changed.
pub proof fn handling_keeps_size_and_action(
    method: Seq<char>,
    content_length: Option<Seq<u8>>,
    action: Action,
    handled_action: Option<Action>,
    size: RequestSize,
)
    requires
        (size, action_view(handled_action)) == handled(method, content_length, action@),
    ensures
        size == request_size_of(method, content_length),
        handled_action is None <==> size is Malformed,
        handled_action matches Some(kept) ==> kept@ == action@,
{
}

} // verus!

//! The fixed answers of the routes, and the shapes they are given in.

use vstd::prelude::*;
use vstd::string::*;
use crate::json::{field, has_key, members, Field};

pub mod app_server;
pub mod main_server;

verus! {

/// Status code of every answer a route gives.
pub const OK: u16 = 200;

/// A plain-text answer.
#[derive(Debug, Clone)]
pub struct TextResponse {
    pub status: u16,
    pub content_type: String,
    pub body: String,
}

/// The body by which the application listener reports that it is up.
#[derive(Debug, Clone)]
pub struct ServiceStatus {
    pub status: String,
    pub service: String,
    pub version: String,
}

/// The body of the public and of the private route. Only the private
/// route carries a warning.
#[derive(Debug, Clone)]
pub struct RouteNotice {
    pub message: String,
    pub access: String,
    pub timestamp: String,
    pub warning: Option<String>,
}

/// The two shapes a JSON body can have.
#[derive(Debug, Clone)]
pub enum JsonBody {
    Status(ServiceStatus),
    Notice(RouteNotice),
}

/// A JSON answer.
#[derive(Debug, Clone)]
pub struct JsonResponse {
    pub status: u16,
    pub content_type: String,
    pub body: JsonBody,
}

/// What a route is answered by.
#[derive(Debug, Clone, Copy, PartialEq, Eq, Structural)]
pub enum Handler {
    /// The greeting of the main listener.
    Hello,
    /// The status report of the application listener.
    Root,
    /// The public route.
    PublicRoute,
    /// The private route.
    PrivateRoute,
}

/// The answer to one request.
#[derive(Debug, Clone)]
pub enum Answer {
    Text(TextResponse),
    Json(JsonResponse),
}

/// A plain-text answer as mathematical values.
pub ghost struct TextResponseView {
    pub status: u16,
    pub content_type: Seq<char>,
    pub body: Seq<char>,
}

/// A JSON body as mathematical values.
pub ghost enum JsonBodyView {
    Status { status: Seq<char>, service: Seq<char>, version: Seq<char> },
    Notice {
        message: Seq<char>,
        access: Seq<char>,
        timestamp: Seq<char>,
        warning: Option<Seq<char>>,
    },
}

/// A JSON answer as mathematical values.
pub ghost struct JsonResponseView {
    pub status: u16,
    pub content_type: Seq<char>,
    pub body: JsonBodyView,
}

/// An answer as mathematical values.
pub ghost enum AnswerView {
    Text(TextResponseView),
    Json(JsonResponseView),
}

impl View for TextResponse {
    type V = TextResponseView;

    open spec fn view(&self) -> TextResponseView {
        TextResponseView {
            status: self.status,
            content_type: self.content_type@,
            body: self.body@,
        }
    }
}

impl View for JsonBody {
    type V = JsonBodyView;

    open spec fn view(&self) -> JsonBodyView {
        match self {
            JsonBody::Status(s) => JsonBodyView::Status {
                status: s.status@,
                service: s.service@,
                version: s.version@,
            },
            JsonBody::Notice(n) => JsonBodyView::Notice {
                message: n.message@,
                access: n.access@,
                timestamp: n.timestamp@,
                warning: match n.warning {
                    Some(w) => Some(w@),
                    None => None,
                },
            },
        }
    }
}

impl View for JsonResponse {
    type V = JsonResponseView;

    open spec fn view(&self) -> JsonResponseView {
        JsonResponseView {
            status: self.status,
            content_type: self.content_type@,
            body: self.body@,
        }
    }
}

impl View for Answer {
    type V = AnswerView;

    open spec fn view(&self) -> AnswerView {
        match self {
            Answer::Text(t) => AnswerView::Text(t@),
            Answer::Json(j) => AnswerView::Json(j@),
        }
    }
}

/// The members of a body: a status report has `status`, `service` and
/// `version`; a notice has `message`, `access` and `timestamp`, and
/// `warning` after them where it carries one.
pub open spec fn body_members(body: JsonBodyView) -> Seq<(Seq<char>, Seq<char>)> {
    match body {
        JsonBodyView::Status { status, service, version } => seq![
            ("status"@, status),
            ("service"@, service),
            ("version"@, version),
        ],
        JsonBodyView::Notice { message, access, timestamp, warning } => {
            let always = seq![("message"@, message), ("access"@, access), ("timestamp"@, timestamp)];
            match warning {
                Some(text) => always.push(("warning"@, text)),
                None => always,
            }
        },
    }
}

impl JsonBody {
    /// The members of the JSON object this body is written as.
    pub fn fields(&self) -> (object: Vec<Field>)
        ensures
            members(object@) == body_members(self@),
    {
        let mut object: Vec<Field> = Vec::new();
        match self {
            JsonBody::Status(s) => {
                object.push(field("status", s.status.as_str()));
                object.push(field("service", s.service.as_str()));
                object.push(field("version", s.version.as_str()));
            },
            JsonBody::Notice(n) => {
                object.push(field("message", n.message.as_str()));
                object.push(field("access", n.access.as_str()));
                object.push(field("timestamp", n.timestamp.as_str()));
                match &n.warning {
                    Some(text) => {
                        object.push(field("warning", text.as_str()));
                    },
                    None => {},
                }
            },
        }
        assert(members(object@) =~= body_members(self@));
        object
    }
}

/// The greeting: status 200, UTF-8 plain text, `Hello world!`.
pub open spec fn hello_answer() -> TextResponseView {
    TextResponseView {
        status: 200,
        content_type: "text/plain; charset=utf-8"@,
        body: "Hello world!"@,
    }
}

/// A JSON answer with status 200 and the given body.
pub open spec fn json_ok(body: JsonBodyView) -> JsonResponseView {
    JsonResponseView { status: 200, content_type: "application/json"@, body }
}

/// The status report of the application listener.
pub open spec fn root_answer() -> JsonResponseView {
    json_ok(
        JsonBodyView::Status {
            status: "ok"@,
            service: "simple-api-demo"@,
            version: app_server::VERSION@,
        },
    )
}

/// The answer of the public route at the given time: no warning.
pub open spec fn public_answer(timestamp: Seq<char>) -> JsonResponseView {
    json_ok(
        JsonBodyView::Notice {
            message: "public route"@,
            access: "public"@,
            timestamp,
            warning: None,
        },
    )
}

/// The answer of the private route at the given time, with the warning
/// that nothing guards it.
pub open spec fn private_answer(timestamp: Seq<char>) -> JsonResponseView {
    json_ok(
        JsonBodyView::Notice {
            message: "private and protected route"@,
            access: "private"@,
            timestamp,
            warning: Some("This route should require authentication in production"@),
        },
    )
}

/// What `handler` answers at the given time. Only the public and the
/// private route read the time.
pub open spec fn answer_of(handler: Handler, timestamp: Seq<char>) -> AnswerView {
    match handler {
        Handler::Hello => AnswerView::Text(hello_answer()),
        Handler::Root => AnswerView::Json(root_answer()),
        Handler::PublicRoute => AnswerView::Json(public_answer(timestamp)),
        Handler::PrivateRoute => AnswerView::Json(private_answer(timestamp)),
    }
}

/// The time an answer is stamped with, where it carries one.
pub open spec fn stamp_of(answer: AnswerView) -> Option<Seq<char>> {
    match answer {
        AnswerView::Json(j) => match j.body {
            JsonBodyView::Notice { timestamp, .. } => Some(timestamp),
            _ => None,
        },
        _ => None,
    }
}

/// The content type of an answer.
pub open spec fn content_type_of(answer: AnswerView) -> Seq<char> {
    match answer {
        AnswerView::Text(t) => t.content_type,
        AnswerView::Json(j) => j.content_type,
    }
}

/// Answers a request for `handler` at the given time.
pub fn answer_at(handler: Handler, timestamp: String) -> (a: Answer)
    ensures
        a@ == answer_of(handler, timestamp@),
{
    match handler {
        Handler::Hello => Answer::Text(main_server::hello()),
        Handler::Root => Answer::Json(app_server::root()),
        Handler::PublicRoute => Answer::Json(app_server::public_route_at(timestamp)),
        Handler::PrivateRoute => Answer::Json(app_server::private_route_at(timestamp)),
    }
}

/// Answers a request for `handler` now: the answer is the one of
/// `answer_of` at the time it is stamped with, or at any time where it
/// carries no stamp.
pub fn answer(handler: Handler) -> (a: Answer)
    ensures
        match stamp_of(a@) {
            Some(timestamp) => a@ == answer_of(handler, timestamp),
            None => forall|timestamp: Seq<char>| a@ == #[trigger] answer_of(handler, timestamp),
        },
{
    match handler {
        Handler::Hello => Answer::Text(main_server::hello()),
        Handler::Root => Answer::Json(app_server::root()),
        Handler::PublicRoute => Answer::Json(app_server::public_route()),
        Handler::PrivateRoute => Answer::Json(app_server::private_route()),
    }
}

/// The greeting and the status report are the same at every time, so
/// any two requests that reach one of them get identical answers.
pub proof fn lemma_fixed_answers(first: Seq<char>, second: Seq<char>)
    ensures
        answer_of(Handler::Hello, first) == answer_of(Handler::Hello, second),
        answer_of(Handler::Root, first) == answer_of(Handler::Root, second),
{
}

/// The status report always says `ok` for the service `simple-api-demo`
/// and names a version that is not empty.
pub proof fn lemma_root_reports_ok()
    ensures
        root_answer().body matches JsonBodyView::Status { status, service, version } && status
            == "ok"@ && service == "simple-api-demo"@ && version.len() > 0,
{
    reveal_strlit("0.1.0");
}

/// The public route says `public` and carries no warning; the private
/// route says `private` and carries a warning that is not empty. So the
/// object written for the public route has no member `warning`, and the
/// one written for the private route has.
pub proof fn lemma_access_and_warning(timestamp: Seq<char>)
    ensures
        !has_key(body_members(public_answer(timestamp).body), "warning"@),
        has_key(body_members(private_answer(timestamp).body), "warning"@),
        public_answer(timestamp).body matches JsonBodyView::Notice { access, warning, .. }
            && access == "public"@ && warning is None,
        private_answer(timestamp).body matches JsonBodyView::Notice { access, warning, .. }
            && access == "private"@ && (warning matches Some(w) && w.len() > 0),
{
    reveal_strlit("This route should require authentication in production");
    reveal_strlit("warning");
    reveal_strlit("message");
    reveal_strlit("access");
    reveal_strlit("timestamp");
    assert(body_members(private_answer(timestamp).body)[3].0 == "warning"@);
    assert("message"@[0] != "warning"@[0]);
}

/// The greeting is plain text; every other answer is JSON.
pub proof fn lemma_content_types(handler: Handler, timestamp: Seq<char>)
    ensures
        handler == Handler::Hello ==> "text/plain"@.is_prefix_of(
            content_type_of(answer_of(handler, timestamp)),
        ),
        handler != Handler::Hello ==> "application/json"@.is_prefix_of(
            content_type_of(answer_of(handler, timestamp)),
        ),
{
    reveal_strlit("text/plain");
    reveal_strlit("text/plain; charset=utf-8");
    reveal_strlit("application/json");
    assert("text/plain; charset=utf-8"@.subrange(0, 10) =~= "text/plain"@);
    assert("application/json"@.subrange(0, 16) =~= "application/json"@);
}

} // verus!

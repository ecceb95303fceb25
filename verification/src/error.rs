//! The failure-isolation boundary: every failure of a request, whether an
//! error value or a task that ended abnormally, becomes a well-formed
//! reply.
//!
//! Pages are rendered by a collaborator. The boundary hands it a status
//! and a payload, and falls back to a fixed plain-text reply when the
//! collaborator fails.

use vstd::prelude::*;
use vstd::string::StringExecFns;

verus! {

/// Status of a reply to a request that was handled.
pub const OK: u16 = 200;

/// Status of a reply to a request for something that does not exist.
pub const NOT_FOUND: u16 = 404;

/// Status of a reply to a request whose handling failed.
pub const INTERNAL_SERVER_ERROR: u16 = 500;

/// What can go wrong, with the text of the underlying failure where there
/// is one.
#[derive(Debug)]
pub enum Error {
    /// The transport failed.
    Http(String),
    /// The datastore reported an error.
    Database(String),
    /// The service loop could not be started.
    FailedToStartServer,
    /// A page could not be rendered.
    TemplateError(String),
    /// A handling task ended abnormally.
    Panic(String),
    /// Nothing is routed at the requested path.
    PageNotFound,
}

/// An error as plain values.
pub enum ErrorView {
    Http(Seq<char>),
    Database(Seq<char>),
    FailedToStartServer,
    TemplateError(Seq<char>),
    Panic(Seq<char>),
    PageNotFound,
}

impl View for Error {
    type V = ErrorView;

    open spec fn view(&self) -> ErrorView {
        match *self {
            Error::Http(text) => ErrorView::Http(text@),
            Error::Database(text) => ErrorView::Database(text@),
            Error::FailedToStartServer => ErrorView::FailedToStartServer,
            Error::TemplateError(text) => ErrorView::TemplateError(text@),
            Error::Panic(text) => ErrorView::Panic(text@),
            Error::PageNotFound => ErrorView::PageNotFound,
        }
    }
}

impl ErrorView {
    /// The full text of the error, as it is logged.
    pub open spec fn message(self) -> Seq<char> {
        match self {
            ErrorView::Http(text) => text,
            ErrorView::Database(text) => text,
            ErrorView::FailedToStartServer => "Failed to start server"@,
            ErrorView::TemplateError(text) => text,
            ErrorView::Panic(text) => text,
            ErrorView::PageNotFound => "Page not found"@,
        }
    }

    /// The text of the error as a page shows it. The text of an underlying
    /// failure is internal and is not shown.
    pub open spec fn summary(self) -> Seq<char> {
        match self {
            ErrorView::Http(_) => "Internal server error"@,
            ErrorView::Database(_) => "Internal server error"@,
            ErrorView::FailedToStartServer => "Failed to start server"@,
            ErrorView::TemplateError(_) => "Internal server error"@,
            ErrorView::Panic(text) => text,
            ErrorView::PageNotFound => "Page not found"@,
        }
    }

    /// The status of the reply that the error becomes.
    pub open spec fn status(self) -> u16 {
        match self {
            ErrorView::PageNotFound => NOT_FOUND,
            _ => INTERNAL_SERVER_ERROR,
        }
    }

    /// What the page renderer is given for the error.
    pub open spec fn template(self) -> ErrorTemplateView {
        ErrorTemplateView {
            code: self.status(),
            error: ErrorDetailsView { kind: self, details: Seq::<char>::empty() },
        }
    }
}

/// An error with its diagnostic text.
#[derive(Debug)]
pub struct ErrorDetails {
    pub kind: Error,
    pub details: String,
}

/// Error details as plain values.
pub struct ErrorDetailsView {
    pub kind: ErrorView,
    pub details: Seq<char>,
}

impl View for ErrorDetails {
    type V = ErrorDetailsView;

    open spec fn view(&self) -> ErrorDetailsView {
        ErrorDetailsView { kind: self.kind@, details: self.details@ }
    }
}

/// What the page renderer is given: a status and the error to show.
#[derive(Debug)]
pub struct ErrorTemplate {
    pub code: u16,
    pub error: ErrorDetails,
}

/// An error page's input as plain values.
pub struct ErrorTemplateView {
    pub code: u16,
    pub error: ErrorDetailsView,
}

impl View for ErrorTemplate {
    type V = ErrorTemplateView;

    open spec fn view(&self) -> ErrorTemplateView {
        ErrorTemplateView { code: self.code, error: self.error@ }
    }
}

/// How the body of a reply is to be read.
#[derive(Clone, Copy, Debug, PartialEq, Eq, Structural)]
pub enum ContentType {
    Html,
    PlainText,
}

/// A reply: what the boundary always produces.
#[derive(Debug)]
pub struct Reply {
    pub status: u16,
    pub content_type: ContentType,
    pub body: String,
}

/// A reply as plain values.
pub struct ReplyView {
    pub status: u16,
    pub content_type: ContentType,
    pub body: Seq<char>,
}

impl View for Reply {
    type V = ReplyView;

    open spec fn view(&self) -> ReplyView {
        ReplyView { status: self.status, content_type: self.content_type, body: self.body@ }
    }
}

/// What a renderer returned, as plain values: the page, or the text of
/// its failure.
pub open spec fn rendered_view(rendered: Result<String, String>) -> Result<Seq<char>, Seq<char>> {
    match rendered {
        Ok(page) => Ok(page@),
        Err(text) => Err(text@),
    }
}

/// What a task that ended abnormally left behind, as plain values.
pub open spec fn payload_view(payload: Option<String>) -> Option<Seq<char>> {
    match payload {
        Some(text) => Some(text@),
        None => None,
    }
}

/// The body of the reply that stands in for a page that could not be
/// rendered.
pub open spec fn render_failure_body(text: Seq<char>) -> Seq<char> {
    "Failed to render template. Error: "@ + text
}

impl ErrorTemplateView {
    /// The reply for an error page: the page under the error's status if
    /// it was rendered, else the plain-text fallback.
    pub open spec fn reply(self, rendered: Result<Seq<char>, Seq<char>>) -> ReplyView {
        match rendered {
            Ok(page) => ReplyView {
                status: self.code,
                content_type: ContentType::Html,
                body: page,
            },
            Err(text) => ReplyView {
                status: INTERNAL_SERVER_ERROR,
                content_type: ContentType::PlainText,
                body: render_failure_body(text),
            },
        }
    }
}

/// The diagnostic of a task that ended abnormally: its payload where that
/// is a text, else a fixed text.
pub open spec fn panic_details_of(payload: Option<Seq<char>>) -> Seq<char> {
    match payload {
        Some(text) => text,
        None => "Unknown panic message"@,
    }
}

/// What the page renderer is given for a task that ended abnormally.
pub open spec fn panic_template_of(payload: Option<Seq<char>>) -> ErrorTemplateView {
    ErrorTemplateView {
        code: INTERNAL_SERVER_ERROR,
        error: ErrorDetailsView {
            kind: ErrorView::Panic("Panic"@),
            details: panic_details_of(payload),
        },
    }
}

/// The reply for a page: under the status for success if it was rendered.
/// If it was not, the failure is an error like any other.
pub open spec fn page_outcome(rendered: Result<Seq<char>, Seq<char>>) -> Result<
    ReplyView,
    ErrorView,
> {
    match rendered {
        Ok(page) => Ok(ReplyView { status: OK, content_type: ContentType::Html, body: page }),
        Err(text) => Err(ErrorView::TemplateError(text)),
    }
}

impl Error {
    /// The full text of the error, as it is logged.
    pub fn message(&self) -> (r: String)
        ensures
            r@ == self@.message(),
    {
        match self {
            Error::Http(text) => text.clone(),
            Error::Database(text) => text.clone(),
            Error::FailedToStartServer => String::from_str("Failed to start server"),
            Error::TemplateError(text) => text.clone(),
            Error::Panic(text) => text.clone(),
            Error::PageNotFound => String::from_str("Page not found"),
        }
    }

    /// The text of the error as a page shows it.
    pub fn summary(&self) -> (r: String)
        ensures
            r@ == self@.summary(),
    {
        match self {
            Error::Http(_) => String::from_str("Internal server error"),
            Error::Database(_) => String::from_str("Internal server error"),
            Error::FailedToStartServer => String::from_str("Failed to start server"),
            Error::TemplateError(_) => String::from_str("Internal server error"),
            Error::Panic(text) => text.clone(),
            Error::PageNotFound => String::from_str("Page not found"),
        }
    }

    /// The status of the reply that the error becomes.
    pub fn status(&self) -> (code: u16)
        ensures
            code == self@.status(),
    {
        match self {
            Error::PageNotFound => NOT_FOUND,
            _ => INTERNAL_SERVER_ERROR,
        }
    }

    /// What the page renderer is given for the error.
    pub fn into_template(self) -> (t: ErrorTemplate)
        ensures
            t@ == self@.template(),
    {
        let code = self.status();
        ErrorTemplate::new(code, ErrorDetails { kind: self, details: String::new() })
    }

    /// Turns the error into a reply. The page is rendered by `render`; if
    /// that fails, the reply is the plain-text fallback.
    pub fn into_response<F: FnOnce(&ErrorTemplate) -> Result<String, String>>(
        self,
        render: F,
    ) -> (r: Reply)
        requires
            forall|t: &ErrorTemplate| call_requires(render, (t,)),
        ensures
            exists|t: &ErrorTemplate, rendered: Result<String, String>|
                t@ == self@.template() && call_ensures(render, (t,), rendered) && r@
                    == self@.template().reply(rendered_view(rendered)),
    {
        self.into_template().into_response(render)
    }
}

impl ErrorDetails {
    /// The text that stands for the error on a page.
    pub fn message(&self) -> (r: String)
        ensures
            r@ == self@.kind.summary(),
    {
        self.kind.summary()
    }
}

impl ErrorTemplate {
    /// An error page's input.
    pub fn new(code: u16, error: ErrorDetails) -> (t: Self)
        ensures
            t.code == code,
            t.error == error,
    {
        ErrorTemplate { code, error }
    }

    /// The reply for what the page renderer returned.
    pub fn into_reply(self, rendered: Result<String, String>) -> (r: Reply)
        ensures
            r@ == self@.reply(rendered_view(rendered)),
    {
        match rendered {
            Ok(page) => Reply { status: self.code, content_type: ContentType::Html, body: page },
            Err(text) => render_failure(text.as_str()),
        }
    }

    /// Renders the page with `render` and turns the result into a reply.
    pub fn into_response<F: FnOnce(&ErrorTemplate) -> Result<String, String>>(
        self,
        render: F,
    ) -> (r: Reply)
        requires
            call_requires(render, (&self,)),
        ensures
            exists|rendered: Result<String, String>|
                call_ensures(render, (&self,), rendered) && r@ == self@.reply(
                    rendered_view(rendered),
                ),
    {
        let rendered = render(&self);
        self.into_reply(rendered)
    }
}

/// The reply that stands in for a page that could not be rendered.
pub fn render_failure(text: &str) -> (r: Reply)
    ensures
        r@ == (ReplyView {
            status: INTERNAL_SERVER_ERROR,
            content_type: ContentType::PlainText,
            body: render_failure_body(text@),
        }),
{
    let mut body = String::from_str("Failed to render template. Error: ");
    body.append(text);
    Reply { status: INTERNAL_SERVER_ERROR, content_type: ContentType::PlainText, body }
}

/// The diagnostic of a task that ended abnormally.
pub fn panic_details(payload: Option<String>) -> (r: String)
    ensures
        r@ == panic_details_of(payload_view(payload)),
{
    match payload {
        Some(text) => text,
        None => String::from_str("Unknown panic message"),
    }
}

/// What the page renderer is given for a task that ended abnormally.
pub fn panic_template(payload: Option<String>) -> (t: ErrorTemplate)
    ensures
        t@ == panic_template_of(payload_view(payload)),
{
    ErrorTemplate::new(
        INTERNAL_SERVER_ERROR,
        ErrorDetails { kind: Error::Panic(String::from_str("Panic")), details: panic_details(payload) },
    )
}

/// Turns a task that ended abnormally into a reply. `payload` is what the
/// task left behind, where that is a text. The page is rendered by
/// `render`; if that fails, the reply is the plain-text fallback.
pub fn panic_handler<F: FnOnce(&ErrorTemplate) -> Result<String, String>>(
    payload: Option<String>,
    render: F,
) -> (r: Reply)
    requires
        forall|t: &ErrorTemplate| call_requires(render, (t,)),
    ensures
        r.status == INTERNAL_SERVER_ERROR,
        exists|t: &ErrorTemplate, rendered: Result<String, String>|
            t@ == panic_template_of(payload_view(payload)) && call_ensures(
                render,
                (t,),
                rendered,
            ) && r@ == t@.reply(rendered_view(rendered)),
{
    panic_template(payload).into_response(render)
}

/// The outcome for a page that a handler rendered.
pub fn page_reply(rendered: Result<String, String>) -> (r: Result<Reply, Error>)
    ensures
        (match r {
            Ok(reply) => Ok(reply@),
            Err(error) => Err(error@),
        }) == page_outcome(rendered_view(rendered)),
{
    match rendered {
        Ok(page) => Ok(Reply { status: OK, content_type: ContentType::Html, body: page }),
        Err(text) => Err(Error::TemplateError(text)),
    }
}

/// What a request that no route answers comes to.
pub fn not_found() -> (r: Error)
    ensures
        r@ == ErrorView::PageNotFound,
{
    Error::PageNotFound
}

/// What came of handling one request.
#[derive(Debug)]
pub enum Outcome {
    /// The handler answered.
    Handled(Reply),
    /// The handler gave an error.
    Failed(Error),
    /// The handling task ended abnormally and left this behind, where it
    /// is a text.
    Aborted(Option<String>),
}

/// What came of a request, as plain values.
pub enum OutcomeView {
    Handled(ReplyView),
    Failed(ErrorView),
    Aborted(Option<Seq<char>>),
}

impl View for Outcome {
    type V = OutcomeView;

    open spec fn view(&self) -> OutcomeView {
        match *self {
            Outcome::Handled(reply) => OutcomeView::Handled(reply@),
            Outcome::Failed(error) => OutcomeView::Failed(error@),
            Outcome::Aborted(payload) => OutcomeView::Aborted(payload_view(payload)),
        }
    }
}

impl OutcomeView {
    /// Whether the page renderer is called for the outcome, and if so,
    /// with what.
    pub open spec fn template(self) -> Option<ErrorTemplateView> {
        match self {
            OutcomeView::Handled(_) => None,
            OutcomeView::Failed(error) => Some(error.template()),
            OutcomeView::Aborted(payload) => Some(panic_template_of(payload)),
        }
    }

    /// The reply to the request, given what the page renderer returned
    /// where it was called.
    pub open spec fn reply(self, rendered: Result<Seq<char>, Seq<char>>) -> ReplyView {
        match self {
            OutcomeView::Handled(reply) => reply,
            OutcomeView::Failed(error) => error.template().reply(rendered),
            OutcomeView::Aborted(payload) => panic_template_of(payload).reply(rendered),
        }
    }
}

/// The boundary: turns whatever came of a request into its reply. A
/// reply of the handler passes unchanged; an error and an abnormal end
/// become a page, or the plain-text fallback where `render` fails.
pub fn isolate<F: FnOnce(&ErrorTemplate) -> Result<String, String>>(
    outcome: Outcome,
    render: F,
) -> (r: Reply)
    requires
        forall|t: &ErrorTemplate| call_requires(render, (t,)),
    ensures
        outcome@ matches OutcomeView::Handled(reply) ==> r@ == reply,
        outcome@.template() matches Some(template) ==> exists|
            t: &ErrorTemplate,
            rendered: Result<String, String>,
        |
            t@ == template && call_ensures(render, (t,), rendered) && r@ == outcome@.reply(
                rendered_view(rendered),
            ),
{
    match outcome {
        Outcome::Handled(reply) => reply,
        Outcome::Failed(error) => error.into_response(render),
        Outcome::Aborted(payload) => panic_handler(payload, render),
    }
}

/// The replies to the requests that are in flight together, given for
/// each what came of it and what the page renderer returned for it: each
/// is the reply to its own outcome.
pub open spec fn replies(
    outcomes: Seq<OutcomeView>,
    rendered: Seq<Result<Seq<char>, Seq<char>>>,
) -> Seq<ReplyView> {
    Seq::new(outcomes.len(), |i: int| outcomes[i].reply(rendered[i]))
}

/// What comes of one request does not reach another: if the request at
/// `other` had ended differently, abnormally for one, the reply at `i`
/// would be the same, and a request that its handler answered gets that
/// answer. Every request gets a reply.
pub proof fn lemma_isolation(
    outcomes: Seq<OutcomeView>,
    rendered: Seq<Result<Seq<char>, Seq<char>>>,
    i: int,
    other: int,
    instead: OutcomeView,
    instead_rendered: Result<Seq<char>, Seq<char>>,
)
    requires
        rendered.len() == outcomes.len(),
        0 <= i < outcomes.len(),
        0 <= other < outcomes.len(),
        i != other,
    ensures
        replies(outcomes, rendered).len() == outcomes.len(),
        replies(outcomes.update(other, instead), rendered.update(other, instead_rendered))[i]
            == replies(outcomes, rendered)[i],
        outcomes[i] matches OutcomeView::Handled(reply) ==> replies(outcomes, rendered)[i] == reply,
{
}

/// Whatever the page renderer does, an error becomes a reply with a
/// status: the error's own if the page was rendered, the status for a
/// failure if it was not. Only a request for something that does not
/// exist is answered with the status for that.
pub proof fn lemma_every_error_has_a_reply(error: ErrorView, rendered: Result<Seq<char>, Seq<char>>)
    ensures
        error.template().reply(rendered).status == NOT_FOUND || error.template().reply(
            rendered,
        ).status == INTERNAL_SERVER_ERROR,
        error.template().reply(rendered).status == NOT_FOUND ==> error is PageNotFound
            && rendered is Ok,
        rendered is Err ==> error.template().reply(rendered).content_type
            == ContentType::PlainText,
        rendered matches Ok(page) ==> error.template().reply(rendered).body == page,
{
}

/// A request for something that does not exist, and any other error, is
/// never answered with nothing: the plain-text fallback is not empty, and
/// a page that was rendered is the body as it is, so the reply has a body
/// wherever the page renderer gave one. For a missing page that reply has
/// the status for it, and what the renderer is given to show is not
/// empty.
pub proof fn lemma_reply_has_a_body(error: ErrorView, rendered: Result<Seq<char>, Seq<char>>)
    ensures
        rendered is Err ==> error.template().reply(rendered).body.len() > 0,
        rendered matches Ok(page) ==> error.template().reply(rendered).body.len() == page.len(),
        rendered matches Ok(page) ==> ErrorView::PageNotFound.template().reply(rendered)
            == (ReplyView { status: NOT_FOUND, content_type: ContentType::Html, body: page }),
        ErrorView::PageNotFound.summary().len() > 0,
{
    reveal_strlit("Failed to render template. Error: ");
    reveal_strlit("Page not found");
}

} // verus!

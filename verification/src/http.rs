//! Requests and responses as plain values, and the rules that turn what came
//! back from the server into a result.

use vstd::prelude::*;
use vstd::string::*;
use crate::errors::{ErrorView, SignalWireError};
use crate::text::{contains_text, lemma_end_is_contained, lemma_middle_is_contained};

verus! {

/// The request methods that the API is called with.
#[derive(Debug, Clone, Copy, PartialEq, Eq, Structural)]
pub enum HttpMethod {
    Get,
    Post,
    Delete,
}

/// What a request carries besides its address.
#[derive(Debug, Clone, PartialEq)]
pub enum RequestBody {
    /// No body at all.
    Absent,
    /// A body of no bytes, announced with `Content-Length: 0`.
    Empty,
    /// A JSON document, as text.
    Json(String),
    /// Name and value pairs to be form-encoded, in this order.
    Form(Vec<(String, String)>),
}

/// A `RequestBody` with its texts as sequences of characters.
pub enum RequestBodyView {
    Absent,
    Empty,
    Json(Seq<char>),
    Form(Seq<(Seq<char>, Seq<char>)>),
}

impl View for RequestBody {
    type V = RequestBodyView;

    open spec fn view(&self) -> RequestBodyView {
        match self {
            RequestBody::Absent => RequestBodyView::Absent,
            RequestBody::Empty => RequestBodyView::Empty,
            RequestBody::Json(text) => RequestBodyView::Json(text@),
            RequestBody::Form(pairs) => RequestBodyView::Form(pairs.deep_view()),
        }
    }
}

/// One request, ready to be sent with basic authentication.
#[derive(Debug, Clone, PartialEq)]
pub struct HttpRequest {
    pub method: HttpMethod,
    pub url: String,
    /// User name of the basic authentication: the project identifier.
    pub username: String,
    /// Password of the basic authentication: the secret key.
    pub password: String,
    pub body: RequestBody,
}

/// An `HttpRequest` with its texts as sequences of characters.
pub struct HttpRequestView {
    pub method: HttpMethod,
    pub url: Seq<char>,
    pub username: Seq<char>,
    pub password: Seq<char>,
    pub body: RequestBodyView,
}

impl View for HttpRequest {
    type V = HttpRequestView;

    open spec fn view(&self) -> HttpRequestView {
        HttpRequestView {
            method: self.method,
            url: self.url@,
            username: self.username@,
            password: self.password@,
            body: self.body@,
        }
    }
}

/// How sending a request ended.
#[derive(Debug, Clone, PartialEq)]
pub enum HttpOutcome {
    /// No response arrived; the text says why.
    TransportFailed(String),
    /// A response arrived, but its body could not be read; `error` says why.
    BodyFailed { status: u16, error: String },
    /// A response arrived in full.
    Response { status: u16, body: String },
}

/// An `HttpOutcome` with its texts as sequences of characters.
pub enum OutcomeView {
    TransportFailed(Seq<char>),
    BodyFailed { status: u16, error: Seq<char> },
    Response { status: u16, body: Seq<char> },
}

impl View for HttpOutcome {
    type V = OutcomeView;

    open spec fn view(&self) -> OutcomeView {
        match self {
            HttpOutcome::TransportFailed(detail) => OutcomeView::TransportFailed(detail@),
            HttpOutcome::BodyFailed { status, error } => OutcomeView::BodyFailed {
                status: *status,
                error: error@,
            },
            HttpOutcome::Response { status, body } => OutcomeView::Response {
                status: *status,
                body: body@,
            },
        }
    }
}

/// What a request addresses: a collection, or one resource by its identifier.
#[derive(Debug, Clone, Copy, PartialEq)]
pub enum Target<'a> {
    /// A listing, a search or a creation: a 404 has no special meaning.
    Collection,
    /// The message with this SID.
    Message(&'a str),
    /// The subproject with this SID.
    Subproject(&'a str),
}

/// A `Target` with its identifier as a sequence of characters.
pub enum TargetView {
    Collection,
    Message(Seq<char>),
    Subproject(Seq<char>),
}

impl TargetView {
    /// Whether one resource is addressed by its identifier.
    pub open spec fn addressed(self) -> bool {
        !(self is Collection)
    }

    /// The identifier of the addressed resource.
    pub open spec fn identifier(self) -> Seq<char> {
        match self {
            TargetView::Collection => Seq::empty(),
            TargetView::Message(sid) => sid,
            TargetView::Subproject(sid) => sid,
        }
    }

    /// The text of the error for an addressed resource that does not exist.
    pub open spec fn not_found_text(self) -> Seq<char> {
        match self {
            TargetView::Collection => Seq::empty(),
            TargetView::Message(sid) => "Message with SID "@ + sid + " not found"@,
            TargetView::Subproject(sid) => "Subproject with SID "@ + sid + " not found"@,
        }
    }
}

impl<'a> View for Target<'a> {
    type V = TargetView;

    open spec fn view(&self) -> TargetView {
        match self {
            Target::Collection => TargetView::Collection,
            Target::Message(sid) => TargetView::Message(sid@),
            Target::Subproject(sid) => TargetView::Subproject(sid@),
        }
    }
}

/// The status of a request that lacked valid credentials.
pub const UNAUTHORIZED: u16 = 401;

/// The status of a request for something that does not exist.
pub const NOT_FOUND: u16 = 404;

/// Whether a status reports an error of the client (4xx) or of the server (5xx).
pub open spec fn is_error_status(status: u16) -> bool {
    400 <= status < 600
}

/// The error that a status stands for, if any. `text` is the body of the
/// response, or the reason why it could not be read.
pub open spec fn status_error(status: u16, target: TargetView, text: Seq<char>) -> Option<
    ErrorView,
> {
    if status == UNAUTHORIZED {
        Some(ErrorView::Unauthorized)
    } else if status == NOT_FOUND && target.addressed() {
        Some(ErrorView::NotFound(target.not_found_text()))
    } else if is_error_status(status) {
        Some(ErrorView::Unexpected(text))
    } else {
        None
    }
}

/// The error that an outcome stands for before any body is parsed, if any.
pub open spec fn outcome_error(outcome: OutcomeView, target: TargetView) -> Option<ErrorView> {
    match outcome {
        OutcomeView::TransportFailed(detail) => Some(ErrorView::HttpError(detail)),
        OutcomeView::BodyFailed { status, error } => status_error(status, target, error),
        OutcomeView::Response { status, body } => status_error(status, target, body),
    }
}

/// The body to parse, or the error, for a request whose answer has a body.
pub open spec fn classified(outcome: OutcomeView, target: TargetView) -> Result<
    Seq<char>,
    ErrorView,
> {
    match outcome_error(outcome, target) {
        Some(error) => Err(error),
        None => match outcome {
            OutcomeView::Response { body, .. } => Ok(body),
            OutcomeView::BodyFailed { error, .. } => Err(ErrorView::Unexpected(error)),
            OutcomeView::TransportFailed(detail) => Err(ErrorView::HttpError(detail)),
        },
    }
}

/// Success, or the error, for a request whose answer has no body.
pub open spec fn classified_without_body(outcome: OutcomeView, target: TargetView) -> Result<
    (),
    ErrorView,
> {
    match outcome_error(outcome, target) {
        Some(error) => Err(error),
        None => Ok(()),
    }
}

/// A result that holds a text or an error, with both as sequences of characters.
pub open spec fn text_result_view(result: Result<String, SignalWireError>) -> Result<
    Seq<char>,
    ErrorView,
> {
    match result {
        Ok(text) => Ok(text@),
        Err(error) => Err(error@),
    }
}

/// A result without a value, with its error as sequences of characters.
pub open spec fn unit_result_view(result: Result<(), SignalWireError>) -> Result<(), ErrorView> {
    match result {
        Ok(()) => Ok(()),
        Err(error) => Err(error@),
    }
}

/// The text of the error for a body that could not be parsed: why, and the
/// body as it came.
pub open spec fn parse_failure_text(reason: Seq<char>, body: Seq<char>) -> Seq<char> {
    "Failed to parse response: "@ + reason + ". Response was: "@ + body
}

/// What parsing a body ended in: the parsed value, or the error that names
/// the reason and the body.
pub open spec fn decoded_view<T>(body: Seq<char>, parsed: Result<T, String>) -> Result<
    T,
    ErrorView,
> {
    match parsed {
        Ok(value) => Ok(value),
        Err(reason) => Err(ErrorView::Unexpected(parse_failure_text(reason@, body))),
    }
}

impl<'a> Target<'a> {
    /// The text of the error for an addressed resource that does not exist.
    pub fn not_found_text(&self) -> (text: String)
        ensures
            text@ == self@.not_found_text(),
    {
        match self {
            Target::Collection => String::new(),
            Target::Message(sid) => String::from_str("Message with SID ").concat(sid).concat(
                " not found",
            ),
            Target::Subproject(sid) => String::from_str("Subproject with SID ").concat(
                sid,
            ).concat(" not found"),
        }
    }

    /// Whether one resource is addressed by its identifier.
    pub fn addressed(&self) -> (yes: bool)
        ensures
            yes == self@.addressed(),
    {
        match self {
            Target::Collection => false,
            _ => true,
        }
    }
}

/// Whether a status reports an error of the client (4xx) or of the server (5xx).
pub fn status_is_error(status: u16) -> (yes: bool)
    ensures
        yes == is_error_status(status),
{
    400 <= status && status < 600
}

/// The error that a status stands for, or `text` handed back where it stands for none.
fn check_status(status: u16, target: &Target<'_>, text: String) -> (r: Result<
    String,
    SignalWireError,
>)
    ensures
        (match status_error(status, target@, text@) {
            Some(error) => r matches Err(e) && e@ == error,
            None => r matches Ok(t) && t@ == text@,
        }),
{
    if status == UNAUTHORIZED {
        Err(SignalWireError::Unauthorized)
    } else if status == NOT_FOUND && target.addressed() {
        Err(SignalWireError::NotFound(target.not_found_text()))
    } else if status_is_error(status) {
        Err(SignalWireError::Unexpected(text))
    } else {
        Ok(text)
    }
}

/// Decides what came back for a request whose answer has a body: the body
/// that is to be parsed, or the error. The status decides before the body
/// is looked at.
pub fn classify(outcome: HttpOutcome, target: Target<'_>) -> (r: Result<String, SignalWireError>)
    ensures
        text_result_view(r) == classified(outcome@, target@),
{
    match outcome {
        HttpOutcome::TransportFailed(detail) => Err(SignalWireError::HttpError(detail)),
        HttpOutcome::BodyFailed { status, error } => {
            match check_status(status, &target, error) {
                Ok(reason) => Err(SignalWireError::Unexpected(reason)),
                Err(error) => Err(error),
            }
        },
        HttpOutcome::Response { status, body } => check_status(status, &target, body),
    }
}

/// Decides what came back for a request whose answer has no body: success,
/// or the error.
pub fn classify_without_body(outcome: HttpOutcome, target: Target<'_>) -> (r: Result<
    (),
    SignalWireError,
>)
    ensures
        unit_result_view(r) == classified_without_body(outcome@, target@),
{
    match outcome {
        HttpOutcome::TransportFailed(detail) => Err(SignalWireError::HttpError(detail)),
        HttpOutcome::BodyFailed { status, error } => {
            match check_status(status, &target, error) {
                Ok(_) => Ok(()),
                Err(error) => Err(error),
            }
        },
        HttpOutcome::Response { status, body } => {
            match check_status(status, &target, body) {
                Ok(_) => Ok(()),
                Err(error) => Err(error),
            }
        },
    }
}

/// Ends a call whose body was handed to a parser: the parsed value, or an
/// error that holds the parser's reason and the body as it came.
pub fn decoded<T>(body: &str, parsed: Result<T, String>) -> (r: Result<T, SignalWireError>)
    ensures
        (match decoded_view(body@, parsed) {
            Ok(value) => r == Ok::<T, SignalWireError>(value),
            Err(error) => r matches Err(e) && e@ == error,
        }),
{
    match parsed {
        Ok(value) => Ok(value),
        Err(reason) => {
            let text = String::from_str("Failed to parse response: ").concat(
                reason.as_str(),
            ).concat(". Response was: ").concat(body);
            Err(SignalWireError::Unexpected(text))
        },
    }
}

/// A 401 means `Unauthorized` for every target and whatever the body holds,
/// an empty body and one that could not be read included.
pub proof fn law_unauthorized_whatever_the_body(target: TargetView, text: Seq<char>)
    ensures
        classified(OutcomeView::Response { status: UNAUTHORIZED, body: text }, target) == Err::<
            Seq<char>,
            ErrorView,
        >(ErrorView::Unauthorized),
        classified(OutcomeView::BodyFailed { status: UNAUTHORIZED, error: text }, target) == Err::<
            Seq<char>,
            ErrorView,
        >(ErrorView::Unauthorized),
        classified_without_body(
            OutcomeView::Response { status: UNAUTHORIZED, body: text },
            target,
        ) == Err::<(), ErrorView>(ErrorView::Unauthorized),
        classified_without_body(
            OutcomeView::BodyFailed { status: UNAUTHORIZED, error: text },
            target,
        ) == Err::<(), ErrorView>(ErrorView::Unauthorized),
{
}

/// A 404 for a resource addressed by its identifier means `NotFound`, with a
/// text in which that identifier occurs, whatever the body holds.
pub proof fn law_not_found_names_the_identifier(target: TargetView, text: Seq<char>)
    requires
        target.addressed(),
    ensures
        classified(OutcomeView::Response { status: NOT_FOUND, body: text }, target) == Err::<
            Seq<char>,
            ErrorView,
        >(ErrorView::NotFound(target.not_found_text())),
        classified_without_body(OutcomeView::Response { status: NOT_FOUND, body: text }, target)
            == Err::<(), ErrorView>(ErrorView::NotFound(target.not_found_text())),
        contains_text(target.not_found_text(), target.identifier()),
{
    match target {
        TargetView::Collection => {},
        TargetView::Message(sid) => {
            lemma_middle_is_contained("Message with SID "@, sid, " not found"@);
        },
        TargetView::Subproject(sid) => {
            lemma_middle_is_contained("Subproject with SID "@, sid, " not found"@);
        },
    }
}

/// A 404 for a collection is an error like any other 4xx: `Unexpected`, with
/// the body as its text.
pub proof fn law_not_found_on_a_collection(text: Seq<char>)
    ensures
        classified(
            OutcomeView::Response { status: NOT_FOUND, body: text },
            TargetView::Collection,
        ) == Err::<Seq<char>, ErrorView>(ErrorView::Unexpected(text)),
{
}

/// An error status ends the call before any parsing: whatever the body
/// holds, a body that would parse included, the result is an error.
pub proof fn law_error_status_is_never_parsed(status: u16, target: TargetView, text: Seq<char>)
    requires
        is_error_status(status),
    ensures
        classified(OutcomeView::Response { status, body: text }, target) is Err,
        classified(OutcomeView::BodyFailed { status, error: text }, target) is Err,
        classified_without_body(OutcomeView::Response { status, body: text }, target) is Err,
{
}

/// A response with a 2xx status is handed to the parser as it came, and a
/// body that the parser refuses ends in `Unexpected`, never in a value: the
/// text of the error holds the body, the parser's reason, and the words that
/// mark a parse failure.
pub proof fn law_unparsable_body_is_reported<T>(
    status: u16,
    target: TargetView,
    body: Seq<char>,
    reason: String,
)
    requires
        200 <= status < 300,
    ensures
        classified(OutcomeView::Response { status, body }, target) == Ok::<Seq<char>, ErrorView>(
            body,
        ),
        decoded_view::<T>(body, Err(reason)) == Err::<T, ErrorView>(
            ErrorView::Unexpected(parse_failure_text(reason@, body)),
        ),
        contains_text(parse_failure_text(reason@, body), body),
        contains_text(parse_failure_text(reason@, body), reason@),
        contains_text(parse_failure_text(reason@, body), "Failed to parse response"@),
{
    let marker = "Failed to parse response: "@;
    let text = parse_failure_text(reason@, body);
    lemma_end_is_contained(marker + reason@ + ". Response was: "@, body);
    lemma_middle_is_contained(marker, reason@, ". Response was: "@ + body);
    assert(marker + reason@ + (". Response was: "@ + body) =~= text);
    reveal_strlit("Failed to parse response: ");
    reveal_strlit("Failed to parse response");
    let words = "Failed to parse response"@;
    assert(text.subrange(0, 0 + words.len() as int) =~= words);
}

/// Whether `result` is what a call ends in, given how sending went and what
/// the parser makes of a body: the error that the status stands for, and
/// else what parsing the body gave. The parser sees the body only where the
/// status stands for no error.
pub open spec fn interpreted<T, P: FnOnce(&str) -> Result<T, String>>(
    outcome: OutcomeView,
    target: TargetView,
    parse: P,
    result: Result<T, SignalWireError>,
) -> bool {
    match classified(outcome, target) {
        Err(error) => result matches Err(e) && e@ == error,
        Ok(body) => exists|text: &str, parsed: Result<T, String>|
            text@ == body && #[trigger] parse.ensures((text,), parsed) && match decoded_view(
                body,
                parsed,
            ) {
                Ok(value) => result == Ok::<T, SignalWireError>(value),
                Err(error) => result matches Err(e) && e@ == error,
            },
    }
}

/// Whether the parser can be called on the body that it is to see: the one
/// demand that a call makes on its parser, and none where the status stands
/// for an error. A parser without a precondition meets it.
pub open spec fn can_parse<T, P: FnOnce(&str) -> Result<T, String>>(
    outcome: OutcomeView,
    target: TargetView,
    parse: P,
) -> bool {
    classified(outcome, target) matches Ok(body) ==> forall|text: &str|
        text@ == body ==> #[trigger] parse.requires((text,))
}

/// Decides what came back for a request whose answer has a body, and has the
/// body parsed where the status allows it. `parse` turns a body into the
/// value it describes, or says why it cannot.
pub fn interpret<T, P>(outcome: HttpOutcome, target: Target<'_>, parse: P) -> (r: Result<
    T,
    SignalWireError,
>) where
    P: FnOnce(&str) -> Result<T, String>,
    requires
        can_parse(outcome@, target@, parse),
    ensures
        interpreted(outcome@, target@, parse, r),
{
    match classify(outcome, target) {
        Err(error) => Err(error),
        Ok(body) => {
            let parsed = parse(body.as_str());
            decoded(body.as_str(), parsed)
        },
    }
}

} // verus!

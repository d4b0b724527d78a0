//! Turning a request descriptor into what goes on the wire, and what came
//! back into a uniform outcome and its report text.

use vstd::prelude::*;

use crate::method::Method;
use crate::request::Request;
use crate::text::{decimal, decimal_text, option_text, text_or_empty};

verus! {

/// What the transport client is asked to send.
pub struct Outgoing {
    pub method: Method,
    pub url: String,
    /// The payload; present exactly for POST requests.
    pub body: Option<String>,
}

/// What a successfully transported exchange gave back.
pub struct Response {
    pub status: u16,
    /// The response text, or `None` when reading it failed.
    pub body: Option<String>,
}

/// The normalised result of attempting one request.
pub enum Outcome {
    Success { status: u16, reason: String, text: String },
    Failure { message: String },
}

/// The body that a request carries on the wire: only a POST carries one, the
/// empty text when the descriptor has none.
pub open spec fn wire_body(request: Request) -> Option<Seq<char>> {
    if request.method == Method::Post {
        Some(text_or_empty(request.body))
    } else {
        None
    }
}

/// Decides what is sent for a request. Methods outside GET, POST, DELETE and
/// PATCH are refused with "Invalid method".
pub fn prepare(request: Request) -> (r: Result<Outgoing, String>)
    ensures
        r is Ok <==> request.method.is_executable(),
        r matches Ok(o) ==> o.method == request.method && o.url == request.url && option_text(o.body)
            == wire_body(request),
        r matches Err(m) ==> m@ == "Invalid method"@,
{
    match request.method {
        Method::Get | Method::Delete | Method::Patch => Ok(
            Outgoing { method: request.method, url: request.url, body: None },
        ),
        Method::Post => {
            let body = match request.body {
                Some(b) => b,
                None => String::new(),
            };
            Ok(Outgoing { method: request.method, url: request.url, body: Some(body) })
        },
        _ => Err(String::from_str("Invalid method")),
    }
}

/// A request whose method is not POST never transmits a body, whatever its
/// descriptor holds; a POST always transmits one.
pub proof fn lemma_only_post_sends_body(request: Request)
    ensures
        request.method != Method::Post ==> wire_body(request) is None,
        request.method == Method::Post ==> wire_body(request) == Some(text_or_empty(request.body)),
{
}

/// The registered reason phrase of an HTTP status code, if it has one.
pub uninterp spec fn reason_phrase_of(code: u16) -> Option<Seq<char>>;

/// The reason phrase that a report shows: the registered one, else empty.
pub open spec fn reason_text(code: u16) -> Seq<char> {
    match reason_phrase_of(code) {
        Some(p) => p,
        None => Seq::empty(),
    }
}

/// Relies on reqwest's `StatusCode::from_u16`, which accepts the codes 100 to
/// 999, and `StatusCode::canonical_reason`, which gives the registered reason
/// phrase of a code, if there is one.
#[verifier::external_body]
fn canonical_reason(code: u16) -> (r: Option<String>)
    ensures
        option_text(r) == reason_phrase_of(code),
        code < 100 || code > 999 ==> r is None,
{
    match reqwest::StatusCode::from_u16(code) {
        Ok(status) => status.canonical_reason().map(String::from),
        Err(_) => None,
    }
}

pub open spec fn response_text(response: Response, unreadable_body: Seq<char>) -> Seq<char> {
    match response.body {
        Some(b) => b@,
        None => unreadable_body,
    }
}

/// Normalises what the transport gave back. Any transported response is a
/// success, whatever its status code; only a transport failure is a failure,
/// carrying the transport's diagnostic. An unreadable body reads as
/// `unreadable_body`.
pub fn normalize(sent: Result<Response, String>, unreadable_body: &str) -> (r: Outcome)
    ensures
        match sent {
            Ok(response) => r matches Outcome::Success { status, reason, text } && status
                == response.status && reason@ == reason_text(response.status) && text@
                == response_text(response, unreadable_body@),
            Err(message) => r == (Outcome::Failure { message }),
        },
{
    match sent {
        Ok(response) => {
            let reason = match canonical_reason(response.status) {
                Some(p) => p,
                None => String::new(),
            };
            let text = match response.body {
                Some(b) => b,
                None => String::from_str(unreadable_body),
            };
            Outcome::Success { status: response.status, reason, text }
        },
        Err(message) => Outcome::Failure { message },
    }
}

/// The summary of a success: status code, reason, method and URL.
pub open spec fn summary_line(status: u16, reason: Seq<char>, method: Method, url: Seq<char>) -> Seq<
    char,
> {
    decimal(status as nat) + " "@ + reason + " for "@ + method.name_spec() + " to "@ + url
}

/// How a failure is reported.
pub open spec fn error_text(message: Seq<char>) -> Seq<char> {
    "ERROR: "@ + message + "\n"@
}

/// The report of one entry: the summary line and the response text on a
/// success, the error line on a failure.
pub open spec fn entry_text_spec(method: Method, url: Seq<char>, outcome: Outcome) -> Seq<char> {
    match outcome {
        Outcome::Success { status, reason, text } => summary_line(status, reason@, method, url)
            + "\n"@ + text@ + "\n"@,
        Outcome::Failure { message } => error_text(message@),
    }
}

/// Appends the summary line of a success to `out`.
pub fn push_summary(out: &mut String, status: u16, reason: &str, method: Method, url: &str)
    ensures
        final(out)@ == old(out)@ + summary_line(status, reason@, method, url@),
{
    let code = decimal_text(status);
    out.append(code.as_str());
    out.append(" ");
    out.append(reason);
    out.append(" for ");
    let name = method.name();
    out.append(name.as_str());
    out.append(" to ");
    out.append(url);
}

/// The error line of a failure.
pub fn error_line(message: &str) -> (r: String)
    ensures
        r@ == error_text(message@),
{
    let mut r = String::from_str("ERROR: ");
    r.append(message);
    r.append("\n");
    r
}

/// Formats the report of one entry.
pub fn entry_text(method: Method, url: &str, outcome: &Outcome) -> (r: String)
    ensures
        r@ == entry_text_spec(method, url@, *outcome),
{
    match outcome {
        Outcome::Success { status, reason, text } => {
            let mut r = String::new();
            push_summary(&mut r, *status, reason.as_str(), method, url);
            r.append("\n");
            r.append(text.as_str());
            r.append("\n");
            r
        },
        Outcome::Failure { message } => error_line(message.as_str()),
    }
}

/// The report of a request that went out and came back as `sent`.
pub open spec fn sent_text(
    method: Method,
    url: Seq<char>,
    sent: Result<Response, String>,
    unreadable_body: Seq<char>,
) -> Seq<char> {
    match sent {
        Ok(response) => summary_line(response.status, reason_text(response.status), method, url)
            + "\n"@ + response_text(response, unreadable_body) + "\n"@,
        Err(message) => error_text(message@),
    }
}

} // verus!

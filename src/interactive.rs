//! The interactive submission handler: one request per user action, its
//! outcome laid out for the screen and, when a log is configured, recorded.

use vstd::prelude::*;

use crate::executor::{
    entry_text, normalize, prepare, reason_text, response_text, sent_text, wire_body,
    Outcome, Outgoing, Response,
};
use crate::history::{log_failure_message, log_failure_text, rfc3339_utc, LogRecord};
use crate::method::Method;
use crate::request::Request;
use crate::text::{decimal, option_text, push_decimal};

verus! {

/// The methods that the selection widget offers, in the order shown.
pub open spec fn selectable_spec() -> Seq<Method> {
    seq![Method::Get, Method::Post, Method::Delete, Method::Patch]
}

/// The methods that the selection widget offers; each one is executable.
pub fn selectable_methods() -> (r: Vec<Method>)
    ensures
        r@ == selectable_spec(),
        forall|i: int| 0 <= i < r@.len() ==> (#[trigger] r@[i]).is_executable(),
{
    let r = vec![Method::Get, Method::Post, Method::Delete, Method::Patch];
    assert(r@ =~= selectable_spec());
    r
}

/// What the user submitted: the selected method and the texts of the URL and
/// body fields.
pub struct Submission {
    pub method: Method,
    pub url: String,
    pub body: String,
}

/// The descriptor of a submission: the body field always counts as present.
pub open spec fn submitted_request(submission: Submission) -> Request {
    Request { url: submission.url, method: submission.method, body: Some(submission.body) }
}

/// The settings of an interactive session. The handler never changes them, so
/// a submission is handled the same way whatever came of earlier ones.
pub struct Session {
    /// Where outcomes are appended, if anywhere.
    pub log_file: Option<String>,
    /// The text shown in place of a response body that could not be read.
    pub unreadable_body: String,
}

/// What the screen shows after a submission, and what is to be logged.
pub struct Shown {
    /// The status region: code, reason and method; empty on a failure.
    pub label: String,
    /// The body region: the response text, or the error line.
    pub body: String,
    /// The record to append to the session's log, when it has one.
    pub log: Option<LogRecord>,
}

pub struct ShownView {
    pub label: Seq<char>,
    pub body: Seq<char>,
    /// The timestamp and entry text of the record, if any.
    pub log: Option<(Seq<char>, Seq<char>)>,
}

impl View for Shown {
    type V = ShownView;

    open spec fn view(&self) -> ShownView {
        ShownView {
            label: self.label@,
            body: self.body@,
            log: match self.log {
                Some(record) => Some((record.timestamp@, record.entry@)),
                None => None,
            },
        }
    }
}

impl Shown {
    /// The timestamp of the record to log; empty when there is none.
    pub open spec fn stamp(self) -> Seq<char> {
        match self.log {
            Some(record) => record.timestamp@,
            None => Seq::empty(),
        }
    }
}

/// The status region after a submission.
pub open spec fn label_text(method: Method, sent: Result<Response, String>) -> Seq<char> {
    match sent {
        Ok(response) => decimal(response.status as nat) + " "@ + reason_text(response.status)
            + " for "@ + method.name_spec(),
        Err(_) => Seq::empty(),
    }
}

/// The body region after a submission.
pub open spec fn body_text(sent: Result<Response, String>, unreadable_body: Seq<char>) -> Seq<
    char,
> {
    match sent {
        Ok(response) => response_text(response, unreadable_body),
        Err(message) => "ERROR: "@ + message@,
    }
}

/// Everything that a submission of `method` to `url` leads to, when the
/// transport gave back `sent` and a log record is stamped with `timestamp`.
pub open spec fn shown_spec(
    log_file: Option<Seq<char>>,
    unreadable_body: Seq<char>,
    method: Method,
    url: Seq<char>,
    sent: Result<Response, String>,
    timestamp: Seq<char>,
) -> ShownView {
    ShownView {
        label: label_text(method, sent),
        body: body_text(sent, unreadable_body),
        log: match log_file {
            Some(_) => Some((timestamp, sent_text(method, url, sent, unreadable_body))),
            None => None,
        },
    }
}

impl Session {
    /// What is sent for a submission. A method outside GET, POST, DELETE and
    /// PATCH is refused with "Invalid method"; only a POST carries the body.
    pub fn request_for(submission: Submission) -> (r: Result<Outgoing, String>)
        ensures
            r is Ok <==> submission.method.is_executable(),
            r matches Ok(o) ==> o.method == submission.method && o.url == submission.url
                && option_text(o.body) == wire_body(submitted_request(submission)),
            r matches Err(m) ==> m@ == "Invalid method"@,
    {
        prepare(Request { url: submission.url, method: submission.method, body: Some(submission.body) })
    }

    /// Lays out the outcome of a submission of `method` to `url` whose request
    /// came back as `sent`.
    pub fn show(&self, method: Method, url: &str, sent: Result<Response, String>) -> (r: Shown)
        ensures
            r@ == shown_spec(
                option_text(self.log_file),
                self.unreadable_body@,
                method,
                url@,
                sent,
                r.stamp(),
            ),
            r.log is Some ==> rfc3339_utc(r.stamp()),
    {
        let ghost sent_before = sent;
        let outcome = normalize(sent, self.unreadable_body.as_str());
        let text = entry_text(method, url, &outcome);
        assert(text@ == sent_text(method, url@, sent_before, self.unreadable_body@));
        let log = match &self.log_file {
            Some(_) => Some(LogRecord::stamped(text)),
            None => None,
        };
        match outcome {
            Outcome::Success { status, reason, text } => {
                let mut label = String::new();
                push_decimal(&mut label, status);
                label.append(" ");
                label.append(reason.as_str());
                label.append(" for ");
                let name = method.name();
                label.append(name.as_str());
                Shown { label, body: text, log }
            },
            Outcome::Failure { message } => {
                let mut body = String::from_str("ERROR: ");
                body.append(message.as_str());
                Shown { label: String::new(), body, log }
            },
        }
    }

    /// The notice shown when appending `error`'s record to the log failed. It
    /// is dismissible: the session goes on unchanged.
    pub fn log_failure_notice(&self, error: &str) -> (r: String)
        requires
            self.log_file is Some,
        ensures
            r@ == log_failure_text(self.log_file->0@, error@),
    {
        match &self.log_file {
            Some(path) => log_failure_message(path.as_str(), error),
            None => String::new(),
        }
    }
}

} // verus!

//! Request descriptors and their decoding from declarative entries.

use vstd::prelude::*;

use crate::method::{lemma_named_methods_are_executable, method_named, parse_method, Method};

verus! {

/// One entry of a request file as it was read: nothing is validated yet.
pub struct RawEntry {
    pub url: String,
    pub method: String,
    pub body: Option<String>,
}

/// A validated description of one HTTP call.
pub struct Request {
    pub url: String,
    pub method: Method,
    pub body: Option<String>,
}

/// An entry whose method is not one of GET, POST, DELETE and PATCH.
pub struct DecodeError {
    pub method: String,
    pub url: String,
}

impl DecodeError {
    pub open spec fn message_spec(self) -> Seq<char> {
        "Invalid method: "@ + self.method@ + " to "@ + self.url@
    }

    /// The diagnostic text of the error, naming the method and the URL.
    pub fn message(&self) -> (r: String)
        ensures
            r@ == self.message_spec(),
    {
        let mut r = String::from_str("Invalid method: ");
        r.append(self.method.as_str());
        r.append(" to ");
        r.append(self.url.as_str());
        r
    }
}

/// What decoding an entry gives: a request when its method is supported,
/// else an error that carries the method and the URL.
pub open spec fn decode_spec(value: RawEntry) -> Result<Request, DecodeError> {
    match method_named(value.method@) {
        Some(m) => Ok(Request { url: value.url, method: m, body: value.body }),
        None => Err(DecodeError { method: value.method, url: value.url }),
    }
}

impl Request {
    /// Decodes one entry, validating its method.
    pub fn try_from(value: RawEntry) -> (r: Result<Request, DecodeError>)
        ensures
            r == decode_spec(value),
    {
        match parse_method(&value.method) {
            Some(method) => Ok(Request { url: value.url, method, body: value.body }),
            None => Err(DecodeError { method: value.method, url: value.url }),
        }
    }
}

/// Decoding never yields a request whose method is outside GET, POST, DELETE
/// and PATCH, and it rejects every entry whose method text is not one of
/// those four names.
pub proof fn lemma_decode_only_executable(value: RawEntry)
    ensures
        decode_spec(value) matches Ok(r) ==> r.method.is_executable() && r.method.name_spec()
            == value.method@,
        !(value.method@ == "GET"@ || value.method@ == "POST"@ || value.method@ == "DELETE"@
            || value.method@ == "PATCH"@) ==> decode_spec(value) is Err,
{
    lemma_named_methods_are_executable(value.method@, Method::Get);
}

} // verus!

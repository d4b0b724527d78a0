//! HTTP request methods.

use vstd::prelude::*;

verus! {

/// An HTTP request method, as the transport client knows them.
#[derive(Clone, Copy, Debug, PartialEq, Eq, Structural)]
pub enum Method {
    Get,
    Post,
    Put,
    Delete,
    Head,
    Options,
    Connect,
    Patch,
    Trace,
}

impl Method {
    /// The method's name as it goes on the wire.
    pub open spec fn name_spec(self) -> Seq<char> {
        match self {
            Method::Get => "GET"@,
            Method::Post => "POST"@,
            Method::Put => "PUT"@,
            Method::Delete => "DELETE"@,
            Method::Head => "HEAD"@,
            Method::Options => "OPTIONS"@,
            Method::Connect => "CONNECT"@,
            Method::Patch => "PATCH"@,
            Method::Trace => "TRACE"@,
        }
    }

    /// Whether requests of this method can be executed: GET, POST, DELETE and
    /// PATCH.
    pub open spec fn is_executable(self) -> bool {
        ||| self == Method::Get
        ||| self == Method::Post
        ||| self == Method::Delete
        ||| self == Method::Patch
    }

    pub fn name(&self) -> (r: String)
        ensures
            r@ == self.name_spec(),
    {
        let s = match self {
            Method::Get => "GET",
            Method::Post => "POST",
            Method::Put => "PUT",
            Method::Delete => "DELETE",
            Method::Head => "HEAD",
            Method::Options => "OPTIONS",
            Method::Connect => "CONNECT",
            Method::Patch => "PATCH",
            Method::Trace => "TRACE",
        };
        String::from_str(s)
    }
}

/// The executable method that a textual method names, if any. The match is
/// exact and case-sensitive.
pub open spec fn method_named(text: Seq<char>) -> Option<Method> {
    if text == "GET"@ {
        Some(Method::Get)
    } else if text == "POST"@ {
        Some(Method::Post)
    } else if text == "DELETE"@ {
        Some(Method::Delete)
    } else if text == "PATCH"@ {
        Some(Method::Patch)
    } else {
        None
    }
}

/// Looks up the executable method that `text` names.
pub fn parse_method(text: &String) -> (r: Option<Method>)
    ensures
        r == method_named(text@),
{
    if *text == String::from_str("GET") {
        Some(Method::Get)
    } else if *text == String::from_str("POST") {
        Some(Method::Post)
    } else if *text == String::from_str("DELETE") {
        Some(Method::Delete)
    } else if *text == String::from_str("PATCH") {
        Some(Method::Patch)
    } else {
        None
    }
}

/// A method named by a supported text is executable, and every executable
/// method is named by its own name.
pub proof fn lemma_named_methods_are_executable(text: Seq<char>, m: Method)
    ensures
        method_named(text) matches Some(n) ==> n.is_executable() && n.name_spec() == text,
        m.is_executable() ==> method_named(m.name_spec()) == Some(m),
{
    reveal_strlit("GET");
    reveal_strlit("POST");
    reveal_strlit("DELETE");
    reveal_strlit("PATCH");
    reveal_strlit("PUT");
    reveal_strlit("HEAD");
    reveal_strlit("OPTIONS");
    reveal_strlit("CONNECT");
    reveal_strlit("TRACE");
    assert("POST"@.len() != "GET"@.len());
    assert("DELETE"@.len() != "GET"@.len() && "DELETE"@.len() != "POST"@.len());
    assert("PATCH"@.len() != "GET"@.len() && "PATCH"@.len() != "POST"@.len()
        && "PATCH"@.len() != "DELETE"@.len());
}

} // verus!

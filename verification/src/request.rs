//! The inbound request, as plain values, and how its method is read.

use vstd::prelude::*;
use crate::text::{equal, to_uppercase, uppercase};

verus! {

/// The request that the function platform hands in. A header is bound to its
/// text where its value is a text, and to nothing where its value is of
/// another kind. The headers arrive in a map, so no name occurs twice among
/// them; where one does all the same, the first binding counts.
#[derive(Clone, Debug, PartialEq, Eq)]
pub struct RequestPayload {
    pub body: Option<String>,
    pub path: Option<String>,
    pub headers: Option<Vec<(String, Option<String>)>>,
    pub http_method: Option<String>,
    pub is_base64_encoded: bool,
    pub raw_query: Option<String>,
    pub raw_url: Option<String>,
    pub resource: Option<String>,
}

/// Whether no name occurs twice among the headers, as in the map that they
/// arrive in.
pub open spec fn names_distinct(headers: Seq<(String, Option<String>)>) -> bool {
    forall|i: int, j: int|
        0 <= i < j < headers.len() ==> (#[trigger] headers[i]).0@ != (#[trigger] headers[j]).0@
}

impl Default for RequestPayload {
    fn default() -> (payload: RequestPayload)
        ensures
            payload.well_formed(),
            payload.body is None,
            payload.path is None,
            payload.headers is None,
            payload.http_method is None,
            !payload.is_base64_encoded,
            payload.raw_query is None,
            payload.raw_url is None,
            payload.resource is None,
    {
        RequestPayload {
            body: None,
            path: None,
            headers: None,
            http_method: None,
            is_base64_encoded: false,
            raw_query: None,
            raw_url: None,
            resource: None,
        }
    }
}

/// The text of an optional text: empty where there is none.
pub open spec fn text_or_empty(text: Option<String>) -> Seq<char> {
    match text {
        Some(t) => t@,
        None => Seq::empty(),
    }
}

/// The first binding of `name` among `headers`, where there is one.
pub open spec fn header_binding(headers: Seq<(String, Option<String>)>, name: Seq<char>) -> Option<
    Option<String>,
>
    decreases headers.len(),
{
    if headers.len() == 0 {
        None
    } else if headers[0].0@ == name {
        Some(headers[0].1)
    } else {
        header_binding(headers.skip(1), name)
    }
}

/// The text of the header `name`: empty where the request has no headers,
/// no such header, or a value for it that is no text.
pub open spec fn header_text(
    headers: Option<Vec<(String, Option<String>)>>,
    name: Seq<char>,
) -> Seq<char> {
    match headers {
        Some(list) => match header_binding(list@, name) {
            Some(Some(value)) => value@,
            _ => Seq::empty(),
        },
        None => Seq::empty(),
    }
}

/// Among headers whose names are distinct, a name is bound to the value of
/// the one header that bears it, wherever that header stands.
pub proof fn lemma_binding_of_distinct_names(headers: Seq<(String, Option<String>)>, i: int)
    requires
        names_distinct(headers),
        0 <= i < headers.len(),
    ensures
        header_binding(headers, headers[i].0@) == Some(headers[i].1),
    decreases i,
{
    if i > 0 {
        let rest = headers.skip(1);
        assert(headers[0].0@ != headers[i].0@);
        assert(names_distinct(rest)) by {
            assert forall|a: int, b: int| 0 <= a < b < rest.len() implies (#[trigger] rest[a]).0@
                != (#[trigger] rest[b]).0@ by {
                assert(rest[a] == headers[a + 1]);
                assert(rest[b] == headers[b + 1]);
            }
        }
        assert(rest[i - 1] == headers[i]);
        lemma_binding_of_distinct_names(rest, i - 1);
    }
}

impl RequestPayload {
    /// Whether the request is as it arrives: no header's name occurs twice.
    pub open spec fn well_formed(&self) -> bool {
        match self.headers {
            Some(list) => names_distinct(list@),
            None => true,
        }
    }

    /// The request's method in upper case; empty where it has none.
    pub fn method(&self) -> (method: String)
        ensures
            method@ == uppercase(text_or_empty(self.http_method)),
    {
        match &self.http_method {
            Some(m) => to_uppercase(m.as_str()),
            None => {
                let empty = String::new();
                to_uppercase(empty.as_str())
            },
        }
    }

    /// The request's path; empty where it has none.
    pub fn path_or_empty(&self) -> (path: String)
        ensures
            path@ == text_or_empty(self.path),
    {
        match &self.path {
            Some(p) => p.clone(),
            None => String::new(),
        }
    }

    /// The text of the header `name`.
    pub fn header(&self, name: &str) -> (value: String)
        ensures
            value@ == header_text(self.headers, name@),
    {
        match &self.headers {
            None => String::new(),
            Some(list) => {
                let mut i: usize = 0;
                assert(list@.skip(0) =~= list@);
                while i < list.len()
                    invariant
                        i <= list.len(),
                        self.headers == Some(*list),
                        header_binding(list@, name@) == header_binding(list@.skip(i as int), name@),
                    decreases list.len() - i,
                {
                    assert(list@.skip(i as int)[0] == list@[i as int]);
                    assert(list@.skip(i as int).skip(1) =~= list@.skip(i + 1));
                    if equal(list[i].0.as_str(), name) {
                        return match &list[i].1 {
                            Some(value) => value.clone(),
                            None => String::new(),
                        };
                    }
                    i += 1;
                }
                String::new()
            },
        }
    }
}

/// Whether the text is one that `http` takes for the name of a method: not
/// empty, and made of the characters that it admits in such a name.
pub uninterp spec fn valid_method(name: Seq<char>) -> bool;

/// `http::Method::from_bytes` on the text's bytes, asked only whether it
/// takes them. The contract claims that the verdict depends on the text
/// alone.
#[verifier::external_body]
pub(crate) fn is_valid_method(name: &str) -> (valid: bool)
    ensures
        valid == valid_method(name@),
{
    http::Method::from_bytes(name.as_bytes()).is_ok()
}

/// The methods that the handlers tell apart.
#[derive(Clone, Copy, Debug, PartialEq, Eq, Structural)]
pub enum Method {
    Get,
    Post,
    Other,
}

/// The method that a name in upper case stands for, given whether the name
/// is a valid one: a name that is no method name stands for `GET`.
pub open spec fn method_named(name: Seq<char>, valid: bool) -> Method {
    if !valid || name == "GET"@ {
        Method::Get
    } else if name == "POST"@ {
        Method::Post
    } else {
        Method::Other
    }
}

impl Method {
    /// The method that `name` stands for, given whether `name` is a valid
    /// method name.
    pub fn named(name: &str, valid: bool) -> (method: Method)
        ensures
            method == method_named(name@, valid),
    {
        if !valid || equal(name, "GET") {
            Method::Get
        } else if equal(name, "POST") {
            Method::Post
        } else {
            Method::Other
        }
    }

    /// The method that `name` stands for.
    pub fn parse(name: &str) -> (method: Method)
        ensures
            method == method_named(name@, valid_method(name@)),
    {
        Method::named(name, is_valid_method(name))
    }
}

} // verus!

//! The response envelope: one JSON shape for every outcome, with the headers
//! that let the front end read it.

use vstd::prelude::*;
use crate::config::Config;
use crate::json::{json_string, nullable, object, object_text, quote};

verus! {

pub const OK: u16 = 200;

pub const FOUND: u16 = 302;

pub const BAD_REQUEST: u16 = 400;

pub const UNAUTHORIZED: u16 = 401;

pub const NOT_FOUND: u16 = 404;

pub const NOT_ACCEPTABLE: u16 = 406;

pub const INTERNAL_SERVER_ERROR: u16 = 500;

/// Whether a response reports success or failure.
#[derive(Clone, Copy, Debug, PartialEq, Eq, Structural)]
pub enum ResponseStatus {
    Success,
    Error,
}

impl ResponseStatus {
    /// The status as a JSON string literal.
    pub open spec fn literal(self) -> Seq<char> {
        match self {
            ResponseStatus::Success => "\"success\""@,
            ResponseStatus::Error => "\"error\""@,
        }
    }

    /// The status as a JSON string literal.
    pub fn to_json(self) -> (text: &'static str)
        ensures
            text@ == self.literal(),
    {
        match self {
            ResponseStatus::Success => "\"success\"",
            ResponseStatus::Error => "\"error\"",
        }
    }
}

/// What a response says: how it went, a message for the reader where there
/// is one, and the data, as JSON text, where there is any.
#[derive(Debug, PartialEq, Eq)]
pub struct ResponseBody {
    pub status: ResponseStatus,
    pub message: Option<String>,
    pub data: Option<String>,
}

/// The JSON text of an envelope, given the message as a JSON string literal
/// and the data as JSON text: an object of `status`, `message` and `data`, in
/// this order, with `null` for what is absent.
pub open spec fn envelope_text(
    status: ResponseStatus,
    message_literal: Option<Seq<char>>,
    data_text: Option<Seq<char>>,
) -> Seq<char> {
    object_text(
        seq![
            ("\"status\""@, status.literal()),
            ("\"message\""@, nullable(message_literal)),
            ("\"data\""@, nullable(data_text)),
        ],
    )
}

/// A message as a JSON string literal, where there is a message.
pub open spec fn message_literal(message: Option<Seq<char>>) -> Option<Seq<char>> {
    match message {
        Some(m) => Some(json_string(m)),
        None => None,
    }
}

/// The JSON text of an envelope, given the message as a JSON string literal
/// and the data as JSON text.
pub fn envelope(
    status: ResponseStatus,
    message_literal: Option<String>,
    data_text: Option<String>,
) -> (text: String)
    ensures
        text@ == envelope_text(status, message_literal.deep_view(), data_text.deep_view()),
{
    let message = match message_literal {
        Some(m) => m,
        None => "null".to_owned(),
    };
    let data = match data_text {
        Some(d) => d,
        None => "null".to_owned(),
    };
    let mut members: Vec<(String, String)> = Vec::new();
    members.push(("\"status\"".to_owned(), status.to_json().to_owned()));
    members.push(("\"message\"".to_owned(), message));
    members.push(("\"data\"".to_owned(), data));
    assert(members.deep_view() =~= seq![
        ("\"status\""@, status.literal()),
        ("\"message\""@, nullable(message_literal.deep_view())),
        ("\"data\""@, nullable(data_text.deep_view())),
    ]);
    object(&members)
}

impl ResponseBody {
    /// The body as JSON text.
    pub fn to_json(&self) -> (text: String)
        ensures
            text@ == envelope_text(
                self.status,
                message_literal(self.message.deep_view()),
                self.data.deep_view(),
            ),
    {
        let message = match &self.message {
            Some(m) => Some(quote(m.as_str())),
            None => None,
        };
        let data = match &self.data {
            Some(d) => Some(d.clone()),
            None => None,
        };
        envelope(self.status, message, data)
    }
}

/// A response as the function platform takes it.
#[derive(Clone, Debug, PartialEq, Eq)]
pub struct ProxyResponse {
    pub status_code: i64,
    pub headers: Vec<(String, String)>,
    pub multi_value_headers: Vec<(String, String)>,
    pub body: Option<String>,
    pub is_base64_encoded: bool,
}

pub struct ProxyResponseView {
    pub status_code: i64,
    pub headers: Seq<(Seq<char>, Seq<char>)>,
    pub multi_value_headers: Seq<(Seq<char>, Seq<char>)>,
    pub body: Option<Seq<char>>,
    pub is_base64_encoded: bool,
}

impl DeepView for ProxyResponse {
    type V = ProxyResponseView;

    open spec fn deep_view(&self) -> ProxyResponseView {
        ProxyResponseView {
            status_code: self.status_code,
            headers: self.headers.deep_view(),
            multi_value_headers: self.multi_value_headers.deep_view(),
            body: self.body.deep_view(),
            is_base64_encoded: self.is_base64_encoded,
        }
    }
}

/// The headers of every enveloped response: the content is JSON, the
/// configured origin may read it, and it may do so with credentials.
pub open spec fn envelope_headers(origin: Seq<char>) -> Seq<(Seq<char>, Seq<char>)> {
    seq![
        ("Content-Type"@, "application/json"@),
        ("Access-Control-Allow-Origin"@, origin),
        ("Access-Control-Allow-Credentials"@, "true"@),
    ]
}

/// The enveloped response with the given status, code, message and data.
pub open spec fn enveloped(
    origin: Seq<char>,
    status: ResponseStatus,
    status_code: u16,
    message: Option<Seq<char>>,
    data: Option<Seq<char>>,
) -> ProxyResponseView {
    ProxyResponseView {
        status_code: status_code as i64,
        headers: envelope_headers(origin),
        multi_value_headers: envelope_headers(origin),
        body: Some(envelope_text(status, message_literal(message), data)),
        is_base64_encoded: false,
    }
}

fn headers_for(origin: &str) -> (headers: Vec<(String, String)>)
    ensures
        headers.deep_view() == envelope_headers(origin@),
{
    let mut headers: Vec<(String, String)> = Vec::new();
    headers.push(("Content-Type".to_owned(), "application/json".to_owned()));
    headers.push(("Access-Control-Allow-Origin".to_owned(), origin.to_owned()));
    headers.push(("Access-Control-Allow-Credentials".to_owned(), "true".to_owned()));
    assert(headers.deep_view() =~= envelope_headers(origin@));
    headers
}

/// Wraps an outcome into the envelope.
pub fn build(
    config: &Config,
    status: ResponseStatus,
    status_code: u16,
    message: Option<String>,
    data: Option<String>,
) -> (response: ProxyResponse)
    ensures
        response.deep_view() == enveloped(
            config.frontend_base_url@,
            status,
            status_code,
            message.deep_view(),
            data.deep_view(),
        ),
{
    let body = ResponseBody { status, message, data };
    ProxyResponse {
        status_code: status_code as i64,
        headers: headers_for(config.frontend_base_url.as_str()),
        multi_value_headers: headers_for(config.frontend_base_url.as_str()),
        body: Some(body.to_json()),
        is_base64_encoded: false,
    }
}

/// The maker of the responses that report success.
#[derive(Clone, Copy, Debug, PartialEq, Eq)]
pub struct AppSuccessResponse {}

impl Default for AppSuccessResponse {
    fn default() -> (r: AppSuccessResponse)
        ensures
            r == (AppSuccessResponse {  }),
    {
        AppSuccessResponse {  }
    }
}

impl AppSuccessResponse {
    /// The response that reports success with the given code, message and
    /// data.
    pub fn new(
        config: &Config,
        status_code: u16,
        message: Option<String>,
        data: Option<String>,
    ) -> (response: ProxyResponse)
        ensures
            response.deep_view() == enveloped(
                config.frontend_base_url@,
                ResponseStatus::Success,
                status_code,
                message.deep_view(),
                data.deep_view(),
            ),
    {
        build(config, ResponseStatus::Success, status_code, message, data)
    }
}

/// The maker of the responses that report failure.
#[derive(Clone, Copy, Debug, PartialEq, Eq)]
pub struct AppErrorResponse {}

impl Default for AppErrorResponse {
    fn default() -> (r: AppErrorResponse)
        ensures
            r == (AppErrorResponse {  }),
    {
        AppErrorResponse {  }
    }
}

impl AppErrorResponse {
    /// The response that reports failure with the given code, message and
    /// data.
    pub fn new(
        config: &Config,
        status_code: u16,
        message: Option<String>,
        data: Option<String>,
    ) -> (response: ProxyResponse)
        ensures
            response.deep_view() == enveloped(
                config.frontend_base_url@,
                ResponseStatus::Error,
                status_code,
                message.deep_view(),
                data.deep_view(),
            ),
    {
        build(config, ResponseStatus::Error, status_code, message, data)
    }
}

} // verus!

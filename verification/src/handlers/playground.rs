//! The playground route: hands a piece of Rust code on to the service that
//! runs it, and the service's answer back.

use vstd::prelude::*;
use crate::config::Config;
use crate::json::{json_string, object, object_text, quote};
use crate::request::{method_named, text_or_empty, valid_method, Method, RequestPayload};
use crate::response::{
    enveloped, AppErrorResponse, AppSuccessResponse, ProxyResponse, ProxyResponseView,
    ResponseStatus, BAD_REQUEST, NOT_ACCEPTABLE, NOT_FOUND, OK,
};
use crate::text::{equal, uppercase};
use crate::utils::cors::{cors, preflight_response};

verus! {

/// What a caller sends to have code run.
#[derive(Clone, Debug, PartialEq, Eq)]
pub struct RequestBody {
    pub code: String,
}

impl Default for RequestBody {
    fn default() -> (body: RequestBody)
        ensures
            body.code@ == Seq::<char>::empty(),
    {
        RequestBody { code: String::new() }
    }
}

/// What the service that runs the code is sent.
#[derive(Clone, Debug, PartialEq, Eq)]
pub struct RustCodeExecuteRequestData {
    pub version: String,
    pub optimize: String,
    pub code: String,
    pub edition: String,
}

impl Default for RustCodeExecuteRequestData {
    fn default() -> (data: RustCodeExecuteRequestData)
        ensures
            data.version@ == Seq::<char>::empty(),
            data.optimize@ == Seq::<char>::empty(),
            data.code@ == Seq::<char>::empty(),
            data.edition@ == Seq::<char>::empty(),
    {
        RustCodeExecuteRequestData {
            version: String::new(),
            optimize: String::new(),
            code: String::new(),
            edition: String::new(),
        }
    }
}

/// The JSON members of a request to run code.
pub open spec fn execute_members(
    version: Seq<char>,
    optimize: Seq<char>,
    code: Seq<char>,
    edition: Seq<char>,
) -> Seq<(Seq<char>, Seq<char>)> {
    seq![
        ("\"version\""@, json_string(version)),
        ("\"optimize\""@, json_string(optimize)),
        ("\"code\""@, json_string(code)),
        ("\"edition\""@, json_string(edition)),
    ]
}

impl RustCodeExecuteRequestData {
    /// The request to run `code` on the stable compiler, without
    /// optimisation, in the 2021 edition.
    pub fn new(code: String) -> (data: RustCodeExecuteRequestData)
        ensures
            data.version@ == "stable"@,
            data.optimize@ == "0"@,
            data.code == code,
            data.edition@ == "2021"@,
    {
        RustCodeExecuteRequestData {
            version: "stable".to_owned(),
            optimize: "0".to_owned(),
            code,
            edition: "2021".to_owned(),
        }
    }

    /// The request as JSON text.
    pub fn to_json(&self) -> (text: String)
        ensures
            text@ == object_text(
                execute_members(self.version@, self.optimize@, self.code@, self.edition@),
            ),
    {
        let mut members: Vec<(String, String)> = Vec::new();
        members.push(("\"version\"".to_owned(), quote(self.version.as_str())));
        members.push(("\"optimize\"".to_owned(), quote(self.optimize.as_str())));
        members.push(("\"code\"".to_owned(), quote(self.code.as_str())));
        members.push(("\"edition\"".to_owned(), quote(self.edition.as_str())));
        assert(members.deep_view() =~= execute_members(
            self.version@,
            self.optimize@,
            self.code@,
            self.edition@,
        ));
        object(&members)
    }
}

/// The path of the route.
pub open spec fn route_path() -> Seq<char> {
    "/api/playground/execute-code"@
}

/// What the route does with a request before the service is asked.
#[derive(Debug, PartialEq, Eq)]
pub enum PlaygroundStep {
    /// The request is answered at once.
    Respond(ProxyResponse),
    /// The service is to run the code.
    Execute(RustCodeExecuteRequestData),
}

/// The request to run `code`: on the stable compiler, without optimisation,
/// in the 2021 edition. The parts are the version, the optimisation, the
/// code and the edition.
pub open spec fn execute_request(code: String) -> (Seq<char>, Seq<char>, String, Seq<char>) {
    ("stable"@, "0"@, code, "2021"@)
}

/// What the route does with a request on `path` by the method `method` (in
/// upper case) whose body, where it has one, asks for `code` to be run: a
/// request on another path is not found, a preflight request is answered as
/// one, a request without a body is turned away, and every other request has
/// its code run.
pub open spec fn first_step(
    origin: Seq<char>,
    path: Seq<char>,
    method: Seq<char>,
    code: Option<String>,
) -> Result<(Seq<char>, Seq<char>, String, Seq<char>), ProxyResponseView> {
    if path != route_path() {
        Err(enveloped(origin, ResponseStatus::Error, NOT_FOUND, Some("Not found"@), None))
    } else if method == "OPTIONS"@ {
        Err(preflight_response(origin))
    } else {
        match code {
            Some(code) => Ok(execute_request(code)),
            None => Err(
                enveloped(
                    origin,
                    ResponseStatus::Error,
                    BAD_REQUEST,
                    Some("Provide rust code"@),
                    None,
                ),
            ),
        }
    }
}

/// The view of a step: the request that is to be run, part by part, or the
/// response.
pub open spec fn step_view(step: PlaygroundStep) -> Result<
    (Seq<char>, Seq<char>, String, Seq<char>),
    ProxyResponseView,
> {
    match step {
        PlaygroundStep::Execute(data) => Ok(
            (data.version@, data.optimize@, data.code, data.edition@),
        ),
        PlaygroundStep::Respond(response) => Err(response.deep_view()),
    }
}

/// The response once the service has answered with `data`, as JSON text: the
/// answer is handed on where the request was a `POST`, and is dropped for a
/// request by another method.
pub open spec fn last_step(
    origin: Seq<char>,
    method: Method,
    data: Seq<char>,
) -> ProxyResponseView {
    if method == Method::Post {
        enveloped(origin, ResponseStatus::Success, OK, Some("Request successful"@), Some(data))
    } else {
        enveloped(origin, ResponseStatus::Error, NOT_ACCEPTABLE, Some("Not acceptable"@), None)
    }
}

/// Begins to handle a request, given the body that it carries, where it
/// carries one.
pub fn handler(config: &Config, payload: &RequestPayload, body: Option<RequestBody>) -> (step:
    PlaygroundStep)
    ensures
        step_view(step) == first_step(
            config.frontend_base_url@,
            text_or_empty(payload.path),
            uppercase(text_or_empty(payload.http_method)),
            match body {
                Some(b) => Some(b.code),
                None => None,
            },
        ),
{
    let method = payload.method();
    let path = payload.path_or_empty();
    if !equal(path.as_str(), "/api/playground/execute-code") {
        return PlaygroundStep::Respond(
            AppErrorResponse::new(config, NOT_FOUND, Some("Not found".to_owned()), None),
        );
    }
    if equal(method.as_str(), "OPTIONS") {
        return PlaygroundStep::Respond(cors(config));
    }
    match body {
        Some(body) => PlaygroundStep::Execute(RustCodeExecuteRequestData::new(body.code)),
        None => PlaygroundStep::Respond(
            AppErrorResponse::new(config, BAD_REQUEST, Some("Provide rust code".to_owned()), None),
        ),
    }
}

/// Ends the handling of a request by `method`, given the service's answer as
/// JSON text.
pub fn executed_by(config: &Config, method: Method, data: String) -> (response: ProxyResponse)
    ensures
        response.deep_view() == last_step(config.frontend_base_url@, method, data@),
{
    match method {
        Method::Post => AppSuccessResponse::new(
            config,
            OK,
            Some("Request successful".to_owned()),
            Some(data),
        ),
        _ => AppErrorResponse::new(config, NOT_ACCEPTABLE, Some("Not acceptable".to_owned()), None),
    }
}

/// Ends the handling of a request, given the service's answer as JSON text.
pub fn executed(
    config: &Config,
    payload: &RequestPayload,
    data: String,
) -> (response: ProxyResponse)
    ensures
        response.deep_view() == last_step(
            config.frontend_base_url@,
            method_named(
                uppercase(text_or_empty(payload.http_method)),
                valid_method(uppercase(text_or_empty(payload.http_method))),
            ),
            data@,
        ),
{
    let method = payload.method();
    executed_by(config, Method::parse(method.as_str()), data)
}

} // verus!

//! The routes that answer without the store: greetings, echoes, and the
//! first routes of the playground.

use vstd::prelude::*;
use crate::json::{json_string, nullable, object, object_text, quote};
use crate::response::{ProxyResponse, ProxyResponseView};
use crate::text::{equal, to_uppercase, uppercase};

verus! {

/// The response with the given code and body and without headers.
pub open spec fn bare(status_code: i64, body: Seq<char>) -> ProxyResponseView {
    ProxyResponseView {
        status_code,
        headers: Seq::empty(),
        multi_value_headers: Seq::empty(),
        body: Some(body),
        is_base64_encoded: false,
    }
}

/// The response with the given code and body and without headers.
pub fn respond(status_code: i64, body: String) -> (response: ProxyResponse)
    ensures
        response.deep_view() == bare(status_code, body@),
{
    let response = ProxyResponse {
        status_code,
        headers: Vec::new(),
        multi_value_headers: Vec::new(),
        body: Some(body),
        is_base64_encoded: false,
    };
    assert(response.headers.deep_view() =~= Seq::empty());
    assert(response.multi_value_headers.deep_view() =~= Seq::empty());
    response
}

/// The response to a request for what is not there.
pub fn not_found() -> (response: ProxyResponse)
    ensures
        response.deep_view() == bare(404, "Not found"@),
{
    respond(404, "Not found".to_owned())
}

/// The header that says that the body is JSON.
pub open spec fn json_content() -> Seq<(Seq<char>, Seq<char>)> {
    seq![("content-type"@, "application/json"@)]
}

/// The response that hands a request's path back, as JSON.
pub fn handler(path: &Option<String>) -> (response: ProxyResponse)
    ensures
        response.deep_view() == (ProxyResponseView {
            status_code: 200,
            headers: json_content(),
            multi_value_headers: json_content(),
            body: Some(
                nullable(
                    match path.deep_view() {
                        Some(p) => Some(json_string(p)),
                        None => None,
                    },
                ),
            ),
            is_base64_encoded: false,
        }),
{
    let body = match path {
        Some(p) => quote(p.as_str()),
        None => "null".to_owned(),
    };
    let mut headers: Vec<(String, String)> = Vec::new();
    headers.push(("content-type".to_owned(), "application/json".to_owned()));
    let mut multi_value_headers: Vec<(String, String)> = Vec::new();
    multi_value_headers.push(("content-type".to_owned(), "application/json".to_owned()));
    assert(headers.deep_view() =~= json_content());
    assert(multi_value_headers.deep_view() =~= json_content());
    ProxyResponse {
        status_code: 200,
        headers,
        multi_value_headers,
        body: Some(body),
        is_base64_encoded: false,
    }
}

/// The response that hands a request back, given the request as JSON text.
pub fn my_handler(request: String) -> (response: ProxyResponse)
    ensures
        response.deep_view() == bare(200, request@),
{
    respond(200, request)
}

/// The greeting.
pub open spec fn greeting() -> Seq<char> {
    object_text(seq![("\"message\""@, "\"Hello, world!\""@)])
}

/// The response that greets the world.
pub fn func() -> (response: ProxyResponse)
    ensures
        response.deep_view() == (ProxyResponseView {
            status_code: 200,
            headers: seq![("Content-Type"@, "application/json"@)],
            multi_value_headers: Seq::empty(),
            body: Some(greeting()),
            is_base64_encoded: false,
        }),
{
    let mut members: Vec<(String, String)> = Vec::new();
    members.push(("\"message\"".to_owned(), "\"Hello, world!\"".to_owned()));
    assert(members.deep_view() =~= seq![("\"message\""@, "\"Hello, world!\""@)]);
    let mut headers: Vec<(String, String)> = Vec::new();
    headers.push(("Content-Type".to_owned(), "application/json".to_owned()));
    assert(headers.deep_view() =~= seq![("Content-Type"@, "application/json"@)]);
    let response = ProxyResponse {
        status_code: 200,
        headers,
        multi_value_headers: Vec::new(),
        body: Some(object(&members)),
        is_base64_encoded: false,
    };
    assert(response.multi_value_headers.deep_view() =~= Seq::empty());
    response
}

/// What a caller of the first playground sends to have code run.
#[derive(Clone, Debug, PartialEq, Eq)]
pub struct RequestBody {
    pub code: String,
    pub edition: String,
    pub optimize: String,
    pub version: String,
}

impl Default for RequestBody {
    fn default() -> (body: RequestBody)
        ensures
            body.code@ == Seq::<char>::empty(),
            body.edition@ == Seq::<char>::empty(),
            body.optimize@ == Seq::<char>::empty(),
            body.version@ == Seq::<char>::empty(),
    {
        RequestBody {
            code: String::new(),
            edition: String::new(),
            optimize: String::new(),
            version: String::new(),
        }
    }
}

/// The JSON members of a request to the first playground.
pub open spec fn body_members(
    code: Seq<char>,
    edition: Seq<char>,
    optimize: Seq<char>,
    version: Seq<char>,
) -> Seq<(Seq<char>, Seq<char>)> {
    seq![
        ("\"code\""@, json_string(code)),
        ("\"edition\""@, json_string(edition)),
        ("\"optimize\""@, json_string(optimize)),
        ("\"version\""@, json_string(version)),
    ]
}

impl RequestBody {
    /// The request as JSON text.
    pub fn to_json(&self) -> (text: String)
        ensures
            text@ == object_text(
                body_members(self.code@, self.edition@, self.optimize@, self.version@),
            ),
    {
        let mut members: Vec<(String, String)> = Vec::new();
        members.push(("\"code\"".to_owned(), quote(self.code.as_str())));
        members.push(("\"edition\"".to_owned(), quote(self.edition.as_str())));
        members.push(("\"optimize\"".to_owned(), quote(self.optimize.as_str())));
        members.push(("\"version\"".to_owned(), quote(self.version.as_str())));
        assert(members.deep_view() =~= body_members(
            self.code@,
            self.edition@,
            self.optimize@,
            self.version@,
        ));
        object(&members)
    }
}

/// The response that hands on what the service that runs code answered.
pub fn execute_code(answer: String) -> (response: ProxyResponse)
    ensures
        response.deep_view() == bare(200, answer@),
{
    respond(200, answer)
}

/// What the routes under `/api` do with a request.
#[derive(Clone, Copy, Debug, PartialEq, Eq, Structural)]
pub enum ApiRoute {
    /// The code of the request is to be run.
    ExecuteCode,
    /// There is no such route.
    NotFound,
}

/// What the playground's routes do with a request by the method `method`
/// (in upper case): a `POST` has its code run, and nothing else is found.
pub open spec fn playground_route(method: Seq<char>) -> ApiRoute {
    if method == "POST"@ {
        ApiRoute::ExecuteCode
    } else {
        ApiRoute::NotFound
    }
}

/// What the routes under `/api` do with a request on `path` by the method
/// `method` (in upper case): the playground's path leads to the playground's
/// routes, and nothing else is found.
pub open spec fn api_route(path: Seq<char>, method: Seq<char>) -> ApiRoute {
    if path == "/api/playground"@ {
        playground_route(method)
    } else {
        ApiRoute::NotFound
    }
}

/// What the playground's routes do with a request by `method`, given the
/// method in upper case.
pub fn playground_route_given(method: &str) -> (route: ApiRoute)
    ensures
        route == playground_route(method@),
{
    if equal(method, "POST") {
        ApiRoute::ExecuteCode
    } else {
        ApiRoute::NotFound
    }
}

/// What the playground's routes do with a request by `http_method`.
pub fn playground_routes(http_method: &str) -> (route: ApiRoute)
    ensures
        route == playground_route(uppercase(http_method@)),
{
    let method = to_uppercase(http_method);
    playground_route_given(method.as_str())
}

/// What the routes under `/api` do with a request on `path` by
/// `http_method`.
pub fn api_routes(path: &str, http_method: &str) -> (route: ApiRoute)
    ensures
        route == api_route(path@, uppercase(http_method@)),
{
    if equal(path, "/api/playground") {
        playground_routes(http_method)
    } else {
        ApiRoute::NotFound
    }
}

/// The response of the playground that runs nothing yet.
pub fn playground() -> (response: ProxyResponse)
    ensures
        response.deep_view() == bare(200, "\"playground\""@),
{
    respond(200, "\"playground\"".to_owned())
}

} // verus!

//! The route that adds a user.

use vstd::prelude::*;
use crate::config::Config;
use crate::error::DataInsertError;
use crate::handlers::{respond_to_save, save_response, saved_view};
use crate::models::user::User;
use crate::request::{method_named, text_or_empty, valid_method, Method, RequestPayload};
use crate::response::{
    enveloped, AppErrorResponse, ProxyResponse, ProxyResponseView, ResponseStatus, NOT_ACCEPTABLE,
    NOT_FOUND,
};
use crate::store::InsertOneResult;
use crate::text::{contains, equal, str_contains, uppercase};
use crate::utils::cors::{cors, preflight_response};
use crate::utils::password::{hash_password, hashes, HashError, HASH_COST};

verus! {

/// What a caller sends to log in.
#[derive(Clone, Debug, PartialEq, Eq)]
pub struct UserLoginData {
    pub username: Option<String>,
    pub password: Option<String>,
}

impl Default for UserLoginData {
    fn default() -> (data: UserLoginData)
        ensures
            data.username is None,
            data.password is None,
    {
        UserLoginData { username: None, password: None }
    }
}

/// What the route does with a request.
#[derive(Debug, PartialEq, Eq)]
pub enum UserRoute {
    /// The request is answered at once.
    Respond(ProxyResponse),
    /// The user that the request's body describes is to be added.
    AddUser,
}

/// What the route does with a request on `path` by the method that `method`
/// (in upper case) names: a request on another path is not found, a
/// preflight request is answered as one, a `POST` adds a user, and no other
/// method is accepted.
pub open spec fn route_of(
    origin: Seq<char>,
    path: Seq<char>,
    method: Seq<char>,
    named: Method,
) -> Option<ProxyResponseView> {
    if !contains(path, "/api/user"@) {
        Some(enveloped(origin, ResponseStatus::Error, NOT_FOUND, Some("Not found"@), None))
    } else if method == "OPTIONS"@ {
        Some(preflight_response(origin))
    } else if named == Method::Post {
        None
    } else {
        Some(
            enveloped(
                origin,
                ResponseStatus::Error,
                NOT_ACCEPTABLE,
                Some("Not acceptable"@),
                None,
            ),
        )
    }
}

/// The view of a route: the response, unless a user is to be added.
pub open spec fn route_view(route: UserRoute) -> Option<ProxyResponseView> {
    match route {
        UserRoute::Respond(response) => Some(response.deep_view()),
        UserRoute::AddUser => None,
    }
}

/// What the route does with a request on `path` by `method`, given the
/// method that `method` names.
pub fn route_given(config: &Config, path: &str, method: &str, named: Method) -> (route: UserRoute)
    ensures
        route_view(route) == route_of(config.frontend_base_url@, path@, method@, named),
{
    if !str_contains(path, "/api/user") {
        return UserRoute::Respond(
            AppErrorResponse::new(config, NOT_FOUND, Some("Not found".to_owned()), None),
        );
    }
    if equal(method, "OPTIONS") {
        return UserRoute::Respond(cors(config));
    }
    match named {
        Method::Post => UserRoute::AddUser,
        _ => UserRoute::Respond(
            AppErrorResponse::new(config, NOT_ACCEPTABLE, Some("Not acceptable".to_owned()), None),
        ),
    }
}

/// What the route does with a request.
pub fn handler(config: &Config, payload: &RequestPayload) -> (route: UserRoute)
    ensures
        route_view(route) == route_of(
            config.frontend_base_url@,
            text_or_empty(payload.path),
            uppercase(text_or_empty(payload.http_method)),
            method_named(
                uppercase(text_or_empty(payload.http_method)),
                valid_method(uppercase(text_or_empty(payload.http_method))),
            ),
        ),
{
    let method = payload.method();
    let path = payload.path_or_empty();
    route_given(config, path.as_str(), method.as_str(), Method::parse(method.as_str()))
}

/// The user that is stored for the user that was submitted, given the hash
/// of the submitted password: name, address and role as submitted, the hash
/// for the password, and no image.
pub fn new_user(submitted: User, hashed_password: String) -> (user: User)
    ensures
        user.username == submitted.username,
        user.email == submitted.email,
        user.password == Some(hashed_password),
        user.role == submitted.role,
        user.profile_image is None,
        user.created_at is Some,
        user.updated_at is Some,
{
    let fresh = User::default();
    User {
        username: submitted.username,
        email: submitted.email,
        password: Some(hashed_password),
        role: submitted.role,
        profile_image: fresh.profile_image,
        created_at: fresh.created_at,
        updated_at: fresh.updated_at,
    }
}

/// The user that is stored for the user that was submitted: the password,
/// or the empty one where none was submitted, is hashed first. Whether a
/// hash comes back lies with the hashing; the user that is stored with it
/// has name, address and role as submitted, no image, and for a password a
/// hash of this library's cost that the submitted password passes against.
pub fn prepare_user(submitted: User) -> (prepared: Result<User, HashError>)
    ensures
        prepared matches Ok(user) ==> {
            &&& user.username == submitted.username
            &&& user.email == submitted.email
            &&& user.password matches Some(hashed) && hashes(
                hashed@,
                text_or_empty(submitted.password),
                HASH_COST,
            )
            &&& user.role == submitted.role
            &&& user.profile_image is None
            &&& user.created_at is Some
            &&& user.updated_at is Some
        },
{
    let hashed = match &submitted.password {
        Some(password) => hash_password(password.as_str()),
        None => {
            let empty = String::new();
            hash_password(empty.as_str())
        },
    };
    stored_user(submitted, hashed)
}

/// The user that is stored for the user that was submitted, given what the
/// hashing of the password came to: without a hash no user is stored, and
/// with one the user is stored with it.
pub fn stored_user(submitted: User, hashed: Result<String, HashError>) -> (stored: Result<
    User,
    HashError,
>)
    ensures
        match hashed {
            Err(e) => stored == Err::<User, HashError>(e),
            Ok(hashed_password) => stored matches Ok(user) && {
                &&& user.username == submitted.username
                &&& user.email == submitted.email
                &&& user.password == Some(hashed_password)
                &&& user.role == submitted.role
                &&& user.profile_image is None
                &&& user.created_at is Some
                &&& user.updated_at is Some
            },
        },
{
    match hashed {
        Ok(hashed_password) => Ok(new_user(submitted, hashed_password)),
        Err(e) => Err(e),
    }
}

/// The response to the adding of a user that ended with `result`.
pub fn add_user(config: &Config, result: Result<InsertOneResult, DataInsertError>) -> (response:
    ProxyResponse)
    ensures
        response.deep_view() == save_response(config.frontend_base_url@, saved_view(result)),
{
    respond_to_save(config, result)
}

} // verus!

//! The routes of the administration: logging in.

use vstd::prelude::*;
use crate::config::Config;
use crate::handlers::user_handler::UserLoginData;
use crate::json::{json_string, nullable, object, object_text, quote};
use crate::models::user::{User, UserRole};
use crate::request::{method_named, text_or_empty, valid_method, Method, RequestPayload};
use crate::response::{
    envelope_headers, enveloped, AppErrorResponse, AppSuccessResponse, ProxyResponse,
    ProxyResponseView, ResponseStatus, BAD_REQUEST, FOUND, NOT_ACCEPTABLE, NOT_FOUND, OK,
    UNAUTHORIZED,
};
use crate::store::{FieldValueView, FindRequest, QueryDocument, StoreError};
use crate::text::{contains, equal, str_contains, uppercase};
use crate::traits::model_traits::{collection_name, find_request, ModelTraits};
use crate::utils::cookie::{
    can_seal, seal, seals, sets_sealed, PlainCookie, PlainCookieView, SecretTooShort,
};
use crate::utils::cors::{cors, preflight_response};
use crate::utils::password::{password_matches, verify_password};

verus! {

/// The name of the cookie that a login sets.
pub open spec fn session_cookie() -> Seq<char> {
    "sessionToken"@
}

/// The seconds for which a login holds: thirty days.
pub const SESSION_SECONDS: i64 = 2592000;

/// The response to a request that belongs to a session already: the
/// session's token is handed back.
pub open spec fn session_response(origin: Seq<char>, token: Seq<char>) -> ProxyResponseView {
    enveloped(origin, ResponseStatus::Success, FOUND, Some(token), None)
}

/// The response to a request that belongs to a session already; nothing for
/// a request that does not.
pub fn session_found(config: &Config, token: Option<String>) -> (response: Option<ProxyResponse>)
    ensures
        response.deep_view() == match token {
            Some(t) => Some(session_response(config.frontend_base_url@, t@)),
            None => None,
        },
{
    match token {
        Some(t) => Some(AppSuccessResponse::new(config, FOUND, Some(t), None)),
        None => None,
    }
}

/// What the route does with a request.
#[derive(Debug, PartialEq, Eq)]
pub enum AdminRoute {
    /// The request is answered at once.
    Respond(ProxyResponse),
    /// The request's body is to be read as a login.
    Login,
}

/// What the route does with a request on `path` by the method that `method`
/// (in upper case) names: a request on another path is not found, a
/// preflight request is answered as one, a `POST` is a login, and no other
/// method is accepted.
pub open spec fn route_of(
    origin: Seq<char>,
    path: Seq<char>,
    method: Seq<char>,
    named: Method,
) -> Option<ProxyResponseView> {
    if !contains(path, "/api/admin"@) {
        Some(enveloped(origin, ResponseStatus::Error, NOT_FOUND, Some("Not found"@), None))
    } else if method == "OPTIONS"@ {
        Some(preflight_response(origin))
    } else if named == Method::Post {
        None
    } else {
        Some(
            enveloped(
                origin,
                ResponseStatus::Error,
                NOT_ACCEPTABLE,
                Some("Not acceptable"@),
                None,
            ),
        )
    }
}

/// The view of a route: the response, unless the request is a login.
pub open spec fn route_view(route: AdminRoute) -> Option<ProxyResponseView> {
    match route {
        AdminRoute::Respond(response) => Some(response.deep_view()),
        AdminRoute::Login => None,
    }
}

/// What the route does with a request on `path` by `method`, given the
/// method that `method` names.
pub fn route_given(config: &Config, path: &str, method: &str, named: Method) -> (route: AdminRoute)
    ensures
        route_view(route) == route_of(config.frontend_base_url@, path@, method@, named),
{
    if !str_contains(path, "/api/admin") {
        return AdminRoute::Respond(
            AppErrorResponse::new(config, NOT_FOUND, Some("Not found".to_owned()), None),
        );
    }
    if equal(method, "OPTIONS") {
        return AdminRoute::Respond(cors(config));
    }
    match named {
        Method::Post => AdminRoute::Login,
        _ => AdminRoute::Respond(
            AppErrorResponse::new(config, NOT_ACCEPTABLE, Some("Not acceptable".to_owned()), None),
        ),
    }
}

/// What the route does with a request that belongs to no session.
pub fn handler(config: &Config, payload: &RequestPayload) -> (route: AdminRoute)
    ensures
        route_view(route) == route_of(
            config.frontend_base_url@,
            text_or_empty(payload.path),
            uppercase(text_or_empty(payload.http_method)),
            method_named(
                uppercase(text_or_empty(payload.http_method)),
                valid_method(uppercase(text_or_empty(payload.http_method))),
            ),
        ),
{
    let method = payload.method();
    let path = payload.path_or_empty();
    route_given(config, path.as_str(), method.as_str(), Method::parse(method.as_str()))
}

/// The response to a login that lacks something: one without name,
/// password and session is unauthorized, one without name or without
/// password is told what it lacks. A login that lacks nothing gets none.
pub open spec fn incomplete_login(
    origin: Seq<char>,
    data: UserLoginData,
    has_session: bool,
) -> Option<ProxyResponseView> {
    if data.username is None && data.password is None && !has_session {
        Some(enveloped(origin, ResponseStatus::Error, UNAUTHORIZED, None, None))
    } else if data.username is None {
        Some(
            enveloped(
                origin,
                ResponseStatus::Error,
                BAD_REQUEST,
                Some("Username is required"@),
                None,
            ),
        )
    } else if data.password is None {
        Some(
            enveloped(
                origin,
                ResponseStatus::Error,
                BAD_REQUEST,
                Some("Password is required"@),
                None,
            ),
        )
    } else {
        None
    }
}

/// The response to a login that lacks something.
pub fn check_login(config: &Config, data: &UserLoginData, has_session: bool) -> (response: Option<
    ProxyResponse,
>)
    ensures
        response.deep_view() == incomplete_login(config.frontend_base_url@, *data, has_session),
{
    if data.username.is_none() && data.password.is_none() && !has_session {
        return Some(AppErrorResponse::new(config, UNAUTHORIZED, None, None));
    }
    if data.username.is_none() {
        return Some(
            AppErrorResponse::new(
                config,
                BAD_REQUEST,
                Some("Username is required".to_owned()),
                None,
            ),
        );
    }
    if data.password.is_none() {
        return Some(
            AppErrorResponse::new(
                config,
                BAD_REQUEST,
                Some("Password is required".to_owned()),
                None,
            ),
        );
    }
    None
}

/// The filter for the user with the given name.
pub open spec fn named_user(username: Seq<char>) -> Seq<(Seq<char>, FieldValueView)> {
    seq![("username"@, FieldValueView::Text(username))]
}

/// Every field of a user but the times of creation and change.
pub open spec fn without_times() -> Seq<(Seq<char>, FieldValueView)> {
    seq![
        ("created_at"@, FieldValueView::Bool(false)),
        ("updated_at"@, FieldValueView::Bool(false)),
    ]
}

/// The find for the user who wants to log in.
pub fn login_admin(data: &UserLoginData) -> (request: FindRequest)
    ensures
        request.deep_view() == find_request(
            collection_name(User::struct_name()),
            named_user(text_or_empty(data.username)),
            Some(without_times()),
            None,
            1,
        ),
{
    let username = match &data.username {
        Some(name) => name.clone(),
        None => String::new(),
    };
    let filter = QueryDocument::new().with_text("username", username);
    let projection = QueryDocument::new().with_bool("created_at", false).with_bool(
        "updated_at",
        false,
    );
    assert(filter.deep_view() =~= named_user(text_or_empty(data.username)));
    assert(projection.deep_view() =~= without_times());
    User::find(filter, Some(projection), None, 1)
}

/// How a login is judged.
#[derive(Clone, Copy, Debug, PartialEq, Eq, Structural)]
pub enum LoginVerdict {
    /// No such user, or not the user's password.
    NotFound,
    /// The user is no administrator.
    Unauthorized,
    /// The user is logged in.
    Accepted,
}

/// How a login is judged, given the role of the user that was found, where
/// one was found, and whether the password is the user's: only an
/// administrator with the right password is logged in. A user without a
/// role counts as a plain user.
pub open spec fn verdict_of(
    found: Option<Option<UserRole>>,
    password_passes: bool,
) -> LoginVerdict {
    match found {
        None => LoginVerdict::NotFound,
        Some(role) => {
            let role = match role {
                Some(r) => r,
                None => UserRole::User,
            };
            if role != UserRole::Admin {
                LoginVerdict::Unauthorized
            } else if !password_passes {
                LoginVerdict::NotFound
            } else {
                LoginVerdict::Accepted
            }
        },
    }
}

/// How a login is judged, given the role of the user that was found, where
/// one was found, and whether the password is the user's.
pub fn judge(found: Option<Option<UserRole>>, password_passes: bool) -> (verdict: LoginVerdict)
    ensures
        verdict == verdict_of(found, password_passes),
{
    match found {
        None => LoginVerdict::NotFound,
        Some(role) => {
            let role = match role {
                Some(r) => r,
                None => UserRole::User,
            };
            if role != UserRole::Admin {
                LoginVerdict::Unauthorized
            } else if !password_passes {
                LoginVerdict::NotFound
            } else {
                LoginVerdict::Accepted
            }
        },
    }
}

/// The response to a login that was turned away.
pub open spec fn refusal(origin: Seq<char>, verdict: LoginVerdict) -> ProxyResponseView {
    if verdict == LoginVerdict::Unauthorized {
        enveloped(
            origin,
            ResponseStatus::Error,
            UNAUTHORIZED,
            Some("Unauthorized login request"@),
            None,
        )
    } else {
        enveloped(
            origin,
            ResponseStatus::Error,
            NOT_FOUND,
            Some("User not found. Make sure username or password is correct"@),
            None,
        )
    }
}

/// The response to a login that was accepted: success, the user's name as
/// data, and the sealed session cookie set.
pub open spec fn welcome(
    origin: Seq<char>,
    username: Option<Seq<char>>,
    set_cookie: Seq<char>,
) -> ProxyResponseView {
    ProxyResponseView {
        status_code: 200,
        headers: envelope_headers(origin).push(("Set-Cookie"@, set_cookie)),
        multi_value_headers: envelope_headers(origin),
        body: enveloped(
            origin,
            ResponseStatus::Success,
            OK,
            Some("Login successful"@),
            Some(
                object_text(
                    seq![
                        (
                            "\"user\""@,
                            nullable(
                                match username {
                                    Some(name) => Some(json_string(name)),
                                    None => None,
                                },
                            ),
                        ),
                    ],
                ),
            ),
        ).body,
        is_base64_encoded: false,
    }
}

/// The response to a login that was turned away.
pub fn refuse(config: &Config, verdict: LoginVerdict) -> (response: ProxyResponse)
    ensures
        response.deep_view() == refusal(config.frontend_base_url@, verdict),
{
    match verdict {
        LoginVerdict::Unauthorized => AppErrorResponse::new(
            config,
            UNAUTHORIZED,
            Some("Unauthorized login request".to_owned()),
            None,
        ),
        _ => AppErrorResponse::new(
            config,
            NOT_FOUND,
            Some("User not found. Make sure username or password is correct".to_owned()),
            None,
        ),
    }
}

/// The response to a login that was accepted, given the text of the sealed
/// session cookie.
pub fn welcome_user(config: &Config, username: &Option<String>, set_cookie: String) -> (response:
    ProxyResponse)
    ensures
        response.deep_view() == welcome(
            config.frontend_base_url@,
            username.deep_view(),
            set_cookie@,
        ),
{
    let name = match username {
        Some(name) => quote(name.as_str()),
        None => "null".to_owned(),
    };
    let mut members: Vec<(String, String)> = Vec::new();
    members.push(("\"user\"".to_owned(), name));
    assert(members.deep_view() =~= seq![
        (
            "\"user\""@,
            nullable(
                match username.deep_view() {
                    Some(name) => Some(json_string(name)),
                    None => None,
                },
            ),
        ),
    ]);
    let mut response = AppSuccessResponse::new(
        config,
        OK,
        Some("Login successful".to_owned()),
        Some(object(&members)),
    );
    let ghost before = response.headers.deep_view();
    response.headers.push(("Set-Cookie".to_owned(), set_cookie));
    assert(response.headers.deep_view() =~= before.push(("Set-Cookie"@, set_cookie@)));
    response
}

/// The user that a login is held against: the first that was found, where
/// the store found any; a user that could not be read counts as one about
/// whom nothing is known.
pub open spec fn first_found(
    lookup: Result<Vec<Option<User>>, StoreError>,
) -> Option<Option<User>> {
    match lookup {
        Ok(users) => if users.len() == 0 {
            None
        } else {
            Some(users[0])
        },
        Err(_) => None,
    }
}

/// The role that a login is judged by.
pub open spec fn role_of(found: Option<Option<User>>) -> Option<Option<UserRole>> {
    match found {
        None => None,
        Some(Some(user)) => Some(user.role),
        Some(None) => Some(Some(UserRole::User)),
    }
}

/// The hash that a login's password is held against: empty where the user
/// has none.
pub open spec fn hash_of(found: Option<Option<User>>) -> Seq<char> {
    match found {
        Some(Some(user)) => text_or_empty(user.password),
        _ => Seq::empty(),
    }
}

/// The name that a login answers with.
pub open spec fn name_of(found: Option<Option<User>>) -> Option<Seq<char>> {
    match found {
        Some(Some(user)) => user.username.deep_view(),
        _ => None,
    }
}

/// The cookie that a login sets for the user of the given name: the session
/// token, which holds the name, is kept from scripts, and lasts thirty days.
pub open spec fn session_cookie_for(username: Option<Seq<char>>) -> PlainCookieView {
    PlainCookieView {
        name: session_cookie(),
        value: match username {
            Some(name) => name,
            None => Seq::empty(),
        },
        http_only: true,
        max_age_seconds: SESSION_SECONDS,
    }
}

/// The cookie that a login sets for the user of the given name.
pub fn session_cookie_of(username: &Option<String>) -> (plain: PlainCookie)
    ensures
        plain.deep_view() == session_cookie_for(username.deep_view()),
{
    let value = match username {
        Some(name) => name.clone(),
        None => String::new(),
    };
    PlainCookie {
        name: "sessionToken".to_owned(),
        value,
        http_only: true,
        max_age_seconds: SESSION_SECONDS,
    }
}

/// How a login is judged, given what the store found for the login's user
/// name: by the role of the first user found, and by holding the login's
/// password against that user's hash.
pub open spec fn login_verdict_of(
    data: UserLoginData,
    lookup: Result<Vec<Option<User>>, StoreError>,
) -> LoginVerdict {
    verdict_of(
        role_of(first_found(lookup)),
        password_matches(text_or_empty(data.password), hash_of(first_found(lookup))) == Some(
            true,
        ),
    )
}

/// The response to an accepted login of the first user found: the welcome
/// with a cookie that sets the session token, sealed with `secret`.
pub open spec fn welcomes(
    response: ProxyResponseView,
    origin: Seq<char>,
    secret: Seq<char>,
    lookup: Result<Vec<Option<User>>, StoreError>,
) -> bool {
    exists|set_cookie: Seq<char>|
        sets_sealed(set_cookie, secret, session_cookie_for(name_of(first_found(lookup))))
            && response == #[trigger] welcome(origin, name_of(first_found(lookup)), set_cookie)
}

/// How a login is judged, given what the store found for the login's user
/// name, each user as it could be read.
pub fn login_verdict(
    data: &UserLoginData,
    lookup: &Result<Vec<Option<User>>, StoreError>,
) -> (verdict: LoginVerdict)
    ensures
        verdict == login_verdict_of(*data, *lookup),
{
    let empty = String::new();
    let found: Option<&Option<User>> = match lookup {
        Ok(users) => if users.len() == 0 {
            None
        } else {
            Some(&users[0])
        },
        Err(_) => None,
    };
    match found {
        None => judge(None, false),
        Some(None) => judge(Some(Some(UserRole::User)), false),
        Some(Some(user)) => {
            match judge(Some(user.role), true) {
                LoginVerdict::Accepted => {},
                turned_away => {
                    return turned_away;
                },
            }
            let password: &str = match &data.password {
                Some(p) => p.as_str(),
                None => empty.as_str(),
            };
            let hash: &str = match &user.password {
                Some(h) => h.as_str(),
                None => empty.as_str(),
            };
            judge(Some(user.role), verify_password(password, hash))
        },
    }
}

/// The welcome of the first user found.
fn welcome_first(config: &Config, lookup: &Result<Vec<Option<User>>, StoreError>) -> (response:
    ProxyResponse)
    requires
        seals(config.cookie_secret@),
    ensures
        welcomes(response.deep_view(), config.frontend_base_url@, config.cookie_secret@, *lookup),
{
    let nobody: Option<String> = None;
    let username: &Option<String> = match lookup {
        Ok(users) => if users.len() == 0 {
            &nobody
        } else {
            match &users[0] {
                Some(user) => &user.username,
                None => &nobody,
            }
        },
        Err(_) => &nobody,
    };
    let plain = session_cookie_of(username);
    let set_cookie = seal(config.cookie_secret.as_str(), &plain);
    let response = welcome_user(config, username, set_cookie);
    assert(response.deep_view() == welcome(
        config.frontend_base_url@,
        name_of(first_found(*lookup)),
        set_cookie@,
    ));
    response
}

/// The response to a login, given what the store found for the login's user
/// name, each user as it could be read. A login that is turned away is told
/// so, whatever the secret; for one that is accepted the key must be there
/// to be made.
pub fn login_admin_response(
    config: &Config,
    data: &UserLoginData,
    lookup: &Result<Vec<Option<User>>, StoreError>,
) -> (response: ProxyResponse)
    requires
        login_verdict_of(*data, *lookup) == LoginVerdict::Accepted ==> seals(
            config.cookie_secret@,
        ),
    ensures
        if login_verdict_of(*data, *lookup) == LoginVerdict::Accepted {
            welcomes(
                response.deep_view(),
                config.frontend_base_url@,
                config.cookie_secret@,
                *lookup,
            )
        } else {
            response.deep_view() == refusal(
                config.frontend_base_url@,
                login_verdict_of(*data, *lookup),
            )
        },
{
    match login_verdict(data, lookup) {
        LoginVerdict::Accepted => welcome_first(config, lookup),
        turned_away => refuse(config, turned_away),
    }
}

/// The view of the answer to a login.
pub open spec fn answer_view(answer: Result<ProxyResponse, SecretTooShort>) -> Result<
    ProxyResponseView,
    SecretTooShort,
> {
    match answer {
        Ok(response) => Ok(response.deep_view()),
        Err(e) => Err(e),
    }
}

/// The response to a login, whatever the configured secret: a login that is
/// turned away is told so, and no key is asked for; a login that is
/// accepted needs the key for its cookie, and without it there is no
/// answer.
pub fn answer_login(
    config: &Config,
    data: &UserLoginData,
    lookup: &Result<Vec<Option<User>>, StoreError>,
) -> (answer: Result<ProxyResponse, SecretTooShort>)
    ensures
        if login_verdict_of(*data, *lookup) != LoginVerdict::Accepted {
            answer_view(answer) == Ok::<ProxyResponseView, SecretTooShort>(
                refusal(config.frontend_base_url@, login_verdict_of(*data, *lookup)),
            )
        } else if seals(config.cookie_secret@) {
            answer matches Ok(response) && welcomes(
                response.deep_view(),
                config.frontend_base_url@,
                config.cookie_secret@,
                *lookup,
            )
        } else {
            answer_view(answer) == Err::<ProxyResponseView, SecretTooShort>(SecretTooShort {  })
        },
{
    if can_seal(config) {
        Ok(login_admin_response(config, data, lookup))
    } else {
        match login_verdict(data, lookup) {
            LoginVerdict::Accepted => Err(SecretTooShort {  }),
            turned_away => Ok(refuse(config, turned_away)),
        }
    }
}

} // verus!

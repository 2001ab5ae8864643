//! The session cookie: how the token is read out of a request, and how a
//! token is sealed into a cookie.

use vstd::prelude::*;
use vstd::utf8::encode_utf8;
use crate::config::Config;
use crate::json::decimal;
use crate::request::{header_text, RequestPayload};
use crate::text::equal;

verus! {

/// The number of bytes that a secret must have to seal cookies with.
pub const SECRET_BYTES: usize = 64;

/// Whether the secret has the bytes to seal cookies with.
pub open spec fn seals(secret: Seq<char>) -> bool {
    encode_utf8(secret).len() >= SECRET_BYTES
}

/// The name and the value of the cookie that a `Cookie` header's text sets,
/// where the text is a cookie.
pub uninterp spec fn cookie_pair(header: Seq<char>) -> Option<(Seq<char>, Seq<char>)>;

/// What the sealed `value` of the cookie `name` holds, where it was sealed
/// with `secret` for this name and has not been changed since.
pub uninterp spec fn unsealed(secret: Seq<char>, name: Seq<char>, value: Seq<char>) -> Option<
    Seq<char>,
>;

/// `cookie::Cookie::parse`, read off as the cookie's name and value. The
/// contract claims that they depend on the header's text alone, and that
/// the empty text, which holds no `=`, is no cookie.
#[verifier::external_body]
pub(crate) fn parse_pair(header: &str) -> (pair: Option<(String, String)>)
    ensures
        pair.deep_view() == cookie_pair(header@),
        header@.len() == 0 ==> pair is None,
{
    cookie::Cookie::parse(header.to_owned()).ok().map(
        |c| (c.name().to_owned(), c.value().to_owned()),
    )
}

/// `cookie::PrivateJar::get` on a jar that holds the one cookie `name` with
/// the sealed `value`, under the key that `cookie::Key::from` makes of the
/// secret's bytes. The contract claims that the plain value depends on the
/// three texts alone. The key cannot be made of fewer than 64 bytes.
#[verifier::external_body]
pub(crate) fn unseal(secret: &str, name: &str, value: &str) -> (plain: Option<String>)
    requires
        seals(secret@),
    ensures
        plain.deep_view() == unsealed(secret@, name@, value@),
{
    let key = cookie::Key::from(secret.as_bytes());
    let mut jar = cookie::CookieJar::new();
    jar.add_original(cookie::Cookie::new(name.to_owned(), value.to_owned()));
    jar.private(&key).get(name).map(|c| c.value().to_owned())
}

/// A whole number in decimal, with its sign where it is below zero.
pub open spec fn signed_decimal(n: int) -> Seq<char> {
    if n < 0 {
        seq!['-'] + decimal((-n) as nat)
    } else {
        decimal(n as nat)
    }
}

/// The text that a `Set-Cookie` header takes for the cookie `name` with the
/// given value, whether scripts are kept from it, and the seconds that it
/// lasts: name, `=` and value, then `; HttpOnly` where scripts are kept
/// out, then `; Max-Age=` and the seconds.
pub open spec fn set_cookie_header(
    name: Seq<char>,
    value: Seq<char>,
    http_only: bool,
    max_age_seconds: i64,
) -> Seq<char> {
    name + "="@ + value + (if http_only {
        "; HttpOnly"@
    } else {
        Seq::empty()
    }) + "; Max-Age="@ + signed_decimal(max_age_seconds as int)
}

/// `cookie::PrivateJar::add` on an empty jar, under the key that
/// `cookie::Key::from` makes of the secret's bytes, read off as the sealed
/// value. The seal holds a random part, so the contract claims only what
/// holds of every sealed value: under the same secret and name it unseals
/// to the value that was sealed. The key cannot be made of fewer than 64
/// bytes, and the outside function gives up where the machine has no
/// randomness to give.
#[verifier::external_body]
pub(crate) fn seal_value(secret: &str, name: &str, value: &str) -> (sealed: String)
    requires
        seals(secret@),
    ensures
        unsealed(secret@, name@, sealed@) == Some(value@),
{
    let key = cookie::Key::from(secret.as_bytes());
    let mut jar = cookie::CookieJar::new();
    jar.private_mut(&key).add(cookie::Cookie::new(name.to_owned(), value.to_owned()));
    jar.get(name).map(|c| c.value().to_owned()).unwrap_or_default()
}

/// `cookie::Cookie`'s `to_string`, on the cookie `name` with the given
/// value, `HttpOnly` flag and `Max-Age`. The contract claims that the text
/// is name, `=` and value as they are given, `; HttpOnly` where the flag is
/// set, and `; Max-Age=` with the seconds in decimal.
#[verifier::external_body]
pub(crate) fn set_cookie_text(
    name: &str,
    value: &str,
    http_only: bool,
    max_age_seconds: i64,
) -> (text: String)
    ensures
        text@ == set_cookie_header(name@, value@, http_only, max_age_seconds),
{
    let mut shown = cookie::Cookie::new(name.to_owned(), value.to_owned());
    shown.set_http_only(http_only);
    shown.set_max_age(cookie::time::Duration::seconds(max_age_seconds));
    shown.to_string()
}

/// A cookie before it is sealed.
#[derive(Clone, Debug, PartialEq, Eq)]
pub struct PlainCookie {
    pub name: String,
    pub value: String,
    /// Whether scripts are kept from the cookie.
    pub http_only: bool,
    /// The seconds that the cookie lasts.
    pub max_age_seconds: i64,
}

pub struct PlainCookieView {
    pub name: Seq<char>,
    pub value: Seq<char>,
    pub http_only: bool,
    pub max_age_seconds: i64,
}

impl DeepView for PlainCookie {
    type V = PlainCookieView;

    open spec fn deep_view(&self) -> PlainCookieView {
        PlainCookieView {
            name: self.name@,
            value: self.value@,
            http_only: self.http_only,
            max_age_seconds: self.max_age_seconds,
        }
    }
}

/// Whether `text` sets the cookie `plain`, sealed with `secret`: it is the
/// `Set-Cookie` text for the cookie's name, flag and age and for a value
/// that unseals, under the secret and the name, to the cookie's own.
pub open spec fn sets_sealed(text: Seq<char>, secret: Seq<char>, plain: PlainCookieView) -> bool {
    exists|sealed: Seq<char>|
        unsealed(secret, plain.name, sealed) == Some(plain.value)
            && text == #[trigger] set_cookie_header(
            plain.name,
            sealed,
            plain.http_only,
            plain.max_age_seconds,
        )
}

/// The text of the `Set-Cookie` header that sets `plain`, sealed with
/// `secret`.
pub fn seal(secret: &str, plain: &PlainCookie) -> (text: String)
    requires
        seals(secret@),
    ensures
        sets_sealed(text@, secret@, plain.deep_view()),
{
    let sealed = seal_value(secret, plain.name.as_str(), plain.value.as_str());
    let text = set_cookie_text(
        plain.name.as_str(),
        sealed.as_str(),
        plain.http_only,
        plain.max_age_seconds,
    );
    assert(unsealed(secret@, plain.deep_view().name, sealed@) == Some(plain.deep_view().value)
        && text@ == set_cookie_header(
        plain.deep_view().name,
        sealed@,
        plain.deep_view().http_only,
        plain.deep_view().max_age_seconds,
    ));
    text
}

/// The secret has too few bytes to make a key of.
#[derive(Clone, Copy, Debug, PartialEq, Eq, Structural)]
pub struct SecretTooShort {}

/// Whether the configured secret has the bytes to seal cookies with.
pub fn can_seal(config: &Config) -> (can: bool)
    ensures
        can == seals(config.cookie_secret@),
{
    let bytes = config.cookie_secret.as_str().as_bytes();
    bytes.len() >= SECRET_BYTES
}

/// The token of a session, given the cookie that the request carries, the
/// name of the session cookie and what the carried cookie's value unseals
/// to: nothing for a request without a cookie, and the empty token for a
/// cookie of another name or one whose seal is broken.
pub open spec fn session_token(
    carried: Option<(Seq<char>, Seq<char>)>,
    cookie_name: Seq<char>,
    opened: Option<Seq<char>>,
) -> Option<Seq<char>> {
    match carried {
        None => None,
        Some((name, _)) => if name == cookie_name {
            match opened {
                Some(plain) => Some(plain),
                None => Some(Seq::empty()),
            }
        } else {
            Some(Seq::empty())
        },
    }
}

/// The token of a session, given the name of the cookie that the request
/// carries, where it carries one, the name of the session cookie, and what
/// the carried cookie's value unseals to.
pub fn token_of(carried_name: Option<&str>, cookie_name: &str, opened: Option<String>) -> (token:
    Option<String>)
    ensures
        token.deep_view() == session_token(
            match carried_name {
                Some(name) => Some((name@, Seq::empty())),
                None => None,
            },
            cookie_name@,
            opened.deep_view(),
        ),
{
    match carried_name {
        None => None,
        Some(name) => if equal(name, cookie_name) {
            match opened {
                Some(plain) => Some(plain),
                None => Some(String::new()),
            }
        } else {
            Some(String::new())
        },
    }
}

/// The token that a carried cookie stands for.
fn token_carried(config: &Config, name: &str, value: &str) -> (token: Option<String>)
    requires
        seals(config.cookie_secret@),
    ensures
        token.deep_view() == session_token(
            Some((name@, value@)),
            config.cookie_name@,
            unsealed(config.cookie_secret@, name@, value@),
        ),
{
    let opened = if equal(name, config.cookie_name.as_str()) {
        unseal(config.cookie_secret.as_str(), name, value)
    } else {
        None
    };
    token_of(Some(name), config.cookie_name.as_str(), opened)
}

/// The token of the session that a request belongs to, read out of its
/// `cookie` header. A request without text in that header belongs to no
/// session, whatever the secret; for any other the key must be there to be
/// made.
pub fn parse_cookie(config: &Config, payload: &RequestPayload) -> (token: Option<String>)
    requires
        header_text(payload.headers, "cookie"@).len() > 0 ==> seals(config.cookie_secret@),
    ensures
        token.deep_view() == match cookie_pair(header_text(payload.headers, "cookie"@)) {
            None => None,
            Some((name, value)) => session_token(
                Some((name, value)),
                config.cookie_name@,
                unsealed(config.cookie_secret@, name, value),
            ),
        },
        header_text(payload.headers, "cookie"@).len() == 0 ==> token is None,
{
    let header = payload.header("cookie");
    match parse_pair(header.as_str()) {
        None => None,
        Some((name, value)) => token_carried(config, name.as_str(), value.as_str()),
    }
}

/// The view of a session that was looked for.
pub open spec fn session_view(found: Result<Option<String>, SecretTooShort>) -> Result<
    Option<Seq<char>>,
    SecretTooShort,
> {
    match found {
        Ok(token) => Ok(token.deep_view()),
        Err(e) => Err(e),
    }
}

/// The session that a request with the given `cookie` header belongs to,
/// under any secret: a request that carries no cookie belongs to none, and
/// no key is asked for; a request that carries one needs the key, and
/// without it there is no answer.
pub open spec fn session_of(
    carried: Option<(Seq<char>, Seq<char>)>,
    cookie_name: Seq<char>,
    secret: Seq<char>,
) -> Result<Option<Seq<char>>, SecretTooShort> {
    match carried {
        None => Ok(None),
        Some((name, value)) => if seals(secret) {
            Ok(session_token(Some((name, value)), cookie_name, unsealed(secret, name, value)))
        } else {
            Err(SecretTooShort {  })
        },
    }
}

/// The token of the session that a request belongs to, read out of its
/// `cookie` header, whatever the configured secret.
pub fn find_session(config: &Config, payload: &RequestPayload) -> (found: Result<
    Option<String>,
    SecretTooShort,
>)
    ensures
        session_view(found) == session_of(
            cookie_pair(header_text(payload.headers, "cookie"@)),
            config.cookie_name@,
            config.cookie_secret@,
        ),
        header_text(payload.headers, "cookie"@).len() == 0 ==> found == Ok::<
            Option<String>,
            SecretTooShort,
        >(None),
{
    let header = payload.header("cookie");
    match parse_pair(header.as_str()) {
        None => Ok(None),
        Some((name, value)) => if can_seal(config) {
            Ok(token_carried(config, name.as_str(), value.as_str()))
        } else {
            Err(SecretTooShort {  })
        },
    }
}

} // verus!

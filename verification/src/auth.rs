//! Who is asking: the user that the `Authorization` header of a request speaks
//! for.

use vstd::prelude::*;

use crate::reply::{reject, rejection, reply_view, Rejection, RejectionView, Status};
use crate::text::{strip_prefix, without_prefix};
use crate::token::{accepted_claims, valid_claims, verify_token, Claims, ClaimsView, TokenError};
use crate::uuids::{identifier_of, read_identifier};

verus! {

/// The user of a request, as the token says.
pub struct AuthUser {
    pub id: u128,
    pub username: String,
}

/// A user of a request with the name as a sequence of characters.
pub struct AuthUserView {
    pub id: u128,
    pub username: Seq<char>,
}

impl View for AuthUser {
    type V = AuthUserView;

    open spec fn view(&self) -> AuthUserView {
        AuthUserView { id: self.id, username: self.username@ }
    }
}

/// The bytes that a header may hold as text: printable ASCII and the tab.
pub open spec fn visible_ascii(bytes: Seq<u8>) -> bool {
    forall|i: int|
        0 <= i < bytes.len() ==> 32 <= #[trigger] bytes[i] < 127 || bytes[i] == 9
}

/// Bytes below 128 as the characters that they stand for.
pub open spec fn ascii_text(bytes: Seq<u8>) -> Seq<char> {
    bytes.map_values(|b: u8| b as char)
}

/// The text of a header value, where it is one.
pub open spec fn header_text(value: Option<Seq<u8>>) -> Option<Seq<char>> {
    match value {
        Some(bytes) => if visible_ascii(bytes) {
            Some(ascii_text(bytes))
        } else {
            None
        },
        None => None,
    }
}

/// Calls `HeaderValue::from_bytes` and `HeaderValue::to_str` of `axum::http`.
/// Together they hand out the text of the bytes where each byte is printable
/// ASCII or a tab, and an error otherwise.
#[verifier::external_body]
fn header_to_str(bytes: &[u8]) -> (text: Option<String>)
    ensures
        text is Some <==> visible_ascii(bytes@),
        text matches Some(t) ==> t@ == ascii_text(bytes@),
{
    let value = axum::http::HeaderValue::from_bytes(bytes).ok()?;
    value.to_str().ok().map(|s| s.to_string())
}

/// The token in an `Authorization` header.
pub open spec fn bearer(authorization: Option<Seq<u8>>) -> Result<Seq<char>, RejectionView> {
    match header_text(authorization) {
        None => Err(rejection(Status::Unauthorized, "Missing Authorization header"@)),
        Some(text) => match without_prefix(text, "Bearer "@) {
            None => Err(
                rejection(
                    Status::Unauthorized,
                    "Authorization header must start with 'Bearer '"@,
                ),
            ),
            Some(token) => Ok(token),
        },
    }
}

/// The user of a name, where an identifier was read for them.
pub open spec fn identified(username: Seq<char>, id: Option<u128>) -> Result<
    AuthUserView,
    RejectionView,
> {
    match id {
        None => Err(rejection(Status::Unauthorized, "Malformed token"@)),
        Some(id) => Ok(AuthUserView { id, username }),
    }
}

/// The user that the claims of a token speak for; no claims where the token
/// was not accepted.
pub open spec fn authenticated(claims: Option<ClaimsView>) -> Result<AuthUserView, RejectionView> {
    match claims {
        None => Err(rejection(Status::Unauthorized, "Invalid or expired token"@)),
        Some(claims) => identified(claims.username, identifier_of(claims.sub)),
    }
}

/// The user that an `Authorization` header speaks for at a moment, given the
/// secret that tokens are signed with.
pub open spec fn request_user(
    authorization: Option<Seq<u8>>,
    secret: Seq<char>,
    now: u64,
) -> Result<AuthUserView, RejectionView> {
    match bearer(authorization) {
        Err(refused) => Err(refused),
        Ok(token) => authenticated(valid_claims(token, secret, now)),
    }
}

/// An optional slice of bytes by its view.
pub open spec fn bytes_view(bytes: Option<&[u8]>) -> Option<Seq<u8>> {
    match bytes {
        Some(b) => Some(b@),
        None => None,
    }
}

/// Takes the token out of the value of an `Authorization` header.
pub fn bearer_token(authorization: Option<&[u8]>) -> (token: Result<String, Rejection>)
    ensures
        reply_view(token) == bearer(bytes_view(authorization)),
{
    let text = match authorization {
        Some(bytes) => header_to_str(bytes),
        None => None,
    };
    match text {
        None => Err(reject(Status::Unauthorized, "Missing Authorization header")),
        Some(text) => match strip_prefix(text.as_str(), "Bearer ") {
            None => Err(
                reject(Status::Unauthorized, "Authorization header must start with 'Bearer '"),
            ),
            Some(token) => Ok(token.to_string()),
        },
    }
}

impl AuthUser {
    /// The user of a name, where an identifier was read for them.
    pub fn from_identifier(username: String, id: Option<u128>) -> (user: Result<
        AuthUser,
        Rejection,
    >)
        ensures
            reply_view(user) == identified(username@, id),
    {
        match id {
            None => Err(reject(Status::Unauthorized, "Malformed token")),
            Some(id) => Ok(AuthUser { id, username }),
        }
    }

    /// The user that the claims of a token speak for, or why there is none.
    pub fn from_claims(verified: Result<Claims, TokenError>) -> (user: Result<AuthUser, Rejection>)
        ensures
            reply_view(user) == authenticated(accepted_claims(verified)),
    {
        match verified {
            Err(_) => Err(reject(Status::Unauthorized, "Invalid or expired token")),
            Ok(claims) => {
                let id = read_identifier(claims.sub.as_str());
                AuthUser::from_identifier(claims.username, id)
            },
        }
    }

    /// The user that the `Authorization` header of a request speaks for, given
    /// the secret that tokens are signed with. A header that is not there, is
    /// no text or holds no bearer token is refused for that. A token that the
    /// secret signed speaks for the user in its claims, unless it has expired
    /// at the moment that the clock shows; any other is refused.
    pub fn from_request_parts(authorization: Option<&[u8]>, secret: &str) -> (user: Result<
        AuthUser,
        Rejection,
    >)
        ensures
            exists|now: u64|
                reply_view(user) == #[trigger] request_user(
                    bytes_view(authorization),
                    secret@,
                    now,
                ),
            bearer(bytes_view(authorization)) matches Ok(token) ==> exists|
                text: &str,
                verified: Result<Claims, TokenError>,
            | #[trigger]
                call_ensures(verify_token, (text, secret), verified) && text@ == token
                    && call_ensures(AuthUser::from_claims, (verified,), user),
    {
        match bearer_token(authorization) {
            Err(refused) => {
                let user = Err(refused);
                assert(reply_view(user) == request_user(bytes_view(authorization), secret@, 0));
                user
            },
            Ok(token) => {
                let verified = verify_token(token.as_str(), secret);
                let ghost now = choose|now: u64|
                    accepted_claims(verified) == #[trigger] valid_claims(token@, secret@, now);
                let user = AuthUser::from_claims(verified);
                assert(reply_view(user) == request_user(bytes_view(authorization), secret@, now));
                user
            },
        }
    }
}

} // verus!

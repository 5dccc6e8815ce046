//! What making an account, logging in and being recognised come to: from what
//! is sent, over the answers in between, to what is asked of the database and
//! answered to the client.

use vstd::prelude::*;
use vstd::utf8::encode_utf8;

use crate::accounts::{
    login, register, LoginChecking, LoginFinding, LoginIdentifying, LoginRequest, LoginResponse,
    LoginSigning, RegisterCounting, RegisterHashing, RegisterRequest, RegisterResponse,
    RegisterStoring,
};
use crate::auth::{
    ascii_text, bearer, bearer_token, bytes_view, request_user, visible_ascii, AuthUser,
};
use crate::model::UserAuth;
use crate::password::{bcrypt_verify, hash_password, hashing_gave, verify_password};
use crate::query::Query;
use crate::reply::{reply_view, Rejection, Status};
use crate::token::{
    accepted_claims, claims_at, claims_of, clock_showed, create_token, create_token_at,
    decoder_gave, jwt_payload, jwt_token, session_claims, session_token, signed_claims,
    valid_claims, verify_token, Claims, Payload, TokenError, LAST_MOMENT,
};
use crate::uuids::{
    hyphenated, hyphenated_form_is_read_back, identifier_of, read_identifier, written_as,
    written_form_is_read_back,
};

verus! {

/// The request is refused with this status and this text.
pub open spec fn refused<T>(
    reply: Result<T, Rejection>,
    status: Status,
    error: Seq<char>,
) -> bool {
    reply matches Err(rejection) && rejection.status == status && rejection.error@ == error
}

/// A registration starts exactly where the password has eight bytes or more.
pub proof fn short_passwords_are_refused(
    body: RegisterRequest,
    next: Result<RegisterCounting, Rejection>,
)
    requires
        call_ensures(register, (body,), next),
    ensures
        next is Ok <==> encode_utf8(body.password@).len() >= 8,
        next is Err ==> refused(
            next,
            Status::BadRequest,
            "Password must be at least 8 characters"@,
        ),
{
}

/// A registration asks how many users hold the name and the address that were
/// sent. It goes on exactly where nobody does.
pub proof fn registration_asks_for_its_name(
    body: RegisterRequest,
    counting: RegisterCounting,
    query: Query,
    taken: Result<i64, String>,
    next: Result<RegisterHashing, Rejection>,
)
    requires
        call_ensures(register, (body,), Ok(counting)),
        call_ensures(RegisterCounting::query, (&counting,), query),
        call_ensures(RegisterCounting::resume, (counting, taken), next),
    ensures
        query == (Query::CountTaken { username: body.username, email: body.email }),
        next is Ok <==> (taken matches Ok(count) && count <= 0),
        taken matches Ok(count) ==> count > 0 ==> refused(
            next,
            Status::Conflict,
            "Username or email is already taken"@,
        ),
        taken matches Err(error) ==> refused(next, Status::InternalServerError, error@),
{
}

/// The user who is stored has the name, the address and the key that were sent
/// and a hash that bcrypt accepts the sent password with, made at cost 12.
pub proof fn registered_user_is_stored(
    body: RegisterRequest,
    counting: RegisterCounting,
    count: i64,
    hashing: RegisterHashing,
    next: Result<RegisterStoring, Rejection>,
    query: Query,
)
    requires
        call_ensures(register, (body,), Ok(counting)),
        call_ensures(RegisterCounting::resume, (counting, Ok(count)), Ok(hashing)),
        call_ensures(RegisterHashing::hash, (hashing,), next),
        next matches Ok(storing) ==> call_ensures(RegisterStoring::query, (&storing,), query),
    ensures
        next is Ok ==> {
            &&& query matches Query::InsertUser { email, username, password_hash, public_key }
            &&& email == body.email
            &&& username == body.username
            &&& public_key == body.public_key
            &&& bcrypt_verify(body.password@, password_hash@) == Ok::<bool, Seq<char>>(true)
            &&& password_hash@.len() == 60
            &&& "$2b$12$"@.is_prefix_of(password_hash@)
        },
        next matches Err(rejection) ==> rejection.status == Status::InternalServerError
            && "Rand error: "@.is_prefix_of(rejection.error@),
{
    reveal_strlit("$2b$12$");
    if let Ok(storing) = next {
        let hash = query->password_hash;
        assert(hash@.subrange(0, 7) =~= "$2b$12$"@);
    }
}

/// A hash that was made elsewhere is stored as it came, with what was sent; a
/// failure to make one is reported.
pub proof fn given_hash_is_stored(
    body: RegisterRequest,
    counting: RegisterCounting,
    count: i64,
    hashing: RegisterHashing,
    hash: Result<String, String>,
    next: Result<RegisterStoring, Rejection>,
    query: Query,
)
    requires
        call_ensures(register, (body,), Ok(counting)),
        call_ensures(RegisterCounting::resume, (counting, Ok(count)), Ok(hashing)),
        call_ensures(RegisterHashing::resume, (hashing, hash), next),
        next matches Ok(storing) ==> call_ensures(RegisterStoring::query, (&storing,), query),
    ensures
        hash matches Ok(password_hash) ==> next is Ok && query == (Query::InsertUser {
            email: body.email,
            username: body.username,
            password_hash,
            public_key: body.public_key,
        }),
        hash matches Err(error) ==> refused(next, Status::InternalServerError, error@),
{
}

/// A new user is welcomed by name, or told why they could not be stored.
pub proof fn new_user_is_welcomed(
    body: RegisterRequest,
    counting: RegisterCounting,
    count: i64,
    hashing: RegisterHashing,
    storing: RegisterStoring,
    stored: Result<(), String>,
    reply: Result<(Status, RegisterResponse), Rejection>,
)
    requires
        call_ensures(register, (body,), Ok(counting)),
        call_ensures(RegisterCounting::resume, (counting, Ok(count)), Ok(hashing)),
        call_ensures(RegisterHashing::hash, (hashing,), Ok(storing)) || exists|hash: String|
            #[trigger]
            call_ensures(RegisterHashing::resume, (hashing, Ok(hash)), Ok(storing)),
        call_ensures(RegisterStoring::resume, (storing, stored), reply),
    ensures
        stored is Ok ==> {
            &&& reply matches Ok((status, response))
            &&& status == Status::Created
            &&& response.username@ == body.username@
            &&& response.message@ == "Welcome to XETA, "@ + body.username@ + "!"@
        },
        stored matches Err(error) ==> refused(reply, Status::InternalServerError, error@),
{
    if call_ensures(RegisterHashing::hash, (hashing,), Ok(storing)) {
    } else {
        let hash = choose|hash: String| #[trigger]
            call_ensures(RegisterHashing::resume, (hashing, Ok(hash)), Ok(storing));
        assert(call_ensures(RegisterHashing::resume, (hashing, Ok(hash)), Ok(storing)));
    }
}

/// A login looks for the account by the identifier that was sent. Without an
/// account it ends as invalid; with one it goes on.
pub proof fn login_looks_for_its_account(
    body: LoginRequest,
    finding: LoginFinding,
    query: Query,
    found: Result<Option<UserAuth>, String>,
    next: Result<LoginChecking, Rejection>,
)
    requires
        call_ensures(login, (body,), finding),
        call_ensures(LoginFinding::query, (&finding,), query),
        call_ensures(LoginFinding::resume, (finding, found), next),
    ensures
        query == (Query::Credentials { identifier: body.identifier }),
        next is Ok <==> (found matches Ok(account) && account is Some),
        found matches Ok(None) ==> refused(next, Status::Unauthorized, "Invalid credentials"@),
        found matches Err(error) ==> refused(next, Status::InternalServerError, error@),
{
}

/// A login goes on from the check exactly where bcrypt says that the password
/// that was sent belongs to the hash of the account that was found.
pub proof fn login_checks_the_sent_password(
    body: LoginRequest,
    finding: LoginFinding,
    user: UserAuth,
    checking: LoginChecking,
    next: Result<LoginIdentifying, Rejection>,
)
    requires
        call_ensures(login, (body,), finding),
        call_ensures(LoginFinding::resume, (finding, Ok(Some(user))), Ok(checking)),
        call_ensures(LoginChecking::check, (checking,), next),
    ensures
        match bcrypt_verify(body.password@, user.password_hash@) {
            Ok(true) => next is Ok,
            Ok(false) => refused(next, Status::Unauthorized, "Invalid credentials"@),
            Err(error) => refused(next, Status::InternalServerError, error),
        },
{
}

/// A check that was made elsewhere decides in the same way.
pub proof fn login_goes_by_the_check(
    checking: LoginChecking,
    valid: Result<bool, String>,
    next: Result<LoginIdentifying, Rejection>,
)
    requires
        call_ensures(LoginChecking::resume, (checking, valid), next),
    ensures
        match valid {
            Ok(true) => next is Ok,
            Ok(false) => refused(next, Status::Unauthorized, "Invalid credentials"@),
            Err(error) => refused(next, Status::InternalServerError, error@),
        },
{
}

/// After the check the identifier is looked for by the name of the account.
pub proof fn login_looks_for_the_identifier(
    body: LoginRequest,
    finding: LoginFinding,
    user: UserAuth,
    checking: LoginChecking,
    identifying: LoginIdentifying,
    query: Query,
    id: Result<u128, String>,
    next: Result<LoginSigning, Rejection>,
)
    requires
        call_ensures(login, (body,), finding),
        call_ensures(LoginFinding::resume, (finding, Ok(Some(user))), Ok(checking)),
        call_ensures(LoginChecking::check, (checking,), Ok(identifying)) || call_ensures(
            LoginChecking::resume,
            (checking, Ok(true)),
            Ok(identifying),
        ),
        call_ensures(LoginIdentifying::query, (&identifying,), query),
        call_ensures(LoginIdentifying::resume, (identifying, id), next),
    ensures
        query == (Query::IdByName { username: user.username }),
        next is Ok <==> id is Ok,
        id matches Err(error) ==> refused(next, Status::InternalServerError, error@),
{
}

/// The token of a session that begins at a moment, and what its payload is.
pub open spec fn session_begun(
    token: Seq<char>,
    secret: Seq<char>,
    id: Seq<char>,
    username: Seq<char>,
    now: i64,
) -> bool {
    let exp = (now + 2_592_000) as i64;
    &&& 0 <= now <= i64::MAX - 2_592_000
    &&& token == jwt_token(id, username, exp, now, secret)
    &&& jwt_payload(token, secret) == Some((Some(id), Some(username), Some(exp), Some(now)))
}

/// A login that passed its check is answered with the name of the account and
/// with a token of the identifier that was found and of that name, which lasts
/// for thirty days from the moment that the clock showed.
pub proof fn login_signs_for_its_account(
    body: LoginRequest,
    finding: LoginFinding,
    user: UserAuth,
    checking: LoginChecking,
    identifying: LoginIdentifying,
    id: u128,
    signing: LoginSigning,
    secret: &str,
    reply: Result<LoginResponse, Rejection>,
)
    requires
        call_ensures(login, (body,), finding),
        call_ensures(LoginFinding::resume, (finding, Ok(Some(user))), Ok(checking)),
        call_ensures(LoginChecking::check, (checking,), Ok(identifying)) || call_ensures(
            LoginChecking::resume,
            (checking, Ok(true)),
            Ok(identifying),
        ),
        call_ensures(LoginIdentifying::resume, (identifying, Ok(id)), Ok(signing)),
        call_ensures(LoginSigning::sign, (signing, secret), reply),
    ensures
        reply is Ok,
        reply->Ok_0.username@ == user.username@,
        exists|now: i64| #[trigger]
            session_begun(reply->Ok_0.token@, secret@, hyphenated(id), user.username@, now)
                && clock_showed(now),
{
    let token = reply->Ok_0.token@;
    let now = choose|now: i64|
        {
            &&& clock_showed(now)
            &&& 0 <= now <= LAST_MOMENT
            &&& token == #[trigger] session_token(
                hyphenated(signing@.0),
                signing@.1@,
                secret@,
                now,
            )
            &&& signed_claims(token, secret@) == Some(
                session_claims(hyphenated(signing@.0), signing@.1@, now),
            )
        };
    assert(session_begun(token, secret@, hyphenated(id), user.username@, now));
}

/// A token that was signed elsewhere is handed out as it came, with the name
/// of the account.
pub proof fn login_hands_out_the_token(
    body: LoginRequest,
    finding: LoginFinding,
    user: UserAuth,
    checking: LoginChecking,
    identifying: LoginIdentifying,
    id: u128,
    signing: LoginSigning,
    token: Result<String, String>,
    reply: Result<LoginResponse, Rejection>,
)
    requires
        call_ensures(login, (body,), finding),
        call_ensures(LoginFinding::resume, (finding, Ok(Some(user))), Ok(checking)),
        call_ensures(LoginChecking::check, (checking,), Ok(identifying)) || call_ensures(
            LoginChecking::resume,
            (checking, Ok(true)),
            Ok(identifying),
        ),
        call_ensures(LoginIdentifying::resume, (identifying, Ok(id)), Ok(signing)),
        call_ensures(LoginSigning::respond, (signing, token), reply),
    ensures
        token matches Ok(signed) ==> (reply matches Ok(response) && response.token@ == signed@
            && response.username@ == user.username@),
        token matches Err(error) ==> refused(reply, Status::InternalServerError, error@),
{
}

/// A password is hashed so that bcrypt accepts it with the hash; only a lack
/// of randomness keeps it from being hashed.
pub proof fn hashed_password_is_accepted(password: &str, made: Result<String, String>)
    requires
        call_ensures(hash_password, (password,), made),
    ensures
        made matches Ok(hash) ==> bcrypt_verify(password@, hash@) == Ok::<bool, Seq<char>>(true),
        made matches Ok(hash) ==> hash@.len() == 60 && "$2b$12$"@.is_prefix_of(hash@),
        made matches Err(error) ==> "Rand error: "@.is_prefix_of(error@),
{
    reveal_strlit("$2b$12$");
    if let Ok(hash) = made {
        assert(hash@.subrange(0, 7) =~= "$2b$12$"@);
    }
}

/// A password is checked against the hash as bcrypt does it.
pub proof fn password_is_checked_by_bcrypt(
    password: &str,
    hash: &str,
    matching: Result<bool, String>,
)
    requires
        call_ensures(verify_password, (password, hash), matching),
    ensures
        match bcrypt_verify(password@, hash@) {
            Ok(belongs) => matching == Ok::<bool, String>(belongs),
            Err(error) => matching matches Err(text) && text@ == error,
        },
{
}

/// Claims name the user, begin at the moment and end thirty days later.
pub proof fn claims_name_the_user(user_id: &str, username: &str, now: i64, claims: Claims)
    requires
        now + 2_592_000 <= i64::MAX,
        call_ensures(claims_at, (user_id, username, now), claims),
    ensures
        claims.sub@ == user_id@,
        claims.username@ == username@,
        claims.iat == now,
        claims.exp == now + 30 * 24 * 60 * 60,
{
}

/// A token is signed with the secret over claims that name the user, begin at
/// the moment and end thirty days later, and holds these claims.
pub proof fn token_is_signed_for_the_user(
    user_id: &str,
    username: &str,
    secret: &str,
    now: i64,
    token: Result<String, String>,
)
    requires
        now + 2_592_000 <= i64::MAX,
        call_ensures(create_token_at, (user_id, username, secret, now), token),
    ensures
        token is Ok,
        token->Ok_0@ == jwt_token(
            user_id@,
            username@,
            (now + 2_592_000) as i64,
            now,
            secret@,
        ),
        now >= 0 ==> session_begun(token->Ok_0@, secret@, user_id@, username@, now),
{
}

/// A token that begins now begins at the moment that the clock showed.
pub proof fn token_begins_at_a_moment(
    user_id: &str,
    username: &str,
    secret: &str,
    token: Result<String, String>,
)
    requires
        call_ensures(create_token, (user_id, username, secret), token),
    ensures
        token is Ok,
        exists|now: i64| #[trigger]
            session_begun(token->Ok_0@, secret@, user_id@, username@, now) && clock_showed(now),
{
    let text = token->Ok_0@;
    let now = choose|now: i64|
        {
            &&& clock_showed(now)
            &&& 0 <= now <= LAST_MOMENT
            &&& text == #[trigger] session_token(
                user_id@,
                username@,
                secret@,
                now,
            )
            &&& signed_claims(text, secret@) == Some(
                session_claims(user_id@, username@, now),
            )
        };
    assert(session_begun(text, secret@, user_id@, username@, now));
}

/// Claims are made of the four fields of a payload where all are there; a
/// payload without one of them is incomplete, and a refusal keeps its text.
pub proof fn claims_are_the_fields(
    payload: Payload,
    error: String,
    read: Result<Claims, TokenError>,
    failed: Result<Claims, TokenError>,
)
    requires
        call_ensures(claims_of, (Ok(payload),), read),
        call_ensures(claims_of, (Err(error),), failed),
    ensures
        match read {
            Ok(claims) => {
                &&& payload.sub matches Some(sub) && sub@ == claims.sub@
                &&& payload.username matches Some(username) && username@ == claims.username@
                &&& payload.exp == Some(claims.exp)
                &&& payload.iat == Some(claims.iat)
            },
            Err(TokenError::Incomplete) => payload.sub is None || payload.username is None
                || payload.exp is None || payload.iat is None,
            Err(TokenError::Refused(_)) => false,
        },
        failed matches Err(TokenError::Refused(text)) && text == error,
{
}

/// The payload of a token speaks for these claims at a moment: it is that of a
/// token which the secret signed, holds all four of them and ended no more
/// than a minute ago.
pub open spec fn speaks_for(
    token: Seq<char>,
    secret: Seq<char>,
    sub: Seq<char>,
    username: Seq<char>,
    exp: i64,
    iat: i64,
    now: u64,
) -> bool {
    &&& jwt_payload(token, secret) == Some((Some(sub), Some(username), Some(exp), Some(iat)))
    &&& exp + 60 >= now
}

/// At the moment at which a token is verified it is accepted exactly where its
/// payload speaks for claims, and these claims are handed out.
pub open spec fn verified_at(
    token: Seq<char>,
    secret: Seq<char>,
    claims: Result<Claims, TokenError>,
    now: u64,
) -> bool {
    match claims {
        Ok(c) => speaks_for(token, secret, c.sub@, c.username@, c.exp, c.iat, now),
        Err(_) => forall|sub: Seq<char>, username: Seq<char>, exp: i64, iat: i64|
            !#[trigger] speaks_for(token, secret, sub, username, exp, iat, now),
    }
}

/// A token is verified against the secret and one moment.
pub proof fn token_is_verified_at_a_moment(
    token: &str,
    secret: &str,
    claims: Result<Claims, TokenError>,
)
    requires
        call_ensures(verify_token, (token, secret), claims),
    ensures
        exists|now: u64| #[trigger] verified_at(token@, secret@, claims, now),
{
    let now = choose|now: u64|
        accepted_claims(claims) == #[trigger] valid_claims(
            token@,
            secret@,
            now,
        );
    assert(verified_at(token@, secret@, claims, now));
}

/// The claims are those that the decoder found in the token: where it gave a
/// payload with all four fields, these, and where it refused the token, none,
/// with its own text.
pub open spec fn follows_the_decoder(
    decoded: Result<Payload, String>,
    claims: Result<Claims, TokenError>,
) -> bool {
    match (decoded, claims) {
        (Ok(payload), Ok(c)) => {
            &&& payload.sub matches Some(sub) && sub@ == c.sub@
            &&& payload.username matches Some(username) && username@ == c.username@
            &&& payload.exp == Some(c.exp)
            &&& payload.iat == Some(c.iat)
        },
        (Ok(payload), Err(TokenError::Incomplete)) => payload.sub is None || payload.username
            is None || payload.exp is None || payload.iat is None,
        (Err(error), Err(TokenError::Refused(text))) => text == error,
        _ => false,
    }
}

/// A token is refused only where the decoder refuses it or finds a field
/// missing: nothing else decides.
pub proof fn decoder_decides_about_tokens(
    token: &str,
    secret: &str,
    claims: Result<Claims, TokenError>,
)
    requires
        call_ensures(verify_token, (token, secret), claims),
    ensures
        exists|decoded: Result<Payload, String>| #[trigger]
            decoder_gave(token, secret, decoded) && follows_the_decoder(decoded, claims),
{
    let decoded = choose|decoded: Result<Payload, String>| #[trigger]
        decoder_gave(token, secret, decoded) && call_ensures(claims_of, (decoded,), claims);
    assert(decoder_gave(token, secret, decoded) && follows_the_decoder(decoded, claims));
}

/// A request with a bearer token is answered as the verification of that token
/// against the secret says: its user is the one of the verified claims.
pub proof fn verification_decides_about_requests(
    authorization: Option<&[u8]>,
    secret: &str,
    token: String,
    user: Result<AuthUser, Rejection>,
)
    requires
        call_ensures(bearer_token, (authorization,), Ok(token)),
        call_ensures(AuthUser::from_request_parts, (authorization, secret), user),
    ensures
        exists|text: &str, verified: Result<Claims, TokenError>| #[trigger]
            call_ensures(verify_token, (text, secret), verified) && text@ == token@ && match (
                verified,
                user,
            ) {
                (Ok(claims), Ok(u)) => u.username@ == claims.username@ && written_as(
                    u.id,
                    claims.sub@,
                ),
                (Ok(claims), Err(_)) => forall|id: u128| !written_as(id, claims.sub@),
                (Err(_), Ok(_)) => false,
                (Err(_), Err(_)) => true,
            },
{
    let (text, verified) = choose|text: &str, verified: Result<Claims, TokenError>| #[trigger]
        call_ensures(verify_token, (text, secret), verified) && text@ == token@ && call_ensures(
            AuthUser::from_claims,
            (verified,),
            user,
        );
    claims_speak_for_a_user(verified, user);
}

/// A password is hashed by bcrypt at cost 12, and fails to be hashed only
/// where bcrypt fails.
pub proof fn bcrypt_decides_about_hashes(password: &str, made: Result<String, String>)
    requires
        call_ensures(hash_password, (password,), made),
    ensures
        hashing_gave(password, made),
{
}

/// A registration ends at its hash only where bcrypt fails on the password
/// that was sent, and then with the text of that failure; otherwise the hash
/// that bcrypt made is stored.
pub proof fn bcrypt_decides_about_registrations(
    body: RegisterRequest,
    counting: RegisterCounting,
    count: i64,
    hashing: RegisterHashing,
    next: Result<RegisterStoring, Rejection>,
    query: Query,
)
    requires
        call_ensures(register, (body,), Ok(counting)),
        call_ensures(RegisterCounting::resume, (counting, Ok(count)), Ok(hashing)),
        call_ensures(RegisterHashing::hash, (hashing,), next),
        next matches Ok(storing) ==> call_ensures(RegisterStoring::query, (&storing,), query),
    ensures
        exists|sent: &str, made: Result<String, String>| #[trigger]
            hashing_gave(sent, made) && sent@ == body.password@ && match made {
                Ok(hash) => next is Ok && (
                query matches Query::InsertUser { password_hash, .. } && password_hash == hash),
                Err(error) => refused(next, Status::InternalServerError, error@),
            },
{
    let (sent, made) = choose|sent: &str, made: Result<String, String>| #[trigger]
        hashing_gave(sent, made) && sent@ == hashing@.password@ && call_ensures(
            RegisterHashing::resume,
            (hashing, made),
            next,
        );
    assert(hashing_gave(sent, made));
}

/// The text of a header value: each byte is printable ASCII or a tab.
pub open spec fn header_is_text(bytes: Seq<u8>) -> bool {
    forall|i: int| 0 <= i < bytes.len() ==> #[trigger] bytes[i] == 9 || 32 <= bytes[i] <= 126
}

/// The bytes are those of the text, one for each character.
pub open spec fn spells(bytes: Seq<u8>, text: Seq<char>) -> bool {
    &&& bytes.len() == text.len()
    &&& forall|i: int| 0 <= i < bytes.len() ==> #[trigger] bytes[i] as char == text[i]
}

/// A bearer token is what follows the seven characters `Bearer ` in a header
/// that is text. A header that is not there or no text is missing; any other
/// is told how it must start.
pub proof fn bearer_token_follows_the_scheme(
    authorization: Option<&[u8]>,
    token: Result<String, Rejection>,
)
    requires
        call_ensures(bearer_token, (authorization,), token),
    ensures
        match token {
            Ok(text) => authorization matches Some(bytes) && header_is_text(bytes@) && spells(
                bytes@,
                "Bearer "@ + text@,
            ),
            Err(_) => match authorization {
                None => refused(token, Status::Unauthorized, "Missing Authorization header"@),
                Some(bytes) => if header_is_text(bytes@) {
                    &&& refused(
                        token,
                        Status::Unauthorized,
                        "Authorization header must start with 'Bearer '"@,
                    )
                    &&& forall|text: Seq<char>| !#[trigger] spells(bytes@, "Bearer "@ + text)
                } else {
                    refused(token, Status::Unauthorized, "Missing Authorization header"@)
                },
            },
        },
{
    reveal_strlit("Bearer ");
    if let Some(bytes) = authorization {
        let written = ascii_text(bytes@);
        assert(header_is_text(bytes@) == visible_ascii(bytes@));
        match token {
            Ok(text) => {
                assert("Bearer "@ + text@ =~= written) by {
                    assert(written.subrange(0, 7) =~= "Bearer "@);
                    assert(written.skip(7) =~= text@);
                    assert(written =~= written.subrange(0, 7) + written.skip(7));
                }
            },
            Err(_) => {
                assert forall|text: Seq<char>| #[trigger]
                    spells(bytes@, "Bearer "@ + text) implies bearer(
                    Some(bytes@),
                ) is Ok || !header_is_text(bytes@) by {
                    assert(written =~= "Bearer "@ + text);
                    assert(written.subrange(0, 7) =~= "Bearer "@);
                }
            },
        }
    }
}

/// The user of a request has the name in the claims and the identifier that
/// the subject stands for; claims whose subject is none are malformed, and no
/// claims are invalid.
pub proof fn claims_speak_for_a_user(
    verified: Result<Claims, TokenError>,
    user: Result<AuthUser, Rejection>,
)
    requires
        call_ensures(AuthUser::from_claims, (verified,), user),
    ensures
        match (verified, user) {
            (Ok(claims), Ok(user)) => user.username@ == claims.username@ && written_as(
                user.id,
                claims.sub@,
            ),
            (Ok(claims), Err(_)) => refused(user, Status::Unauthorized, "Malformed token"@)
                && forall|id: u128| !written_as(id, claims.sub@),
            (Err(_), _) => refused(user, Status::Unauthorized, "Invalid or expired token"@),
        },
{
}

/// An identifier that was read makes the user of the name; without one the
/// token is malformed.
pub proof fn identifier_makes_the_user(
    username: String,
    id: Option<u128>,
    user: Result<AuthUser, Rejection>,
)
    requires
        call_ensures(AuthUser::from_identifier, (username, id), user),
    ensures
        id matches Some(number) ==> (user matches Ok(u) && u.id == number && u.username@
            == username@),
        id is None ==> refused(user, Status::Unauthorized, "Malformed token"@),
{
}

/// At the moment of a request its bearer token speaks for the user: for one
/// with the name in its claims and the identifier that its subject stands for.
pub open spec fn recognised_at(
    token: Seq<char>,
    secret: Seq<char>,
    user: Result<AuthUser, Rejection>,
    now: u64,
) -> bool {
    match user {
        Ok(u) => exists|sub: Seq<char>, exp: i64, iat: i64|
            #![trigger speaks_for(token, secret, sub, u.username@, exp, iat, now)]
            speaks_for(token, secret, sub, u.username@, exp, iat, now) && written_as(u.id, sub),
        Err(_) => {
            ||| refused(user, Status::Unauthorized, "Invalid or expired token"@) && forall|
                sub: Seq<char>,
                username: Seq<char>,
                exp: i64,
                iat: i64,
            | !#[trigger] speaks_for(token, secret, sub, username, exp, iat, now)
            ||| refused(user, Status::Unauthorized, "Malformed token"@) && exists|
                sub: Seq<char>,
                username: Seq<char>,
                exp: i64,
                iat: i64,
            | #[trigger]
                speaks_for(token, secret, sub, username, exp, iat, now) && forall|id: u128|
                !written_as(id, sub)
        },
    }
}

/// A request is recognised by its bearer token at one moment; one without such
/// a token is refused as the header deserves.
pub proof fn request_is_recognised(
    authorization: Option<&[u8]>,
    secret: &str,
    token: Result<String, Rejection>,
    user: Result<AuthUser, Rejection>,
)
    requires
        call_ensures(bearer_token, (authorization,), token),
        call_ensures(AuthUser::from_request_parts, (authorization, secret), user),
    ensures
        match token {
            Err(rejection) => refused(user, rejection.status, rejection.error@),
            Ok(text) => exists|now: u64| #[trigger] recognised_at(text@, secret@, user, now),
        },
{
    let now = choose|now: u64|
        reply_view(user) == #[trigger] request_user(
            bytes_view(authorization),
            secret@,
            now,
        );
    if let Ok(text) = token {
        let claims = valid_claims(text@, secret@, now);
        if let Some(c) = claims {
            assert(speaks_for(text@, secret@, c.sub, c.username, c.exp, c.iat, now));
        }
        assert(recognised_at(text@, secret@, user, now));
    }
}

/// A login's token, sent back as a bearer token within thirty days, speaks for
/// the account that was logged in to, whatever was logged in with.
pub proof fn session_token_is_recognised(
    token: Seq<char>,
    secret: Seq<char>,
    id: u128,
    username: Seq<char>,
    begun: i64,
    user: Result<AuthUser, Rejection>,
    now: u64,
)
    requires
        session_begun(token, secret, hyphenated(id), username, begun),
        begun <= now <= begun + 30 * 24 * 60 * 60,
        recognised_at(token, secret, user, now),
    ensures
        user matches Ok(u) && u.id == id && u.username@ == username,
{
    let exp = (begun + 2_592_000) as i64;
    assert(speaks_for(token, secret, hyphenated(id), username, exp, begun, now));
    hyphenated_form_is_read_back(id);
    if let Ok(u) = user {
        let (sub, e, i) = choose|sub: Seq<char>, exp: i64, iat: i64|
            #![trigger speaks_for(token, secret, sub, u.username@, exp, iat, now)]
            speaks_for(token, secret, sub, u.username@, exp, iat, now) && written_as(u.id, sub);
        assert(sub == hyphenated(id));
        written_form_is_read_back(u.id, sub);
    } else {
        if identifier_of(hyphenated(id)) is Some {
            let read = choose|n: u128| written_as(n, hyphenated(id));
            assert(written_as(read, hyphenated(id)));
        }
    }
}

/// A text is read as the identifier that it stands for, and as none where it
/// stands for none.
pub proof fn text_is_read_as_identifier(text: &str, id: Option<u128>)
    requires
        call_ensures(read_identifier, (text,), id),
    ensures
        match id {
            Some(number) => written_as(number, text@),
            None => forall|number: u128| !written_as(number, text@),
        },
        forall|number: u128| text@ == #[trigger] hyphenated(number) ==> id == Some(number),
{
    assert forall|number: u128| text@ == #[trigger] hyphenated(number) implies id == Some(
        number,
    ) by {
        hyphenated_form_is_read_back(number);
    }
}

} // verus!

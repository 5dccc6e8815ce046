//! Making an account and logging in to it.

use vstd::prelude::*;
use vstd::utf8::encode_utf8;

use crate::auth::{authenticated, AuthUserView};
use crate::model::UserAuth;
use crate::password::{
    accepted, bcrypt_verify, hash_form, hash_password, hashing_gave, randomness_error,
    verify_password,
};
use crate::query::Query;
use crate::reply::{
    answer_of, fail, failure, reject, rejection, reply_view, Rejection, RejectionView,
    Status,
};
use crate::token::{
    clock_showed, create_token, session_claims, session_token, signed_claims, token_text, LAST_MOMENT,
};
use crate::uuids::{format_uuid, hyphenated, hyphenated_form_is_read_back};

verus! {

/// The fewest bytes that a password may have.
pub const MIN_PASSWORD_BYTES: usize = 8;

/// What a client sends to make an account.
pub struct RegisterRequest {
    pub email: String,
    pub username: String,
    pub password: String,
    pub public_key: String,
}

/// What a client is told about a new account.
pub struct RegisterResponse {
    pub message: String,
    pub username: String,
}

/// The answer about a new account with its texts as sequences of characters.
pub struct RegisterResponseView {
    pub message: Seq<char>,
    pub username: Seq<char>,
}

impl View for RegisterResponse {
    type V = RegisterResponseView;

    open spec fn view(&self) -> RegisterResponseView {
        RegisterResponseView { message: self.message@, username: self.username@ }
    }
}

/// A registration at its start: a password that is too short ends it.
pub open spec fn registration_started(body: RegisterRequest) -> Result<
    RegisterRequest,
    RejectionView,
> {
    if encode_utf8(body.password@).len() < MIN_PASSWORD_BYTES {
        Err(rejection(Status::BadRequest, "Password must be at least 8 characters"@))
    } else {
        Ok(body)
    }
}

/// The query that counts the users who hold the name or the address.
pub open spec fn counting_query(body: RegisterRequest) -> Query {
    Query::CountTaken { username: body.username, email: body.email }
}

/// The query that stores the user, with a hash in place of the password.
pub open spec fn insertion_query(body: RegisterRequest, hash: String) -> Query {
    Query::InsertUser {
        email: body.email,
        username: body.username,
        password_hash: hash,
        public_key: body.public_key,
    }
}

/// A registration once it is known how many users hold the name or the
/// address: one is enough to end it.
pub open spec fn registration_counted(
    body: RegisterRequest,
    taken: Result<i64, Seq<char>>,
) -> Result<RegisterRequest, RejectionView> {
    match taken {
        Err(error) => Err(failure(error)),
        Ok(count) => if count > 0 {
            Err(rejection(Status::Conflict, "Username or email is already taken"@))
        } else {
            Ok(body)
        },
    }
}

/// A registration once the password is hashed.
pub open spec fn registration_hashed(
    body: RegisterRequest,
    hash: Result<String, Seq<char>>,
) -> Result<(RegisterRequest, String), RejectionView> {
    match hash {
        Err(error) => Err(failure(error)),
        Ok(hash) => Ok((body, hash)),
    }
}

/// The answer to a registration once the user is stored.
pub open spec fn registration_stored(
    body: RegisterRequest,
    stored: Result<(), Seq<char>>,
) -> Result<(Status, RegisterResponseView), RejectionView> {
    match stored {
        Err(error) => Err(failure(error)),
        Ok(()) => Ok(
            (
                Status::Created,
                RegisterResponseView {
                    message: "Welcome to XETA, "@ + body.username@ + "!"@,
                    username: body.username@,
                },
            ),
        ),
    }
}

/// A registration that waits for the number of users who hold the name or the
/// address.
pub struct RegisterCounting {
    body: RegisterRequest,
}

impl View for RegisterCounting {
    type V = RegisterRequest;

    closed spec fn view(&self) -> RegisterRequest {
        self.body
    }
}

/// A registration whose password is to be hashed.
pub struct RegisterHashing {
    body: RegisterRequest,
}

impl View for RegisterHashing {
    type V = RegisterRequest;

    closed spec fn view(&self) -> RegisterRequest {
        self.body
    }
}

/// A registration that waits for the user to be stored.
pub struct RegisterStoring {
    body: RegisterRequest,
    password_hash: String,
}

impl View for RegisterStoring {
    type V = (RegisterRequest, String);

    closed spec fn view(&self) -> (RegisterRequest, String) {
        (self.body, self.password_hash)
    }
}

/// Starts a registration. The length of a password is that of its UTF-8 bytes.
pub fn register(body: RegisterRequest) -> (next: Result<RegisterCounting, Rejection>)
    ensures
        reply_view(next) == registration_started(body),
{
    if body.password.as_str().as_bytes().len() < MIN_PASSWORD_BYTES {
        return Err(reject(Status::BadRequest, "Password must be at least 8 characters"));
    }
    Ok(RegisterCounting { body })
}

impl RegisterCounting {
    /// What the registration waits for.
    pub fn query(&self) -> (query: Query)
        ensures
            query == counting_query(self@),
    {
        Query::CountTaken { username: self.body.username.clone(), email: self.body.email.clone() }
    }

    /// Goes on with the number of users, or with the text of a failure.
    pub fn resume(self, taken: Result<i64, String>) -> (next: Result<RegisterHashing, Rejection>)
        ensures
            reply_view(next) == registration_counted(self@, answer_of(taken)),
    {
        match taken {
            Err(error) => Err(fail(error)),
            Ok(count) => if count > 0 {
                Err(reject(Status::Conflict, "Username or email is already taken"))
            } else {
                Ok(RegisterHashing { body: self.body })
            },
        }
    }
}

impl RegisterHashing {
    /// Goes on with a hash of the password, or with the text of a failure.
    pub fn resume(self, hash: Result<String, String>) -> (next: Result<RegisterStoring, Rejection>)
        ensures
            reply_view(next) == registration_hashed(self@, answer_of(hash)),
    {
        match hash {
            Err(error) => Err(fail(error)),
            Ok(password_hash) => Ok(RegisterStoring { body: self.body, password_hash }),
        }
    }

    /// Hashes the password and goes on with the hash, which is one that the
    /// password is later accepted with. Only a system without randomness to
    /// give ends the registration here. This takes a while.
    pub fn hash(self) -> (next: Result<RegisterStoring, Rejection>)
        ensures
            match next {
                Ok(storing) => {
                    &&& storing@.0 == self@
                    &&& hash_form(storing@.1@, 12)
                    &&& accepted(self@.password@, storing@.1@)
                },
                Err(refused) => refused@ == failure(refused.error@) && randomness_error(
                    refused.error@,
                ),
            },
            exists|password: &str, made: Result<String, String>| #[trigger]
                hashing_gave(password, made) && password@ == self@.password@ && call_ensures(
                    RegisterHashing::resume,
                    (self, made),
                    next,
                ),
    {
        let hash = hash_password(self.body.password.as_str());
        self.resume(hash)
    }
}

impl RegisterStoring {
    /// What the registration waits for.
    pub fn query(&self) -> (query: Query)
        ensures
            query == insertion_query(self@.0, self@.1),
    {
        Query::InsertUser {
            email: self.body.email.clone(),
            username: self.body.username.clone(),
            password_hash: self.password_hash.clone(),
            public_key: self.body.public_key.clone(),
        }
    }

    /// Answers once the user is stored, or with the text of a failure.
    pub fn resume(self, stored: Result<(), String>) -> (reply: Result<
        (Status, RegisterResponse),
        Rejection,
    >)
        ensures
            match reply {
                Ok((status, response)) => registration_stored(self@.0, answer_of(stored)) == Ok::<
                    (Status, RegisterResponseView),
                    RejectionView,
                >((status, response@)),
                Err(refused) => registration_stored(self@.0, answer_of(stored)) == Err::<
                    (Status, RegisterResponseView),
                    RejectionView,
                >(refused@),
            },
    {
        match stored {
            Err(error) => Err(fail(error)),
            Ok(()) => {
                let mut message = "Welcome to XETA, ".to_string();
                message.append(self.body.username.as_str());
                message.append("!");
                Ok((Status::Created, RegisterResponse { message, username: self.body.username }))
            },
        }
    }
}

/// What a client sends to log in: an address or a name, and a password.
pub struct LoginRequest {
    pub identifier: String,
    pub password: String,
}

/// What a client gets when it is logged in.
pub struct LoginResponse {
    pub token: String,
    pub username: String,
}

/// The answer to a login with its texts as sequences of characters.
pub struct LoginResponseView {
    pub token: Seq<char>,
    pub username: Seq<char>,
}

impl View for LoginResponse {
    type V = LoginResponseView;

    open spec fn view(&self) -> LoginResponseView {
        LoginResponseView { token: self.token@, username: self.username@ }
    }
}

/// The answer to a login that fails for what the client sent.
pub open spec fn invalid_credentials() -> RejectionView {
    rejection(Status::Unauthorized, "Invalid credentials"@)
}

/// The query for the account behind the address or the name.
pub open spec fn credentials_query(body: LoginRequest) -> Query {
    Query::Credentials { identifier: body.identifier }
}

/// The query for the identifier of the user.
pub open spec fn identifier_query(username: String) -> Query {
    Query::IdByName { username }
}

/// A login once the account was looked for.
pub open spec fn login_found(
    body: LoginRequest,
    found: Result<Option<UserAuth>, Seq<char>>,
) -> Result<(LoginRequest, UserAuth), RejectionView> {
    match found {
        Err(error) => Err(failure(error)),
        Ok(None) => Err(invalid_credentials()),
        Ok(Some(user)) => Ok((body, user)),
    }
}

/// A login once the password was checked.
pub open spec fn login_checked(user: UserAuth, valid: Result<bool, Seq<char>>) -> Result<
    String,
    RejectionView,
> {
    match valid {
        Err(error) => Err(failure(error)),
        Ok(valid) => if valid {
            Ok(user.username)
        } else {
            Err(invalid_credentials())
        },
    }
}

/// A login once the identifier of the user was looked for.
pub open spec fn login_identified(username: String, id: Result<u128, Seq<char>>) -> Result<
    (u128, String),
    RejectionView,
> {
    match id {
        Err(error) => Err(failure(error)),
        Ok(id) => Ok((id, username)),
    }
}

/// The answer to a login once a token was signed for the user.
pub open spec fn login_signed(username: Seq<char>, token: Result<String, Seq<char>>) -> Result<
    LoginResponseView,
    RejectionView,
> {
    match token {
        Err(error) => Err(failure(error)),
        Ok(token) => Ok(LoginResponseView { token: token@, username }),
    }
}

/// A login that waits for the account behind an address or a name.
pub struct LoginFinding {
    body: LoginRequest,
}

impl View for LoginFinding {
    type V = LoginRequest;

    closed spec fn view(&self) -> LoginRequest {
        self.body
    }
}

/// A login whose password is to be checked.
pub struct LoginChecking {
    body: LoginRequest,
    user: UserAuth,
}

impl View for LoginChecking {
    type V = (LoginRequest, UserAuth);

    closed spec fn view(&self) -> (LoginRequest, UserAuth) {
        (self.body, self.user)
    }
}

/// A login that waits for the identifier of the user.
pub struct LoginIdentifying {
    username: String,
}

impl View for LoginIdentifying {
    type V = String;

    closed spec fn view(&self) -> String {
        self.username
    }
}

/// A login that only lacks its token.
pub struct LoginSigning {
    id: u128,
    username: String,
}

impl View for LoginSigning {
    type V = (u128, String);

    closed spec fn view(&self) -> (u128, String) {
        (self.id, self.username)
    }
}

/// Starts a login.
pub fn login(body: LoginRequest) -> (next: LoginFinding)
    ensures
        next@ == body,
{
    LoginFinding { body }
}

impl LoginFinding {
    /// What the login waits for.
    pub fn query(&self) -> (query: Query)
        ensures
            query == credentials_query(self@),
    {
        Query::Credentials { identifier: self.body.identifier.clone() }
    }

    /// Goes on with the account, where there is one.
    pub fn resume(self, found: Result<Option<UserAuth>, String>) -> (next: Result<
        LoginChecking,
        Rejection,
    >)
        ensures
            reply_view(next) == login_found(self@, answer_of(found)),
    {
        match found {
            Err(error) => Err(fail(error)),
            Ok(None) => Err(reject(Status::Unauthorized, "Invalid credentials")),
            Ok(Some(user)) => Ok(LoginChecking { body: self.body, user }),
        }
    }
}

impl LoginChecking {
    /// Goes on where the password belongs to the stored hash.
    pub fn resume(self, valid: Result<bool, String>) -> (next: Result<LoginIdentifying, Rejection>)
        ensures
            reply_view(next) == login_checked(self@.1, answer_of(valid)),
    {
        match valid {
            Err(error) => Err(fail(error)),
            Ok(valid) => if valid {
                Ok(LoginIdentifying { username: self.user.username })
            } else {
                Err(reject(Status::Unauthorized, "Invalid credentials"))
            },
        }
    }

    /// Checks the password that the client sent against the stored hash and
    /// goes on where they belong together. This takes a while.
    pub fn check(self) -> (next: Result<LoginIdentifying, Rejection>)
        ensures
            reply_view(next) == login_checked(
                self@.1,
                bcrypt_verify(self@.0.password@, self@.1.password_hash@),
            ),
    {
        let valid = verify_password(
            self.body.password.as_str(),
            self.user.password_hash.as_str(),
        );
        self.resume(valid)
    }
}

impl LoginIdentifying {
    /// What the login waits for.
    pub fn query(&self) -> (query: Query)
        ensures
            query == identifier_query(self@),
    {
        Query::IdByName { username: self.username.clone() }
    }

    /// Goes on with the identifier, or with the text of a failure.
    pub fn resume(self, id: Result<u128, String>) -> (next: Result<LoginSigning, Rejection>)
        ensures
            reply_view(next) == login_identified(self@, answer_of(id)),
    {
        match id {
            Err(error) => Err(fail(error)),
            Ok(id) => Ok(LoginSigning { id, username: self.username }),
        }
    }
}

impl LoginSigning {
    /// Answers with a token that was signed for the user.
    pub fn respond(self, token: Result<String, String>) -> (reply: Result<
        LoginResponse,
        Rejection,
    >)
        ensures
            reply_view(reply) == login_signed(self@.1@, answer_of(token)),
    {
        match token {
            Err(error) => Err(fail(error)),
            Ok(token) => Ok(LoginResponse { token, username: self.username }),
        }
    }

    /// Signs a token for the user, by identifier and name, that begins now,
    /// and answers with it. Where the token is accepted, it speaks for this
    /// user.
    pub fn sign(self, secret: &str) -> (reply: Result<LoginResponse, Rejection>)
        ensures
            reply is Ok,
            reply->Ok_0.username@ == self@.1@,
            token_text(reply->Ok_0.token@),
            exists|now: i64|
                {
                    &&& clock_showed(now)
                    &&& 0 <= now <= LAST_MOMENT
                    &&& reply->Ok_0.token@ == #[trigger] session_token(
                        hyphenated(self@.0),
                        self@.1@,
                        secret@,
                        now,
                    )
                    &&& signed_claims(reply->Ok_0.token@, secret@) == Some(
                        session_claims(hyphenated(self@.0), self@.1@, now),
                    )
                },
            authenticated(signed_claims(reply->Ok_0.token@, secret@)) == Ok::<
                AuthUserView,
                RejectionView,
            >(AuthUserView { id: self@.0, username: self@.1@ }),
    {
        let user_id = format_uuid(self.id);
        proof {
            hyphenated_form_is_read_back(self.id);
        }
        let token = create_token(user_id.as_str(), self.username.as_str(), secret);
        self.respond(token)
    }
}

} // verus!

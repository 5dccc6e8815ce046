//! Looking users up, searching for them, and changing one's own profile.

use vstd::prelude::*;

use crate::auth::AuthUser;
use crate::model::User;
use crate::query::Query;
use crate::reply::{
    answer_of, fail, failure, hand_on, handed_on, reject, rejection, reply_of, Rejection,
    RejectionView, Status,
};
use crate::text::{blank, is_blank, lowercase, to_lowercase};

verus! {

/// The answer about oneself once the user was looked for.
pub open spec fn me_found(found: Result<Option<User>, Seq<char>>) -> Result<User, RejectionView> {
    match found {
        Err(error) => Err(failure(error)),
        Ok(None) => Err(rejection(Status::NotFound, "User not found"@)),
        Ok(Some(user)) => Ok(user),
    }
}

/// The answer that there is no user of a name.
pub open spec fn no_such_user(username: Seq<char>) -> RejectionView {
    rejection(Status::NotFound, "User '"@ + username + "' not found"@)
}

/// The answer about a user once they were looked for by name.
pub open spec fn user_found(
    username: Seq<char>,
    found: Result<Option<User>, Seq<char>>,
) -> Result<User, RejectionView> {
    match found {
        Err(error) => Err(failure(error)),
        Ok(None) => Err(no_such_user(username)),
        Ok(Some(user)) => Ok(user),
    }
}

/// Says that there is no user of a name.
fn reject_unknown(username: &str) -> (refused: Rejection)
    ensures
        refused@ == no_such_user(username@),
{
    let mut error = "User '".to_string();
    error.append(username);
    error.append("' not found");
    Rejection { status: Status::NotFound, error }
}

/// A request for one's own data that waits for the user.
pub struct MeFinding {
    id: u128,
}

impl View for MeFinding {
    type V = u128;

    closed spec fn view(&self) -> u128 {
        self.id
    }
}

/// Starts a request for one's own data.
pub fn get_me(auth: &AuthUser) -> (next: MeFinding)
    ensures
        next@ == auth.id,
{
    MeFinding { id: auth.id }
}

impl MeFinding {
    /// What the request waits for.
    pub fn query(&self) -> (query: Query)
        ensures
            query == (Query::UserById { id: self@ }),
    {
        Query::UserById { id: self.id }
    }

    /// Answers with the user, where there is one.
    pub fn resume(self, found: Result<Option<User>, String>) -> (reply: Result<User, Rejection>)
        ensures
            reply_of(reply) == me_found(answer_of(found)),
    {
        match found {
            Err(error) => Err(fail(error)),
            Ok(None) => Err(reject(Status::NotFound, "User not found")),
            Ok(Some(user)) => Ok(user),
        }
    }
}

/// A request for a user that waits for them.
pub struct UserFinding {
    username: String,
}

impl View for UserFinding {
    type V = String;

    closed spec fn view(&self) -> String {
        self.username
    }
}

/// Starts a request for the user of a name.
pub fn get_user(username: String) -> (next: UserFinding)
    ensures
        next@ == username,
{
    UserFinding { username }
}

impl UserFinding {
    /// What the request waits for.
    pub fn query(&self) -> (query: Query)
        ensures
            query == (Query::UserByName { username: self@ }),
    {
        Query::UserByName { username: self.username.clone() }
    }

    /// Answers with the user, where there is one.
    pub fn resume(self, found: Result<Option<User>, String>) -> (reply: Result<User, Rejection>)
        ensures
            reply_of(reply) == user_found(self@@, answer_of(found)),
    {
        match found {
            Err(error) => Err(fail(error)),
            Ok(None) => Err(reject_unknown(self.username.as_str())),
            Ok(Some(user)) => Ok(user),
        }
    }
}

/// New values for one's own profile. A field that is not there stays as it is.
pub struct UpdateProfileRequest {
    pub display_name: Option<String>,
    pub about: Option<String>,
    pub avatar_url: Option<String>,
}

/// A change of one's own profile that waits for the changed user.
pub struct ProfileUpdating {
    id: u128,
    body: UpdateProfileRequest,
}

impl View for ProfileUpdating {
    type V = (u128, UpdateProfileRequest);

    closed spec fn view(&self) -> (u128, UpdateProfileRequest) {
        (self.id, self.body)
    }
}

/// Starts a change of one's own profile.
pub fn update_profile(auth: &AuthUser, body: UpdateProfileRequest) -> (next: ProfileUpdating)
    ensures
        next@ == (auth.id, body),
{
    ProfileUpdating { id: auth.id, body }
}

impl ProfileUpdating {
    /// What the change waits for.
    pub fn query(&self) -> (query: Query)
        ensures
            query == (Query::UpdateProfile {
                display_name: self@.1.display_name,
                about: self@.1.about,
                avatar_url: self@.1.avatar_url,
                id: self@.0,
            }),
    {
        Query::UpdateProfile {
            display_name: self.body.display_name.clone(),
            about: self.body.about.clone(),
            avatar_url: self.body.avatar_url.clone(),
            id: self.id,
        }
    }

    /// Answers with the changed user.
    pub fn resume(self, changed: Result<User, String>) -> (reply: Result<User, Rejection>)
        ensures
            reply_of(reply) == handed_on(answer_of(changed)),
    {
        hand_on(changed)
    }
}

/// What a client searches for.
pub struct SearchQuery {
    pub q: String,
}

/// The pattern that a lower-case text is searched with: the text anywhere.
pub open spec fn pattern_around(lowered: Seq<char>) -> Seq<char> {
    "%"@ + lowered + "%"@
}

/// A search that waits for the users who match.
pub struct UserSearching {
    pattern: String,
    asking: u128,
}

impl View for UserSearching {
    type V = (String, u128);

    closed spec fn view(&self) -> (String, u128) {
        (self.pattern, self.asking)
    }
}

/// Where a search goes from its start.
pub enum SearchStep {
    /// There is nothing to search for, so nobody is found.
    Found(Vec<User>),
    /// The users who match are to be looked for.
    Ask(UserSearching),
}

/// Where a search goes from its start, given the lower-case form of its text.
pub open spec fn search_goes_on(
    step: SearchStep,
    asking: u128,
    q: Seq<char>,
    lowered: Seq<char>,
) -> bool {
    if blank(q) {
        step matches SearchStep::Found(users) && users@.len() == 0
    } else {
        step matches SearchStep::Ask(search) && search@.0@ == pattern_around(lowered) && search@.1
            == asking
    }
}

/// Starts a search whose text is already in lower case as well.
pub fn search_lowered(auth: &AuthUser, params: &SearchQuery, lowered: &str) -> (step: SearchStep)
    ensures
        search_goes_on(step, auth.id, params.q@, lowered@),
{
    if is_blank(params.q.as_str()) {
        return SearchStep::Found(Vec::new());
    }
    let mut pattern = "%".to_string();
    pattern.append(lowered);
    pattern.append("%");
    SearchStep::Ask(UserSearching { pattern, asking: auth.id })
}

/// Starts a search. A blank text finds nobody; any other is searched for in
/// lower case, anywhere in a name or an address.
pub fn search_users(auth: &AuthUser, params: &SearchQuery) -> (step: SearchStep)
    ensures
        search_goes_on(step, auth.id, params.q@, lowercase(params.q@)),
{
    let lowered = to_lowercase(params.q.as_str());
    search_lowered(auth, params, lowered.as_str())
}

impl UserSearching {
    /// What the search waits for.
    pub fn query(&self) -> (query: Query)
        ensures
            query == (Query::SearchUsers { pattern: self@.0, asking: self@.1 }),
    {
        Query::SearchUsers { pattern: self.pattern.clone(), asking: self.asking }
    }

    /// Answers with the users who match.
    pub fn resume(self, found: Result<Vec<User>, String>) -> (reply: Result<Vec<User>, Rejection>)
        ensures
            reply_of(reply) == handed_on(answer_of(found)),
    {
        hand_on(found)
    }
}

/// The public key of a user.
pub struct PublicKeyResponse {
    pub username: String,
    pub public_key: String,
}

/// The answer about a public key once the user was looked for.
pub open spec fn key_found(
    username: Seq<char>,
    found: Result<Option<(String, Option<String>)>, Seq<char>>,
) -> Result<PublicKeyResponse, RejectionView> {
    match found {
        Err(error) => Err(failure(error)),
        Ok(None) => Err(no_such_user(username)),
        Ok(Some((_, None))) => Err(
            rejection(Status::NotFound, "User '"@ + username + "' has no public key"@),
        ),
        Ok(Some((username, Some(public_key)))) => Ok(PublicKeyResponse { username, public_key }),
    }
}

/// A request for a public key that waits for its user.
pub struct KeyFinding {
    username: String,
}

impl View for KeyFinding {
    type V = String;

    closed spec fn view(&self) -> String {
        self.username
    }
}

/// Starts a request for the public key of the user of a name.
pub fn get_public_key(_auth: &AuthUser, username: String) -> (next: KeyFinding)
    ensures
        next@ == username,
{
    KeyFinding { username }
}

impl KeyFinding {
    /// What the request waits for.
    pub fn query(&self) -> (query: Query)
        ensures
            query == (Query::KeyByName { username: self@ }),
    {
        Query::KeyByName { username: self.username.clone() }
    }

    /// Answers with the key, where there is a user and they have one.
    pub fn resume(self, found: Result<Option<(String, Option<String>)>, String>) -> (reply: Result<
        PublicKeyResponse,
        Rejection,
    >)
        ensures
            reply_of(reply) == key_found(self@@, answer_of(found)),
    {
        match found {
            Err(error) => Err(fail(error)),
            Ok(None) => Err(reject_unknown(self.username.as_str())),
            Ok(Some((_, None))) => {
                let mut error = "User '".to_string();
                error.append(self.username.as_str());
                error.append("' has no public key");
                Err(Rejection { status: Status::NotFound, error })
            },
            Ok(Some((username, Some(public_key)))) => Ok(
                PublicKeyResponse { username, public_key },
            ),
        }
    }
}

} // verus!

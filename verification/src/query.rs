//! What the server asks of the database: the statements, and the values that
//! stand for their placeholders.

use vstd::prelude::*;

verus! {

/// One user, by identifier.
pub const USER_BY_ID: &'static str = "SELECT id, username, email, display_name, about, avatar_url,public_key
         FROM users WHERE id = $1";

/// One user, by name.
pub const USER_BY_NAME: &'static str = "SELECT id, username, email, display_name, about, avatar_url, public_key
         FROM users WHERE username = $1";

/// How many users hold a name or an address.
pub const COUNT_TAKEN: &'static str = "SELECT COUNT(*) FROM users WHERE username = $1 OR email = $2";

/// A new user.
pub const INSERT_USER: &'static str = "INSERT INTO users (email, username, password_hash, public_key)
         VALUES ($1, $2, $3, $4)";

/// The name and the stored hash behind an address or a name.
pub const CREDENTIALS: &'static str = "SELECT username, password_hash FROM users
         WHERE email = $1 OR username = $1";

/// The identifier behind a name.
pub const ID_BY_NAME: &'static str = "SELECT id FROM users WHERE username = $1";

/// New values for those fields of a profile that are given.
pub const UPDATE_PROFILE: &'static str = "UPDATE users
         SET
             display_name = COALESCE($1, display_name),
             about        = COALESCE($2, about),
             avatar_url   = COALESCE($3, avatar_url),
             updated_at   = NOW()
         WHERE id = $4
         RETURNING id, username, email, display_name, about, avatar_url, public_key";

/// The first twenty users, by name, whose name or address is like a pattern,
/// the one who asks left out.
pub const SEARCH_USERS: &'static str = "SELECT id, username, email, display_name, about, avatar_url, public_key
         FROM users
         WHERE (LOWER(username) LIKE $1 OR LOWER(email) LIKE $1)
           AND id != $2
         ORDER BY username
         LIMIT 20";

/// The name and the public key of one user.
pub const KEY_BY_NAME: &'static str = "SELECT username, public_key FROM users WHERE username = $1";

/// Is there a user with an identifier?
pub const USER_EXISTS: &'static str = "SELECT EXISTS(SELECT 1 FROM users WHERE id = $1)";

/// The conversation of a pair of users: a new one, or the one that is there,
/// marked as just written in.
pub const OPEN_CONVERSATION: &'static str = "INSERT INTO conversations (participant_a, participant_b)
         VALUES ($1, $2)
         ON CONFLICT (participant_a, participant_b)
         DO UPDATE SET last_message_at = NOW()
         RETURNING *";

/// A new message.
pub const INSERT_MESSAGE: &'static str = "INSERT INTO messages (conversation_id, sender_id, ciphertext, nonce, media_url)
         VALUES ($1, $2, $3, $4, $5)
         RETURNING *";

/// Does a user take part in a conversation?
pub const IS_PARTICIPANT: &'static str = "SELECT EXISTS(
            SELECT 1 FROM conversations
            WHERE id = $1
            AND (participant_a = $2 OR participant_b = $2)
        )";

/// The messages of a conversation, oldest first.
pub const MESSAGES_IN: &'static str = "SELECT * FROM messages
         WHERE conversation_id = $1
         ORDER BY created_at ASC";

/// The conversations of a user with the name of the other user in each, the
/// one last written in first.
pub const CONVERSATIONS_OF: &'static str = "SELECT c.id, c.participant_a, c.participant_b, c.created_at, c.last_message_at,
                u.username as other_username
         FROM conversations c
         JOIN users u ON u.id = CASE
           WHEN c.participant_a = $1 THEN c.participant_b
           ELSE c.participant_a
         END
         WHERE c.participant_a = $1 OR c.participant_b = $1
         ORDER BY c.last_message_at DESC NULLS LAST";

/// A value for a placeholder of a statement.
pub enum Param {
    Text(String),
    OptionalText(Option<String>),
    Uuid(u128),
}

/// A question to the database, or an order to it.
pub enum Query {
    /// One user, by identifier.
    UserById { id: u128 },
    /// One user, by name.
    UserByName { username: String },
    /// How many users hold a name or an address.
    CountTaken { username: String, email: String },
    /// A new user.
    InsertUser { email: String, username: String, password_hash: String, public_key: String },
    /// The name and the stored hash behind an address or a name.
    Credentials { identifier: String },
    /// The identifier behind a name.
    IdByName { username: String },
    /// New values for those fields of a profile that are given.
    UpdateProfile {
        display_name: Option<String>,
        about: Option<String>,
        avatar_url: Option<String>,
        id: u128,
    },
    /// The first twenty users, by name, whose name or address is like a pattern,
    /// the one who asks left out.
    SearchUsers { pattern: String, asking: u128 },
    /// The name and the public key of one user.
    KeyByName { username: String },
    /// Is there a user with an identifier?
    UserExists { id: u128 },
    /// The conversation of a pair of users: a new one, or the one that is there,
    /// marked as just written in.
    OpenConversation { participant_a: u128, participant_b: u128 },
    /// A new message.
    InsertMessage {
        conversation_id: u128,
        sender_id: u128,
        ciphertext: String,
        nonce: String,
        media_url: Option<String>,
    },
    /// Does a user take part in a conversation?
    IsParticipant { conversation_id: u128, user_id: u128 },
    /// The messages of a conversation, oldest first.
    MessagesIn { conversation_id: u128 },
    /// The conversations of a user with the name of the other user in each, the
    /// one last written in first.
    ConversationsOf { user_id: u128 },
}

/// A query that changes what the database holds.
pub open spec fn writes(query: Query) -> bool {
    ||| query is InsertUser
    ||| query is UpdateProfile
    ||| query is OpenConversation
    ||| query is InsertMessage
}

/// The text of the statement.
pub open spec fn statement(query: Query) -> Seq<char> {
    match query {
        Query::UserById { .. } => USER_BY_ID@,
        Query::UserByName { .. } => USER_BY_NAME@,
        Query::CountTaken { .. } => COUNT_TAKEN@,
        Query::InsertUser { .. } => INSERT_USER@,
        Query::Credentials { .. } => CREDENTIALS@,
        Query::IdByName { .. } => ID_BY_NAME@,
        Query::UpdateProfile { .. } => UPDATE_PROFILE@,
        Query::SearchUsers { .. } => SEARCH_USERS@,
        Query::KeyByName { .. } => KEY_BY_NAME@,
        Query::UserExists { .. } => USER_EXISTS@,
        Query::OpenConversation { .. } => OPEN_CONVERSATION@,
        Query::InsertMessage { .. } => INSERT_MESSAGE@,
        Query::IsParticipant { .. } => IS_PARTICIPANT@,
        Query::MessagesIn { .. } => MESSAGES_IN@,
        Query::ConversationsOf { .. } => CONVERSATIONS_OF@,
    }
}

/// The values for the placeholders `$1`, `$2` and so on, in this order.
pub open spec fn values(query: Query) -> Seq<Param> {
    match query {
        Query::UserById { id } => seq![Param::Uuid(id)],
        Query::UserByName { username } => seq![Param::Text(username)],
        Query::CountTaken { username, email } => seq![Param::Text(username), Param::Text(email)],
        Query::InsertUser { email, username, password_hash, public_key } => seq![
            Param::Text(email),
            Param::Text(username),
            Param::Text(password_hash),
            Param::Text(public_key),
        ],
        Query::Credentials { identifier } => seq![Param::Text(identifier)],
        Query::IdByName { username } => seq![Param::Text(username)],
        Query::UpdateProfile { display_name, about, avatar_url, id } => seq![
            Param::OptionalText(display_name),
            Param::OptionalText(about),
            Param::OptionalText(avatar_url),
            Param::Uuid(id),
        ],
        Query::SearchUsers { pattern, asking } => seq![Param::Text(pattern), Param::Uuid(asking)],
        Query::KeyByName { username } => seq![Param::Text(username)],
        Query::UserExists { id } => seq![Param::Uuid(id)],
        Query::OpenConversation { participant_a, participant_b } => seq![
            Param::Uuid(participant_a),
            Param::Uuid(participant_b),
        ],
        Query::InsertMessage { conversation_id, sender_id, ciphertext, nonce, media_url } => seq![
            Param::Uuid(conversation_id),
            Param::Uuid(sender_id),
            Param::Text(ciphertext),
            Param::Text(nonce),
            Param::OptionalText(media_url),
        ],
        Query::IsParticipant { conversation_id, user_id } => seq![
            Param::Uuid(conversation_id),
            Param::Uuid(user_id),
        ],
        Query::MessagesIn { conversation_id } => seq![Param::Uuid(conversation_id)],
        Query::ConversationsOf { user_id } => seq![Param::Uuid(user_id)],
    }
}

impl Query {
    /// The text of the statement.
    pub fn sql(&self) -> (text: &'static str)
        ensures
            text@ == statement(*self),
    {
        match self {
            Query::UserById { .. } => USER_BY_ID,
            Query::UserByName { .. } => USER_BY_NAME,
            Query::CountTaken { .. } => COUNT_TAKEN,
            Query::InsertUser { .. } => INSERT_USER,
            Query::Credentials { .. } => CREDENTIALS,
            Query::IdByName { .. } => ID_BY_NAME,
            Query::UpdateProfile { .. } => UPDATE_PROFILE,
            Query::SearchUsers { .. } => SEARCH_USERS,
            Query::KeyByName { .. } => KEY_BY_NAME,
            Query::UserExists { .. } => USER_EXISTS,
            Query::OpenConversation { .. } => OPEN_CONVERSATION,
            Query::InsertMessage { .. } => INSERT_MESSAGE,
            Query::IsParticipant { .. } => IS_PARTICIPANT,
            Query::MessagesIn { .. } => MESSAGES_IN,
            Query::ConversationsOf { .. } => CONVERSATIONS_OF,
        }
    }

    /// The values for the placeholders `$1`, `$2` and so on, in this order.
    pub fn params(&self) -> (list: Vec<Param>)
        ensures
            list@ == values(*self),
    {
        match self {
            Query::UserById { id } => vec![Param::Uuid(*id)],
            Query::UserByName { username } => vec![Param::Text(username.clone())],
            Query::CountTaken { username, email } => vec![
                Param::Text(username.clone()),
                Param::Text(email.clone()),
            ],
            Query::InsertUser { email, username, password_hash, public_key } => vec![
                Param::Text(email.clone()),
                Param::Text(username.clone()),
                Param::Text(password_hash.clone()),
                Param::Text(public_key.clone()),
            ],
            Query::Credentials { identifier } => vec![Param::Text(identifier.clone())],
            Query::IdByName { username } => vec![Param::Text(username.clone())],
            Query::UpdateProfile { display_name, about, avatar_url, id } => vec![
                Param::OptionalText(display_name.clone()),
                Param::OptionalText(about.clone()),
                Param::OptionalText(avatar_url.clone()),
                Param::Uuid(*id),
            ],
            Query::SearchUsers { pattern, asking } => vec![
                Param::Text(pattern.clone()),
                Param::Uuid(*asking),
            ],
            Query::KeyByName { username } => vec![Param::Text(username.clone())],
            Query::UserExists { id } => vec![Param::Uuid(*id)],
            Query::OpenConversation { participant_a, participant_b } => vec![
                Param::Uuid(*participant_a),
                Param::Uuid(*participant_b),
            ],
            Query::InsertMessage { conversation_id, sender_id, ciphertext, nonce, media_url } => {
                vec![
                    Param::Uuid(*conversation_id),
                    Param::Uuid(*sender_id),
                    Param::Text(ciphertext.clone()),
                    Param::Text(nonce.clone()),
                    Param::OptionalText(media_url.clone()),
                ]
            },
            Query::IsParticipant { conversation_id, user_id } => vec![
                Param::Uuid(*conversation_id),
                Param::Uuid(*user_id),
            ],
            Query::MessagesIn { conversation_id } => vec![Param::Uuid(*conversation_id)],
            Query::ConversationsOf { user_id } => vec![Param::Uuid(*user_id)],
        }
    }
}

} // verus!

//! What is sent to the database for each query: a statement, and for each of
//! its placeholders the value of the field that the statement means there.

use vstd::prelude::*;

use crate::query::{Param, Query};

verus! {

/// One user, by identifier, is asked for by the identifier.
pub proof fn user_by_id_is_sent(
    id: u128,
    query: Query,
    text: &'static str,
    list: Vec<Param>,
)
    requires
        query == (Query::UserById { id }),
        call_ensures(Query::sql, (&query,), text),
        call_ensures(Query::params, (&query,), list),
    ensures
        text@ == "SELECT id, username, email, display_name, about, avatar_url,public_key
         FROM users WHERE id = $1"@,
        list@.len() == 1,
        list@[0] == Param::Uuid(id),
{
}

/// One user, by name, is asked for by the name.
pub proof fn user_by_name_is_sent(
    username: String,
    query: Query,
    text: &'static str,
    list: Vec<Param>,
)
    requires
        query == (Query::UserByName { username }),
        call_ensures(Query::sql, (&query,), text),
        call_ensures(Query::params, (&query,), list),
    ensures
        text@ == "SELECT id, username, email, display_name, about, avatar_url, public_key
         FROM users WHERE username = $1"@,
        list@.len() == 1,
        list@[0] == Param::Text(username),
{
}

/// The users who hold a name or an address are counted: the name stands for the
/// first placeholder, the address for the second.
pub proof fn count_taken_is_sent(
    username: String,
    email: String,
    query: Query,
    text: &'static str,
    list: Vec<Param>,
)
    requires
        query == (Query::CountTaken { username, email }),
        call_ensures(Query::sql, (&query,), text),
        call_ensures(Query::params, (&query,), list),
    ensures
        text@ == "SELECT COUNT(*) FROM users WHERE username = $1 OR email = $2"@,
        list@.len() == 2,
        list@[0] == Param::Text(username),
        list@[1] == Param::Text(email),
{
}

/// Each value of a new user goes into the column of its name.
pub proof fn insert_user_is_sent(
    email: String,
    username: String,
    password_hash: String,
    public_key: String,
    query: Query,
    text: &'static str,
    list: Vec<Param>,
)
    requires
        query == (Query::InsertUser { email, username, password_hash, public_key }),
        call_ensures(Query::sql, (&query,), text),
        call_ensures(Query::params, (&query,), list),
    ensures
        text@ == "INSERT INTO users (email, username, password_hash, public_key)
         VALUES ($1, $2, $3, $4)"@,
        list@.len() == 4,
        list@[0] == Param::Text(email),
        list@[1] == Param::Text(username),
        list@[2] == Param::Text(password_hash),
        list@[3] == Param::Text(public_key),
{
}

/// An account is looked for by what was sent, as an address and as a name.
pub proof fn credentials_is_sent(
    identifier: String,
    query: Query,
    text: &'static str,
    list: Vec<Param>,
)
    requires
        query == (Query::Credentials { identifier }),
        call_ensures(Query::sql, (&query,), text),
        call_ensures(Query::params, (&query,), list),
    ensures
        text@ == "SELECT username, password_hash FROM users
         WHERE email = $1 OR username = $1"@,
        list@.len() == 1,
        list@[0] == Param::Text(identifier),
{
}

/// An identifier is asked for by the name.
pub proof fn id_by_name_is_sent(
    username: String,
    query: Query,
    text: &'static str,
    list: Vec<Param>,
)
    requires
        query == (Query::IdByName { username }),
        call_ensures(Query::sql, (&query,), text),
        call_ensures(Query::params, (&query,), list),
    ensures
        text@ == "SELECT id FROM users WHERE username = $1"@,
        list@.len() == 1,
        list@[0] == Param::Text(username),
{
}

/// Each new value of a profile goes into the column of its name, of the user
/// with the identifier alone; one that is not given leaves the column.
pub proof fn update_profile_is_sent(
    display_name: Option<String>,
    about: Option<String>,
    avatar_url: Option<String>,
    id: u128,
    query: Query,
    text: &'static str,
    list: Vec<Param>,
)
    requires
        query == (Query::UpdateProfile { display_name, about, avatar_url, id }),
        call_ensures(Query::sql, (&query,), text),
        call_ensures(Query::params, (&query,), list),
    ensures
        text@ == "UPDATE users
         SET
             display_name = COALESCE($1, display_name),
             about        = COALESCE($2, about),
             avatar_url   = COALESCE($3, avatar_url),
             updated_at   = NOW()
         WHERE id = $4
         RETURNING id, username, email, display_name, about, avatar_url, public_key"@,
        list@.len() == 4,
        list@[0] == Param::OptionalText(display_name),
        list@[1] == Param::OptionalText(about),
        list@[2] == Param::OptionalText(avatar_url),
        list@[3] == Param::Uuid(id),
{
}

/// A search compares names and addresses in lower case with the pattern and
/// leaves out the one who asks.
pub proof fn search_users_is_sent(
    pattern: String,
    asking: u128,
    query: Query,
    text: &'static str,
    list: Vec<Param>,
)
    requires
        query == (Query::SearchUsers { pattern, asking }),
        call_ensures(Query::sql, (&query,), text),
        call_ensures(Query::params, (&query,), list),
    ensures
        text@ == "SELECT id, username, email, display_name, about, avatar_url, public_key
         FROM users
         WHERE (LOWER(username) LIKE $1 OR LOWER(email) LIKE $1)
           AND id != $2
         ORDER BY username
         LIMIT 20"@,
        list@.len() == 2,
        list@[0] == Param::Text(pattern),
        list@[1] == Param::Uuid(asking),
{
}

/// A public key is asked for by the name.
pub proof fn key_by_name_is_sent(
    username: String,
    query: Query,
    text: &'static str,
    list: Vec<Param>,
)
    requires
        query == (Query::KeyByName { username }),
        call_ensures(Query::sql, (&query,), text),
        call_ensures(Query::params, (&query,), list),
    ensures
        text@ == "SELECT username, public_key FROM users WHERE username = $1"@,
        list@.len() == 1,
        list@[0] == Param::Text(username),
{
}

/// A user is asked about by the identifier.
pub proof fn user_exists_is_sent(
    id: u128,
    query: Query,
    text: &'static str,
    list: Vec<Param>,
)
    requires
        query == (Query::UserExists { id }),
        call_ensures(Query::sql, (&query,), text),
        call_ensures(Query::params, (&query,), list),
    ensures
        text@ == "SELECT EXISTS(SELECT 1 FROM users WHERE id = $1)"@,
        list@.len() == 1,
        list@[0] == Param::Uuid(id),
{
}

/// A conversation is opened for its two users, each in the column of its name.
pub proof fn open_conversation_is_sent(
    participant_a: u128,
    participant_b: u128,
    query: Query,
    text: &'static str,
    list: Vec<Param>,
)
    requires
        query == (Query::OpenConversation { participant_a, participant_b }),
        call_ensures(Query::sql, (&query,), text),
        call_ensures(Query::params, (&query,), list),
    ensures
        text@ == "INSERT INTO conversations (participant_a, participant_b)
         VALUES ($1, $2)
         ON CONFLICT (participant_a, participant_b)
         DO UPDATE SET last_message_at = NOW()
         RETURNING *"@,
        list@.len() == 2,
        list@[0] == Param::Uuid(participant_a),
        list@[1] == Param::Uuid(participant_b),
{
}

/// Each value of a new message goes into the column of its name.
pub proof fn insert_message_is_sent(
    conversation_id: u128,
    sender_id: u128,
    ciphertext: String,
    nonce: String,
    media_url: Option<String>,
    query: Query,
    text: &'static str,
    list: Vec<Param>,
)
    requires
        query == (Query::InsertMessage { conversation_id, sender_id, ciphertext, nonce, media_url }),
        call_ensures(Query::sql, (&query,), text),
        call_ensures(Query::params, (&query,), list),
    ensures
        text@ == "INSERT INTO messages (conversation_id, sender_id, ciphertext, nonce, media_url)
         VALUES ($1, $2, $3, $4, $5)
         RETURNING *"@,
        list@.len() == 5,
        list@[0] == Param::Uuid(conversation_id),
        list@[1] == Param::Uuid(sender_id),
        list@[2] == Param::Text(ciphertext),
        list@[3] == Param::Text(nonce),
        list@[4] == Param::OptionalText(media_url),
{
}

/// Whether a user takes part in a conversation is asked of that conversation
/// and that user.
pub proof fn is_participant_is_sent(
    conversation_id: u128,
    user_id: u128,
    query: Query,
    text: &'static str,
    list: Vec<Param>,
)
    requires
        query == (Query::IsParticipant { conversation_id, user_id }),
        call_ensures(Query::sql, (&query,), text),
        call_ensures(Query::params, (&query,), list),
    ensures
        text@ == "SELECT EXISTS(
            SELECT 1 FROM conversations
            WHERE id = $1
            AND (participant_a = $2 OR participant_b = $2)
        )"@,
        list@.len() == 2,
        list@[0] == Param::Uuid(conversation_id),
        list@[1] == Param::Uuid(user_id),
{
}

/// The messages of a conversation alone are asked for, oldest first.
pub proof fn messages_in_is_sent(
    conversation_id: u128,
    query: Query,
    text: &'static str,
    list: Vec<Param>,
)
    requires
        query == (Query::MessagesIn { conversation_id }),
        call_ensures(Query::sql, (&query,), text),
        call_ensures(Query::params, (&query,), list),
    ensures
        text@ == "SELECT * FROM messages
         WHERE conversation_id = $1
         ORDER BY created_at ASC"@,
        list@.len() == 1,
        list@[0] == Param::Uuid(conversation_id),
{
}

/// The conversations are asked for of the one user in them.
pub proof fn conversations_of_is_sent(
    user_id: u128,
    query: Query,
    text: &'static str,
    list: Vec<Param>,
)
    requires
        query == (Query::ConversationsOf { user_id }),
        call_ensures(Query::sql, (&query,), text),
        call_ensures(Query::params, (&query,), list),
    ensures
        text@ == "SELECT c.id, c.participant_a, c.participant_b, c.created_at, c.last_message_at,
                u.username as other_username
         FROM conversations c
         JOIN users u ON u.id = CASE
           WHEN c.participant_a = $1 THEN c.participant_b
           ELSE c.participant_a
         END
         WHERE c.participant_a = $1 OR c.participant_b = $1
         ORDER BY c.last_message_at DESC NULLS LAST"@,
        list@.len() == 1,
        list@[0] == Param::Uuid(user_id),
{
}

} // verus!

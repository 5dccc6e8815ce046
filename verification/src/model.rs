//! What the database holds, as rows: users, conversations and messages. A
//! moment is a number of microseconds since the Unix epoch.

use vstd::prelude::*;

verus! {

/// A user, as other users may see them.
pub struct User {
    pub id: u128,
    pub username: String,
    pub email: String,
    pub display_name: Option<String>,
    pub about: Option<String>,
    pub avatar_url: Option<String>,
    pub public_key: Option<String>,
}

/// What a login is checked against.
pub struct UserAuth {
    pub username: String,
    pub password_hash: String,
}

/// A message, of which the server holds only the encrypted text.
pub struct Message {
    pub id: u128,
    pub conversation_id: u128,
    pub sender_id: u128,
    pub ciphertext: String,
    pub nonce: String,
    pub media_url: Option<String>,
    pub created_at: i64,
}

/// A conversation of two users.
pub struct Conversation {
    pub id: u128,
    pub participant_a: u128,
    pub participant_b: u128,
    pub created_at: i64,
    pub last_message_at: Option<i64>,
}

/// A conversation together with the name of the other user in it.
pub struct ConversationWithUser {
    pub id: u128,
    pub participant_a: u128,
    pub participant_b: u128,
    pub created_at: i64,
    pub last_message_at: Option<i64>,
    pub other_username: String,
}

} // verus!

//! Messages and the conversations that they belong to. A conversation is that
//! of a pair of users, whichever of the two writes.

use vstd::prelude::*;

use crate::auth::AuthUser;
use crate::model::{Conversation, ConversationWithUser, Message};
use crate::query::Query;
use crate::reply::{
    answer_of, fail, failure, hand_on, handed_on, reject, rejection, reply_of, reply_view,
    Rejection, RejectionView, Status,
};

verus! {

/// What a client sends to have a message delivered.
pub struct SendMessageRequest {
    pub recipient_id: u128,
    pub ciphertext: String,
    pub nonce: String,
    pub media_url: Option<String>,
}

/// A pair of users with the smaller identifier first.
pub open spec fn pair_of(one: u128, other: u128) -> (u128, u128) {
    if one < other {
        (one, other)
    } else {
        (other, one)
    }
}

/// Puts the smaller of two identifiers first.
pub fn canonical_pair(one: u128, other: u128) -> (pair: (u128, u128))
    ensures
        pair == pair_of(one, other),
{
    if one < other {
        (one, other)
    } else {
        (other, one)
    }
}

/// A message at its start: one cannot write to oneself.
pub open spec fn sending_started(sender: u128, body: SendMessageRequest) -> Result<
    (u128, SendMessageRequest),
    RejectionView,
> {
    if body.recipient_id == sender {
        Err(rejection(Status::BadRequest, "You cannot message yourself"@))
    } else {
        Ok((sender, body))
    }
}

/// The query whether the recipient exists.
pub open spec fn recipient_query(body: SendMessageRequest) -> Query {
    Query::UserExists { id: body.recipient_id }
}

/// A message once it is known whether the recipient exists.
pub open spec fn sending_to(
    sender: u128,
    body: SendMessageRequest,
    exists_recipient: Result<bool, Seq<char>>,
) -> Result<(u128, SendMessageRequest), RejectionView> {
    match exists_recipient {
        Err(error) => Err(failure(error)),
        Ok(there) => if there {
            Ok((sender, body))
        } else {
            Err(rejection(Status::NotFound, "Recipient not found"@))
        },
    }
}

/// A message once its conversation is open.
pub open spec fn sending_in(
    sender: u128,
    body: SendMessageRequest,
    conversation: Result<Conversation, Seq<char>>,
) -> Result<(u128, u128, SendMessageRequest), RejectionView> {
    match conversation {
        Err(error) => Err(failure(error)),
        Ok(conversation) => Ok((conversation.id, sender, body)),
    }
}

/// The answer to a message once it is stored.
pub open spec fn sending_stored(stored: Result<Message, Seq<char>>) -> Result<
    (Status, Message),
    RejectionView,
> {
    match stored {
        Err(error) => Err(failure(error)),
        Ok(message) => Ok((Status::Created, message)),
    }
}

/// A message that waits for the word whether its recipient exists.
pub struct SendChecking {
    sender: u128,
    body: SendMessageRequest,
}

impl View for SendChecking {
    type V = (u128, SendMessageRequest);

    closed spec fn view(&self) -> (u128, SendMessageRequest) {
        (self.sender, self.body)
    }
}

/// A message that waits for its conversation.
pub struct SendOpening {
    sender: u128,
    body: SendMessageRequest,
}

impl View for SendOpening {
    type V = (u128, SendMessageRequest);

    closed spec fn view(&self) -> (u128, SendMessageRequest) {
        (self.sender, self.body)
    }
}

/// A message that waits to be stored in a conversation.
pub struct SendStoring {
    conversation_id: u128,
    sender: u128,
    body: SendMessageRequest,
}

impl View for SendStoring {
    type V = (u128, u128, SendMessageRequest);

    closed spec fn view(&self) -> (u128, u128, SendMessageRequest) {
        (self.conversation_id, self.sender, self.body)
    }
}

/// Starts to send a message.
pub fn send_message(auth: &AuthUser, body: SendMessageRequest) -> (next: Result<
    SendChecking,
    Rejection,
>)
    ensures
        reply_view(next) == sending_started(auth.id, body),
{
    if body.recipient_id == auth.id {
        return Err(reject(Status::BadRequest, "You cannot message yourself"));
    }
    Ok(SendChecking { sender: auth.id, body })
}

impl SendChecking {
    /// What the message waits for.
    pub fn query(&self) -> (query: Query)
        ensures
            query == recipient_query(self@.1),
    {
        Query::UserExists { id: self.body.recipient_id }
    }

    /// Goes on where the recipient exists.
    pub fn resume(self, exists_recipient: Result<bool, String>) -> (next: Result<
        SendOpening,
        Rejection,
    >)
        ensures
            reply_view(next) == sending_to(self@.0, self@.1, answer_of(exists_recipient)),
    {
        match exists_recipient {
            Err(error) => Err(fail(error)),
            Ok(there) => if there {
                Ok(SendOpening { sender: self.sender, body: self.body })
            } else {
                Err(reject(Status::NotFound, "Recipient not found"))
            },
        }
    }
}

/// The query that opens the conversation of two users.
pub open spec fn opening_query(one: u128, other: u128) -> Query {
    Query::OpenConversation {
        participant_a: pair_of(one, other).0,
        participant_b: pair_of(one, other).1,
    }
}

impl SendOpening {
    /// What the message waits for: the conversation of the pair, the smaller
    /// identifier first.
    pub fn query(&self) -> (query: Query)
        ensures
            query == opening_query(self@.0, self@.1.recipient_id),
    {
        let pair = canonical_pair(self.sender, self.body.recipient_id);
        Query::OpenConversation { participant_a: pair.0, participant_b: pair.1 }
    }

    /// Goes on with the conversation, or with the text of a failure.
    pub fn resume(self, conversation: Result<Conversation, String>) -> (next: Result<
        SendStoring,
        Rejection,
    >)
        ensures
            reply_view(next) == sending_in(self@.0, self@.1, answer_of(conversation)),
    {
        match conversation {
            Err(error) => Err(fail(error)),
            Ok(conversation) => Ok(
                SendStoring {
                    conversation_id: conversation.id,
                    sender: self.sender,
                    body: self.body,
                },
            ),
        }
    }
}

/// The query that stores a message of a sender in a conversation.
pub open spec fn storing_query(
    conversation_id: u128,
    sender: u128,
    body: SendMessageRequest,
) -> Query {
    Query::InsertMessage {
        conversation_id,
        sender_id: sender,
        ciphertext: body.ciphertext,
        nonce: body.nonce,
        media_url: body.media_url,
    }
}

impl SendStoring {
    /// What the message waits for. The encrypted text is stored as it came.
    pub fn query(&self) -> (query: Query)
        ensures
            query == storing_query(self@.0, self@.1, self@.2),
    {
        Query::InsertMessage {
            conversation_id: self.conversation_id,
            sender_id: self.sender,
            ciphertext: self.body.ciphertext.clone(),
            nonce: self.body.nonce.clone(),
            media_url: self.body.media_url.clone(),
        }
    }

    /// Answers with the stored message.
    pub fn resume(self, stored: Result<Message, String>) -> (reply: Result<
        (Status, Message),
        Rejection,
    >)
        ensures
            reply_of(reply) == sending_stored(answer_of(stored)),
    {
        match stored {
            Err(error) => Err(fail(error)),
            Ok(message) => Ok((Status::Created, message)),
        }
    }
}

/// The query whether a user takes part in a conversation.
pub open spec fn participant_query(conversation_id: u128, user_id: u128) -> Query {
    Query::IsParticipant { conversation_id, user_id }
}

/// The query for the messages of a conversation.
pub open spec fn fetching_query(conversation_id: u128) -> Query {
    Query::MessagesIn { conversation_id }
}

/// A request for messages once it is known whether the user takes part in the
/// conversation.
pub open spec fn reading_allowed(
    conversation_id: u128,
    takes_part: Result<bool, Seq<char>>,
) -> Result<u128, RejectionView> {
    match takes_part {
        Err(error) => Err(failure(error)),
        Ok(takes_part) => if takes_part {
            Ok(conversation_id)
        } else {
            Err(
                rejection(
                    Status::Forbidden,
                    "You are not a participant in this conversation"@,
                ),
            )
        },
    }
}

/// A request for messages that waits for the word whether the user takes part
/// in the conversation.
pub struct ReadChecking {
    conversation_id: u128,
    user_id: u128,
}

impl View for ReadChecking {
    type V = (u128, u128);

    closed spec fn view(&self) -> (u128, u128) {
        (self.conversation_id, self.user_id)
    }
}

/// A request for messages that waits for them.
pub struct ReadFetching {
    conversation_id: u128,
}

impl View for ReadFetching {
    type V = u128;

    closed spec fn view(&self) -> u128 {
        self.conversation_id
    }
}

/// Starts a request for the messages of a conversation.
pub fn get_messages(auth: &AuthUser, conversation_id: u128) -> (next: ReadChecking)
    ensures
        next@ == (conversation_id, auth.id),
{
    ReadChecking { conversation_id, user_id: auth.id }
}

impl ReadChecking {
    /// What the request waits for.
    pub fn query(&self) -> (query: Query)
        ensures
            query == participant_query(self@.0, self@.1),
    {
        Query::IsParticipant { conversation_id: self.conversation_id, user_id: self.user_id }
    }

    /// Goes on where the user takes part in the conversation.
    pub fn resume(self, takes_part: Result<bool, String>) -> (next: Result<ReadFetching, Rejection>)
        ensures
            reply_view(next) == reading_allowed(self@.0, answer_of(takes_part)),
    {
        match takes_part {
            Err(error) => Err(fail(error)),
            Ok(takes_part) => if takes_part {
                Ok(ReadFetching { conversation_id: self.conversation_id })
            } else {
                Err(
                    reject(
                        Status::Forbidden,
                        "You are not a participant in this conversation",
                    ),
                )
            },
        }
    }
}

impl ReadFetching {
    /// What the request waits for.
    pub fn query(&self) -> (query: Query)
        ensures
            query == fetching_query(self@),
    {
        Query::MessagesIn { conversation_id: self.conversation_id }
    }

    /// Answers with the messages.
    pub fn resume(self, found: Result<Vec<Message>, String>) -> (reply: Result<
        Vec<Message>,
        Rejection,
    >)
        ensures
            reply_of(reply) == handed_on(answer_of(found)),
    {
        hand_on(found)
    }
}

/// A request for one's conversations that waits for them.
pub struct ConversationsFetching {
    user_id: u128,
}

impl View for ConversationsFetching {
    type V = u128;

    closed spec fn view(&self) -> u128 {
        self.user_id
    }
}

/// Starts a request for one's own conversations.
pub fn get_conversations(auth: &AuthUser) -> (next: ConversationsFetching)
    ensures
        next@ == auth.id,
{
    ConversationsFetching { user_id: auth.id }
}

impl ConversationsFetching {
    /// What the request waits for.
    pub fn query(&self) -> (query: Query)
        ensures
            query == (Query::ConversationsOf { user_id: self@ }),
    {
        Query::ConversationsOf { user_id: self.user_id }
    }

    /// Answers with the conversations.
    pub fn resume(self, found: Result<Vec<ConversationWithUser>, String>) -> (reply: Result<
        Vec<ConversationWithUser>,
        Rejection,
    >)
        ensures
            reply_of(reply) == handed_on(answer_of(found)),
    {
        hand_on(found)
    }
}

} // verus!

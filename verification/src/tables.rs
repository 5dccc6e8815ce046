//! A model of the tables behind the server: what each query finds in them and
//! what it leaves in them, where the database runs it without a failure. The
//! identifier of a row is its key, and a pair of users has one conversation.
//! Of a search the model says only whom it can find.

use vstd::prelude::*;

use crate::model::{Conversation, ConversationWithUser, Message, User, UserAuth};
use crate::query::Query;

verus! {

/// A row of the table of users.
pub struct Account {
    pub user: User,
    pub password_hash: String,
}

/// What the tables hold.
pub struct Tables {
    pub users: Set<Account>,
    pub conversations: Set<Conversation>,
    pub messages: Set<Message>,
}

/// What a query is answered.
pub enum Answer {
    Stored,
    Count(i64),
    Credentials(Option<UserAuth>),
    Id(u128),
    Found(Option<User>),
    Changed(User),
    Users(Vec<User>),
    Key(Option<(String, Option<String>)>),
    Exists(bool),
    Conversation(Conversation),
    Message(Message),
    Messages(Vec<Message>),
    Conversations(Vec<ConversationWithUser>),
}

/// What a user is looked for by.
pub enum Condition {
    Id(u128),
    Name(Seq<char>),
    NameOrAddress(Seq<char>, Seq<char>),
}

/// The user is one who is looked for.
pub open spec fn holds(account: Account, condition: Condition) -> bool {
    match condition {
        Condition::Id(id) => account.user.id == id,
        Condition::Name(username) => account.user.username@ == username,
        Condition::NameOrAddress(username, email) => account.user.username@ == username
            || account.user.email@ == email,
    }
}

/// One of the users who are looked for, or nobody where there is none.
pub open spec fn found(tables: Tables, condition: Condition, row: Option<Account>) -> bool {
    match row {
        Some(account) => tables.users.contains(account) && holds(account, condition),
        None => forall|account: Account| #[trigger]
            tables.users.contains(account) ==> !holds(account, condition),
    }
}

/// The user in a row, if there is one.
pub open spec fn user_in(row: Option<Account>) -> Option<User> {
    match row {
        Some(account) => Some(account.user),
        None => None,
    }
}

/// What a login is checked against, of a row.
pub open spec fn credentials_in(row: Option<Account>) -> Option<UserAuth> {
    match row {
        Some(account) => Some(
            UserAuth { username: account.user.username, password_hash: account.password_hash },
        ),
        None => None,
    }
}

/// The name and the key in a row.
pub open spec fn key_in(row: Option<Account>) -> Option<(String, Option<String>)> {
    match row {
        Some(account) => Some((account.user.username, account.user.public_key)),
        None => None,
    }
}

/// The given value, or the one that was there.
pub open spec fn coalesce(given: Option<String>, there: Option<String>) -> Option<String> {
    match given {
        Some(_) => given,
        None => there,
    }
}

/// A user with new values for those fields of the profile that are given.
pub open spec fn changed(
    user: User,
    display_name: Option<String>,
    about: Option<String>,
    avatar_url: Option<String>,
) -> User {
    User {
        display_name: coalesce(display_name, user.display_name),
        about: coalesce(about, user.about),
        avatar_url: coalesce(avatar_url, user.avatar_url),
        ..user
    }
}

/// The user takes part in the conversation.
pub open spec fn takes_part(conversation: Conversation, user_id: u128) -> bool {
    conversation.participant_a == user_id || conversation.participant_b == user_id
}

/// The user in a conversation who is not the one who asks.
pub open spec fn other_in(conversation: Conversation, user_id: u128) -> u128 {
    if conversation.participant_a == user_id {
        conversation.participant_b
    } else {
        conversation.participant_a
    }
}

/// A conversation with the name of the other user in it.
pub open spec fn joined(conversation: Conversation, other: Account) -> ConversationWithUser {
    ConversationWithUser {
        id: conversation.id,
        participant_a: conversation.participant_a,
        participant_b: conversation.participant_b,
        created_at: conversation.created_at,
        last_message_at: conversation.last_message_at,
        other_username: other.user.username,
    }
}

/// The conversation and the user make an entry in the list of the one who asks.
pub open spec fn joins(
    tables: Tables,
    user_id: u128,
    conversation: Conversation,
    other: Account,
) -> bool {
    &&& tables.conversations.contains(conversation)
    &&& tables.users.contains(other)
    &&& takes_part(conversation, user_id)
    &&& other.user.id == other_in(conversation, user_id)
}

/// The entry is that of a conversation of the one who asks.
pub open spec fn is_entry(tables: Tables, user_id: u128, entry: ConversationWithUser) -> bool {
    exists|conversation: Conversation, other: Account| #[trigger]
        joins(tables, user_id, conversation, other) && entry == joined(conversation, other)
}

/// The first conversation was last written in no earlier than the second. One
/// that was never written in comes last.
pub open spec fn no_earlier(first: ConversationWithUser, second: ConversationWithUser) -> bool {
    match (first.last_message_at, second.last_message_at) {
        (Some(x), Some(y)) => x >= y,
        (None, Some(_)) => false,
        (_, None) => true,
    }
}

/// The conversation of two users that is there already.
pub open spec fn conversation_of(
    tables: Tables,
    participant_a: u128,
    participant_b: u128,
    conversation: Conversation,
) -> bool {
    &&& tables.conversations.contains(conversation)
    &&& conversation.participant_a == participant_a
    &&& conversation.participant_b == participant_b
}

/// A new user is stored.
pub open spec fn stores_user(
    before: Tables,
    email: String,
    username: String,
    password_hash: String,
    public_key: String,
    new: Account,
    after: Tables,
) -> bool {
    &&& new.user.email == email
    &&& new.user.username == username
    &&& new.user.public_key == Some(public_key)
    &&& new.password_hash == password_hash
    &&& forall|there: Account| #[trigger]
        before.users.contains(there) ==> there.user.id != new.user.id
    &&& after == (Tables { users: before.users.insert(new), ..before })
}

/// A user gets another profile.
pub open spec fn replaces_user(before: Tables, old: Account, user: User, after: Tables) -> bool {
    &&& before.users.contains(old)
    &&& after == (Tables {
        users: before.users.remove(old).insert(
            Account { user, password_hash: old.password_hash },
        ),
        ..before
    })
}

/// A conversation is written in again.
pub open spec fn touches_conversation(
    before: Tables,
    old: Conversation,
    opened: Conversation,
    after: Tables,
) -> bool {
    &&& conversation_of(before, opened.participant_a, opened.participant_b, old)
    &&& opened.id == old.id
    &&& opened.created_at == old.created_at
    &&& opened.last_message_at is Some
    &&& after == (Tables {
        conversations: before.conversations.remove(old).insert(opened),
        ..before
    })
}

/// A conversation is begun.
pub open spec fn begins_conversation(before: Tables, opened: Conversation, after: Tables) -> bool {
    &&& forall|there: Conversation| #[trigger]
        before.conversations.contains(there) ==> there.id != opened.id && !(there.participant_a
            == opened.participant_a && there.participant_b == opened.participant_b)
    &&& after == (Tables { conversations: before.conversations.insert(opened), ..before })
}

/// A message is stored.
pub open spec fn stores_message(before: Tables, message: Message, after: Tables) -> bool {
    &&& forall|there: Message| #[trigger]
        before.messages.contains(there) ==> there.id != message.id
    &&& after == (Tables { messages: before.messages.insert(message), ..before })
}

/// The answer is one of the users who are looked for, if there is one.
pub open spec fn answers_user(tables: Tables, condition: Condition, answer: Answer) -> bool {
    exists|row: Option<Account>| #[trigger]
        found(tables, condition, row) && answer == Answer::Found(user_in(row))
}

/// The answer is what a login of one of the users who are looked for is
/// checked against, if there is one.
pub open spec fn answers_credentials(tables: Tables, condition: Condition, answer: Answer) -> bool {
    exists|row: Option<Account>| #[trigger]
        found(tables, condition, row) && answer == Answer::Credentials(credentials_in(row))
}

/// The answer is the name and the key of one of the users who are looked for,
/// if there is one.
pub open spec fn answers_key(tables: Tables, condition: Condition, answer: Answer) -> bool {
    exists|row: Option<Account>| #[trigger]
        found(tables, condition, row) && answer == Answer::Key(key_in(row))
}

/// The answer is the identifier of one of the users who are looked for.
pub open spec fn answers_id(tables: Tables, condition: Condition, answer: Answer) -> bool {
    exists|account: Account| #[trigger]
        tables.users.contains(account) && holds(account, condition) && answer == Answer::Id(
            account.user.id,
        )
}

/// There is a user who is looked for.
pub open spec fn somebody_holds(tables: Tables, condition: Condition) -> bool {
    exists|account: Account| #[trigger] tables.users.contains(account) && holds(account, condition)
}

/// There is a conversation with an identifier that a user takes part in.
pub open spec fn is_participant(tables: Tables, conversation_id: u128, user_id: u128) -> bool {
    exists|there: Conversation| #[trigger]
        tables.conversations.contains(there) && there.id == conversation_id && takes_part(
            there,
            user_id,
        )
}

/// The users in the list are twenty at most, each stands there once, and none
/// of them is the one who asks.
pub open spec fn lists_users(tables: Tables, asking: u128, list: Seq<User>) -> bool {
    &&& list.len() <= 20
    &&& list.no_duplicates()
    &&& forall|i: int|
        0 <= i < list.len() ==> (#[trigger] list[i]).id != asking && exists|account: Account|
            #[trigger]
            tables.users.contains(account) && account.user == list[i]
}

/// The list holds the messages of a conversation, each once, oldest first.
pub open spec fn lists_messages(
    tables: Tables,
    conversation_id: u128,
    list: Seq<Message>,
) -> bool {
    &&& list.no_duplicates()
    &&& forall|message: Message| #[trigger]
        list.contains(message) <==> tables.messages.contains(message) && message.conversation_id
            == conversation_id
    &&& forall|i: int, j: int|
        0 <= i <= j < list.len() ==> (#[trigger] list[i]).created_at <= (
        #[trigger] list[j]).created_at
}

/// The list holds the conversations of a user, each once, the one last written
/// in first.
pub open spec fn lists_conversations(
    tables: Tables,
    user_id: u128,
    list: Seq<ConversationWithUser>,
) -> bool {
    &&& list.no_duplicates()
    &&& forall|entry: ConversationWithUser| #[trigger]
        list.contains(entry) <==> is_entry(tables, user_id, entry)
    &&& forall|i: int, j: int|
        0 <= i <= j < list.len() ==> #[trigger] no_earlier(list[i], list[j])
}

/// A new user with these values is stored.
pub open spec fn adds_user(
    before: Tables,
    email: String,
    username: String,
    password_hash: String,
    public_key: String,
    after: Tables,
) -> bool {
    exists|new: Account| #[trigger]
        stores_user(before, email, username, password_hash, public_key, new, after)
}

/// The user with an identifier gets new values for those fields of the profile
/// that are given, and is then as answered.
pub open spec fn updates_user(
    before: Tables,
    display_name: Option<String>,
    about: Option<String>,
    avatar_url: Option<String>,
    id: u128,
    user: User,
    after: Tables,
) -> bool {
    exists|old: Account| #[trigger]
        replaces_user(before, old, user, after) && old.user.id == id && user == changed(
            old.user,
            display_name,
            about,
            avatar_url,
        )
}

/// A conversation is begun, or the one that its pair has is written in again.
pub open spec fn opens_conversation(before: Tables, opened: Conversation, after: Tables) -> bool {
    ||| begins_conversation(before, opened, after)
    ||| exists|old: Conversation| #[trigger] touches_conversation(before, old, opened, after)
}

/// The database answers a query so, and the tables are then these.
pub open spec fn serves(query: Query, before: Tables, answer: Answer, after: Tables) -> bool {
    match query {
        Query::UserById { id } => after == before && answers_user(
            before,
            Condition::Id(id),
            answer,
        ),
        Query::UserByName { username } => after == before && answers_user(
            before,
            Condition::Name(username@),
            answer,
        ),
        Query::CountTaken { username, email } => {
            let condition = Condition::NameOrAddress(username@, email@);
            &&& after == before
            &&& answer matches Answer::Count(count)
            &&& count == before.users.filter(|account: Account| holds(account, condition)).len()
        },
        Query::InsertUser { email, username, password_hash, public_key } => {
            &&& answer is Stored
            &&& adds_user(before, email, username, password_hash, public_key, after)
        },
        Query::Credentials { identifier } => after == before && answers_credentials(
            before,
            Condition::NameOrAddress(identifier@, identifier@),
            answer,
        ),
        Query::IdByName { username } => after == before && answers_id(
            before,
            Condition::Name(username@),
            answer,
        ),
        Query::UpdateProfile { display_name, about, avatar_url, id } => {
            &&& answer matches Answer::Changed(user)
            &&& updates_user(before, display_name, about, avatar_url, id, user, after)
        },
        Query::SearchUsers { pattern: _, asking } => {
            &&& after == before
            &&& answer matches Answer::Users(list)
            &&& lists_users(before, asking, list@)
        },
        Query::KeyByName { username } => after == before && answers_key(
            before,
            Condition::Name(username@),
            answer,
        ),
        Query::UserExists { id } => after == before && answer == Answer::Exists(
            somebody_holds(before, Condition::Id(id)),
        ),
        Query::OpenConversation { participant_a, participant_b } => {
            &&& answer matches Answer::Conversation(opened)
            &&& opened.participant_a == participant_a
            &&& opened.participant_b == participant_b
            &&& opens_conversation(before, opened, after)
        },
        Query::InsertMessage { conversation_id, sender_id, ciphertext, nonce, media_url } => {
            &&& answer matches Answer::Message(message)
            &&& message.conversation_id == conversation_id
            &&& message.sender_id == sender_id
            &&& message.ciphertext == ciphertext
            &&& message.nonce == nonce
            &&& message.media_url == media_url
            &&& stores_message(before, message, after)
        },
        Query::IsParticipant { conversation_id, user_id } => after == before && answer
            == Answer::Exists(is_participant(before, conversation_id, user_id)),
        Query::MessagesIn { conversation_id } => {
            &&& after == before
            &&& answer matches Answer::Messages(list)
            &&& lists_messages(before, conversation_id, list@)
        },
        Query::ConversationsOf { user_id } => {
            &&& after == before
            &&& answer matches Answer::Conversations(list)
            &&& lists_conversations(before, user_id, list@)
        },
    }
}

/// The tables keep their keys: an identifier stands for one row, and a pair of
/// users has at most one conversation.
pub open spec fn well_formed(tables: Tables) -> bool {
    &&& tables.users.finite()
    &&& forall|x: Account, y: Account| #[trigger]
        tables.users.contains(x) && #[trigger] tables.users.contains(y) && x.user.id == y.user.id
            ==> x == y
    &&& forall|x: Conversation, y: Conversation| #[trigger]
        tables.conversations.contains(x) && #[trigger] tables.conversations.contains(y) && (x.id
            == y.id || (x.participant_a == y.participant_a && x.participant_b == y.participant_b))
            ==> x == y
    &&& forall|x: Message, y: Message| #[trigger]
        tables.messages.contains(x) && #[trigger] tables.messages.contains(y) && x.id == y.id ==> x
            == y
}

/// No two users share a name or an address.
pub open spec fn names_distinct(tables: Tables) -> bool {
    forall|x: Account, y: Account| #[trigger]
        tables.users.contains(x) && #[trigger] tables.users.contains(y) && (x.user.username@
            == y.user.username@ || x.user.email@ == y.user.email@) ==> x.user.id == y.user.id
}

/// The same user, whatever became of the profile.
pub open spec fn same_account(one: Account, other: Account) -> bool {
    &&& one.user.id == other.user.id
    &&& one.user.username == other.user.username
    &&& one.user.email == other.user.email
    &&& one.user.public_key == other.user.public_key
    &&& one.password_hash == other.password_hash
}

/// The same conversation, whenever it was last written in.
pub open spec fn same_conversation(one: Conversation, other: Conversation) -> bool {
    &&& one.id == other.id
    &&& one.participant_a == other.participant_a
    &&& one.participant_b == other.participant_b
    &&& one.created_at == other.created_at
}

/// The user is still there.
pub open spec fn has_account(tables: Tables, account: Account) -> bool {
    exists|there: Account| #[trigger] tables.users.contains(there) && same_account(account, there)
}

/// The conversation is still there.
pub open spec fn has_conversation(tables: Tables, conversation: Conversation) -> bool {
    exists|there: Conversation| #[trigger]
        tables.conversations.contains(there) && same_conversation(conversation, there)
}

/// Everything of the first tables is still there in the second ones: each user
/// but for the profile, each conversation, and each message as it was.
pub open spec fn kept(before: Tables, after: Tables) -> bool {
    &&& forall|account: Account| #[trigger]
        before.users.contains(account) ==> has_account(after, account)
    &&& forall|conversation: Conversation| #[trigger]
        before.conversations.contains(conversation) ==> has_conversation(after, conversation)
    &&& forall|message: Message| #[trigger]
        before.messages.contains(message) ==> after.messages.contains(message)
}

/// No query loses anything, nor breaks a key.
pub proof fn queries_keep_the_tables(query: Query, before: Tables, answer: Answer, after: Tables)
    requires
        well_formed(before),
        serves(query, before, answer, after),
    ensures
        well_formed(after),
        kept(before, after),
{
    assert forall|account: Account| #[trigger] before.users.contains(account) implies has_account(
        after,
        account,
    ) by {
        match query {
            Query::UpdateProfile { display_name, about, avatar_url, id } => {
                let user = answer->Changed_0;
                let old = choose|old: Account| #[trigger]
                    replaces_user(before, old, user, after) && old.user.id == id && user == changed(
                        old.user,
                        display_name,
                        about,
                        avatar_url,
                    );
                let new = Account { user, password_hash: old.password_hash };
                let there = if account == old {
                    new
                } else {
                    account
                };
                assert(after.users.contains(there) && same_account(account, there));
            },
            _ => {
                assert(after.users.contains(account) && same_account(account, account));
            },
        }
    }
    assert forall|conversation: Conversation| #[trigger]
        before.conversations.contains(conversation) implies has_conversation(
        after,
        conversation,
    ) by {
        let there = match query {
            Query::OpenConversation { .. } => {
                let opened = answer->Conversation_0;
                if begins_conversation(before, opened, after) {
                    conversation
                } else {
                    let old = choose|old: Conversation| #[trigger]
                        touches_conversation(before, old, opened, after);
                    if conversation == old {
                        opened
                    } else {
                        conversation
                    }
                }
            },
            _ => conversation,
        };
        assert(after.conversations.contains(there) && same_conversation(conversation, there));
    }
}

/// What is kept is kept over any number of queries.
pub proof fn keeping_is_transitive(first: Tables, second: Tables, third: Tables)
    requires
        kept(first, second),
        kept(second, third),
    ensures
        kept(first, third),
{
    assert forall|account: Account| #[trigger] first.users.contains(account) implies has_account(
        third,
        account,
    ) by {
        let between = choose|there: Account| #[trigger]
            second.users.contains(there) && same_account(account, there);
        let there = choose|there: Account| #[trigger]
            third.users.contains(there) && same_account(between, there);
        assert(third.users.contains(there) && same_account(account, there));
    }
    assert forall|conversation: Conversation| #[trigger]
        first.conversations.contains(conversation) implies has_conversation(
        third,
        conversation,
    ) by {
        let between = choose|there: Conversation| #[trigger]
            second.conversations.contains(there) && same_conversation(conversation, there);
        let there = choose|there: Conversation| #[trigger]
            third.conversations.contains(there) && same_conversation(between, there);
        assert(third.conversations.contains(there) && same_conversation(conversation, there));
    }
}

} // verus!

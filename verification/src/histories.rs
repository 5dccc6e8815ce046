//! What the server promises over several requests: what one request stores,
//! later requests find. A request runs against tables whose database does not
//! fail; between two requests anything may happen that keeps the tables.

use vstd::prelude::*;

use crate::account_laws::{
    login_checks_the_sent_password, login_looks_for_its_account, registered_user_is_stored,
};
use crate::accounts::{
    counting_query, credentials_query, identifier_query, insertion_query, login, register,
    registration_started, LoginChecking, LoginFinding, LoginIdentifying, LoginRequest,
    LoginResponseView, RegisterCounting, RegisterHashing, RegisterRequest, RegisterResponseView,
    RegisterStoring,
};
use crate::auth::{request_user, AuthUserView};
use crate::laws::{bearer_header, login_token_lasts, registration, sending, session};
use crate::messages::{
    fetching_query, opening_query, pair_of, participant_query, reading_allowed, recipient_query,
    storing_query, SendMessageRequest,
};
use crate::model::{Conversation, ConversationWithUser, Message, User, UserAuth};
use crate::password::{accepted, bcrypt_verify};
use crate::query::Query;
use crate::reply::{handed_on, rejection, Rejection, RejectionView, Status};
use crate::tables::{
    adds_user, answers_credentials, begins_conversation, changed, conversation_of, credentials_in,
    found, has_account, has_conversation, holds, is_entry, joined, joins, keeping_is_transitive,
    kept, key_in, names_distinct, other_in, queries_keep_the_tables, replaces_user, same_account,
    same_conversation, serves, stores_user, takes_part, touches_conversation, user_in,
    well_formed, Account, Answer, Condition, Tables,
};
use crate::token::{session_claims, signed_claims, token_text, LAST_MOMENT, TOKEN_LIFETIME};
use crate::users::{key_found, me_found, user_found, PublicKeyResponse, UpdateProfileRequest};
use crate::uuids::hyphenated;

verus! {

/// A registration runs, is answered so, and leaves these tables.
pub open spec fn register_runs(
    before: Tables,
    body: RegisterRequest,
    reply: Result<(Status, RegisterResponseView), RejectionView>,
    after: Tables,
) -> bool {
    match registration_started(body) {
        Err(refused) => reply == Err::<(Status, RegisterResponseView), RejectionView>(refused)
            && after == before,
        Ok(_) => exists|taken: i64, hash: Result<String, Seq<char>>| #[trigger]
            register_goes(before, body, taken, hash, reply, after),
    }
}

/// A registration goes on from the number of users who hold the name or the
/// address and from the hash of the password.
pub open spec fn register_goes(
    before: Tables,
    body: RegisterRequest,
    taken: i64,
    hash: Result<String, Seq<char>>,
    reply: Result<(Status, RegisterResponseView), RejectionView>,
    after: Tables,
) -> bool {
    &&& serves(counting_query(body), before, Answer::Count(taken), before)
    &&& reply == registration(body, Ok(taken), hash, Ok(()))
    &&& if reply is Ok {
        serves(insertion_query(body, hash->Ok_0), before, Answer::Stored, after)
    } else {
        after == before
    }
}

/// A message of a sender is delivered.
pub open spec fn send_runs(
    before: Tables,
    sender: u128,
    body: SendMessageRequest,
    message: Message,
    after: Tables,
) -> bool {
    exists|opened: Conversation, between: Tables| #[trigger]
        send_goes(before, sender, body, opened, between, message, after)
}

/// A message of a sender is delivered in a conversation.
pub open spec fn send_goes(
    before: Tables,
    sender: u128,
    body: SendMessageRequest,
    opened: Conversation,
    between: Tables,
    message: Message,
    after: Tables,
) -> bool {
    &&& serves(recipient_query(body), before, Answer::Exists(true), before)
    &&& serves(
        opening_query(sender, body.recipient_id),
        before,
        Answer::Conversation(opened),
        between,
    )
    &&& serves(
        storing_query(opened.id, sender, body),
        between,
        Answer::Message(message),
        after,
    )
    &&& sending(sender, body, Ok(true), Ok(opened), Ok(message)) == Ok::<
        (Status, Message),
        RejectionView,
    >((Status::Created, message))
}

/// A request for the messages of a conversation is answered so.
pub open spec fn read_runs(
    tables: Tables,
    user_id: u128,
    conversation_id: u128,
    reply: Result<Vec<Message>, RejectionView>,
) -> bool {
    exists|allowed: bool| #[trigger]
        serves(
            participant_query(conversation_id, user_id),
            tables,
            Answer::Exists(allowed),
            tables,
        ) && read_goes(tables, conversation_id, allowed, reply)
}

/// A request for the messages of a conversation goes on from the word whether
/// the user takes part in it.
pub open spec fn read_goes(
    tables: Tables,
    conversation_id: u128,
    allowed: bool,
    reply: Result<Vec<Message>, RejectionView>,
) -> bool {
    match reading_allowed(conversation_id, Ok(allowed)) {
        Err(refused) => reply == Err::<Vec<Message>, RejectionView>(refused),
        Ok(conversation_id) => exists|list: Vec<Message>| #[trigger]
            serves(fetching_query(conversation_id), tables, Answer::Messages(list), tables)
                && reply == handed_on(Ok(list)),
    }
}

/// A request for one's conversations is answered so.
pub open spec fn conversations_run(
    tables: Tables,
    user_id: u128,
    reply: Result<Vec<ConversationWithUser>, RejectionView>,
) -> bool {
    exists|list: Vec<ConversationWithUser>| #[trigger]
        serves(Query::ConversationsOf { user_id }, tables, Answer::Conversations(list), tables)
            && reply == handed_on(Ok(list))
}

/// A request for a public key is answered so.
pub open spec fn key_runs(
    tables: Tables,
    username: String,
    reply: Result<PublicKeyResponse, RejectionView>,
) -> bool {
    exists|key: Option<(String, Option<String>)>| #[trigger]
        serves(Query::KeyByName { username }, tables, Answer::Key(key), tables) && reply
            == key_found(username@, Ok(key))
}

/// A request for one's own data is answered so.
pub open spec fn me_runs(tables: Tables, id: u128, reply: Result<User, RejectionView>) -> bool {
    exists|user: Option<User>| #[trigger]
        serves(Query::UserById { id }, tables, Answer::Found(user), tables) && reply == me_found(
            Ok(user),
        )
}

/// A request for the user of a name is answered so.
pub open spec fn user_runs(
    tables: Tables,
    username: String,
    reply: Result<User, RejectionView>,
) -> bool {
    exists|user: Option<User>| #[trigger]
        serves(Query::UserByName { username }, tables, Answer::Found(user), tables) && reply
            == user_found(username@, Ok(user))
}

/// A change of one's own profile runs, is answered so, and leaves these
/// tables.
pub open spec fn update_runs(
    before: Tables,
    id: u128,
    body: UpdateProfileRequest,
    reply: Result<User, RejectionView>,
    after: Tables,
) -> bool {
    exists|user: User| #[trigger]
        serves(
            Query::UpdateProfile {
                display_name: body.display_name,
                about: body.about,
                avatar_url: body.avatar_url,
                id,
            },
            before,
            Answer::Changed(user),
            after,
        ) && reply == handed_on(Ok(user))
}

/// The number of users who hold a name or an address is positive exactly when
/// there is one.
proof fn taken_names_are_counted(tables: Tables, body: RegisterRequest, taken: i64)
    requires
        well_formed(tables),
        serves(counting_query(body), tables, Answer::Count(taken), tables),
    ensures
        taken > 0 <==> exists|account: Account| #[trigger]
            tables.users.contains(account) && (account.user.username@ == body.username@
                || account.user.email@ == body.email@),
{
    let condition = Condition::NameOrAddress(body.username@, body.email@);
    let counted = tables.users.filter(|account: Account| holds(account, condition));
    tables.users.lemma_len_filter(|account: Account| holds(account, condition));
    assert(taken == counted.len());
    vstd::set_lib::lemma_set_empty_equivalency_len(counted);
    if taken > 0 {
        let account = choose|account: Account| counted.contains(account);
        assert(counted.contains(account));
        assert(tables.users.contains(account) && holds(account, condition));
    }
    if exists|account: Account| #[trigger]
        tables.users.contains(account) && holds(account, condition) {
        let account = choose|account: Account| #[trigger]
            tables.users.contains(account) && holds(account, condition);
        assert(counted.contains(account));
    }
}

/// However a registration is answered, no two users share a name or an address
/// after it if none did before it, and nothing is lost.
pub proof fn names_stay_distinct(
    before: Tables,
    body: RegisterRequest,
    reply: Result<(Status, RegisterResponseView), RejectionView>,
    after: Tables,
)
    requires
        well_formed(before),
        names_distinct(before),
        register_runs(before, body, reply, after),
    ensures
        names_distinct(after),
        well_formed(after),
        kept(before, after),
{
    if reply is Ok {
        let (taken, hash) = choose|taken: i64, hash: Result<String, Seq<char>>| #[trigger]
            register_goes(before, body, taken, hash, reply, after);
        taken_names_are_counted(before, body, taken);
        queries_keep_the_tables(
            insertion_query(body, hash->Ok_0),
            before,
            Answer::Stored,
            after,
        );
        let new = choose|new: Account| #[trigger]
            stores_user(
                before,
                body.email,
                body.username,
                hash->Ok_0,
                body.public_key,
                new,
                after,
            );
        assert forall|x: Account, y: Account| #[trigger]
            after.users.contains(x) && #[trigger] after.users.contains(y) && (x.user.username@
                == y.user.username@ || x.user.email@ == y.user.email@) implies x.user.id
            == y.user.id by {
            assert(x == new || before.users.contains(x));
            assert(y == new || before.users.contains(y));
        }
    } else {
        assert(after == before);
        tables_keep_themselves(before);
    }
}

/// Tables that nothing happened to are kept.
proof fn tables_keep_themselves(tables: Tables)
    ensures
        kept(tables, tables),
{
    assert forall|account: Account| #[trigger] tables.users.contains(account) implies has_account(
        tables,
        account,
    ) by {
        assert(same_account(account, account));
    }
    assert forall|conversation: Conversation| #[trigger]
        tables.conversations.contains(conversation) implies has_conversation(
        tables,
        conversation,
    ) by {
        assert(same_conversation(conversation, conversation));
    }
}

/// What a registration that was welcomed stored.
proof fn registration_stores(
    before: Tables,
    body: RegisterRequest,
    reply: Result<(Status, RegisterResponseView), RejectionView>,
    after: Tables,
) -> (new: Account)
    requires
        register_runs(before, body, reply, after),
        reply is Ok,
    ensures
        after.users.contains(new),
        new.user.username == body.username,
        new.user.email == body.email,
        new.user.public_key == Some(body.public_key),
{
    let (taken, hash) = choose|taken: i64, hash: Result<String, Seq<char>>| #[trigger]
        register_goes(before, body, taken, hash, reply, after);
    choose|new: Account| #[trigger]
        stores_user(before, body.email, body.username, hash->Ok_0, body.public_key, new, after)
}

/// Once a registration was welcomed, every later one with the name or the
/// address is refused as a conflict, if its password is long enough to be
/// looked at, and changes nothing.
pub proof fn second_registration_is_a_conflict(
    before: Tables,
    body: RegisterRequest,
    reply: Result<(Status, RegisterResponseView), RejectionView>,
    after: Tables,
    now: Tables,
    again: RegisterRequest,
    second: Result<(Status, RegisterResponseView), RejectionView>,
    last: Tables,
)
    requires
        register_runs(before, body, reply, after),
        reply is Ok,
        kept(after, now),
        well_formed(now),
        again.username@ == body.username@ || again.email@ == body.email@,
        registration_started(again) is Ok,
        register_runs(now, again, second, last),
    ensures
        second == Err::<(Status, RegisterResponseView), RejectionView>(
            rejection(Status::Conflict, "Username or email is already taken"@),
        ),
        last == now,
{
    let new = registration_stores(before, body, reply, after);
    assert(has_account(now, new));
    let there = choose|there: Account| #[trigger]
        now.users.contains(there) && same_account(new, there);
    let (taken, hash) = choose|taken: i64, hash: Result<String, Seq<char>>| #[trigger]
        register_goes(now, again, taken, hash, second, last);
    taken_names_are_counted(now, again, taken);
}

/// The public key that is read for a name is the one that was registered with
/// it, whatever became of the profile since.
pub proof fn registered_key_is_read(
    before: Tables,
    body: RegisterRequest,
    reply: Result<(Status, RegisterResponseView), RejectionView>,
    after: Tables,
    now: Tables,
    username: String,
    read: Result<PublicKeyResponse, RejectionView>,
)
    requires
        register_runs(before, body, reply, after),
        reply is Ok,
        kept(after, now),
        well_formed(now),
        names_distinct(now),
        username@ == body.username@,
        key_runs(now, username, read),
    ensures
        read == Ok::<PublicKeyResponse, RejectionView>(
            PublicKeyResponse { username: body.username, public_key: body.public_key },
        ),
{
    let new = registration_stores(before, body, reply, after);
    assert(has_account(now, new));
    let there = choose|there: Account| #[trigger]
        now.users.contains(there) && same_account(new, there);
    let key = choose|key: Option<(String, Option<String>)>| #[trigger]
        serves(Query::KeyByName { username }, now, Answer::Key(key), now) && read == key_found(
            username@,
            Ok(key),
        );
    let row = choose|row: Option<Account>| #[trigger]
        found(now, Condition::Name(username@), row) && Answer::Key(key) == Answer::Key(
            key_in(row),
        );
    assert(holds(there, Condition::Name(username@)));
    assert(row is Some);
    assert(row->0.user.id == there.user.id);
}

/// What a change of the profile wrote and where.
proof fn update_stores(
    before: Tables,
    id: u128,
    body: UpdateProfileRequest,
    reply: Result<User, RejectionView>,
    after: Tables,
) -> (old: Account)
    requires
        update_runs(before, id, body, reply, after),
    ensures
        reply is Ok,
        replaces_user(before, old, reply->Ok_0, after),
        old.user.id == id,
        reply->Ok_0 == changed(old.user, body.display_name, body.about, body.avatar_url),
        serves(
            Query::UpdateProfile {
                display_name: body.display_name,
                about: body.about,
                avatar_url: body.avatar_url,
                id,
            },
            before,
            Answer::Changed(reply->Ok_0),
            after,
        ),
{
    let query = Query::UpdateProfile {
        display_name: body.display_name,
        about: body.about,
        avatar_url: body.avatar_url,
        id,
    };
    let user = choose|user: User| #[trigger]
        serves(query, before, Answer::Changed(user), after) && reply == handed_on(Ok(user));
    assert(serves(query, before, Answer::Changed(user), after));
    choose|old: Account| #[trigger]
        replaces_user(before, old, user, after) && old.user.id == id && user == changed(
            old.user,
            body.display_name,
            body.about,
            body.avatar_url,
        )
}

/// What a change of the profile answers is what the user then reads of
/// themselves, and what is read under their name.
pub proof fn changed_profile_is_read(
    before: Tables,
    id: u128,
    body: UpdateProfileRequest,
    reply: Result<User, RejectionView>,
    after: Tables,
    now: Tables,
    me: Result<User, RejectionView>,
    username: String,
    named: Result<User, RejectionView>,
)
    requires
        well_formed(before),
        names_distinct(before),
        update_runs(before, id, body, reply, after),
        now.users == after.users,
        me_runs(now, id, me),
        reply matches Ok(user) ==> username@ == user.username@,
        user_runs(now, username, named),
    ensures
        reply is Ok,
        me == reply,
        named == reply,
{
    let old = update_stores(before, id, body, reply, after);
    let query = Query::UpdateProfile {
        display_name: body.display_name,
        about: body.about,
        avatar_url: body.avatar_url,
        id,
    };
    queries_keep_the_tables(query, before, Answer::Changed(reply->Ok_0), after);
    let new = Account { user: reply->Ok_0, password_hash: old.password_hash };
    assert(now.users.contains(new));
    let mine = choose|user: Option<User>| #[trigger]
        serves(Query::UserById { id }, now, Answer::Found(user), now) && me == me_found(Ok(user));
    let row = choose|row: Option<Account>| #[trigger]
        found(now, Condition::Id(id), row) && Answer::Found(mine) == Answer::Found(user_in(row));
    assert(holds(new, Condition::Id(id)));
    assert(row is Some);
    assert(after.users.contains(row->0) && after.users.contains(new));
    assert(row->0 == new);
    let theirs = choose|user: Option<User>| #[trigger]
        serves(Query::UserByName { username }, now, Answer::Found(user), now) && named
            == user_found(username@, Ok(user));
    let other = choose|row: Option<Account>| #[trigger]
        found(now, Condition::Name(username@), row) && Answer::Found(theirs) == Answer::Found(
            user_in(row),
        );
    assert(holds(new, Condition::Name(username@)));
    assert(other is Some);
    assert(after.users.contains(other->0));
    if other->0 != new {
        assert(before.users.contains(other->0) && before.users.contains(old));
        assert(other->0.user.id == old.user.id);
    }
}

/// A change of the profile that is made a second time changes nothing more and
/// is answered as the first time, and so is one that gives no field.
pub proof fn repeated_change_is_idle(
    before: Tables,
    id: u128,
    body: UpdateProfileRequest,
    reply: Result<User, RejectionView>,
    after: Tables,
    now: Tables,
    again: UpdateProfileRequest,
    second: Result<User, RejectionView>,
    last: Tables,
)
    requires
        well_formed(before),
        update_runs(before, id, body, reply, after),
        now.users == after.users,
        again == body || again == (UpdateProfileRequest {
            display_name: None,
            about: None,
            avatar_url: None,
        }),
        update_runs(now, id, again, second, last),
    ensures
        reply is Ok,
        second == reply,
        last == now,
{
    let old = update_stores(before, id, body, reply, after);
    let query = Query::UpdateProfile {
        display_name: body.display_name,
        about: body.about,
        avatar_url: body.avatar_url,
        id,
    };
    queries_keep_the_tables(query, before, Answer::Changed(reply->Ok_0), after);
    let new = Account { user: reply->Ok_0, password_hash: old.password_hash };
    let replaced = update_stores(now, id, again, second, last);
    assert(after.users.contains(replaced) && after.users.contains(new));
    assert(replaced == new);
    assert(second->Ok_0 == new.user);
    assert(now.users.remove(new).insert(new) =~= now.users);
}

/// The identifier is that of the conversation of two users.
pub open spec fn is_conversation_of(tables: Tables, id: u128, one: u128, other: u128) -> bool {
    exists|there: Conversation| #[trigger]
        conversation_of(tables, pair_of(one, other).0, pair_of(one, other).1, there) && there.id
            == id
}

/// Two users keep their conversation.
proof fn conversation_stays(before: Tables, after: Tables, id: u128, one: u128, other: u128)
    requires
        kept(before, after),
        is_conversation_of(before, id, one, other),
    ensures
        is_conversation_of(after, id, one, other),
{
    let pair = pair_of(one, other);
    let there = choose|there: Conversation| #[trigger]
        conversation_of(before, pair.0, pair.1, there) && there.id == id;
    assert(has_conversation(after, there));
    let now = choose|now: Conversation| #[trigger]
        after.conversations.contains(now) && same_conversation(there, now);
    assert(conversation_of(after, pair.0, pair.1, now));
}

/// Opening the conversation of two users gives the one that they have and none
/// that others have.
proof fn opening_finds_the_conversation(
    before: Tables,
    one: u128,
    other: u128,
    opened: Conversation,
    after: Tables,
    id: u128,
    third: u128,
    fourth: u128,
)
    requires
        well_formed(before),
        serves(opening_query(one, other), before, Answer::Conversation(opened), after),
        is_conversation_of(before, id, third, fourth),
    ensures
        pair_of(third, fourth) == pair_of(one, other) <==> opened.id == id,
{
    let pair = pair_of(third, fourth);
    let there = choose|there: Conversation| #[trigger]
        conversation_of(before, pair.0, pair.1, there) && there.id == id;
    assert(before.conversations.contains(there));
    if !begins_conversation(before, opened, after) {
        let old = choose|old: Conversation| #[trigger]
            touches_conversation(before, old, opened, after);
        assert(before.conversations.contains(old));
    }
}

/// What a delivered message left in the tables.
proof fn message_is_stored(
    before: Tables,
    sender: u128,
    body: SendMessageRequest,
    message: Message,
    after: Tables,
)
    requires
        well_formed(before),
        send_runs(before, sender, body, message, after),
    ensures
        well_formed(after),
        kept(before, after),
        after.users == before.users,
        after.messages.contains(message),
        message.sender_id == sender,
        message.ciphertext == body.ciphertext,
        message.nonce == body.nonce,
        message.media_url == body.media_url,
        body.recipient_id != sender,
        exists|account: Account| #[trigger]
            before.users.contains(account) && account.user.id == body.recipient_id,
        is_conversation_of(after, message.conversation_id, sender, body.recipient_id),
{
    let (opened, between) = choose|opened: Conversation, between: Tables| #[trigger]
        send_goes(before, sender, body, opened, between, message, after);
    let opening = opening_query(sender, body.recipient_id);
    let storing = storing_query(opened.id, sender, body);
    queries_keep_the_tables(opening, before, Answer::Conversation(opened), between);
    queries_keep_the_tables(storing, between, Answer::Message(message), after);
    keeping_is_transitive(before, between, after);
    let pair = pair_of(sender, body.recipient_id);
    assert(conversation_of(after, pair.0, pair.1, opened));
}

/// Two users have one conversation, whichever of them writes, and it is not
/// that of another pair. Each message carries its sender.
pub proof fn pairs_have_one_conversation(
    before: Tables,
    a: u128,
    b: u128,
    c: u128,
    first: (SendMessageRequest, Message),
    after: Tables,
    then: Tables,
    second: (SendMessageRequest, Message),
    after_second: Tables,
    later: Tables,
    third: (SendMessageRequest, Message),
    after_third: Tables,
)
    requires
        well_formed(before),
        first.0.recipient_id == b,
        send_runs(before, a, first.0, first.1, after),
        well_formed(then),
        kept(after, then),
        second.0.recipient_id == a,
        send_runs(then, b, second.0, second.1, after_second),
        well_formed(later),
        kept(after, later),
        third.0.recipient_id == c,
        c != b,
        send_runs(later, a, third.0, third.1, after_third),
    ensures
        second.1.conversation_id == first.1.conversation_id,
        third.1.conversation_id != first.1.conversation_id,
        first.1.sender_id == a,
        second.1.sender_id == b,
        third.1.sender_id == a,
{
    let id = first.1.conversation_id;
    message_is_stored(before, a, first.0, first.1, after);
    conversation_stays(after, then, id, a, b);
    conversation_stays(after, later, id, a, b);
    let (opened, between) = choose|opened: Conversation, between: Tables| #[trigger]
        send_goes(then, b, second.0, opened, between, second.1, after_second);
    opening_finds_the_conversation(then, b, a, opened, between, id, a, b);
    let (begun, amid) = choose|opened: Conversation, between: Tables| #[trigger]
        send_goes(later, a, third.0, opened, between, third.1, after_third);
    message_is_stored(later, a, third.0, third.1, after_third);
    opening_finds_the_conversation(later, a, c, begun, amid, id, a, b);
}

/// A delivered message is among those that both its sender and its recipient
/// later read in its conversation, once and as it was answered; nobody else
/// may read there.
pub proof fn delivered_message_is_read(
    before: Tables,
    sender: u128,
    body: SendMessageRequest,
    message: Message,
    after: Tables,
    now: Tables,
    reader: u128,
    reply: Result<Vec<Message>, RejectionView>,
)
    requires
        well_formed(before),
        send_runs(before, sender, body, message, after),
        well_formed(now),
        kept(after, now),
        read_runs(now, reader, message.conversation_id, reply),
    ensures
        reader == sender || reader == body.recipient_id ==> (reply matches Ok(list)
            && list@.contains(message) && list@.no_duplicates()),
        reader != sender && reader != body.recipient_id ==> reply == Err::<
            Vec<Message>,
            RejectionView,
        >(rejection(Status::Forbidden, "You are not a participant in this conversation"@)),
{
    let id = message.conversation_id;
    message_is_stored(before, sender, body, message, after);
    conversation_stays(after, now, id, sender, body.recipient_id);
    let pair = pair_of(sender, body.recipient_id);
    let there = choose|there: Conversation| #[trigger]
        conversation_of(now, pair.0, pair.1, there) && there.id == id;
    assert(now.conversations.contains(there));
    let allowed = choose|allowed: bool| #[trigger]
        serves(participant_query(id, reader), now, Answer::Exists(allowed), now) && read_goes(
            now,
            id,
            allowed,
            reply,
        );
    if reader == sender || reader == body.recipient_id {
        assert(takes_part(there, reader));
        assert(allowed);
        let list = choose|list: Vec<Message>| #[trigger]
            serves(fetching_query(id), now, Answer::Messages(list), now) && reply == handed_on(
                Ok(list),
            );
        assert(list@.contains(message));
    } else if allowed {
        let read = choose|read: Conversation| #[trigger]
            now.conversations.contains(read) && read.id == id && takes_part(read, reader);
        assert(read == there);
    }
}

/// After a message its conversation stands once in the lists of both users,
/// with the name of the other one, and in the list of nobody else.
pub proof fn conversation_is_listed(
    before: Tables,
    sender: u128,
    body: SendMessageRequest,
    message: Message,
    after: Tables,
    now: Tables,
    one: Account,
    other: Account,
    asking: u128,
    reply: Result<Vec<ConversationWithUser>, RejectionView>,
)
    requires
        well_formed(before),
        send_runs(before, sender, body, message, after),
        before.users.contains(one),
        one.user.id == sender,
        before.users.contains(other),
        other.user.id == body.recipient_id,
        well_formed(now),
        kept(after, now),
        conversations_run(now, asking, reply),
    ensures
        reply is Ok,
        asking == sender ==> listed_once(reply->Ok_0@, message, sender, other),
        asking == body.recipient_id ==> listed_once(reply->Ok_0@, message, sender, one),
        asking != sender && asking != body.recipient_id ==> forall|i: int|
            0 <= i < reply->Ok_0@.len() ==> (#[trigger] reply->Ok_0@[i]).id
                != message.conversation_id,
{
    let id = message.conversation_id;
    message_is_stored(before, sender, body, message, after);
    conversation_stays(after, now, id, sender, body.recipient_id);
    let pair = pair_of(sender, body.recipient_id);
    let there = choose|there: Conversation| #[trigger]
        conversation_of(now, pair.0, pair.1, there) && there.id == id;
    let list = choose|list: Vec<ConversationWithUser>| #[trigger]
        serves(
            Query::ConversationsOf { user_id: asking },
            now,
            Answer::Conversations(list),
            now,
        ) && reply == handed_on(Ok(list));
    assert forall|i: int| 0 <= i < list@.len() && (#[trigger] list@[i]).id == id implies {
        &&& takes_part(there, asking)
        &&& exists|account: Account| #[trigger]
            joins(now, asking, there, account) && list@[i] == joined(there, account)
    } by {
        assert(list@.contains(list@[i]));
        assert(is_entry(now, asking, list@[i]));
        let (conversation, account) = choose|conversation: Conversation, account: Account|
            #[trigger]
            joins(now, asking, conversation, account) && list@[i] == joined(conversation, account);
        assert(now.conversations.contains(conversation) && now.conversations.contains(there));
        assert(conversation == there);
        assert(joins(now, asking, there, account));
    }
    if asking == sender || asking == body.recipient_id {
        let partner = if asking == sender {
            other
        } else {
            one
        };
        assert(after.users.contains(partner));
        assert(has_account(now, partner));
        let account = choose|account: Account| #[trigger]
            now.users.contains(account) && same_account(partner, account);
        assert(other_in(there, asking) == account.user.id);
        assert(joins(now, asking, there, account));
        let entry = joined(there, account);
        assert(is_entry(now, asking, entry));
        assert(list@.contains(entry));
        let place = choose|i: int| 0 <= i < list@.len() && list@[i] == entry;
        assert forall|i: int| 0 <= i < list@.len() && (#[trigger] list@[i]).id == id implies i
            == place by {
            let again = choose|again: Account| #[trigger]
                joins(now, asking, there, again) && list@[i] == joined(there, again);
            assert(now.users.contains(again) && now.users.contains(account));
            assert(again == account);
        }
        assert(entry_at(list@, place, message, sender, partner));
    }
}

/// The entry at a place is that of the conversation of a message, with the
/// name of a user, and the only one.
pub open spec fn entry_at(
    list: Seq<ConversationWithUser>,
    place: int,
    message: Message,
    sender: u128,
    partner: Account,
) -> bool {
    &&& 0 <= place < list.len()
    &&& list[place].id == message.conversation_id
    &&& list[place].other_username == partner.user.username
    &&& list[place].participant_a == sender || list[place].participant_b == sender
    &&& forall|i: int|
        0 <= i < list.len() && (#[trigger] list[i]).id == message.conversation_id ==> i == place
}

/// The conversation of a message stands in the list once, with the name of a
/// user.
pub open spec fn listed_once(
    list: Seq<ConversationWithUser>,
    message: Message,
    sender: u128,
    partner: Account,
) -> bool {
    exists|place: int| #[trigger] entry_at(list, place, message, sender, partner)
}

/// A registration that was welcomed leaves an account with the name, the
/// address and the key that were sent and with a hash that bcrypt accepts the
/// sent password with.
pub proof fn registered_account_holds_what_was_sent(
    before: Tables,
    body: RegisterRequest,
    counting: RegisterCounting,
    count: i64,
    hashing: RegisterHashing,
    storing: RegisterStoring,
    query: Query,
    after: Tables,
)
    requires
        call_ensures(register, (body,), Ok(counting)),
        call_ensures(RegisterCounting::resume, (counting, Ok(count)), Ok(hashing)),
        call_ensures(RegisterHashing::hash, (hashing,), Ok(storing)),
        call_ensures(RegisterStoring::query, (&storing,), query),
        serves(query, before, Answer::Stored, after),
    ensures
        exists|account: Account| #[trigger]
            after.users.contains(account) && !before.users.contains(account)
                && account.user.username == body.username && account.user.email == body.email
                && account.user.public_key == Some(body.public_key) && bcrypt_verify(
                body.password@,
                account.password_hash@,
            ) == Ok::<bool, Seq<char>>(true),
{
    registered_user_is_stored(body, counting, count, hashing, Ok(storing), query);
    let hash = query->password_hash;
    assert(adds_user(before, body.email, body.username, hash, body.public_key, after));
    let new = choose|new: Account| #[trigger]
        stores_user(before, body.email, body.username, hash, body.public_key, new, after);
    assert(after.users.contains(new));
    assert(!before.users.contains(new));
}

/// Who registered logs in later, with the name or the address and with the
/// password that were sent: the account is found and the check is passed,
/// whatever became of the profile since.
pub proof fn registered_user_logs_in(
    before: Tables,
    body: RegisterRequest,
    counting: RegisterCounting,
    count: i64,
    hashing: RegisterHashing,
    storing: RegisterStoring,
    insertion: Query,
    after: Tables,
    now: Tables,
    sent: LoginRequest,
    finding: LoginFinding,
    query: Query,
    account: Option<UserAuth>,
    next: Result<LoginChecking, Rejection>,
    checked: Result<LoginIdentifying, Rejection>,
)
    requires
        call_ensures(register, (body,), Ok(counting)),
        call_ensures(RegisterCounting::resume, (counting, Ok(count)), Ok(hashing)),
        call_ensures(RegisterHashing::hash, (hashing,), Ok(storing)),
        call_ensures(RegisterStoring::query, (&storing,), insertion),
        serves(insertion, before, Answer::Stored, after),
        kept(after, now),
        well_formed(now),
        names_distinct(now),
        sent.identifier@ == body.username@ || sent.identifier@ == body.email@,
        forall|there: Account| #[trigger]
            now.users.contains(there) && (there.user.username@ == sent.identifier@
                || there.user.email@ == sent.identifier@) ==> there.user.username@
                == body.username@,
        sent.password@ == body.password@,
        call_ensures(login, (sent,), finding),
        call_ensures(LoginFinding::query, (&finding,), query),
        serves(query, now, Answer::Credentials(account), now),
        call_ensures(LoginFinding::resume, (finding, Ok(account)), next),
        next matches Ok(checking) ==> call_ensures(LoginChecking::check, (checking,), checked),
    ensures
        account matches Some(user) && user.username == body.username,
        next is Ok,
        checked is Ok,
{
    registered_account_holds_what_was_sent(
        before,
        body,
        counting,
        count,
        hashing,
        storing,
        insertion,
        after,
    );
    let new = choose|account: Account| #[trigger]
        after.users.contains(account) && !before.users.contains(account) && account.user.username
            == body.username && account.user.email == body.email && account.user.public_key
            == Some(body.public_key) && bcrypt_verify(body.password@, account.password_hash@)
            == Ok::<bool, Seq<char>>(true);
    assert(has_account(now, new));
    let there = choose|there: Account| #[trigger]
        now.users.contains(there) && same_account(new, there);
    login_looks_for_its_account(sent, finding, query, Ok(account), next);
    let condition = Condition::NameOrAddress(sent.identifier@, sent.identifier@);
    assert(answers_credentials(now, condition, Answer::Credentials(account)));
    let row = choose|row: Option<Account>| #[trigger]
        found(now, condition, row) && Answer::Credentials(account) == Answer::Credentials(
            credentials_in(row),
        );
    assert(holds(there, condition));
    assert(row is Some);
    assert(now.users.contains(row->0) && now.users.contains(there));
    assert(row->0.user.id == there.user.id);
    assert(row->0 == there);
    let checking = next->Ok_0;
    login_checks_the_sent_password(sent, finding, account->Some_0, checking, checked);
}

/// The account that a login finds and the identifier that it then signs a
/// token for are those of one user, who holds the address or the name that was
/// sent.
proof fn login_is_of_one_account(tables: Tables, body: LoginRequest, user: UserAuth, id: u128) -> (
account: Account)
    requires
        names_distinct(tables),
        serves(credentials_query(body), tables, Answer::Credentials(Some(user)), tables),
        serves(identifier_query(user.username), tables, Answer::Id(id), tables),
    ensures
        tables.users.contains(account),
        account.user.id == id,
        account.user.username == user.username,
        account.password_hash == user.password_hash,
        account.user.username@ == body.identifier@ || account.user.email@ == body.identifier@,
{
    let row = choose|row: Option<Account>| #[trigger]
        found(tables, Condition::NameOrAddress(body.identifier@, body.identifier@), row)
            && Answer::Credentials(Some(user)) == Answer::Credentials(credentials_in(row));
    let named = choose|account: Account| #[trigger]
        tables.users.contains(account) && holds(account, Condition::Name(user.username@))
            && Answer::Id(id) == Answer::Id(account.user.id);
    assert(tables.users.contains(row->0) && tables.users.contains(named));
    row->0
}

/// A login is of a user who holds the address or the name that was sent and
/// whose stored hash the password belongs to. For thirty days its token, sent
/// back as a bearer token, speaks for exactly that user.
pub proof fn login_authenticates_its_account(
    tables: Tables,
    body: LoginRequest,
    user: UserAuth,
    id: u128,
    token: String,
    reply: LoginResponseView,
    secret: Seq<char>,
    begun: i64,
    now: u64,
)
    requires
        names_distinct(tables),
        serves(credentials_query(body), tables, Answer::Credentials(Some(user)), tables),
        serves(identifier_query(user.username), tables, Answer::Id(id), tables),
        session(
            body,
            Ok(Some(user)),
            bcrypt_verify(body.password@, user.password_hash@),
            Ok(id),
            Ok(token),
        ) == Ok::<LoginResponseView, RejectionView>(reply),
        token_text(token@),
        0 <= begun <= LAST_MOMENT,
        signed_claims(token@, secret) == Some(
            session_claims(hyphenated(id), user.username@, begun),
        ),
        begun <= now <= begun + TOKEN_LIFETIME,
    ensures
        reply.token == token@,
        exists|account: Account| #[trigger]
            tables.users.contains(account) && (account.user.username@ == body.identifier@
                || account.user.email@ == body.identifier@) && accepted(
                body.password@,
                account.password_hash@,
            ) && request_user(Some(bearer_header(reply.token)), secret, now) == Ok::<
                AuthUserView,
                RejectionView,
            >(AuthUserView { id: account.user.id, username: account.user.username@ }),
{
    let account = login_is_of_one_account(tables, body, user, id);
    login_token_lasts(
        token@,
        secret,
        AuthUserView { id, username: user.username@ },
        begun,
        now,
    );
    assert(accepted(body.password@, account.password_hash@));
}

} // verus!

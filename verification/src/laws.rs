//! What the server promises as a whole. Each law is stated over the functions
//! that the contracts of the handlers speak of.

use vstd::prelude::*;
use vstd::utf8::{encode_utf8, is_ascii_chars, is_ascii_chars_encode_utf8};

use crate::accounts::{
    counting_query, credentials_query, identifier_query, insertion_query, invalid_credentials,
    login_checked, login_found, login_identified, login_signed, registration_counted,
    registration_hashed, registration_started, registration_stored, LoginRequest,
    LoginResponseView, RegisterRequest, RegisterResponseView,
};
use crate::auth::{ascii_text, authenticated, bearer, request_user, AuthUserView};
use crate::messages::{
    fetching_query, opening_query, pair_of, participant_query, reading_allowed, recipient_query,
    sending_in, sending_started, sending_stored, sending_to, storing_query, SendMessageRequest,
};
use crate::model::{Conversation, Message, UserAuth};
use crate::password::{accepted, bcrypt_verify};
use crate::query::{writes, Query};
use crate::reply::{refuses_with_error, rejection, RejectionView, Status};
use crate::text::{ascii_lowered, blank, lowercase, white_space};
use crate::token::{
    expired, session_claims, signed_claims, token_text, valid_claims, LAST_MOMENT, LEEWAY,
    TOKEN_LIFETIME,
};
use crate::uploads::{
    allowed, content_type_of, data_read, extension_of, field_seen, file_name, file_url,
    file_written, is_file, no_file, not_an_image, FieldHead, FieldView, MAX_IMAGE_SIZE,
};
use crate::users::{key_found, me_found, search_goes_on, user_found, SearchStep};
use crate::uuids::{
    hyphenated, hyphenated_form_is_read_back, written_form_is_plain, written_form_is_unique,
};

verus! {

/// A whole registration, given every answer that it waits for.
pub open spec fn registration(
    body: RegisterRequest,
    taken: Result<i64, Seq<char>>,
    hash: Result<String, Seq<char>>,
    stored: Result<(), Seq<char>>,
) -> Result<(Status, RegisterResponseView), RejectionView> {
    match registration_started(body) {
        Err(refused) => Err(refused),
        Ok(body) => match registration_counted(body, taken) {
            Err(refused) => Err(refused),
            Ok(body) => match registration_hashed(body, hash) {
                Err(refused) => Err(refused),
                Ok((body, _)) => registration_stored(body, stored),
            },
        },
    }
}

/// A registration is welcomed exactly when the password has at least eight
/// bytes, nobody holds the name or the address, and hashing and storing go
/// through.
pub proof fn registration_is_welcomed_iff(
    body: RegisterRequest,
    taken: Result<i64, Seq<char>>,
    hash: Result<String, Seq<char>>,
    stored: Result<(), Seq<char>>,
)
    ensures
        registration(body, taken, hash, stored) is Ok <==> {
            &&& encode_utf8(body.password@).len() >= 8
            &&& taken matches Ok(count) && count <= 0
            &&& hash is Ok
            &&& stored is Ok
        },
        registration(body, taken, hash, stored) matches Ok(reply) ==> reply.0 == Status::Created
            && reply.1.username == body.username@,
{
}

/// A registration that is refused for its password is refused before anything
/// is asked of the database, and the answer does not depend on the database.
pub proof fn short_password_is_refused_first(
    body: RegisterRequest,
    taken: Result<i64, Seq<char>>,
    hash: Result<String, Seq<char>>,
    stored: Result<(), Seq<char>>,
)
    requires
        encode_utf8(body.password@).len() < 8,
    ensures
        registration(body, taken, hash, stored) == Err::<
            (Status, RegisterResponseView),
            RejectionView,
        >(rejection(Status::BadRequest, "Password must be at least 8 characters"@)),
{
}

/// The queries of a registration, in their order, given the answers that decide
/// about them.
pub open spec fn registration_queries(
    body: RegisterRequest,
    taken: Result<i64, Seq<char>>,
    hash: Result<String, Seq<char>>,
) -> Seq<Query> {
    match registration_started(body) {
        Err(_) => seq![],
        Ok(body) => match registration_counted(body, taken) {
            Err(_) => seq![counting_query(body)],
            Ok(body) => match registration_hashed(body, hash) {
                Err(_) => seq![counting_query(body)],
                Ok((body, hash)) => seq![counting_query(body), insertion_query(body, hash)],
            },
        },
    }
}

/// A registration writes to the database only as its last query, after the
/// password was found long enough, the name and the address were found free and
/// the password was hashed; it then stores the user with the hash.
pub proof fn registration_writes_only_what_is_welcome(
    body: RegisterRequest,
    taken: Result<i64, Seq<char>>,
    hash: Result<String, Seq<char>>,
    place: int,
)
    requires
        0 <= place < registration_queries(body, taken, hash).len(),
    ensures
        writes(registration_queries(body, taken, hash)[place]) <==> place == 1,
        place == 1 ==> {
            &&& encode_utf8(body.password@).len() >= 8
            &&& taken matches Ok(count) && count <= 0
            &&& registration_queries(body, taken, hash)[place] == insertion_query(
                body,
                hash->Ok_0,
            )
        },
{
}

/// A whole login, given every answer that it waits for.
pub open spec fn session(
    body: LoginRequest,
    found: Result<Option<UserAuth>, Seq<char>>,
    valid: Result<bool, Seq<char>>,
    id: Result<u128, Seq<char>>,
    token: Result<String, Seq<char>>,
) -> Result<LoginResponseView, RejectionView> {
    match login_found(body, found) {
        Err(refused) => Err(refused),
        Ok((_, user)) => match login_checked(user, valid) {
            Err(refused) => Err(refused),
            Ok(username) => match login_identified(username, id) {
                Err(refused) => Err(refused),
                Ok((_, username)) => login_signed(username@, token),
            },
        },
    }
}

/// A login succeeds exactly when there is an account, the password belongs to
/// its hash, and the rest goes through; the answer names the user of the
/// account.
pub proof fn login_succeeds_iff(
    body: LoginRequest,
    found: Result<Option<UserAuth>, Seq<char>>,
    valid: Result<bool, Seq<char>>,
    id: Result<u128, Seq<char>>,
    token: Result<String, Seq<char>>,
)
    ensures
        session(body, found, valid, id, token) is Ok <==> {
            &&& found matches Ok(account) && account is Some
            &&& valid matches Ok(belongs) && belongs
            &&& id is Ok
            &&& token is Ok
        },
        session(body, found, valid, id, token) matches Ok(reply) ==> reply.username
            == found->Ok_0->Some_0.username@ && reply.token == token->Ok_0@,
{
}

/// No login changes what the database holds.
pub proof fn login_writes_nothing(body: LoginRequest, username: String)
    ensures
        !writes(credentials_query(body)),
        !writes(identifier_query(username)),
{
}

/// A client that cannot log in is not told whether the account or the password
/// is wrong: both get the same answer.
pub proof fn failed_logins_look_alike(
    unknown: LoginRequest,
    known: LoginRequest,
    user: UserAuth,
    valid: Result<bool, Seq<char>>,
    id: Result<u128, Seq<char>>,
    token: Result<String, Seq<char>>,
)
    ensures
        session(unknown, Ok(None), valid, id, token) == session(
            known,
            Ok(Some(user)),
            Ok(false),
            id,
            token,
        ),
        session(unknown, Ok(None), valid, id, token) == Err::<LoginResponseView, RejectionView>(
            invalid_credentials(),
        ),
{
}

/// The password that an account was made with logs in to it: it passes the
/// check against the hash that was made of it, and the login succeeds once the
/// identifier is found and a token is signed.
pub proof fn registered_password_logs_in(
    registered: RegisterRequest,
    hash: String,
    login: LoginRequest,
    user: UserAuth,
    id: u128,
    token: String,
)
    requires
        accepted(registered.password@, hash@),
        user.password_hash@ == hash@,
        login.password@ == registered.password@,
    ensures
        login_checked(user, bcrypt_verify(login.password@, user.password_hash@)) == Ok::<
            String,
            RejectionView,
        >(user.username),
        session(
            login,
            Ok(Some(user)),
            bcrypt_verify(login.password@, user.password_hash@),
            Ok(id),
            Ok(token),
        ) == Ok::<LoginResponseView, RejectionView>(
            LoginResponseView { token: token@, username: user.username@ },
        ),
{
}

/// A session lasts thirty days from the moment it begins.
pub proof fn session_lasts_thirty_days(user_id: Seq<char>, username: Seq<char>, now: i64)
    requires
        now + TOKEN_LIFETIME <= i64::MAX,
    ensures
        session_claims(user_id, username, now).iat == now,
        session_claims(user_id, username, now).exp - now == 30 * 86_400,
{
}

/// The value of the `Authorization` header that carries a token.
pub open spec fn bearer_header(token: Seq<char>) -> Seq<u8> {
    encode_utf8("Bearer "@ + token)
}

/// A token sent as a bearer token is read back out of the header.
pub proof fn bearer_token_is_read_back(token: Seq<char>)
    requires
        token_text(token),
    ensures
        bearer(Some(bearer_header(token))) == Ok::<Seq<char>, RejectionView>(token),
{
    reveal_strlit("Bearer ");
    let text = "Bearer "@ + token;
    assert forall|i: int| 0 <= i < text.len() implies 32 <= #[trigger] text[i] as u32 && (
    text[i] as u32) < 127 by {
        if i >= 7 {
            assert(text[i] == token[i - 7]);
        }
    }
    is_ascii_chars_encode_utf8(text);
    let bytes = encode_utf8(text);
    assert(ascii_text(bytes) =~= text);
    assert("Bearer "@.is_prefix_of(text)) by {
        assert(text.subrange(0, 7) =~= "Bearer "@);
    }
    assert(text.skip(7) =~= token);
}

/// A refusal for want of a user always carries the status 401.
pub proof fn unauthenticated_means_401(
    authorization: Option<Seq<u8>>,
    token: Seq<char>,
    secret: Seq<char>,
)
    ensures
        bearer(authorization) matches Err(refused) ==> refused.status == Status::Unauthorized,
        authenticated(signed_claims(token, secret)) matches Err(refused) ==> refused.status
            == Status::Unauthorized,
{
}

/// The pair of two users does not depend on who comes first, has both in it,
/// and has the smaller identifier in front.
pub proof fn pair_is_canonical(one: u128, other: u128)
    ensures
        pair_of(one, other) == pair_of(other, one),
        pair_of(one, other).0 <= pair_of(one, other).1,
        one != other ==> pair_of(one, other).0 < pair_of(one, other).1,
        pair_of(one, other) == (one, other) || pair_of(one, other) == (other, one),
{
}

/// Two users write in one conversation whichever of them sends, and it is the
/// conversation of no other pair.
pub proof fn conversation_is_of_the_pair(one: u128, other: u128, third: u128, fourth: u128)
    ensures
        opening_query(one, other) == opening_query(other, one),
        opening_query(one, other) == opening_query(third, fourth) ==> (one == third && other
            == fourth) || (one == fourth && other == third),
{
}

/// A whole message, given every answer that it waits for.
pub open spec fn sending(
    sender: u128,
    body: SendMessageRequest,
    exists_recipient: Result<bool, Seq<char>>,
    conversation: Result<Conversation, Seq<char>>,
    stored: Result<Message, Seq<char>>,
) -> Result<(Status, Message), RejectionView> {
    match sending_started(sender, body) {
        Err(refused) => Err(refused),
        Ok((sender, body)) => match sending_to(sender, body, exists_recipient) {
            Err(refused) => Err(refused),
            Ok((sender, body)) => match sending_in(sender, body, conversation) {
                Err(refused) => Err(refused),
                Ok(_) => sending_stored(stored),
            },
        },
    }
}

/// A message is sent exactly when it is to somebody else who exists and the
/// database opens the conversation and stores the message.
pub proof fn message_is_sent_iff(
    sender: u128,
    body: SendMessageRequest,
    exists_recipient: Result<bool, Seq<char>>,
    conversation: Result<Conversation, Seq<char>>,
    stored: Result<Message, Seq<char>>,
)
    ensures
        sending(sender, body, exists_recipient, conversation, stored) is Ok <==> {
            &&& body.recipient_id != sender
            &&& exists_recipient matches Ok(there) && there
            &&& conversation is Ok
            &&& stored is Ok
        },
        sending(sender, body, exists_recipient, conversation, stored) matches Ok(reply)
            ==> reply.0 == Status::Created && reply.1 == stored->Ok_0,
{
}

/// The queries of a message, in their order, given the answers that decide
/// about them.
pub open spec fn sending_queries(
    sender: u128,
    body: SendMessageRequest,
    exists_recipient: Result<bool, Seq<char>>,
    conversation: Result<Conversation, Seq<char>>,
) -> Seq<Query> {
    match sending_started(sender, body) {
        Err(_) => seq![],
        Ok((sender, body)) => match sending_to(sender, body, exists_recipient) {
            Err(_) => seq![recipient_query(body)],
            Ok((sender, body)) => match sending_in(sender, body, conversation) {
                Err(_) => seq![recipient_query(body), opening_query(sender, body.recipient_id)],
                Ok((conversation_id, sender, body)) => seq![
                    recipient_query(body),
                    opening_query(sender, body.recipient_id),
                    storing_query(conversation_id, sender, body),
                ],
            },
        },
    }
}

/// A message to oneself or to nobody leaves the database as it is; any other
/// opens the conversation of the two and is then stored in it.
pub proof fn refused_message_writes_nothing(
    sender: u128,
    body: SendMessageRequest,
    exists_recipient: Result<bool, Seq<char>>,
    conversation: Result<Conversation, Seq<char>>,
    place: int,
)
    requires
        0 <= place < sending_queries(sender, body, exists_recipient, conversation).len(),
    ensures
        ({
            let query = sending_queries(sender, body, exists_recipient, conversation)[place];
            &&& writes(query) <==> place >= 1
            &&& writes(query) ==> body.recipient_id != sender && exists_recipient == Ok::<
                bool,
                Seq<char>,
            >(true)
            &&& place == 1 ==> query == opening_query(sender, body.recipient_id)
            &&& place == 2 ==> query == storing_query(conversation->Ok_0.id, sender, body)
        }),
{
}

/// The server stores what the sender encrypted as it came, under the sender's
/// own identifier and in the conversation that was opened.
pub proof fn ciphertext_is_stored_as_it_came(
    sender: u128,
    body: SendMessageRequest,
    conversation: Conversation,
)
    ensures
        sending_in(sender, body, Ok(conversation)) matches Ok(state) && storing_query(
            state.0,
            state.1,
            state.2,
        ) == (Query::InsertMessage {
            conversation_id: conversation.id,
            sender_id: sender,
            ciphertext: body.ciphertext,
            nonce: body.nonce,
            media_url: body.media_url,
        }),
{
}

/// Messages are fetched only for a user of whom the database says that they
/// take part in the conversation, and from that conversation.
pub proof fn only_participants_read(conversation_id: u128, takes_part: Result<bool, Seq<char>>)
    ensures
        reading_allowed(conversation_id, takes_part) is Ok <==> (takes_part matches Ok(yes) && yes),
        reading_allowed(conversation_id, takes_part) matches Ok(id) ==> id == conversation_id,
        takes_part == Ok::<bool, Seq<char>>(false) ==> (reading_allowed(
            conversation_id,
            takes_part,
        ) matches Err(refused) && refused.status == Status::Forbidden),
{
}

/// The queries of a request for messages, in their order, given the answer that
/// decides about them.
pub open spec fn reading_queries(
    conversation_id: u128,
    user_id: u128,
    takes_part: Result<bool, Seq<char>>,
) -> Seq<Query> {
    match reading_allowed(conversation_id, takes_part) {
        Err(_) => seq![participant_query(conversation_id, user_id)],
        Ok(conversation_id) => seq![
            participant_query(conversation_id, user_id),
            fetching_query(conversation_id),
        ],
    }
}

/// The messages of a conversation are asked for only after the database was
/// asked about this user and this conversation and said yes; a stranger's
/// request ends before that. Nothing is written.
pub proof fn messages_are_fetched_after_the_check(
    conversation_id: u128,
    user_id: u128,
    takes_part: Result<bool, Seq<char>>,
    place: int,
)
    requires
        0 <= place < reading_queries(conversation_id, user_id, takes_part).len(),
    ensures
        ({
            let query = reading_queries(conversation_id, user_id, takes_part)[place];
            &&& !writes(query)
            &&& place == 0 ==> query == participant_query(conversation_id, user_id)
            &&& place == 1 ==> query == fetching_query(conversation_id) && takes_part == Ok::<
                bool,
                Seq<char>,
            >(true)
        }),
{
}

/// The content type of the file in the parts of a body, where the upload gets
/// as far as its data. A part that cannot be read is the text of the failure.
pub open spec fn scan(parts: Seq<Result<FieldHead, Seq<char>>>) -> Result<
    Seq<char>,
    RejectionView,
>
    decreases parts.len(),
{
    let next = if parts.len() == 0 {
        Ok(None)
    } else {
        match parts[0] {
            Ok(field) => Ok(Some(field)),
            Err(error) => Err(error),
        }
    };
    match field_seen(next) {
        Err(refused) => Err(refused),
        Ok(FieldView::Taken(content_type)) => Ok(content_type),
        Ok(FieldView::Skipped) => scan(parts.drop_first()),
    }
}

/// A part of a body that ends the search for the file: the file itself, or a
/// part that cannot be read.
pub open spec fn ends_the_scan(part: Result<FieldHead, Seq<char>>) -> bool {
    match part {
        Ok(field) => is_file(field),
        Err(_) => true,
    }
}

/// The first part that is the file, or that cannot be read, decides about an
/// upload; what comes after it is not looked at.
pub proof fn first_file_decides(parts: Seq<Result<FieldHead, Seq<char>>>, place: int)
    requires
        0 <= place < parts.len(),
        ends_the_scan(parts[place]),
        forall|i: int| 0 <= i < place ==> !ends_the_scan(#[trigger] parts[i]),
    ensures
        scan(parts) == match parts[place] {
            Err(error) => Err(rejection(Status::BadRequest, error)),
            Ok(field) => if allowed(content_type_of(field)) {
                Ok(content_type_of(field))
            } else {
                Err(not_an_image())
            },
        },
    decreases place,
{
    if place > 0 {
        assert(!ends_the_scan(parts[0]));
        let rest = parts.drop_first();
        assert(rest[place - 1] == parts[place]);
        assert forall|i: int| 0 <= i < place - 1 implies !ends_the_scan(#[trigger] rest[i]) by {
            assert(rest[i] == parts[i + 1]);
        }
        first_file_decides(rest, place - 1);
    }
}

/// A body in which no part is the file is answered that there is none.
pub proof fn body_without_file_is_refused(parts: Seq<Result<FieldHead, Seq<char>>>)
    requires
        forall|i: int| 0 <= i < parts.len() ==> !ends_the_scan(#[trigger] parts[i]),
    ensures
        scan(parts) == Err::<Seq<char>, RejectionView>(no_file()),
    decreases parts.len(),
{
    if parts.len() > 0 {
        assert(!ends_the_scan(parts[0]));
        let rest = parts.drop_first();
        assert forall|i: int| 0 <= i < rest.len() implies !ends_the_scan(#[trigger] rest[i]) by {
            assert(rest[i] == parts[i + 1]);
        }
        body_without_file_is_refused(rest);
    }
}

/// An upload gets to the data of its file only for the four kinds of images,
/// and such a file never gets the ending of an unknown kind.
pub proof fn only_images_are_taken(parts: Seq<Result<FieldHead, Seq<char>>>)
    ensures
        scan(parts) matches Ok(content_type) ==> allowed(content_type),
        scan(parts) matches Ok(content_type) ==> {
            let ending = extension_of(content_type);
            ||| ending == "jpg"@
            ||| ending == "png"@
            ||| ending == "gif"@
            ||| ending == "webp"@
        },
    decreases parts.len(),
{
    if parts.len() > 0 {
        only_images_are_taken(parts.drop_first());
    }
}

/// Every file that is written has at most ten megabytes.
pub proof fn written_files_are_bounded(
    content_type: Seq<char>,
    data: Result<Vec<u8>, Seq<char>>,
    id: u128,
)
    ensures
        data_read(content_type, data, id) matches Ok(file) ==> file.1.len() <= 10 * 1024 * 1024
            && file.0 == file_name(id, content_type),
        data_read(content_type, data, id) is Ok <==> (data matches Ok(bytes) && bytes@.len()
            <= MAX_IMAGE_SIZE),
{
}

/// The name of a stored file names a file in the directory of the uploads and
/// in no other: it holds no separator of paths.
pub proof fn stored_name_stays_in_its_directory(id: u128, content_type: Seq<char>)
    ensures
        forall|i: int|
            0 <= i < file_name(id, content_type).len() ==> {
                let c = #[trigger] file_name(id, content_type)[i];
                c != '/' && c != '\\'
            },
        file_name(id, content_type)[0] != '.',
{
    written_form_is_plain(id);
    reveal_strlit(".");
    reveal_strlit("jpg");
    reveal_strlit("png");
    reveal_strlit("gif");
    reveal_strlit("webp");
    reveal_strlit("bin");
    let name = file_name(id, content_type);
    let ending = extension_of(content_type);
    assert(name[0] == hyphenated(id)[0]);
    assert forall|i: int| 0 <= i < name.len() implies {
        let c = #[trigger] name[i];
        c != '/' && c != '\\'
    } by {
        if i < 36 {
            assert(name[i] == hyphenated(id)[i]);
        } else if i == 36 {
            assert(name[i] == '.');
        } else {
            assert(name[i] == ending[i - 37]);
        }
    }
}

/// Images that are stored under different numbers, or are of different kinds,
/// get different names.
pub proof fn stored_names_do_not_collide(a: u128, s: Seq<char>, b: u128, t: Seq<char>)
    requires
        allowed(s),
        allowed(t),
        file_name(a, s) == file_name(b, t),
    ensures
        a == b,
        s == t,
{
    reveal_strlit(".");
    reveal_strlit("jpg");
    reveal_strlit("png");
    reveal_strlit("gif");
    reveal_strlit("webp");
    assert(file_name(a, s).subrange(0, 36) =~= hyphenated(a));
    assert(file_name(b, t).subrange(0, 36) =~= hyphenated(b));
    written_form_is_unique(a, b);
    assert(file_name(a, s).skip(37) =~= extension_of(s));
    assert(file_name(b, t).skip(37) =~= extension_of(t));
    assert(extension_of(s)[0] == extension_of(t)[0]);
}

/// The address of a stored file is the address of the server followed by the
/// directory of the uploads and the name of the file.
pub proof fn address_ends_in_the_name(base_url: Option<Seq<char>>, name: Seq<char>)
    ensures
        ("/uploads/"@ + name).is_suffix_of(file_url(base_url, name)),
{
    let url = file_url(base_url, name);
    let tail = "/uploads/"@ + name;
    assert(url.subrange(url.len() - tail.len(), url.len() as int) =~= tail);
}

/// A login token that is sent back as a bearer token is read out of the header
/// as it was handed out, and the only user that it can speak for is the one
/// who logged in.
pub proof fn login_token_speaks_for_its_user(
    token: Seq<char>,
    secret: Seq<char>,
    user: AuthUserView,
)
    requires
        token_text(token),
        authenticated(signed_claims(token, secret)) == Ok::<AuthUserView, RejectionView>(user),
    ensures
        bearer(Some(bearer_header(token))) matches Ok(read) && read == token && authenticated(
            signed_claims(read, secret),
        ) == Ok::<AuthUserView, RejectionView>(user),
{
    bearer_token_is_read_back(token);
}

/// The case of a search does not matter: two ASCII texts with the same
/// lower-case form start the same search.
pub proof fn searches_ignore_case(
    step: SearchStep,
    asking: u128,
    one: Seq<char>,
    other: Seq<char>,
)
    requires
        is_ascii_chars(one),
        is_ascii_chars(other),
        lowercase(one) == lowercase(other),
    ensures
        search_goes_on(step, asking, one, lowercase(one)) == search_goes_on(
            step,
            asking,
            other,
            lowercase(other),
        ),
{
    assert(lowercase(one).len() == one.len());
    assert(lowercase(other).len() == other.len());
    assert forall|i: int|
        #![trigger one[i]]
        #![trigger other[i]]
        0 <= i < one.len() implies white_space(one[i]) == white_space(other[i]) by {
        assert(lowercase(one)[i] == ascii_lowered(one[i]));
        assert(lowercase(other)[i] == ascii_lowered(other[i]));
    }
}

/// A token that was made for a user gives back the claims that it was signed
/// with as long as it lasts, and nothing once the leeway after it is over.
pub proof fn created_token_lasts(
    token: Seq<char>,
    secret: Seq<char>,
    user_id: Seq<char>,
    username: Seq<char>,
    begun: i64,
    now: u64,
)
    requires
        0 <= begun <= LAST_MOMENT,
        signed_claims(token, secret) == Some(session_claims(user_id, username, begun)),
    ensures
        begun <= now <= begun + TOKEN_LIFETIME ==> valid_claims(token, secret, now) == Some(
            session_claims(user_id, username, begun),
        ),
        now > begun + TOKEN_LIFETIME + LEEWAY ==> valid_claims(token, secret, now) is None,
{
}

/// A login token that is sent back as a bearer token speaks for the user who
/// logged in, for thirty days.
pub proof fn login_token_lasts(
    token: Seq<char>,
    secret: Seq<char>,
    user: AuthUserView,
    begun: i64,
    now: u64,
)
    requires
        token_text(token),
        0 <= begun <= LAST_MOMENT,
        signed_claims(token, secret) == Some(
            session_claims(hyphenated(user.id), user.username, begun),
        ),
        begun <= now <= begun + TOKEN_LIFETIME,
    ensures
        request_user(Some(bearer_header(token)), secret, now) == Ok::<AuthUserView, RejectionView>(
            user,
        ),
{
    bearer_token_is_read_back(token);
    created_token_lasts(token, secret, hyphenated(user.id), user.username, begun, now);
    hyphenated_form_is_read_back(user.id);
}

/// Who a request is from depends on its `Authorization` header, the secret and
/// the moment alone, and on the moment only through the expiry of the token:
/// two answers at one moment, or at moments on the same side of the expiry,
/// are the same.
pub proof fn requests_are_answered_alike(
    authorization: Option<Seq<u8>>,
    secret: Seq<char>,
    now: u64,
    later: u64,
    one: Result<AuthUserView, RejectionView>,
    other: Result<AuthUserView, RejectionView>,
)
    requires
        one == request_user(authorization, secret, now),
        other == request_user(authorization, secret, later),
        now == later || (bearer(authorization) matches Ok(token) ==> (signed_claims(
            token,
            secret,
        ) matches Some(claims) ==> expired(claims.exp, now) == expired(claims.exp, later))),
    ensures
        one == other,
{
}

/// No step of any handler refuses a request with the status of a success.
pub proof fn refusals_carry_error_statuses(
    register: RegisterRequest,
    login: LoginRequest,
    account: UserAuth,
    sender: u128,
    message: SendMessageRequest,
    text: Seq<char>,
    number: u128,
    authorization: Option<Seq<u8>>,
    secret: Seq<char>,
)
    ensures
        refuses_with_error(registration_started(register)),
        forall|taken| refuses_with_error(#[trigger] registration_counted(register, taken)),
        forall|hash| refuses_with_error(#[trigger] registration_hashed(register, hash)),
        forall|stored| refuses_with_error(#[trigger] registration_stored(register, stored)),
        forall|found| refuses_with_error(#[trigger] login_found(login, found)),
        forall|valid| refuses_with_error(#[trigger] login_checked(account, valid)),
        forall|id| refuses_with_error(#[trigger] login_identified(account.username, id)),
        forall|token| refuses_with_error(#[trigger] login_signed(text, token)),
        refuses_with_error(sending_started(sender, message)),
        forall|there| refuses_with_error(#[trigger] sending_to(sender, message, there)),
        forall|opened| refuses_with_error(#[trigger] sending_in(sender, message, opened)),
        forall|stored| refuses_with_error(#[trigger] sending_stored(stored)),
        forall|takes_part| refuses_with_error(#[trigger] reading_allowed(number, takes_part)),
        forall|found| refuses_with_error(#[trigger] me_found(found)),
        forall|found| refuses_with_error(#[trigger] user_found(text, found)),
        forall|found| refuses_with_error(#[trigger] key_found(text, found)),
        forall|field| refuses_with_error(#[trigger] field_seen(field)),
        forall|data| refuses_with_error(#[trigger] data_read(text, data, number)),
        forall|written, base_url|
            refuses_with_error(#[trigger] file_written(text, written, base_url)),
        refuses_with_error(bearer(authorization)),
        refuses_with_error(authenticated(signed_claims(text, secret))),
{
}

} // verus!

//! What looking users up, writing and reading messages and uploading images
//! come to: from what is sent, over the answers in between, to what is asked of
//! the database or written to the disk and answered to the client.

use vstd::prelude::*;
use vstd::utf8::is_ascii_chars;

use crate::account_laws::refused;
use crate::auth::AuthUser;
use crate::messages::{
    canonical_pair, get_conversations, get_messages, send_message, ConversationsFetching,
    ReadChecking, ReadFetching, SendChecking, SendMessageRequest, SendOpening, SendStoring,
};
use crate::model::{Conversation, ConversationWithUser, Message, User};
use crate::query::Query;
use crate::reply::{answer_of, fail, hand_on, reject, reply_view, Rejection, Status};
use crate::text::{
    is_blank, is_white_space, lowercase, strip_prefix, unicode_lowercase, white_space,
};
use crate::uploads::{
    allowed, data_read, extension, extension_of, is_allowed, upload_image, FieldHead, FieldStep,
    UploadReading, UploadResponse, UploadWriting,
};
use crate::users::{
    get_me, get_public_key, get_user, search_lowered, search_users, update_profile, KeyFinding,
    MeFinding, ProfileUpdating, PublicKeyResponse, SearchQuery, SearchStep, UpdateProfileRequest,
    UserFinding, UserSearching,
};
use crate::uuids::{hyphenated, number_drawn, random_form};

verus! {

/// Nobody writes to themselves; a message to anybody else is started.
pub proof fn nobody_writes_to_themselves(
    auth: AuthUser,
    body: SendMessageRequest,
    next: Result<SendChecking, Rejection>,
)
    requires
        call_ensures(send_message, (&auth, body), next),
    ensures
        next is Ok <==> body.recipient_id != auth.id,
        next is Err ==> refused(next, Status::BadRequest, "You cannot message yourself"@),
{
}

/// A message goes on exactly where the recipient who was named exists.
pub proof fn recipient_is_asked_about(
    auth: AuthUser,
    body: SendMessageRequest,
    checking: SendChecking,
    query: Query,
    there: Result<bool, String>,
    next: Result<SendOpening, Rejection>,
)
    requires
        call_ensures(send_message, (&auth, body), Ok(checking)),
        call_ensures(SendChecking::query, (&checking,), query),
        call_ensures(SendChecking::resume, (checking, there), next),
    ensures
        query == (Query::UserExists { id: body.recipient_id }),
        match there {
            Ok(true) => next is Ok,
            Ok(false) => refused(next, Status::NotFound, "Recipient not found"@),
            Err(error) => refused(next, Status::InternalServerError, error@),
        },
{
}

/// The conversation that is opened is that of the sender and the recipient and
/// of nobody else, with the smaller identifier first.
pub proof fn conversation_of_the_two_is_opened(
    auth: AuthUser,
    body: SendMessageRequest,
    checking: SendChecking,
    opening: SendOpening,
    query: Query,
    opened: Result<Conversation, String>,
    next: Result<SendStoring, Rejection>,
)
    requires
        call_ensures(send_message, (&auth, body), Ok(checking)),
        call_ensures(SendChecking::resume, (checking, Ok(true)), Ok(opening)),
        call_ensures(SendOpening::query, (&opening,), query),
        call_ensures(SendOpening::resume, (opening, opened), next),
    ensures
        query matches Query::OpenConversation { participant_a, participant_b } && participant_a
            < participant_b && ((participant_a == auth.id && participant_b == body.recipient_id)
            || (participant_a == body.recipient_id && participant_b == auth.id)),
        next is Ok <==> opened is Ok,
        opened matches Err(error) ==> refused(next, Status::InternalServerError, error@),
{
}

/// A message is stored under its sender, in the conversation that was opened,
/// each of its fields as it came, and is answered as it was stored.
pub proof fn message_is_stored_as_it_came(
    auth: AuthUser,
    body: SendMessageRequest,
    checking: SendChecking,
    opening: SendOpening,
    opened: Conversation,
    storing: SendStoring,
    query: Query,
    stored: Result<Message, String>,
    reply: Result<(Status, Message), Rejection>,
)
    requires
        call_ensures(send_message, (&auth, body), Ok(checking)),
        call_ensures(SendChecking::resume, (checking, Ok(true)), Ok(opening)),
        call_ensures(SendOpening::resume, (opening, Ok(opened)), Ok(storing)),
        call_ensures(SendStoring::query, (&storing,), query),
        call_ensures(SendStoring::resume, (storing, stored), reply),
    ensures
        query matches Query::InsertMessage {
            conversation_id,
            sender_id,
            ciphertext,
            nonce,
            media_url,
        } && conversation_id == opened.id && sender_id == auth.id && ciphertext == body.ciphertext
            && nonce == body.nonce && media_url == body.media_url,
        stored matches Ok(message) ==> reply == Ok::<(Status, Message), Rejection>(
            (Status::Created, message),
        ),
        stored matches Err(error) ==> refused(reply, Status::InternalServerError, error@),
{
}

/// Two users who write to each other open one conversation, and a third user
/// another one.
pub proof fn both_directions_open_one_conversation(
    a: AuthUser,
    b: AuthUser,
    c: AuthUser,
    to_b: (SendMessageRequest, SendChecking, SendOpening, Query),
    to_a: (SendMessageRequest, SendChecking, SendOpening, Query),
    to_c: (SendMessageRequest, SendChecking, SendOpening, Query),
)
    requires
        to_b.0.recipient_id == b.id,
        call_ensures(send_message, (&a, to_b.0), Ok(to_b.1)),
        call_ensures(SendChecking::resume, (to_b.1, Ok(true)), Ok(to_b.2)),
        call_ensures(SendOpening::query, (&to_b.2,), to_b.3),
        to_a.0.recipient_id == a.id,
        call_ensures(send_message, (&b, to_a.0), Ok(to_a.1)),
        call_ensures(SendChecking::resume, (to_a.1, Ok(true)), Ok(to_a.2)),
        call_ensures(SendOpening::query, (&to_a.2,), to_a.3),
        to_c.0.recipient_id == c.id,
        c.id != b.id,
        call_ensures(send_message, (&a, to_c.0), Ok(to_c.1)),
        call_ensures(SendChecking::resume, (to_c.1, Ok(true)), Ok(to_c.2)),
        call_ensures(SendOpening::query, (&to_c.2,), to_c.3),
    ensures
        to_a.3 == to_b.3,
        to_c.3 != to_b.3,
{
}

/// A pair is its two users with the smaller identifier first, in whichever
/// order they come.
pub proof fn pair_holds_its_two_users(
    one: u128,
    other: u128,
    pair: (u128, u128),
    swapped: (u128, u128),
)
    requires
        call_ensures(canonical_pair, (one, other), pair),
        call_ensures(canonical_pair, (other, one), swapped),
    ensures
        pair == swapped,
        pair.0 <= pair.1,
        pair == (one, other) || pair == (other, one),
{
}

/// Whoever asks for messages is asked about in the conversation that they
/// named. Only a participant goes on, to the messages of that conversation.
pub proof fn participant_reads_the_conversation(
    auth: AuthUser,
    conversation_id: u128,
    checking: ReadChecking,
    query: Query,
    takes_part: Result<bool, String>,
    next: Result<ReadFetching, Rejection>,
    fetch: Query,
)
    requires
        call_ensures(get_messages, (&auth, conversation_id), checking),
        call_ensures(ReadChecking::query, (&checking,), query),
        call_ensures(ReadChecking::resume, (checking, takes_part), next),
        next matches Ok(fetching) ==> call_ensures(ReadFetching::query, (&fetching,), fetch),
    ensures
        query == (Query::IsParticipant { conversation_id, user_id: auth.id }),
        match takes_part {
            Ok(true) => next is Ok && fetch == (Query::MessagesIn { conversation_id }),
            Ok(false) => refused(
                next,
                Status::Forbidden,
                "You are not a participant in this conversation"@,
            ),
            Err(error) => refused(next, Status::InternalServerError, error@),
        },
{
}

/// The messages that are found are answered as they are.
pub proof fn found_messages_are_answered(
    fetching: ReadFetching,
    found: Result<Vec<Message>, String>,
    reply: Result<Vec<Message>, Rejection>,
)
    requires
        call_ensures(ReadFetching::resume, (fetching, found), reply),
    ensures
        found matches Ok(list) ==> reply == Ok::<Vec<Message>, Rejection>(list),
        found matches Err(error) ==> refused(reply, Status::InternalServerError, error@),
{
}

/// One's own conversations are asked for and answered as they are found.
pub proof fn own_conversations_are_answered(
    auth: AuthUser,
    fetching: ConversationsFetching,
    query: Query,
    found: Result<Vec<ConversationWithUser>, String>,
    reply: Result<Vec<ConversationWithUser>, Rejection>,
)
    requires
        call_ensures(get_conversations, (&auth,), fetching),
        call_ensures(ConversationsFetching::query, (&fetching,), query),
        call_ensures(ConversationsFetching::resume, (fetching, found), reply),
    ensures
        query == (Query::ConversationsOf { user_id: auth.id }),
        found matches Ok(list) ==> reply == Ok::<Vec<ConversationWithUser>, Rejection>(list),
        found matches Err(error) ==> refused(reply, Status::InternalServerError, error@),
{
}

/// One's own data is asked for by one's identifier and answered as it is found.
pub proof fn own_data_is_answered(
    auth: AuthUser,
    finding: MeFinding,
    query: Query,
    found: Result<Option<User>, String>,
    reply: Result<User, Rejection>,
)
    requires
        call_ensures(get_me, (&auth,), finding),
        call_ensures(MeFinding::query, (&finding,), query),
        call_ensures(MeFinding::resume, (finding, found), reply),
    ensures
        query == (Query::UserById { id: auth.id }),
        match found {
            Ok(Some(user)) => reply == Ok::<User, Rejection>(user),
            Ok(None) => refused(reply, Status::NotFound, "User not found"@),
            Err(error) => refused(reply, Status::InternalServerError, error@),
        },
{
}

/// A user is asked for by the name that was sent and answered as they are
/// found.
pub proof fn named_user_is_answered(
    username: String,
    finding: UserFinding,
    query: Query,
    found: Result<Option<User>, String>,
    reply: Result<User, Rejection>,
)
    requires
        call_ensures(get_user, (username,), finding),
        call_ensures(UserFinding::query, (&finding,), query),
        call_ensures(UserFinding::resume, (finding, found), reply),
    ensures
        query == (Query::UserByName { username }),
        match found {
            Ok(Some(user)) => reply == Ok::<User, Rejection>(user),
            Ok(None) => refused(reply, Status::NotFound, "User '"@ + username@ + "' not found"@),
            Err(error) => refused(reply, Status::InternalServerError, error@),
        },
{
}

/// A change of the profile hands on each field under its own name, for the one
/// who asks, and is answered with the user as changed.
pub proof fn profile_fields_are_handed_on(
    auth: AuthUser,
    body: UpdateProfileRequest,
    updating: ProfileUpdating,
    query: Query,
    after: Result<User, String>,
    reply: Result<User, Rejection>,
)
    requires
        call_ensures(update_profile, (&auth, body), updating),
        call_ensures(ProfileUpdating::query, (&updating,), query),
        call_ensures(ProfileUpdating::resume, (updating, after), reply),
    ensures
        query matches Query::UpdateProfile { display_name, about, avatar_url, id } && display_name
            == body.display_name && about == body.about && avatar_url == body.avatar_url && id
            == auth.id,
        after matches Ok(user) ==> reply == Ok::<User, Rejection>(user),
        after matches Err(error) ==> refused(reply, Status::InternalServerError, error@),
{
}

/// A public key is asked for by the name that was sent; where there is a user
/// with a key, that key and the name of that user are answered.
pub proof fn public_key_is_answered(
    auth: AuthUser,
    username: String,
    finding: KeyFinding,
    query: Query,
    found: Result<Option<(String, Option<String>)>, String>,
    reply: Result<PublicKeyResponse, Rejection>,
)
    requires
        call_ensures(get_public_key, (&auth, username), finding),
        call_ensures(KeyFinding::query, (&finding,), query),
        call_ensures(KeyFinding::resume, (finding, found), reply),
    ensures
        query == (Query::KeyByName { username }),
        match found {
            Ok(Some((name, Some(key)))) => reply matches Ok(response) && response.username == name
                && response.public_key == key,
            Ok(Some((_, None))) => refused(
                reply,
                Status::NotFound,
                "User '"@ + username@ + "' has no public key"@,
            ),
            Ok(None) => refused(reply, Status::NotFound, "User '"@ + username@ + "' not found"@),
            Err(error) => refused(reply, Status::InternalServerError, error@),
        },
{
}

/// The white space of Unicode, character by character.
pub open spec fn is_space(c: char) -> bool {
    ||| c == '\u{9}' || c == '\u{a}' || c == '\u{b}' || c == '\u{c}' || c == '\u{d}' || c == ' '
    ||| c == '\u{85}' || c == '\u{a0}' || c == '\u{1680}'
    ||| c == '\u{2000}' || c == '\u{2001}' || c == '\u{2002}' || c == '\u{2003}' || c == '\u{2004}'
    ||| c == '\u{2005}' || c == '\u{2006}' || c == '\u{2007}' || c == '\u{2008}' || c == '\u{2009}'
    ||| c == '\u{200a}' || c == '\u{2028}' || c == '\u{2029}' || c == '\u{202f}' || c == '\u{205f}'
    ||| c == '\u{3000}'
}

/// There is something else than white space in the text.
pub open spec fn has_more_than_space(text: Seq<char>) -> bool {
    exists|i: int| 0 <= i < text.len() && !is_space(#[trigger] text[i])
}

/// The white space of texts is that of Unicode.
proof fn spaces_agree(c: char)
    ensures
        white_space(c) == is_space(c),
{
}

/// A character is white space exactly where Unicode says so, and a text is
/// blank exactly where it holds nothing else.
pub proof fn blank_texts_hold_white_space(c: char, space: bool, text: &str, yes: bool)
    requires
        call_ensures(is_white_space, (c,), space),
        call_ensures(is_blank, (text,), yes),
    ensures
        space == is_space(c),
        yes == !has_more_than_space(text@),
{
    assert forall|i: int| 0 <= i < text@.len() implies white_space(
        #[trigger] text@[i],
    ) == is_space(text@[i]) by {
        spaces_agree(text@[i]);
    }
}

/// A prefix is taken off where the text is the prefix and a rest, and what is
/// left is that rest.
pub proof fn prefix_and_rest_are_the_text(text: &str, prefix: &str, rest: Option<&str>)
    requires
        call_ensures(strip_prefix, (text, prefix), rest),
    ensures
        match rest {
            Some(tail) => text@ == prefix@ + tail@,
            None => forall|tail: Seq<char>| text@ != #[trigger] (prefix@ + tail),
        },
{
    match rest {
        Some(tail) => {
            let start = text@.subrange(0, prefix@.len() as int);
            assert(text@ =~= start + text@.skip(prefix@.len() as int));
        },
        None => {
            assert forall|tail: Seq<char>| text@ != #[trigger] (prefix@ + tail) by {
                if text@ == prefix@ + tail {
                    assert(text@.subrange(0, prefix@.len() as int) =~= prefix@);
                }
            }
        },
    }
}

/// The pattern is the text between two wildcards.
pub open spec fn surrounds(pattern: Seq<char>, text: Seq<char>) -> bool {
    &&& pattern.len() == text.len() + 2
    &&& pattern[0] == '%'
    &&& pattern[pattern.len() - 1] == '%'
    &&& forall|i: int| 0 <= i < text.len() ==> pattern[i + 1] == #[trigger] text[i]
}

/// A text that holds more than white space is searched for between two
/// wildcards, for the one who asks; any other finds nobody.
pub proof fn text_is_searched_for_anywhere(
    auth: AuthUser,
    params: SearchQuery,
    lowered: &str,
    step: SearchStep,
    query: Query,
)
    requires
        call_ensures(search_lowered, (&auth, &params, lowered), step),
        step matches SearchStep::Ask(searching) ==> call_ensures(
            UserSearching::query,
            (&searching,),
            query,
        ),
    ensures
        match step {
            SearchStep::Found(users) => !has_more_than_space(params.q@) && users@.len() == 0,
            SearchStep::Ask(_) => has_more_than_space(params.q@) && (
            query matches Query::SearchUsers { pattern, asking } && asking == auth.id && surrounds(
                pattern@,
                lowered@,
            )),
        },
{
    reveal_strlit("%");
    assert forall|i: int| 0 <= i < params.q@.len() implies white_space(
        #[trigger] params.q@[i],
    ) == is_space(params.q@[i]) by {
        spaces_agree(params.q@[i]);
    }
    if let SearchStep::Ask(searching) = step {
        let pattern = query->pattern;
        assert(pattern@ == "%"@ + lowered@ + "%"@);
        assert forall|i: int| 0 <= i < lowered@.len() implies pattern@[i + 1]
            == #[trigger] lowered@[i] by {}
    }
}

/// A small letter stands for a letter from `A` to `Z`, and every other ASCII
/// character for itself.
pub open spec fn is_lower_of(small: char, c: char) -> bool {
    if 'A' <= c <= 'Z' {
        small as u32 == c as u32 + 32
    } else {
        small == c
    }
}

/// The lower-case form of a text: of an ASCII text letter by letter, of any
/// other as the standard library has it.
pub open spec fn is_lower_form(lowered: Seq<char>, text: Seq<char>) -> bool {
    if is_ascii_chars(text) {
        &&& lowered.len() == text.len()
        &&& forall|i: int| 0 <= i < text.len() ==> is_lower_of(lowered[i], #[trigger] text[i])
    } else {
        lowered == unicode_lowercase(text)
    }
}

/// What is searched for is the lower-case form of what was sent.
pub proof fn search_is_in_lower_case(
    auth: AuthUser,
    params: SearchQuery,
    step: SearchStep,
    query: Query,
)
    requires
        call_ensures(search_users, (&auth, &params), step),
        step matches SearchStep::Ask(searching) ==> call_ensures(
            UserSearching::query,
            (&searching,),
            query,
        ),
    ensures
        match step {
            SearchStep::Found(users) => !has_more_than_space(params.q@) && users@.len() == 0,
            SearchStep::Ask(_) => has_more_than_space(params.q@) && (
            query matches Query::SearchUsers { pattern, asking } && asking == auth.id
                && exists|lowered: Seq<char>| #[trigger]
                is_lower_form(lowered, params.q@) && surrounds(pattern@, lowered)),
        },
{
    reveal_strlit("%");
    assert forall|i: int| 0 <= i < params.q@.len() implies white_space(
        #[trigger] params.q@[i],
    ) == is_space(params.q@[i]) by {
        spaces_agree(params.q@[i]);
    }
    if let SearchStep::Ask(searching) = step {
        let pattern = query->pattern;
        let lowered = lowercase(params.q@);
        assert(pattern@ == "%"@ + lowered + "%"@);
        assert forall|i: int| 0 <= i < lowered.len() implies pattern@[i + 1]
            == #[trigger] lowered[i] by {}
        assert(is_lower_form(lowered, params.q@));
        assert(surrounds(pattern@, lowered));
    }
}

/// The text is like the pattern, as SQL has it: `%` stands for any text, `_`
/// for any character, and a character after `\\` for itself.
pub open spec fn like(text: Seq<char>, pattern: Seq<char>) -> bool
    decreases text.len() + pattern.len(),
{
    if pattern.len() == 0 {
        text.len() == 0
    } else if pattern[0] == '%' {
        like(text, pattern.skip(1)) || (text.len() > 0 && like(text.skip(1), pattern))
    } else if pattern[0] == '\\' {
        pattern.len() > 1 && text.len() > 0 && text[0] == pattern[1] && like(
            text.skip(1),
            pattern.skip(2),
        )
    } else {
        text.len() > 0 && (pattern[0] == '_' || pattern[0] == text[0]) && like(
            text.skip(1),
            pattern.skip(1),
        )
    }
}

/// A text is like a pattern that begins with `%` where it is like the rest of
/// the pattern from some place on.
proof fn like_from_a_place(text: Seq<char>, pattern: Seq<char>, k: int)
    requires
        pattern.len() > 0,
        pattern[0] == '%',
        0 <= k <= text.len(),
        like(text.skip(k), pattern.skip(1)),
    ensures
        like(text, pattern),
    decreases k,
{
    if k == 0 {
        assert(text.skip(0) =~= text);
    } else {
        assert(text.skip(1).skip(k - 1) =~= text.skip(k));
        like_from_a_place(text.skip(1), pattern, k - 1);
    }
}

/// A text that is like a pattern which begins with `%` is like the rest of the
/// pattern from some place on.
proof fn place_of_like(text: Seq<char>, pattern: Seq<char>) -> (k: int)
    requires
        pattern.len() > 0,
        pattern[0] == '%',
        like(text, pattern),
    ensures
        0 <= k <= text.len(),
        like(text.skip(k), pattern.skip(1)),
    decreases text.len(),
{
    if like(text, pattern.skip(1)) {
        assert(text.skip(0) =~= text);
        0
    } else {
        let k = place_of_like(text.skip(1), pattern);
        assert(text.skip(1).skip(k) =~= text.skip(k + 1));
        k + 1
    }
}

/// The part stands somewhere in the text, between these two texts.
pub open spec fn stands_between(
    text: Seq<char>,
    before: Seq<char>,
    part: Seq<char>,
    after: Seq<char>,
) -> bool {
    text == before + part + after
}

/// What begins with a text is like a pattern that begins with it, where the
/// rests are alike.
proof fn like_begins_alike(part: Seq<char>, rest: Seq<char>, pattern: Seq<char>)
    requires
        forall|i: int| 0 <= i < part.len() ==> #[trigger] part[i] != '\\',
        like(rest, pattern),
    ensures
        like(part + rest, part + pattern),
    decreases part.len(),
{
    if part.len() == 0 {
        assert(part + rest =~= rest);
        assert(part + pattern =~= pattern);
    } else {
        let tail = part.skip(1);
        assert forall|i: int| 0 <= i < tail.len() implies #[trigger] tail[i] != '\\' by {
            assert(tail[i] == part[i + 1]);
        }
        like_begins_alike(tail, rest, pattern);
        assert((part + rest).skip(1) =~= tail + rest);
        assert((part + pattern).skip(1) =~= tail + pattern);
        assert((part + pattern)[0] == part[0]);
        if part[0] == '%' {
            like_from_a_place(part + rest, part + pattern, 1);
        }
    }
}

/// Without wildcards in front, what is like a pattern begins as it does.
proof fn like_begins_so(part: Seq<char>, text: Seq<char>, pattern: Seq<char>)
    requires
        forall|i: int|
            0 <= i < part.len() ==> #[trigger] part[i] != '\\' && part[i] != '%' && part[i]
                != '_',
        like(text, part + pattern),
    ensures
        part.len() <= text.len(),
        text.subrange(0, part.len() as int) == part,
    decreases part.len(),
{
    if part.len() > 0 {
        let tail = part.skip(1);
        assert((part + pattern)[0] == part[0]);
        assert(part[0] != '%');
        assert((part + pattern).skip(1) =~= tail + pattern);
        assert forall|i: int| 0 <= i < tail.len() implies #[trigger] tail[i] != '\\' && tail[i]
            != '%' && tail[i] != '_' by {
            assert(tail[i] == part[i + 1]);
        }
        like_begins_so(tail, text.skip(1), pattern);
        assert forall|i: int| 0 <= i < part.len() implies text[i] == #[trigger] part[i] by {
            if i > 0 {
                assert(text.skip(1).subrange(0, tail.len() as int)[i - 1] == tail[i - 1]);
            }
        }
        assert(text.subrange(0, part.len() as int) =~= part);
    } else {
        assert(text.subrange(0, 0) =~= part);
    }
}

/// A search matches every name in which its text stands anywhere, and, where
/// the text holds no wildcard of its own, no other.
pub proof fn search_matches_what_contains_its_text(
    auth: AuthUser,
    params: SearchQuery,
    lowered: &str,
    searching: UserSearching,
    query: Query,
    name: Seq<char>,
)
    requires
        call_ensures(search_lowered, (&auth, &params, lowered), SearchStep::Ask(searching)),
        call_ensures(UserSearching::query, (&searching,), query),
        forall|i: int| 0 <= i < lowered@.len() ==> #[trigger] lowered@[i] != '\\',
    ensures
        query matches Query::SearchUsers { pattern, asking: _ } && {
            &&& (exists|before: Seq<char>, after: Seq<char>| #[trigger]
                stands_between(name, before, lowered@, after)) ==> like(name, pattern@)
            &&& (forall|i: int|
                0 <= i < lowered@.len() ==> #[trigger] lowered@[i] != '%' && lowered@[i] != '_')
                && like(name, pattern@) ==> exists|before: Seq<char>, after: Seq<char>| #[trigger]
                stands_between(name, before, lowered@, after)
        },
{
    text_is_searched_for_anywhere(auth, params, lowered, SearchStep::Ask(searching), query);
    let pattern = query->pattern@;
    let part = lowered@;
    let wild = seq!['%'];
    assert(pattern.skip(1) =~= part + wild) by {
        assert forall|i: int| 0 <= i < part.len() implies pattern.skip(1)[i]
            == #[trigger] part[i] by {
            assert(pattern[i + 1] == part[i]);
        }
    }
    if exists|before: Seq<char>, after: Seq<char>| #[trigger]
        stands_between(name, before, part, after) {
        let (before, after) = choose|before: Seq<char>, after: Seq<char>| #[trigger]
            stands_between(name, before, part, after);
        let end = after.skip(after.len() as int);
        assert(wild.skip(1).len() == 0);
        assert(like(end, wild.skip(1)));
        like_from_a_place(after, wild, after.len() as int);
        like_begins_alike(part, after, wild);
        let k = before.len() as int;
        assert(name.skip(k) =~= part + after);
        like_from_a_place(name, pattern, k);
    }
    if (forall|i: int| 0 <= i < part.len() ==> #[trigger] part[i] != '%' && part[i] != '_')
        && like(name, pattern) {
        let k = place_of_like(name, pattern);
        let rest = name.skip(k);
        like_begins_so(part, rest, wild);
        let before = name.subrange(0, k);
        let after = rest.skip(part.len() as int);
        assert(rest =~= part + after) by {
            assert(rest.subrange(0, part.len() as int) == part);
            assert(rest =~= rest.subrange(0, part.len() as int) + after);
        }
        assert(name =~= before + rest);
        assert(name =~= before + part + after);
        assert(stands_between(name, before, part, after));
    }
}

/// The users that a search finds are answered as they are.
pub proof fn found_users_are_answered(
    searching: UserSearching,
    found: Result<Vec<User>, String>,
    reply: Result<Vec<User>, Rejection>,
)
    requires
        call_ensures(UserSearching::resume, (searching, found), reply),
    ensures
        found matches Ok(list) ==> reply == Ok::<Vec<User>, Rejection>(list),
        found matches Err(error) ==> refused(reply, Status::InternalServerError, error@),
{
}

/// The content type is one of the four kinds of images.
pub open spec fn is_image(content_type: Seq<char>) -> bool {
    exists|ending: Seq<char>| #[trigger] ends_as(content_type, ending)
}

/// Images of the content type get names with the ending.
pub open spec fn ends_as(content_type: Seq<char>, ending: Seq<char>) -> bool {
    ||| content_type == "image/jpeg"@ && ending == "jpg"@
    ||| content_type == "image/png"@ && ending == "png"@
    ||| content_type == "image/gif"@ && ending == "gif"@
    ||| content_type == "image/webp"@ && ending == "webp"@
}

/// Exactly the four kinds of images are taken, each with its own ending; what
/// is none of them ends as plain bytes.
pub proof fn images_have_their_endings(content_type: String, yes: bool, ending: &'static str)
    requires
        call_ensures(is_allowed, (&content_type,), yes),
        call_ensures(extension, (&content_type,), ending),
    ensures
        yes == is_image(content_type@),
        yes ==> ends_as(content_type@, ending@),
        !yes ==> ending@ == "bin"@,
{
    if yes {
        assert(ends_as(content_type@, extension_of(content_type@))) by {
            types_differ();
        }
    }
}

/// The four content types are four different texts.
proof fn types_differ()
    ensures
        "image/jpeg"@ != "image/png"@,
        "image/jpeg"@ != "image/gif"@,
        "image/jpeg"@ != "image/webp"@,
        "image/png"@ != "image/gif"@,
        "image/png"@ != "image/webp"@,
        "image/gif"@ != "image/webp"@,
{
    reveal_strlit("image/jpeg");
    reveal_strlit("image/png");
    reveal_strlit("image/gif");
    reveal_strlit("image/webp");
    assert("image/jpeg"@[6] == 'j');
    assert("image/png"@[6] == 'p');
    assert("image/gif"@[6] == 'g');
    assert("image/webp"@[6] == 'w');
}

/// A field is the file where it is named so; a field that is not is passed by.
/// The file is read where it is an image, and refused where it is none or
/// names no content type. A body that ends or cannot be read is refused.
pub proof fn file_field_is_read(
    auth: AuthUser,
    field: Result<Option<FieldHead>, String>,
    next: Result<FieldStep, Rejection>,
)
    requires
        call_ensures(upload_image, (&auth, field), next),
    ensures
        match field {
            Err(error) => refused(next, Status::BadRequest, error@),
            Ok(None) => refused(next, Status::BadRequest, "No file field in request"@),
            Ok(Some(head)) => if head.name matches Some(name) && name@ == "file"@ {
                if head.content_type matches Some(content_type) && is_image(content_type@) {
                    next matches Ok(FieldStep::Read(_))
                } else {
                    refused(
                        next,
                        Status::UnsupportedMediaType,
                        "Only JPEG, PNG, GIF, and WebP images are allowed"@,
                    )
                }
            } else {
                next matches Ok(FieldStep::Skip)
            },
        },
{
    reveal_strlit("application/octet-stream");
    reveal_strlit("image/jpeg");
    reveal_strlit("image/png");
    reveal_strlit("image/gif");
    reveal_strlit("image/webp");
    assert(!allowed("application/octet-stream"@)) by {
        assert("application/octet-stream"@[0] == 'a');
        assert("image/jpeg"@[0] == 'i');
        assert("image/png"@[0] == 'i');
        assert("image/gif"@[0] == 'i');
        assert("image/webp"@[0] == 'i');
    }
    if let Ok(Some(head)) = field {
        if let Some(content_type) = head.content_type {
            allowed_means_image(content_type@);
        }
    }
}

/// The content types that are taken are those of images.
proof fn allowed_means_image(content_type: Seq<char>)
    ensures
        allowed(content_type) == is_image(content_type),
{
    types_differ();
    if allowed(content_type) {
        assert(ends_as(content_type, extension_of(content_type)));
    }
}

/// What is written holds exactly the bytes that were sent, under the number
/// and the ending of the kind of image that was sent. Data of more than ten
/// megabytes is refused, and data that cannot be read is the client's fault.
pub proof fn whole_upload_is_written(
    auth: AuthUser,
    head: FieldHead,
    reading: UploadReading,
    data: Result<Vec<u8>, String>,
    id: u128,
    next: Result<UploadWriting, Rejection>,
    name: &str,
    bytes: &Vec<u8>,
)
    requires
        call_ensures(upload_image, (&auth, Ok(Some(head))), Ok(FieldStep::Read(reading))),
        call_ensures(UploadReading::resume_as, (reading, data, id), next),
        next matches Ok(writing) ==> call_ensures(UploadWriting::name, (&writing,), name),
        next matches Ok(writing) ==> call_ensures(UploadWriting::data, (&writing,), bytes),
    ensures
        match data {
            Err(error) => refused(next, Status::BadRequest, error@),
            Ok(sent) => if sent@.len() <= 10_485_760 {
                next is Ok && bytes@ == sent@ && named_after(
                    name@,
                    id,
                    head.content_type->Some_0@,
                )
            } else {
                refused(next, Status::PayloadTooLarge, "Image must be under 10 MB"@)
            },
        },
{
    upload_has_its_type(auth, head, reading);
    let content_type = head.content_type->Some_0@;
    allowed_means_image(content_type);
    types_differ();
    let ending = extension_of(content_type);
    assert(ends_as(content_type, ending));
    if next is Ok {
        assert(name@ == hyphenated(id) + "."@ + ending);
        assert(is_name(name@, id, content_type, ending));
    }
}

/// The name is made of the written number, a dot and the ending.
pub open spec fn is_name(
    name: Seq<char>,
    id: u128,
    content_type: Seq<char>,
    ending: Seq<char>,
) -> bool {
    name == hyphenated(id) + "."@ + ending && ends_as(content_type, ending)
}

/// The name is that of an image of a kind under a number.
pub open spec fn named_after(name: Seq<char>, id: u128, content_type: Seq<char>) -> bool {
    exists|ending: Seq<char>| #[trigger] is_name(name, id, content_type, ending)
}

/// A field whose data is read is the file and has the content type that the
/// upload keeps.
proof fn upload_has_its_type(auth: AuthUser, head: FieldHead, reading: UploadReading)
    requires
        call_ensures(upload_image, (&auth, Ok(Some(head))), Ok(FieldStep::Read(reading))),
    ensures
        head.content_type is Some,
        reading@ == head.content_type->Some_0@,
        allowed(reading@),
{
    file_field_is_read(auth, Ok(Some(head)), Ok(FieldStep::Read(reading)));
}

/// An upload under a random number writes the same bytes, with a name of the
/// number that was drawn.
pub proof fn whole_upload_is_written_at_random(
    auth: AuthUser,
    head: FieldHead,
    reading: UploadReading,
    data: Result<Vec<u8>, String>,
    next: Result<UploadWriting, Rejection>,
    name: &str,
    bytes: &Vec<u8>,
)
    requires
        call_ensures(upload_image, (&auth, Ok(Some(head))), Ok(FieldStep::Read(reading))),
        call_ensures(UploadReading::resume, (reading, data), next),
        next matches Ok(writing) ==> call_ensures(UploadWriting::name, (&writing,), name),
        next matches Ok(writing) ==> call_ensures(UploadWriting::data, (&writing,), bytes),
    ensures
        match data {
            Err(error) => refused(next, Status::BadRequest, error@),
            Ok(sent) => if sent@.len() <= 10_485_760 {
                next is Ok && bytes@ == sent@ && exists|id: u128|
                    number_drawn(id) && (id >> 76) & 0xf == 4 && (id >> 62) & 0x3 == 2
                        && #[trigger] named_after(
                        name@,
                        id,
                        head.content_type->Some_0@,
                    )
            } else {
                refused(next, Status::PayloadTooLarge, "Image must be under 10 MB"@)
            },
        },
{
    upload_has_its_type(auth, head, reading);
    let content_type = head.content_type->Some_0@;
    allowed_means_image(content_type);
    types_differ();
    let ending = extension_of(content_type);
    assert(ends_as(content_type, ending));
    let id = choose|id: u128|
        number_drawn(id) && random_form(id) && reply_view(next)
            == #[trigger] data_read(
            reading@,
            answer_of(data),
            id,
        );
    if next is Ok {
        assert(is_name(name@, id, content_type, ending));
        assert(named_after(name@, id, content_type));
    }
}

/// The answer to an upload is the configured address, or the server's own,
/// followed by the directory of the uploads and the name of the file that was
/// written.
pub proof fn upload_is_answered_with_its_address(
    writing: UploadWriting,
    name: &str,
    written: Result<(), String>,
    base_url: Option<String>,
    reply: Result<UploadResponse, Rejection>,
)
    requires
        call_ensures(UploadWriting::name, (&writing,), name),
        call_ensures(UploadWriting::resume, (writing, written, base_url), reply),
    ensures
        match written {
            Ok(()) => reply matches Ok(response) && match base_url {
                Some(base) => response.url@ == base@ + "/uploads/"@ + name@,
                None => response.url@ == "http://localhost:8080"@ + "/uploads/"@ + name@,
            },
            Err(error) => refused(reply, Status::InternalServerError, error@),
        },
{
}

/// Each status has its number on the wire.
pub proof fn statuses_have_their_codes(status: Status, number: u16)
    requires
        call_ensures(Status::code, (status,), number),
    ensures
        status == Status::Created <==> number == 201,
        status == Status::BadRequest <==> number == 400,
        status == Status::Unauthorized <==> number == 401,
        status == Status::Forbidden <==> number == 403,
        status == Status::NotFound <==> number == 404,
        status == Status::Conflict <==> number == 409,
        status == Status::PayloadTooLarge <==> number == 413,
        status == Status::UnsupportedMediaType <==> number == 415,
        status == Status::InternalServerError <==> number == 500,
{
}

/// A refusal carries the status and the text that it is made of; a failure is
/// an internal error with its own text.
pub proof fn refusals_say_what_they_are_told(
    status: Status,
    error: &str,
    rejection: Rejection,
    text: String,
    failed: Rejection,
)
    requires
        call_ensures(reject, (status, error), rejection),
        call_ensures(fail, (text,), failed),
    ensures
        rejection.status == status,
        rejection.error@ == error@,
        failed.status == Status::InternalServerError,
        failed.error@ == text@,
{
}

/// An answer is handed on as it is, and a failure as an internal error.
pub proof fn answers_are_handed_on<T>(answer: Result<T, String>, reply: Result<T, Rejection>)
    requires
        call_ensures(hand_on::<T>, (answer,), reply),
    ensures
        answer matches Ok(value) ==> reply == Ok::<T, Rejection>(value),
        answer matches Err(error) ==> refused(reply, Status::InternalServerError, error@),
{
}

/// The root of the server welcomes.
pub proof fn root_welcomes(text: &'static str)
    requires
        call_ensures(crate::hello, (), text),
    ensures
        text@ == "Welcome to XETA"@,
{
}

} // verus!

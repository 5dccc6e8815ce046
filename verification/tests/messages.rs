use xeta::auth::AuthUser;
use xeta::messages::{
    canonical_pair, get_conversations, get_messages, send_message, SendMessageRequest, SendOpening,
    SendStoring,
};
use xeta::model::{Conversation, ConversationWithUser, Message};
use xeta::query::Query;
use xeta::reply::{Rejection, Status};

fn refused<T>(result: Result<T, Rejection>) -> (Status, String) {
    match result {
        Ok(_) => panic!("the request was not refused"),
        Err(rejection) => (rejection.status, rejection.error),
    }
}

fn auth(id: u128) -> AuthUser {
    AuthUser { id, username: "someone".to_string() }
}

fn body(recipient_id: u128) -> SendMessageRequest {
    SendMessageRequest {
        recipient_id,
        ciphertext: "c1ph3r".to_string(),
        nonce: "n0nce".to_string(),
        media_url: Some("http://m".to_string()),
    }
}

fn opening(sender: u128, recipient: u128) -> SendOpening {
    send_message(&auth(sender), body(recipient)).unwrap().resume(Ok(true)).unwrap()
}

fn storing(sender: u128, recipient: u128) -> SendStoring {
    let conversation = Conversation {
        id: 100,
        participant_a: 1,
        participant_b: 2,
        created_at: 0,
        last_message_at: None,
    };
    opening(sender, recipient).resume(Ok(conversation)).unwrap()
}

fn message() -> Message {
    Message {
        id: 5,
        conversation_id: 100,
        sender_id: 7,
        ciphertext: "c".to_string(),
        nonce: "n".to_string(),
        media_url: None,
        created_at: 123,
    }
}

fn participants(query: Query) -> (u128, u128) {
    match query {
        Query::OpenConversation { participant_a, participant_b } => (participant_a, participant_b),
        _ => panic!("another query"),
    }
}

#[test]
fn nobody_writes_to_themselves() {
    assert_eq!(
        refused(send_message(&auth(7), body(7))),
        (Status::BadRequest, "You cannot message yourself".to_string())
    );
}

#[test]
fn recipient_has_to_exist() {
    let checking = || send_message(&auth(7), body(3)).unwrap();
    assert!(matches!(checking().query(), Query::UserExists { id: 3 }));
    assert_eq!(
        refused(checking().resume(Ok(false))),
        (Status::NotFound, "Recipient not found".to_string())
    );
    assert_eq!(
        refused(checking().resume(Err("boom".to_string()))),
        (Status::InternalServerError, "boom".to_string())
    );
}

#[test]
fn both_directions_share_a_conversation() {
    assert_eq!(participants(opening(7, 3).query()), (3, 7));
    assert_eq!(participants(opening(3, 7).query()), (3, 7));
    assert_ne!(participants(opening(3, 8).query()), (3, 7));
}

#[test]
fn pairs_are_ordered_as_identifiers() {
    let small = uuid::Uuid::parse_str("00ffffff-0000-0000-0000-000000000000").unwrap();
    let large = uuid::Uuid::parse_str("01000000-0000-0000-0000-000000000000").unwrap();
    assert!(small < large);
    let pair = (small.as_u128(), large.as_u128());
    assert_eq!(canonical_pair(large.as_u128(), small.as_u128()), pair);
    assert_eq!(canonical_pair(small.as_u128(), large.as_u128()), pair);
    assert_eq!(canonical_pair(4, 4), (4, 4));
}

#[test]
fn message_writes_only_to_somebody_who_exists() {
    let checking = send_message(&auth(7), body(3)).unwrap();
    assert!(matches!(checking.query(), Query::UserExists { .. }));
    let opening = checking.resume(Ok(true)).unwrap();
    assert!(matches!(opening.query(), Query::OpenConversation { .. }));
    assert!(matches!(storing(7, 3).query(), Query::InsertMessage { .. }));
}

#[test]
fn message_is_stored_as_it_came() {
    match storing(7, 3).query() {
        Query::InsertMessage { conversation_id, sender_id, ciphertext, nonce, media_url } => {
            assert_eq!((conversation_id, sender_id), (100, 7));
            assert_eq!(ciphertext, "c1ph3r");
            assert_eq!(nonce, "n0nce");
            assert_eq!(media_url.as_deref(), Some("http://m"));
        }
        _ => panic!("another query"),
    }
}

#[test]
fn stored_message_is_answered_as_created() {
    let (status, stored) = storing(7, 3).resume(Ok(message())).unwrap();
    assert_eq!(status, Status::Created);
    assert_eq!((stored.id, stored.created_at), (5, 123));
}

#[test]
fn sending_reports_failures() {
    let failed = (Status::InternalServerError, "boom".to_string());
    assert_eq!(refused(opening(7, 3).resume(Err("boom".to_string()))), failed);
    assert_eq!(refused(storing(7, 3).resume(Err("boom".to_string()))), failed);
}

#[test]
fn reading_asks_whether_the_user_takes_part() {
    let query = get_messages(&auth(7), 100).query();
    assert!(matches!(query, Query::IsParticipant { conversation_id: 100, user_id: 7 }));
}

#[test]
fn strangers_do_not_read() {
    assert_eq!(
        refused(get_messages(&auth(7), 100).resume(Ok(false))),
        (Status::Forbidden, "You are not a participant in this conversation".to_string())
    );
    assert_eq!(
        refused(get_messages(&auth(7), 100).resume(Err("boom".to_string()))),
        (Status::InternalServerError, "boom".to_string())
    );
}

#[test]
fn participants_read() {
    let fetching = || get_messages(&auth(7), 100).resume(Ok(true)).unwrap();
    assert!(matches!(fetching().query(), Query::MessagesIn { conversation_id: 100 }));
    let found = fetching().resume(Ok(vec![message()])).unwrap();
    assert_eq!(found.len(), 1);
    assert_eq!(found[0].ciphertext, "c");
    assert_eq!(
        refused(fetching().resume(Err("boom".to_string()))),
        (Status::InternalServerError, "boom".to_string())
    );
}

#[test]
fn conversations_are_handed_on() {
    assert!(matches!(
        get_conversations(&auth(7)).query(),
        Query::ConversationsOf { user_id: 7 }
    ));
    let row = ConversationWithUser {
        id: 100,
        participant_a: 3,
        participant_b: 7,
        created_at: 1,
        last_message_at: Some(2),
        other_username: "bob".to_string(),
    };
    let found = get_conversations(&auth(7)).resume(Ok(vec![row])).unwrap();
    assert_eq!(found.len(), 1);
    assert_eq!(found[0].other_username, "bob");
    assert_eq!(found[0].last_message_at, Some(2));
    assert_eq!(
        refused(get_conversations(&auth(7)).resume(Err("boom".to_string()))),
        (Status::InternalServerError, "boom".to_string())
    );
}

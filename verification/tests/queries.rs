use xeta::query::{Param, Query};
use xeta::reply::{fail, hand_on, reject, Status};

fn text(s: &str) -> String {
    s.to_string()
}

fn all() -> Vec<Query> {
    vec![
        Query::UserById { id: 1 },
        Query::UserByName { username: text("u") },
        Query::CountTaken { username: text("u"), email: text("e") },
        Query::InsertUser {
            email: text("e"),
            username: text("u"),
            password_hash: text("h"),
            public_key: text("k"),
        },
        Query::Credentials { identifier: text("i") },
        Query::IdByName { username: text("u") },
        Query::UpdateProfile { display_name: None, about: None, avatar_url: None, id: 1 },
        Query::SearchUsers { pattern: text("%p%"), asking: 1 },
        Query::KeyByName { username: text("u") },
        Query::UserExists { id: 1 },
        Query::OpenConversation { participant_a: 1, participant_b: 2 },
        Query::InsertMessage {
            conversation_id: 1,
            sender_id: 2,
            ciphertext: text("c"),
            nonce: text("n"),
            media_url: None,
        },
        Query::IsParticipant { conversation_id: 1, user_id: 2 },
        Query::MessagesIn { conversation_id: 1 },
        Query::ConversationsOf { user_id: 1 },
    ]
}

#[test]
fn every_placeholder_has_a_value() {
    for query in all() {
        let count = query.params().len();
        for place in 1..=count {
            assert!(query.sql().contains(&format!("${}", place)), "{}", query.sql());
        }
        assert!(!query.sql().contains(&format!("${}", count + 1)), "{}", query.sql());
    }
}

#[test]
fn statements_differ() {
    let mut statements: Vec<&str> = all().iter().map(|query| query.sql()).collect();
    statements.sort();
    statements.dedup();
    assert_eq!(statements.len(), 15);
}

#[test]
fn values_stand_in_the_order_of_the_placeholders() {
    let insert = Query::InsertUser {
        email: text("e"),
        username: text("u"),
        password_hash: text("h"),
        public_key: text("k"),
    };
    assert!(insert.sql().starts_with(
        "INSERT INTO users (email, username, password_hash, public_key)\n"
    ));
    let texts: Vec<String> = insert
        .params()
        .into_iter()
        .map(|param| match param {
            Param::Text(value) => value,
            _ => panic!("not a text"),
        })
        .collect();
    assert_eq!(texts, ["e", "u", "h", "k"]);
}

#[test]
fn values_keep_their_kind() {
    let update = Query::UpdateProfile {
        display_name: Some(text("d")),
        about: None,
        avatar_url: Some(text("a")),
        id: 9,
    };
    match update.params().as_slice() {
        [Param::OptionalText(d), Param::OptionalText(b), Param::OptionalText(a), Param::Uuid(id)] => {
            assert_eq!((d.as_deref(), b.as_deref(), a.as_deref()), (Some("d"), None, Some("a")));
            assert_eq!(*id, 9);
        }
        _ => panic!("other values"),
    }
}

#[test]
fn statements_read_as_sql() {
    assert_eq!(
        Query::UserExists { id: 1 }.sql(),
        "SELECT EXISTS(SELECT 1 FROM users WHERE id = $1)"
    );
    assert_eq!(
        Query::MessagesIn { conversation_id: 1 }.sql(),
        "SELECT * FROM messages\n         WHERE conversation_id = $1\n         ORDER BY created_at ASC"
    );
}

#[test]
fn statuses_have_their_numbers() {
    for (status, number) in [
        (Status::Created, 201),
        (Status::BadRequest, 400),
        (Status::Unauthorized, 401),
        (Status::Forbidden, 403),
        (Status::NotFound, 404),
        (Status::Conflict, 409),
        (Status::PayloadTooLarge, 413),
        (Status::UnsupportedMediaType, 415),
        (Status::InternalServerError, 500),
    ] {
        assert_eq!(status.code(), number);
    }
}

#[test]
fn rejections_carry_their_text() {
    let refused = reject(Status::Forbidden, "no");
    assert_eq!((refused.status, refused.error.as_str()), (Status::Forbidden, "no"));
    let failed = fail(text("boom"));
    assert_eq!((failed.status, failed.error.as_str()), (Status::InternalServerError, "boom"));
    assert_eq!(hand_on::<u8>(Ok(3)).unwrap(), 3);
    assert_eq!(hand_on::<u8>(Err(text("boom"))).unwrap_err().error, "boom");
}

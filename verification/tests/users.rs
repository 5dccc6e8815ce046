use xeta::auth::AuthUser;
use xeta::model::User;
use xeta::query::Query;
use xeta::reply::{Rejection, Status};
use xeta::text::{is_blank, is_white_space, strip_prefix};
use xeta::users::{
    get_me, get_public_key, get_user, search_lowered, search_users, update_profile, SearchQuery,
    SearchStep, UpdateProfileRequest,
};

fn refused<T>(result: Result<T, Rejection>) -> (Status, String) {
    match result {
        Ok(_) => panic!("the request was not refused"),
        Err(rejection) => (rejection.status, rejection.error),
    }
}

fn alice() -> AuthUser {
    AuthUser { id: 7, username: "alice".to_string() }
}

fn user(id: u128, username: &str) -> User {
    User {
        id,
        username: username.to_string(),
        email: "e".to_string(),
        display_name: None,
        about: Some("about".to_string()),
        avatar_url: None,
        public_key: None,
    }
}

fn searching(step: SearchStep) -> (String, u128) {
    match step {
        SearchStep::Found(_) => panic!("nothing was asked"),
        SearchStep::Ask(search) => match search.query() {
            Query::SearchUsers { pattern, asking } => (pattern, asking),
            _ => panic!("another query"),
        },
    }
}

#[test]
fn me_is_looked_up_by_identifier() {
    assert!(matches!(get_me(&alice()).query(), Query::UserById { id: 7 }));
    let me = get_me(&alice()).resume(Ok(Some(user(7, "alice")))).unwrap();
    assert_eq!((me.id, me.username.as_str()), (7, "alice"));
    assert_eq!(me.about.as_deref(), Some("about"));
}

#[test]
fn me_may_be_gone() {
    assert_eq!(
        refused(get_me(&alice()).resume(Ok(None))),
        (Status::NotFound, "User not found".to_string())
    );
    assert_eq!(
        refused(get_me(&alice()).resume(Err("boom".to_string()))),
        (Status::InternalServerError, "boom".to_string())
    );
}

#[test]
fn user_is_looked_up_by_name() {
    match get_user("bob".to_string()).query() {
        Query::UserByName { username } => assert_eq!(username, "bob"),
        _ => panic!("another query"),
    }
    let found = get_user("bob".to_string()).resume(Ok(Some(user(9, "bob"))));
    assert_eq!(found.unwrap().id, 9);
}

#[test]
fn unknown_user_is_named_in_the_answer() {
    assert_eq!(
        refused(get_user("bob".to_string()).resume(Ok(None))),
        (Status::NotFound, "User 'bob' not found".to_string())
    );
    assert_eq!(
        refused(get_user("bob".to_string()).resume(Err("boom".to_string()))),
        (Status::InternalServerError, "boom".to_string())
    );
}

#[test]
fn profile_keeps_what_is_not_given() {
    let body = UpdateProfileRequest {
        display_name: Some("Alice".to_string()),
        about: None,
        avatar_url: Some(String::new()),
    };
    match update_profile(&alice(), body).query() {
        Query::UpdateProfile { display_name, about, avatar_url, id } => {
            assert_eq!(display_name.as_deref(), Some("Alice"));
            assert_eq!(about, None);
            assert_eq!(avatar_url.as_deref(), Some(""));
            assert_eq!(id, 7);
        }
        _ => panic!("another query"),
    }
}

#[test]
fn profile_change_answers_with_the_user() {
    let body = || UpdateProfileRequest { display_name: None, about: None, avatar_url: None };
    let changed = update_profile(&alice(), body()).resume(Ok(user(7, "alice")));
    assert_eq!(changed.unwrap().username, "alice");
    assert_eq!(
        refused(update_profile(&alice(), body()).resume(Err("no rows".to_string()))),
        (Status::InternalServerError, "no rows".to_string())
    );
}

#[test]
fn blank_search_finds_nobody() {
    for q in ["", " ", "\t\r\n", "\u{a0}\u{3000}\u{2003}"] {
        match search_users(&alice(), &SearchQuery { q: q.to_string() }) {
            SearchStep::Found(users) => assert!(users.is_empty()),
            SearchStep::Ask(_) => panic!("asked for {:?}", q),
        }
    }
}

#[test]
fn search_is_for_the_lower_case_text() {
    let step = search_users(&alice(), &SearchQuery { q: " BoB\u{c9} ".to_string() });
    assert_eq!(searching(step), ("% bob\u{e9} %".to_string(), 7));
    let step = search_lowered(&alice(), &SearchQuery { q: "X".to_string() }, "given");
    assert_eq!(searching(step), ("%given%".to_string(), 7));
}

#[test]
fn case_of_a_search_does_not_matter() {
    let search = |q: &str| searching(search_users(&alice(), &SearchQuery { q: q.to_string() }));
    assert_eq!(search("AZ[`az{@09"), ("%az[`az{@09%".to_string(), 7));
    assert_eq!(search("Bob Smith"), search("bOB sMITH"));
    assert_ne!(search("bob"), search("bob "));
}

#[test]
fn search_hands_on_the_users() {
    let ask = || match search_users(&alice(), &SearchQuery { q: "b".to_string() }) {
        SearchStep::Ask(search) => search,
        SearchStep::Found(_) => panic!("nothing was asked"),
    };
    let found = ask().resume(Ok(vec![user(1, "bab"), user(2, "bob")]));
    let names: Vec<String> =
        found.unwrap().into_iter().map(|u| u.username).collect();
    assert_eq!(names, ["bab", "bob"]);
    assert_eq!(
        refused(ask().resume(Err("boom".to_string()))),
        (Status::InternalServerError, "boom".to_string())
    );
}

#[test]
fn public_key_is_handed_on() {
    let finding = || get_public_key(&alice(), "bob".to_string());
    match finding().query() {
        Query::KeyByName { username } => assert_eq!(username, "bob"),
        _ => panic!("another query"),
    }
    let row = ("Bob".to_string(), Some("key".to_string()));
    let response = finding().resume(Ok(Some(row))).unwrap();
    assert_eq!((response.username.as_str(), response.public_key.as_str()), ("Bob", "key"));
}

#[test]
fn public_key_may_be_missing() {
    let finding = || get_public_key(&alice(), "bob".to_string());
    assert_eq!(
        refused(finding().resume(Ok(None))),
        (Status::NotFound, "User 'bob' not found".to_string())
    );
    assert_eq!(
        refused(finding().resume(Ok(Some(("Bob".to_string(), None))))),
        (Status::NotFound, "User 'bob' has no public key".to_string())
    );
    assert_eq!(
        refused(finding().resume(Err("boom".to_string()))),
        (Status::InternalServerError, "boom".to_string())
    );
}

#[test]
fn white_space_is_that_of_the_standard_library() {
    for code in 0..=0x10ffff {
        if let Some(c) = char::from_u32(code) {
            assert_eq!(is_white_space(c), c.is_whitespace(), "{:x}", code);
        }
    }
}

#[test]
fn blank_is_what_trims_to_nothing() {
    for text in ["", " ", " a", "a ", "\u{2028}", "\u{200b}", "\u{85}\u{1680}", "  \n\u{e9} "] {
        assert_eq!(is_blank(text), text.trim().is_empty(), "{:?}", text);
    }
}

#[test]
fn prefix_is_taken_off() {
    assert_eq!(strip_prefix("Bearer x", "Bearer "), Some("x"));
    assert_eq!(strip_prefix("\u{e9}t\u{e9}", "\u{e9}"), Some("t\u{e9}"));
    assert_eq!(strip_prefix("abc", "abc"), Some(""));
    assert_eq!(strip_prefix("abc", ""), Some("abc"));
    assert_eq!(strip_prefix("ab", "abc"), None);
    assert_eq!(strip_prefix("xabc", "abc"), None);
}

use xeta::accounts::{login, register, LoginRequest, RegisterRequest};
use xeta::auth::AuthUser;
use xeta::messages::{get_conversations, get_messages, send_message, SendMessageRequest};
use xeta::model::{Conversation, ConversationWithUser, Message, User, UserAuth};
use xeta::query::Query;
use xeta::reply::{Rejection, Status};
use xeta::users::{
    get_me, get_public_key, get_user, update_profile, PublicKeyResponse, UpdateProfileRequest,
};

/// Tables in memory that answer the queries of the library.
#[derive(Default)]
struct Tables {
    users: Vec<(User, String)>,
    conversations: Vec<Conversation>,
    messages: Vec<Message>,
    clock: i64,
}

fn copy_user(user: &User) -> User {
    User {
        id: user.id,
        username: user.username.clone(),
        email: user.email.clone(),
        display_name: user.display_name.clone(),
        about: user.about.clone(),
        avatar_url: user.avatar_url.clone(),
        public_key: user.public_key.clone(),
    }
}

fn copy_message(message: &Message) -> Message {
    Message {
        id: message.id,
        conversation_id: message.conversation_id,
        sender_id: message.sender_id,
        ciphertext: message.ciphertext.clone(),
        nonce: message.nonce.clone(),
        media_url: message.media_url.clone(),
        created_at: message.created_at,
    }
}

type Fields<'a> = (
    u128,
    &'a str,
    &'a str,
    Option<&'a str>,
    Option<&'a str>,
    Option<&'a str>,
    Option<&'a str>,
);

fn fields(user: &User) -> Fields<'_> {
    (
        user.id,
        &user.username,
        &user.email,
        user.display_name.as_deref(),
        user.about.as_deref(),
        user.avatar_url.as_deref(),
        user.public_key.as_deref(),
    )
}

impl Tables {
    fn tick(&mut self) -> i64 {
        self.clock += 1;
        self.clock
    }

    fn named(&self, name: &str) -> Option<&(User, String)> {
        self.users.iter().find(|(user, _)| user.username == name)
    }

    fn count(&self, query: Query) -> i64 {
        match query {
            Query::CountTaken { username, email } => self
                .users
                .iter()
                .filter(|(user, _)| user.username == username || user.email == email)
                .count() as i64,
            _ => panic!("another query"),
        }
    }

    fn insert_user(&mut self, query: Query) {
        match query {
            Query::InsertUser { email, username, password_hash, public_key } => {
                let id = 100 + self.users.len() as u128;
                let user = User {
                    id,
                    username,
                    email,
                    display_name: None,
                    about: None,
                    avatar_url: None,
                    public_key: Some(public_key),
                };
                self.users.push((user, password_hash));
            }
            _ => panic!("another query"),
        }
    }

    fn credentials(&self, query: Query) -> Option<UserAuth> {
        match query {
            Query::Credentials { identifier } => self
                .users
                .iter()
                .find(|(user, _)| user.email == identifier || user.username == identifier)
                .map(|(user, hash)| UserAuth {
                    username: user.username.clone(),
                    password_hash: hash.clone(),
                }),
            _ => panic!("another query"),
        }
    }

    fn id(&self, query: Query) -> u128 {
        match query {
            Query::IdByName { username } => self.named(&username).unwrap().0.id,
            _ => panic!("another query"),
        }
    }

    fn user(&self, query: Query) -> Option<User> {
        match query {
            Query::UserById { id } => {
                self.users.iter().find(|(user, _)| user.id == id).map(|(user, _)| copy_user(user))
            }
            Query::UserByName { username } => {
                self.named(&username).map(|(user, _)| copy_user(user))
            }
            _ => panic!("another query"),
        }
    }

    fn key(&self, query: Query) -> Option<(String, Option<String>)> {
        match query {
            Query::KeyByName { username } => self
                .named(&username)
                .map(|(user, _)| (user.username.clone(), user.public_key.clone())),
            _ => panic!("another query"),
        }
    }

    fn update(&mut self, query: Query) -> User {
        match query {
            Query::UpdateProfile { display_name, about, avatar_url, id } => {
                let user = &mut self.users.iter_mut().find(|(user, _)| user.id == id).unwrap().0;
                user.display_name = display_name.or(user.display_name.take());
                user.about = about.or(user.about.take());
                user.avatar_url = avatar_url.or(user.avatar_url.take());
                copy_user(user)
            }
            _ => panic!("another query"),
        }
    }

    fn holds(&self, query: Query) -> bool {
        match query {
            Query::UserExists { id } => self.users.iter().any(|(user, _)| user.id == id),
            Query::IsParticipant { conversation_id, user_id } => self.conversations.iter().any(|c| {
                c.id == conversation_id
                    && (c.participant_a == user_id || c.participant_b == user_id)
            }),
            _ => panic!("another query"),
        }
    }

    fn open(&mut self, query: Query) -> Conversation {
        match query {
            Query::OpenConversation { participant_a, participant_b } => {
                let now = self.tick();
                let place = self.conversations.iter().position(|c| {
                    (c.participant_a, c.participant_b) == (participant_a, participant_b)
                });
                let place = match place {
                    Some(place) => {
                        self.conversations[place].last_message_at = Some(now);
                        place
                    }
                    None => {
                        self.conversations.push(Conversation {
                            id: 900 + self.conversations.len() as u128,
                            participant_a,
                            participant_b,
                            created_at: now,
                            last_message_at: None,
                        });
                        self.conversations.len() - 1
                    }
                };
                let there = &self.conversations[place];
                Conversation { ..*there }
            }
            _ => panic!("another query"),
        }
    }

    fn insert_message(&mut self, query: Query) -> Message {
        match query {
            Query::InsertMessage { conversation_id, sender_id, ciphertext, nonce, media_url } => {
                let message = Message {
                    id: 500 + self.messages.len() as u128,
                    conversation_id,
                    sender_id,
                    ciphertext,
                    nonce,
                    media_url,
                    created_at: self.tick(),
                };
                self.messages.push(copy_message(&message));
                message
            }
            _ => panic!("another query"),
        }
    }

    fn messages(&self, query: Query) -> Vec<Message> {
        match query {
            Query::MessagesIn { conversation_id } => self
                .messages
                .iter()
                .filter(|message| message.conversation_id == conversation_id)
                .map(copy_message)
                .collect(),
            _ => panic!("another query"),
        }
    }

    fn conversations(&self, query: Query) -> Vec<ConversationWithUser> {
        match query {
            Query::ConversationsOf { user_id } => self
                .conversations
                .iter()
                .filter(|c| c.participant_a == user_id || c.participant_b == user_id)
                .map(|c| {
                    let other =
                        if c.participant_a == user_id { c.participant_b } else { c.participant_a };
                    let other = self.users.iter().find(|(user, _)| user.id == other).unwrap();
                    ConversationWithUser {
                        id: c.id,
                        participant_a: c.participant_a,
                        participant_b: c.participant_b,
                        created_at: c.created_at,
                        last_message_at: c.last_message_at,
                        other_username: other.0.username.clone(),
                    }
                })
                .collect(),
            _ => panic!("another query"),
        }
    }

    /// Registers a user, with a text in place of a hash.
    fn register(&mut self, username: &str, email: &str) -> Result<(), (Status, String)> {
        let counting = register(RegisterRequest {
            email: email.to_string(),
            username: username.to_string(),
            password: "password".to_string(),
            public_key: format!("key of {}", username),
        })
        .map_err(refusal)?;
        let taken = self.count(counting.query());
        let hashing = counting.resume(Ok(taken)).map_err(refusal)?;
        let storing = hashing.resume(Ok("hash".to_string())).map_err(refusal)?;
        self.insert_user(storing.query());
        storing.resume(Ok(())).map(|_| ()).map_err(refusal)
    }

    fn auth(&self, username: &str) -> AuthUser {
        AuthUser { id: self.named(username).unwrap().0.id, username: username.to_string() }
    }

    fn send(&mut self, from: &str, to: &str, ciphertext: &str) -> Message {
        let body = SendMessageRequest {
            recipient_id: self.auth(to).id,
            ciphertext: ciphertext.to_string(),
            nonce: "nonce".to_string(),
            media_url: None,
        };
        let checking = send_message(&self.auth(from), body).unwrap();
        let there = self.holds(checking.query());
        let opening = checking.resume(Ok(there)).ok().unwrap();
        let conversation = self.open(opening.query());
        let storing = opening.resume(Ok(conversation)).ok().unwrap();
        let stored = self.insert_message(storing.query());
        storing.resume(Ok(stored)).ok().unwrap().1
    }

    fn read(&self, who: &str, conversation_id: u128) -> Result<Vec<Message>, (Status, String)> {
        let checking = get_messages(&self.auth(who), conversation_id);
        let allowed = self.holds(checking.query());
        let fetching = checking.resume(Ok(allowed)).map_err(refusal)?;
        let found = self.messages(fetching.query());
        fetching.resume(Ok(found)).map_err(refusal)
    }

    fn update_profile(&mut self, who: &str, about: Option<&str>) -> User {
        let body = UpdateProfileRequest {
            display_name: None,
            about: about.map(str::to_string),
            avatar_url: None,
        };
        let updating = update_profile(&self.auth(who), body);
        let changed = self.update(updating.query());
        updating.resume(Ok(changed)).ok().unwrap()
    }

    fn list(&self, who: &str) -> Vec<ConversationWithUser> {
        let fetching = get_conversations(&self.auth(who));
        let found = self.conversations(fetching.query());
        fetching.resume(Ok(found)).ok().unwrap()
    }

    fn public_key(&self, username: &str) -> PublicKeyResponse {
        let finding = get_public_key(&self.auth(username), username.to_string());
        let found = self.key(finding.query());
        finding.resume(Ok(found)).ok().unwrap()
    }
}

fn refusal(rejection: Rejection) -> (Status, String) {
    (rejection.status, rejection.error)
}

fn three_users() -> Tables {
    let mut tables = Tables::default();
    for name in ["alice", "bob", "carol"] {
        tables.register(name, &format!("{}@x.org", name)).unwrap();
    }
    tables
}

#[test]
fn second_registration_is_refused() {
    let mut tables = three_users();
    let conflict = (Status::Conflict, "Username or email is already taken".to_string());
    tables.update_profile("bob", Some("changed"));
    assert_eq!(tables.register("bob", "new@x.org"), Err(conflict.clone()));
    assert_eq!(tables.register("new", "bob@x.org"), Err(conflict));
    assert_eq!(tables.users.len(), 3);
    assert_eq!(tables.register("new", "new@x.org"), Ok(()));
}

#[test]
fn pair_has_one_conversation_in_both_directions() {
    let mut tables = three_users();
    let first = tables.send("alice", "bob", "1");
    let second = tables.send("bob", "alice", "2");
    let third = tables.send("alice", "carol", "3");
    assert_eq!(second.conversation_id, first.conversation_id);
    assert_ne!(third.conversation_id, first.conversation_id);
    assert_eq!(first.sender_id, tables.auth("alice").id);
    assert_eq!(second.sender_id, tables.auth("bob").id);
}

#[test]
fn delivered_message_is_read_by_both() {
    let mut tables = three_users();
    let sent = tables.send("alice", "bob", "secret");
    tables.send("alice", "carol", "other");
    for who in ["alice", "bob"] {
        let list = tables.read(who, sent.conversation_id).unwrap();
        let same: Vec<&Message> = list.iter().filter(|m| m.id == sent.id).collect();
        assert_eq!(same.len(), 1);
        assert_eq!(same[0].ciphertext, "secret");
        assert_eq!(same[0].nonce, "nonce");
        assert_eq!(list.len(), 1);
    }
    assert_eq!(
        tables.read("carol", sent.conversation_id).err().unwrap(),
        (Status::Forbidden, "You are not a participant in this conversation".to_string())
    );
}

#[test]
fn registered_key_outlives_the_profile() {
    let mut tables = three_users();
    tables.update_profile("bob", Some("about"));
    let key = tables.public_key("bob");
    assert_eq!((key.username.as_str(), key.public_key.as_str()), ("bob", "key of bob"));
}

#[test]
fn changed_profile_is_what_is_read() {
    let mut tables = three_users();
    let changed = tables.update_profile("bob", Some("about"));
    assert_eq!(changed.about.as_deref(), Some("about"));
    let finding = get_me(&tables.auth("bob"));
    let me = finding.resume(Ok(tables.user(get_me(&tables.auth("bob")).query()))).ok().unwrap();
    assert_eq!(fields(&me), fields(&changed));
    let found = tables.user(get_user("bob".to_string()).query());
    let named = get_user("bob".to_string()).resume(Ok(found)).ok().unwrap();
    assert_eq!(fields(&named), fields(&changed));
}

#[test]
fn same_change_twice_changes_nothing_more() {
    let mut tables = three_users();
    let changed = tables.update_profile("bob", Some("about"));
    let again = tables.update_profile("bob", Some("about"));
    assert_eq!(fields(&again), fields(&changed));
    let idle = tables.update_profile("bob", None);
    assert_eq!(fields(&idle), fields(&changed));
}

#[test]
fn conversation_stands_in_both_lists() {
    let mut tables = three_users();
    let sent = tables.send("alice", "bob", "1");
    tables.send("bob", "alice", "2");
    for (who, other) in [("alice", "bob"), ("bob", "alice")] {
        let list = tables.list(who);
        assert_eq!(list.len(), 1);
        assert_eq!(list[0].id, sent.conversation_id);
        assert_eq!(list[0].other_username, other);
    }
    assert!(tables.list("carol").is_empty());
}

#[test]
fn login_token_speaks_for_the_account() {
    let mut tables = three_users();
    tables.users[1].1 = bcrypt::hash("password", 4).unwrap();
    for identifier in ["bob", "bob@x.org"] {
        let finding = login(LoginRequest {
            identifier: identifier.to_string(),
            password: "password".to_string(),
        });
        let account = tables.credentials(finding.query());
        let identifying = finding.resume(Ok(account)).ok().unwrap().check().ok().unwrap();
        let id = tables.id(identifying.query());
        let reply = identifying.resume(Ok(id)).ok().unwrap().sign("secret").ok().unwrap();
        let header = format!("Bearer {}", reply.token);
        for _ in 0..2 {
            let user =
                AuthUser::from_request_parts(Some(header.as_bytes()), "secret").ok().unwrap();
            assert_eq!((user.id, user.username.as_str()), (tables.auth("bob").id, "bob"));
        }
    }
}

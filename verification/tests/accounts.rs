use xeta::accounts::{
    login, register, LoginChecking, LoginIdentifying, LoginRequest, LoginSigning, RegisterRequest,
    RegisterStoring,
};
use xeta::auth::AuthUser;
use xeta::model::UserAuth;
use xeta::password::{hash_password, verify_password};
use xeta::query::Query;
use xeta::reply::{Rejection, Status};

const ALICE: u128 = 0x67e55044_10b1_426f_9247_bb680e5fe0c8;

/// A hash of the word "password" at the lowest cost.
const PASSWORD_HASH: &str = "$2a$04$UuTkLRZZ6QofpDOlMz32MuuxEHA43WOemOYHPz6.SjsVsyO1tDU96";

fn refused<T>(result: Result<T, Rejection>) -> (Status, String) {
    match result {
        Ok(_) => panic!("the request was not refused"),
        Err(rejection) => (rejection.status, rejection.error),
    }
}

fn request(password: &str) -> RegisterRequest {
    RegisterRequest {
        email: "alice@example.com".to_string(),
        username: "alice".to_string(),
        password: password.to_string(),
        public_key: "key".to_string(),
    }
}

fn storing(hash: &str) -> RegisterStoring {
    let hashing = register(request("longenough")).unwrap().resume(Ok(0)).unwrap();
    hashing.resume(Ok(hash.to_string())).unwrap()
}

#[test]
fn short_password_is_a_bad_request() {
    assert_eq!(
        refused(register(request("seven77"))),
        (Status::BadRequest, "Password must be at least 8 characters".to_string())
    );
    assert_eq!(refused(register(request(""))).0, Status::BadRequest);
}

#[test]
fn password_length_counts_bytes() {
    assert!(register(request("eight888")).is_ok());
    assert!(register(request("\u{e9}\u{e9}\u{e9}\u{e9}")).is_ok());
    assert!(register(request("\u{e9}\u{e9}\u{e9}")).is_err());
}

#[test]
fn registration_counts_name_and_address() {
    match register(request("longenough")).unwrap().query() {
        Query::CountTaken { username, email } => {
            assert_eq!(username, "alice");
            assert_eq!(email, "alice@example.com");
        }
        _ => panic!("another query"),
    }
}

#[test]
fn taken_name_is_a_conflict() {
    let counting = register(request("longenough")).unwrap();
    assert_eq!(
        refused(counting.resume(Ok(1))),
        (Status::Conflict, "Username or email is already taken".to_string())
    );
}

#[test]
fn registration_reports_failures() {
    let failed = (Status::InternalServerError, "boom".to_string());
    let counting = register(request("longenough")).unwrap();
    assert_eq!(refused(counting.resume(Err("boom".to_string()))), failed);
    let hashing = register(request("longenough")).unwrap().resume(Ok(0)).unwrap();
    assert_eq!(refused(hashing.resume(Err("boom".to_string()))), failed);
    assert_eq!(refused(storing("hash").resume(Err("boom".to_string()))), failed);
}

#[test]
fn registration_stores_the_hash_and_not_the_password() {
    match storing("hash").query() {
        Query::InsertUser { email, username, password_hash, public_key } => {
            assert_eq!(email, "alice@example.com");
            assert_eq!(username, "alice");
            assert_eq!(password_hash, "hash");
            assert_eq!(public_key, "key");
        }
        _ => panic!("another query"),
    }
}

#[test]
fn registration_is_welcomed() {
    let (status, response) = storing("hash").resume(Ok(())).unwrap();
    assert_eq!(status, Status::Created);
    assert_eq!(response.message, "Welcome to XETA, alice!");
    assert_eq!(response.username, "alice");
}

#[test]
fn registered_password_passes_a_later_check() {
    let storing = register(request("longenough")).unwrap().resume(Ok(0)).unwrap().hash().unwrap();
    let hash = match storing.query() {
        Query::InsertUser { password_hash, .. } => password_hash,
        _ => panic!("another query"),
    };
    assert_eq!(hash.len(), 60);
    assert!(hash.starts_with("$2b$12$"));
    assert!(checking("longenough", &hash).check().is_ok());
}

#[test]
fn hashes_are_salted() {
    let one = hash_password("longenough").unwrap();
    let other = hash_password("longenough").unwrap();
    assert_ne!(one, other);
    assert_eq!(verify_password("longenough", &one), Ok(true));
    assert_eq!(verify_password("longenougH", &one), Ok(false));
}

fn checking(password: &str, hash: &str) -> LoginChecking {
    let body = LoginRequest { identifier: "alice".to_string(), password: password.to_string() };
    let user = UserAuth { username: "alice".to_string(), password_hash: hash.to_string() };
    login(body).resume(Ok(Some(user))).unwrap()
}

fn identifying() -> LoginIdentifying {
    checking("password", PASSWORD_HASH).resume(Ok(true)).unwrap()
}

fn signing() -> LoginSigning {
    identifying().resume(Ok(ALICE)).unwrap()
}

#[test]
fn login_looks_for_the_identifier() {
    let body = LoginRequest { identifier: "a@b.c".to_string(), password: "p".to_string() };
    match login(body).query() {
        Query::Credentials { identifier } => assert_eq!(identifier, "a@b.c"),
        _ => panic!("another query"),
    }
}

#[test]
fn unknown_account_and_wrong_password_are_answered_alike() {
    let body = LoginRequest { identifier: "nobody".to_string(), password: "p".to_string() };
    let unknown = refused(login(body).resume(Ok(None)));
    let wrong = refused(checking("passwore", PASSWORD_HASH).check());
    assert_eq!(unknown, (Status::Unauthorized, "Invalid credentials".to_string()));
    assert_eq!(unknown, wrong);
}

#[test]
fn right_password_asks_for_the_identifier() {
    match checking("password", PASSWORD_HASH).check().unwrap().query() {
        Query::IdByName { username } => assert_eq!(username, "alice"),
        _ => panic!("another query"),
    }
}

#[test]
fn damaged_hash_is_a_failure() {
    let (status, error) = refused(checking("password", "nonsense").check());
    assert_eq!(status, Status::InternalServerError);
    assert_eq!(Err(error), verify_password("password", "nonsense"));
}

#[test]
fn login_reports_failures() {
    let failed = (Status::InternalServerError, "boom".to_string());
    let body = LoginRequest { identifier: "alice".to_string(), password: "p".to_string() };
    assert_eq!(refused(login(body).resume(Err("boom".to_string()))), failed);
    let check = checking("password", PASSWORD_HASH);
    assert_eq!(refused(check.resume(Err("boom".to_string()))), failed);
    assert_eq!(refused(identifying().resume(Err("boom".to_string()))), failed);
    assert_eq!(refused(signing().respond(Err("boom".to_string()))), failed);
}

#[test]
fn login_answers_with_the_token() {
    let response = signing().respond(Ok("token".to_string())).unwrap();
    assert_eq!(response.token, "token");
    assert_eq!(response.username, "alice");
}

#[test]
fn login_token_authenticates_its_user() {
    let response = signing().sign("secret").unwrap();
    let header = format!("Bearer {}", response.token);
    let user = AuthUser::from_request_parts(Some(header.as_bytes()), "secret").unwrap();
    assert_eq!(user.id, ALICE);
    assert_eq!(user.username, "alice");
}

use std::cell::RefCell;

use server::entities::{LoginRequest, RegisterUserRequest, UpdateUserRequest, User};
use server::errors::AuthError;
use server::handlers::{auth_user, get_current_user, register_user, update_current_user};
use server::jwt_service::{JwtService, TokenClass};
use server::password::hash_password;
use server::traits::UserAuthRepository;

const ALICE: u128 = 0x550e8400_e29b_41d4_a716_446655440000;
const NOW: i64 = 1_700_000_000;

/// A store that writes down what it is asked and answers as it was told to.
struct RecordingStore {
    asked: RefCell<Vec<String>>,
    account: Option<User>,
    hash: Option<String>,
    fault: Option<String>,
}

impl RecordingStore {
    fn holding(account: Option<User>, hash: Option<String>) -> Self {
        RecordingStore { asked: RefCell::new(Vec::new()), account, hash, fault: None }
    }

    fn failing(fault: &str) -> Self {
        RecordingStore {
            asked: RefCell::new(Vec::new()),
            account: None,
            hash: None,
            fault: Some(fault.to_string()),
        }
    }

    fn asked(&self) -> Vec<String> {
        self.asked.borrow().clone()
    }

    fn answer<T>(&self, value: T) -> Result<T, String> {
        match &self.fault {
            Some(fault) => Err(fault.clone()),
            None => Ok(value),
        }
    }
}

impl UserAuthRepository for RecordingStore {
    fn find_by_username(&self, username: &str) -> Result<Option<User>, String> {
        self.asked.borrow_mut().push(format!("find_by_username {:?}", username));
        self.answer(self.account.clone().filter(|user| user.username == username))
    }

    fn find_by_id(&self, id: u128) -> Result<Option<User>, String> {
        self.asked.borrow_mut().push(format!("find_by_id {:x}", id));
        self.answer(self.account.clone().filter(|user| user.id == id))
    }

    fn get_password_hash(&self, username: &str) -> Result<Option<String>, String> {
        self.asked.borrow_mut().push(format!("get_password_hash {:?}", username));
        self.answer(self.hash.clone())
    }

    fn create_user_with_password(
        &mut self,
        username: &str,
        password: &str,
        first_name: Option<&str>,
        last_name: Option<&str>,
        email: Option<&str>,
        user_type_id: Option<i32>,
    ) -> Result<User, String> {
        self.asked.borrow_mut().push(format!(
            "create_user_with_password {:?} {:?} {:?} {:?} {:?} {:?}",
            username, password, first_name, last_name, email, user_type_id
        ));
        let user = User {
            id: ALICE,
            username: username.to_string(),
            first_name: first_name.map(str::to_string),
            last_name: last_name.map(str::to_string),
            email: email.map(str::to_string),
            user_type_id: user_type_id.unwrap_or(1),
            created_at: 10,
            updated_at: 10,
            deleted_at: None,
        };
        self.answer(user)
    }

    fn update_user_fields(
        &mut self,
        id: u128,
        first_name: Option<&str>,
        last_name: Option<&str>,
        email: Option<&str>,
    ) -> Result<Option<User>, String> {
        self.asked.borrow_mut().push(format!(
            "update_user_fields {:x} {:?} {:?} {:?}",
            id, first_name, last_name, email
        ));
        self.answer(self.account.clone().filter(|user| user.id == id))
    }
}

fn alice() -> User {
    User {
        id: ALICE,
        username: "alice".to_string(),
        first_name: None,
        last_name: None,
        email: Some("a@x.com".to_string()),
        user_type_id: 1,
        created_at: 10,
        updated_at: 10,
        deleted_at: None,
    }
}

fn service() -> JwtService {
    JwtService::new(Some("a-test-secret"))
}

fn login(username: &str, password: &str) -> LoginRequest {
    LoginRequest { username: username.to_string(), password: password.to_string() }
}

fn registration(username: &str, password: &str, email: &str) -> RegisterUserRequest {
    RegisterUserRequest {
        username: username.to_string(),
        first_name: Some("Alice".to_string()),
        last_name: None,
        email: email.to_string(),
        password: password.to_string(),
    }
}

fn bearer(token: &str) -> Vec<u8> {
    format!("Bearer {}", token).into_bytes()
}

#[test]
fn login_asks_for_the_account_and_then_for_its_hash() {
    let hash = hash_password("secret1", 4).unwrap();
    let store = RecordingStore::holding(Some(alice()), Some(hash));
    let reply = auth_user::handler(&service(), &store, login("alice", "secret1")).unwrap();
    assert_eq!(reply.body.user.id, ALICE);
    assert_eq!(
        store.asked(),
        vec!["find_by_username \"alice\"".to_string(), "get_password_hash \"alice\"".to_string()]
    );
}

#[test]
fn login_does_not_ask_for_a_hash_where_no_account_is_found() {
    let store = RecordingStore::holding(None, Some("unused".to_string()));
    let rejected = auth_user::handler(&service(), &store, login("alice", "secret1")).unwrap_err();
    assert_eq!(rejected.error, AuthError::InvalidCredentials);
    assert_eq!(store.asked(), vec!["find_by_username \"alice\"".to_string()]);
}

#[test]
fn login_does_not_show_what_the_store_reported() {
    let store = RecordingStore::failing("FATAL: password authentication failed for user \"app\"");
    let rejected = auth_user::handler(&service(), &store, login("alice", "secret1")).unwrap_err();
    assert_eq!(rejected.error, AuthError::RepositoryFailure);
    assert_eq!(rejected.status(), 500);
    assert_eq!(rejected.message, "Ошибка поиска пользователя");
    assert!(!rejected.message.contains("FATAL"));
    assert_eq!(store.asked(), vec!["find_by_username \"alice\"".to_string()]);
}

#[test]
fn login_token_is_admitted_for_the_account() {
    let hash = hash_password("secret1", 4).unwrap();
    let store = RecordingStore::holding(Some(alice()), Some(hash));
    let service = service();
    let session = auth_user::handler(&service, &store, login("alice", "secret1")).unwrap();
    assert!(session.body.access_token.bytes().all(|b| (32..127).contains(&b)));
    assert!(session.body.refresh_token.bytes().all(|b| (32..127).contains(&b)));
    let reply =
        get_current_user::handler(Some(&bearer(&session.body.access_token)), &service, &store)
            .unwrap();
    assert_eq!(reply.status, 200);
    assert_eq!(reply.body.id, ALICE);
    assert_eq!(reply.body.username, "alice");
    assert_eq!(reply.body.email.as_deref(), Some("a@x.com"));
    assert_eq!(store.asked().last().unwrap(), "find_by_id 550e8400e29b41d4a716446655440000");
}

#[test]
fn registration_hands_the_request_to_the_store_once() {
    let mut store = RecordingStore::holding(None, None);
    let reply =
        register_user::handler(&mut store, registration("alice", "secret1", "a@x.com")).unwrap();
    assert_eq!(reply.status, 201);
    assert_eq!(reply.body.id, ALICE);
    assert_eq!(reply.body.email, "a@x.com");
    assert_eq!(
        store.asked(),
        vec![
            "find_by_username \"alice\"".to_string(),
            "create_user_with_password \"alice\" \"secret1\" Some(\"Alice\") None Some(\"a@x.com\") None"
                .to_string(),
        ]
    );
}

#[test]
fn registration_of_a_taken_username_does_not_reach_the_creation() {
    let mut store = RecordingStore::holding(Some(alice()), None);
    let rejected =
        register_user::handler(&mut store, registration("alice", "secret1", "b@x.com"))
            .unwrap_err();
    assert_eq!(rejected.error, AuthError::DuplicateUsername);
    assert_eq!(rejected.status(), 400);
    assert_eq!(store.asked(), vec!["find_by_username \"alice\"".to_string()]);
}

#[test]
fn invalid_registration_does_not_reach_the_store() {
    let mut store = RecordingStore::holding(None, None);
    let rejected =
        register_user::handler(&mut store, registration("alice", "12345", "a@x.com")).unwrap_err();
    assert_eq!(rejected.error, AuthError::InvalidRequest);
    assert!(store.asked().is_empty());
}

#[test]
fn registration_shows_what_the_store_reported() {
    let mut store = RecordingStore::failing("disk full");
    let rejected =
        register_user::handler(&mut store, registration("alice", "secret1", "a@x.com"))
            .unwrap_err();
    assert_eq!(rejected.error, AuthError::RepositoryFailure);
    assert_eq!(rejected.message, "Ошибка проверки пользователя: disk full");
    assert_eq!(store.asked().len(), 1);
}

#[test]
fn self_lookup_asks_for_the_account_of_the_token() {
    let store = RecordingStore::holding(Some(alice()), None);
    let service = service();
    let token = service.generate_refresh_token(ALICE, "a@x.com").unwrap();
    let reply = get_current_user::handler(Some(&bearer(&token)), &service, &store).unwrap();
    assert_eq!(reply.body.id, ALICE);
    assert_eq!(store.asked(), vec!["find_by_id 550e8400e29b41d4a716446655440000".to_string()]);
}

#[test]
fn self_lookup_with_an_expired_token_does_not_reach_the_store() {
    let store = RecordingStore::holding(Some(alice()), None);
    let service = service();
    let token = service.mint_at(ALICE, "a@x.com", TokenClass::Access, NOW).unwrap();
    let rejected =
        get_current_user::handler(Some(&bearer(&token)), &service, &store).unwrap_err();
    assert_eq!(rejected.error, AuthError::InvalidCredential);
    assert!(store.asked().is_empty());
}

#[test]
fn self_lookup_with_a_rejected_credential_does_not_reach_the_store() {
    let store = RecordingStore::holding(Some(alice()), None);
    let service = service();
    for header in [None, Some(&b"Bearer nonsense"[..]), Some(&b"Basic abc"[..])] {
        assert!(get_current_user::handler(header, &service, &store).is_err());
    }
    assert!(store.asked().is_empty());
}

#[test]
fn update_hands_the_guard_s_account_and_the_three_fields_to_the_store() {
    let mut store = RecordingStore::holding(Some(alice()), None);
    let service = service();
    let token = service.generate_access_token(ALICE, "a@x.com").unwrap();
    let request = UpdateUserRequest {
        first_name: Some("Alice".to_string()),
        last_name: None,
        email: Some("new@x.com".to_string()),
    };
    let reply =
        update_current_user::handler(Some(&bearer(&token)), &service, &mut store, request)
            .unwrap();
    assert_eq!(reply.body.user.id, ALICE);
    assert_eq!(
        store.asked(),
        vec![
            "update_user_fields 550e8400e29b41d4a716446655440000 Some(\"Alice\") None Some(\"new@x.com\")"
                .to_string()
        ]
    );
}

#[test]
fn update_with_a_rejected_credential_does_not_reach_the_store() {
    let mut store = RecordingStore::holding(Some(alice()), None);
    let service = service();
    let old = service.mint_at(ALICE, "a@x.com", TokenClass::Access, 1_000).unwrap();
    for header in [None, Some(bearer("nonsense")), Some(bearer(&old))] {
        let request =
            UpdateUserRequest { first_name: Some("X".to_string()), last_name: None, email: None };
        let rejected =
            update_current_user::handler(header.as_deref(), &service, &mut store, request);
        assert!(rejected.is_err());
    }
    assert!(store.asked().is_empty());
}

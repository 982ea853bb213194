use server::entities::{LoginRequest, RefreshTokenRequest, RegisterUserRequest, UpdateUserRequest};
use server::errors::AuthError;
use server::handlers::{auth_user, get_current_user, refresh, register_user, update_current_user};
use server::identifier::user_id_text;
use server::jwt_service::{JwtService, TokenClass};
use server::traits::{UserAuthRepository, UserRepository};
use server::user_repository::InMemoryUserRepository;

fn service() -> JwtService {
    JwtService::new(Some("a-test-secret"))
}

fn registration(username: &str, password: &str, email: &str) -> RegisterUserRequest {
    RegisterUserRequest {
        username: username.to_string(),
        first_name: None,
        last_name: None,
        email: email.to_string(),
        password: password.to_string(),
    }
}

fn login(username: &str, password: &str) -> LoginRequest {
    LoginRequest { username: username.to_string(), password: password.to_string() }
}

fn bearer(token: &str) -> Vec<u8> {
    format!("Bearer {}", token).into_bytes()
}

fn with_alice() -> InMemoryUserRepository {
    let mut store = InMemoryUserRepository::with_cost(4);
    register_user::handler(&mut store, registration("alice", "secret1", "a@x.com")).unwrap();
    store
}

#[test]
fn register_answers_created_with_a_generated_id() {
    let mut store = InMemoryUserRepository::with_cost(4);
    let reply =
        register_user::handler(&mut store, registration("alice", "secret1", "a@x.com")).unwrap();
    assert_eq!(reply.status, 201);
    assert_eq!(reply.body.email, "a@x.com");
    assert_eq!(reply.body.message, "Пользователь успешно зарегистрирован");
    let stored = store.find_by_username("alice").unwrap().unwrap();
    assert_eq!(stored.id, reply.body.id);
    assert_eq!(stored.email.as_deref(), Some("a@x.com"));
    assert_eq!(stored.user_type_id, 1);
}

#[test]
fn login_answers_tokens_for_the_account() {
    let store = with_alice();
    let service = service();
    let alice = store.find_by_username("alice").unwrap().unwrap();
    let reply = auth_user::handler(&service, &store, login("alice", "secret1")).unwrap();
    assert_eq!(reply.status, 200);
    assert_eq!(reply.body.user.id, alice.id);
    assert_eq!(reply.body.user.username, "alice");
    assert_eq!(reply.body.user.email.as_deref(), Some("a@x.com"));
    let access = service.verify_token(&reply.body.access_token).unwrap();
    assert_eq!(access.token_type, "access");
    assert_eq!(access.sub, user_id_text(alice.id));
    assert_eq!(access.email, "a@x.com");
    assert_eq!(access.exp - access.iat, 900);
    let refresh = service.verify_token(&reply.body.refresh_token).unwrap();
    assert_eq!(refresh.token_type, "refresh");
    assert_eq!(refresh.sub, access.sub);
    assert_eq!(refresh.exp - refresh.iat, 2_592_000);
}

#[test]
fn self_lookup_answers_the_public_identity() {
    let store = with_alice();
    let service = service();
    let session = auth_user::handler(&service, &store, login("alice", "secret1")).unwrap();
    let header = bearer(&session.body.access_token);
    let reply = get_current_user::handler(Some(&header), &service, &store).unwrap();
    assert_eq!(reply.status, 200);
    assert_eq!(reply.body.id, session.body.user.id);
    assert_eq!(reply.body.username, "alice");
    assert_eq!(reply.body.email.as_deref(), Some("a@x.com"));
    assert_eq!(reply.body.user_type_id, 1);
    let shown = format!("{:?}", reply.body);
    let hash = store.get_password_hash("alice").unwrap().unwrap();
    assert!(!shown.contains(&hash));
    assert!(!shown.contains("secret1"));
}

#[test]
fn self_lookup_without_header_is_rejected() {
    let store = with_alice();
    let rejected = get_current_user::handler(None, &service(), &store).unwrap_err();
    assert_eq!(rejected.error, AuthError::MissingCredential);
    assert_eq!(rejected.status(), 401);
}

#[test]
fn refresh_with_an_access_token_is_rejected() {
    let store = with_alice();
    let service = service();
    let session = auth_user::handler(&service, &store, login("alice", "secret1")).unwrap();
    let rejected = refresh::handler(
        &service,
        RefreshTokenRequest { refresh_token: session.body.access_token },
    )
    .unwrap_err();
    assert_eq!(rejected.error, AuthError::WrongTokenClass);
    assert_eq!(rejected.status(), 400);
    assert_eq!(rejected.message, "Неверный тип токена");
}

#[test]
fn login_with_a_wrong_password_looks_like_an_unknown_username() {
    let store = with_alice();
    let service = service();
    let wrong = auth_user::handler(&service, &store, login("alice", "wrong-password")).unwrap_err();
    let unknown = auth_user::handler(&service, &store, login("nobody", "secret1")).unwrap_err();
    assert_eq!(wrong.error, AuthError::InvalidCredentials);
    assert_eq!(wrong.status(), 401);
    assert_eq!(wrong.message, "Неверный username или пароль");
    assert_eq!(unknown.error, wrong.error);
    assert_eq!(unknown.status(), wrong.status());
    assert_eq!(unknown.message, wrong.message);
}

#[test]
fn login_against_a_soft_deleted_account_looks_like_an_unknown_username() {
    let mut store = with_alice();
    let service = service();
    let alice = store.find_by_username("alice").unwrap().unwrap();
    assert!(auth_user::handler(&service, &store, login("alice", "secret1")).is_ok());
    assert_eq!(store.delete_user(alice.id), Ok(true));
    assert!(store.find_by_username("alice").unwrap().is_none());
    let rejected = auth_user::handler(&service, &store, login("alice", "secret1")).unwrap_err();
    assert_eq!(rejected.error, AuthError::InvalidCredentials);
    assert_eq!(rejected.message, "Неверный username или пароль");
}

#[test]
fn token_of_a_soft_deleted_account_finds_no_account() {
    let mut store = with_alice();
    let service = service();
    let session = auth_user::handler(&service, &store, login("alice", "secret1")).unwrap();
    store.delete_user(session.body.user.id).unwrap();
    let header = bearer(&session.body.access_token);
    let rejected = get_current_user::handler(Some(&header), &service, &store).unwrap_err();
    assert_eq!(rejected.error, AuthError::AccountNotFound);
    assert_eq!(rejected.status(), 404);
    assert_eq!(rejected.message, "Пользователь не найден");
}

#[test]
fn refresh_answers_a_new_access_token_only() {
    let store = with_alice();
    let service = service();
    let session = auth_user::handler(&service, &store, login("alice", "secret1")).unwrap();
    let reply = refresh::handler(
        &service,
        RefreshTokenRequest { refresh_token: session.body.refresh_token.clone() },
    )
    .unwrap();
    assert_eq!(reply.status, 200);
    let claims = service.verify_token(&reply.body.access_token).unwrap();
    assert_eq!(claims.token_type, "access");
    assert_eq!(claims.sub, user_id_text(session.body.user.id));
    assert_eq!(claims.email, "a@x.com");
    assert_eq!(claims.exp - claims.iat, 900);
    assert!(service.verify_token(&session.body.refresh_token).is_ok());
}

#[test]
fn refresh_at_an_instant() {
    let service = service();
    let id = 0x550e8400_e29b_41d4_a716_446655440000u128;
    let token = service.mint_at(id, "a@x.com", TokenClass::Refresh, 1_000).unwrap();
    let reply =
        refresh::handler_at(&service, RefreshTokenRequest { refresh_token: token.clone() }, 2_000)
            .unwrap();
    assert_eq!(
        reply.body.access_token,
        service.mint_at(id, "a@x.com", TokenClass::Access, 2_000).unwrap()
    );
    let claims = service.verify_token_at(&reply.body.access_token, 2_000).unwrap();
    assert_eq!(claims.iat, 2_000);
    assert_eq!(claims.exp, 2_900);

    let late =
        refresh::handler_at(&service, RefreshTokenRequest { refresh_token: token }, 2_593_001)
            .unwrap_err();
    assert_eq!(late.error, AuthError::InvalidCredentials);
    assert_eq!(late.status(), 401);
    assert_eq!(late.message, "Недействительный refresh токен");
}

#[test]
fn refresh_with_garbage_is_rejected() {
    let rejected = refresh::handler(
        &service(),
        RefreshTokenRequest { refresh_token: "not-a-token".to_string() },
    )
    .unwrap_err();
    assert_eq!(rejected.error, AuthError::InvalidCredentials);
    assert_eq!(rejected.message, "Недействительный refresh токен");
}

#[test]
fn refresh_with_a_subject_that_is_no_identifier_is_rejected() {
    let mut payload = serde_json::Map::new();
    payload.insert("sub".to_string(), serde_json::Value::from("alice"));
    payload.insert("email".to_string(), serde_json::Value::from("a@x.com"));
    payload.insert("exp".to_string(), serde_json::Value::from(2_000u64));
    payload.insert("iat".to_string(), serde_json::Value::from(1_000u64));
    payload.insert("token_type".to_string(), serde_json::Value::from("refresh"));
    let token = jsonwebtoken::encode(
        &jsonwebtoken::Header::default(),
        &payload,
        &jsonwebtoken::EncodingKey::from_secret(b"a-test-secret"),
    )
    .unwrap();
    let rejected =
        refresh::handler_at(&service(), RefreshTokenRequest { refresh_token: token }, 1_500)
            .unwrap_err();
    assert_eq!(rejected.error, AuthError::MalformedCredential);
    assert_eq!(rejected.status(), 400);
    assert_eq!(rejected.message, "Неверный формат пользователя в токене");
}

#[test]
fn registration_is_validated_before_the_store_is_asked() {
    let mut store = InMemoryUserRepository::with_cost(4);
    let cases = [
        (registration("", "secret1", "a@x.com"), "Username обязателен"),
        (registration("alice", "secret1", ""), "Email обязателен"),
        (registration("alice", "", "a@x.com"), "Пароль должен быть не менее 6 символов"),
        (registration("alice", "12345", "a@x.com"), "Пароль должен быть не менее 6 символов"),
        (registration("alice", "пар", "a@x.com"), "Пароль должен быть не менее 6 символов"),
    ];
    for (request, message) in cases {
        let rejected = register_user::handler(&mut store, request).unwrap_err();
        assert_eq!(rejected.error, AuthError::InvalidRequest);
        assert_eq!(rejected.status(), 400);
        assert_eq!(rejected.message, message);
    }
    assert_eq!(store.get_all_users().unwrap().len(), 0);
}

#[test]
fn password_of_six_characters_is_long_enough() {
    let mut store = InMemoryUserRepository::with_cost(4);
    assert!(register_user::validate(&registration("alice", "123456", "a@x.com")).is_ok());
    assert!(register_user::validate(&registration("alice", "пароль", "a@x.com")).is_ok());
    assert!(register_user::handler(&mut store, registration("alice", "пароль", "a@x.com")).is_ok());
    let service = service();
    assert!(auth_user::handler(&service, &store, login("alice", "пароль")).is_ok());
}

#[test]
fn registration_of_a_taken_username_is_rejected() {
    let mut store = with_alice();
    let rejected =
        register_user::handler(&mut store, registration("alice", "another1", "b@x.com"))
            .unwrap_err();
    assert_eq!(rejected.error, AuthError::DuplicateUsername);
    assert_eq!(rejected.status(), 400);
    assert_eq!(rejected.message, "Пользователь с таким username уже существует");
    assert_eq!(store.get_all_users().unwrap().len(), 1);
    let service = service();
    assert!(auth_user::handler(&service, &store, login("alice", "secret1")).is_ok());
    assert!(auth_user::handler(&service, &store, login("alice", "another1")).is_err());
}

#[test]
fn registration_keeps_the_names_given() {
    let mut store = InMemoryUserRepository::with_cost(4);
    let request = RegisterUserRequest {
        username: "alice".to_string(),
        first_name: Some("Alice".to_string()),
        last_name: Some("Liddell".to_string()),
        email: "a@x.com".to_string(),
        password: "secret1".to_string(),
    };
    register_user::handler(&mut store, request).unwrap();
    let stored = store.find_by_username("alice").unwrap().unwrap();
    assert_eq!(stored.first_name.as_deref(), Some("Alice"));
    assert_eq!(stored.last_name.as_deref(), Some("Liddell"));
}

#[test]
fn profile_update_works_on_the_caller_only() {
    let mut store = with_alice();
    register_user::handler(&mut store, registration("bob", "hunter22", "b@x.com")).unwrap();
    let service = service();
    let session = auth_user::handler(&service, &store, login("alice", "secret1")).unwrap();
    let header = bearer(&session.body.access_token);
    let reply = update_current_user::handler(
        Some(&header),
        &service,
        &mut store,
        UpdateUserRequest {
            first_name: Some("Alice".to_string()),
            last_name: None,
            email: Some("alice@x.com".to_string()),
        },
    )
    .unwrap();
    assert_eq!(reply.status, 200);
    assert_eq!(reply.body.message, "Пользователь успешно обновлен");
    assert_eq!(reply.body.user.id, session.body.user.id);
    assert_eq!(reply.body.user.first_name.as_deref(), Some("Alice"));
    assert_eq!(reply.body.user.last_name, None);
    assert_eq!(reply.body.user.email.as_deref(), Some("alice@x.com"));
    let bob = store.find_by_username("bob").unwrap().unwrap();
    assert_eq!(bob.first_name, None);
    assert_eq!(bob.email.as_deref(), Some("b@x.com"));
}

#[test]
fn profile_update_without_credential_is_rejected() {
    let mut store = with_alice();
    let service = service();
    let request = UpdateUserRequest { first_name: Some("X".to_string()), last_name: None, email: None };
    let rejected =
        update_current_user::handler(None, &service, &mut store, request).unwrap_err();
    assert_eq!(rejected.error, AuthError::MissingCredential);
    let request = UpdateUserRequest { first_name: Some("X".to_string()), last_name: None, email: None };
    let rejected =
        update_current_user::handler(Some(b"Bearer nonsense"), &service, &mut store, request)
            .unwrap_err();
    assert_eq!(rejected.error, AuthError::InvalidCredential);
    assert_eq!(store.find_by_username("alice").unwrap().unwrap().first_name, None);
}

#[test]
fn token_email_is_a_copy_taken_at_mint_time() {
    let mut store = with_alice();
    let service = service();
    let session = auth_user::handler(&service, &store, login("alice", "secret1")).unwrap();
    store
        .update_user_fields(session.body.user.id, None, None, Some("new@x.com"))
        .unwrap()
        .unwrap();
    let claims = service.verify_token(&session.body.access_token).unwrap();
    assert_eq!(claims.email, "a@x.com");
    let refreshed = refresh::handler(
        &service,
        RefreshTokenRequest { refresh_token: session.body.refresh_token },
    )
    .unwrap();
    assert_eq!(service.verify_token(&refreshed.body.access_token).unwrap().email, "a@x.com");
}

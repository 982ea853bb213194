use vstd::prelude::*;
use vstd::string::*;
use crate::identifier::UserId;

verus! {

/// The text an optional string stands for.
pub open spec fn text_of(field: Option<String>) -> Option<Seq<char>> {
    match field {
        Some(s) => Some(s@),
        None => None,
    }
}

/// Copies an optional string.
pub fn copy_text(field: &Option<String>) -> (copy: Option<String>)
    ensures
        copy == *field,
{
    match field {
        Some(s) => Some(s.clone()),
        None => None,
    }
}

/// The text of an optional borrowed string.
pub open spec fn text_given(field: Option<&str>) -> Option<Seq<char>> {
    match field {
        Some(s) => Some(s@),
        None => None,
    }
}

/// The borrowed text of an optional string.
pub fn borrowed(field: &Option<String>) -> (text: Option<&str>)
    ensures
        text_given(text) == text_of(*field),
{
    match field {
        Some(value) => Some(value.as_str()),
        None => None,
    }
}

/// Copies an optional borrowed string into an owned one.
pub fn own_text(field: Option<&str>) -> (owned: Option<String>)
    ensures
        match field {
            Some(s) => owned matches Some(o) && o@ == s@,
            None => owned is None,
        },
{
    match field {
        Some(s) => Some(String::from_str(s)),
        None => None,
    }
}

/// Outcome of a database health probe, as reported to a caller.
#[derive(Debug)]
pub struct DbStatus {
    pub status: String,
    pub message: String,
    pub connected: bool,
}

impl DbStatus {
    /// A report that the database answered.
    pub fn connected(message: String) -> (report: Self)
        ensures
            report.status@ == "ok"@,
            report.message == message,
            report.connected,
    {
        DbStatus { status: String::from_str("ok"), message, connected: true }
    }

    /// A report that the database could not be reached.
    pub fn disconnected(message: String) -> (report: Self)
        ensures
            report.status@ == "error"@,
            report.message == message,
            !report.connected,
    {
        DbStatus { status: String::from_str("error"), message, connected: false }
    }

    /// Whether the status word agrees with the connection flag.
    pub open spec fn consistent(&self) -> bool {
        if self.connected {
            self.status@ == "ok"@
        } else {
            self.status@ == "error"@
        }
    }
}

impl Clone for DbStatus {
    fn clone(&self) -> (copy: Self)
        ensures
            copy == *self,
    {
        DbStatus {
            status: self.status.clone(),
            message: self.message.clone(),
            connected: self.connected,
        }
    }
}

/// Answer of the liveness endpoint.
#[derive(Debug)]
pub struct PingResponse {
    pub status: String,
    pub message: String,
}

impl Default for PingResponse {
    fn default() -> (pong: Self)
        ensures
            pong.status@ == "ok"@,
            pong.message@ == "pong"@,
    {
        PingResponse { status: String::from_str("ok"), message: String::from_str("pong") }
    }
}

impl Clone for PingResponse {
    fn clone(&self) -> (copy: Self)
        ensures
            copy == *self,
    {
        PingResponse { status: self.status.clone(), message: self.message.clone() }
    }
}

/// The user type given to an account where none is chosen: a standard user.
pub const STANDARD_USER_TYPE: i32 = 1;

/// An account record. Timestamps are microseconds since the Unix epoch.
/// A record whose `deleted_at` is set is kept for audit and shown to no one.
#[derive(Debug)]
pub struct User {
    pub id: UserId,
    pub username: String,
    pub first_name: Option<String>,
    pub last_name: Option<String>,
    pub email: Option<String>,
    pub user_type_id: i32,
    pub created_at: i64,
    pub updated_at: i64,
    pub deleted_at: Option<i64>,
}

/// An account record as a mathematical value.
pub struct UserView {
    pub id: u128,
    pub username: Seq<char>,
    pub first_name: Option<Seq<char>>,
    pub last_name: Option<Seq<char>>,
    pub email: Option<Seq<char>>,
    pub user_type_id: i32,
    pub created_at: i64,
    pub updated_at: i64,
    pub deleted_at: Option<i64>,
}

impl UserView {
    /// Whether lookups may show the record.
    pub open spec fn visible(self) -> bool {
        self.deleted_at is None
    }

    /// The part of the record that may be handed to a caller.
    pub open spec fn public(self) -> UserInfoView {
        UserInfoView {
            id: self.id,
            username: self.username,
            first_name: self.first_name,
            last_name: self.last_name,
            email: self.email,
            user_type_id: self.user_type_id,
        }
    }
}

impl View for User {
    type V = UserView;

    open spec fn view(&self) -> UserView {
        UserView {
            id: self.id,
            username: self.username@,
            first_name: text_of(self.first_name),
            last_name: text_of(self.last_name),
            email: text_of(self.email),
            user_type_id: self.user_type_id,
            created_at: self.created_at,
            updated_at: self.updated_at,
            deleted_at: self.deleted_at,
        }
    }
}

impl Clone for User {
    fn clone(&self) -> (copy: Self)
        ensures
            copy == *self,
    {
        User {
            id: self.id,
            username: self.username.clone(),
            first_name: copy_text(&self.first_name),
            last_name: copy_text(&self.last_name),
            email: copy_text(&self.email),
            user_type_id: self.user_type_id,
            created_at: self.created_at,
            updated_at: self.updated_at,
            deleted_at: self.deleted_at,
        }
    }
}

/// The mathematical value of an optional record.
pub open spec fn user_value(found: Option<User>) -> Option<UserView> {
    match found {
        Some(user) => Some(user@),
        None => None,
    }
}

/// The mathematical values of records.
pub open spec fn users_view(users: Seq<User>) -> Seq<UserView> {
    users.map_values(|user: User| user@)
}

/// The mathematical value of a record or a store's refusal.
pub open spec fn record_value(answer: Result<User, String>) -> Result<UserView, Seq<char>> {
    match answer {
        Ok(user) => Ok(user@),
        Err(text) => Err(text@),
    }
}

/// The mathematical value of a lookup's answer.
pub open spec fn lookup_value(answer: Result<Option<User>, String>) -> Result<
    Option<UserView>,
    Seq<char>,
> {
    match answer {
        Ok(Some(user)) => Ok(Some(user@)),
        Ok(None) => Ok(None),
        Err(text) => Err(text@),
    }
}

/// The mathematical value of what a store answered to a lookup of a text.
pub open spec fn text_lookup_value(answer: Result<Option<String>, String>) -> Result<
    Option<Seq<char>>,
    Seq<char>,
> {
    match answer {
        Ok(Some(text)) => Ok(Some(text@)),
        Ok(None) => Ok(None),
        Err(text) => Err(text@),
    }
}

/// Body of a registration request.
#[derive(Debug)]
pub struct RegisterUserRequest {
    pub username: String,
    pub first_name: Option<String>,
    pub last_name: Option<String>,
    pub email: String,
    pub password: String,
}

/// Answer to a registration that went through.
#[derive(Debug)]
pub struct RegisterUserResponse {
    pub id: UserId,
    pub email: String,
    pub message: String,
}

/// Body of a login request.
#[derive(Debug)]
pub struct LoginRequest {
    pub username: String,
    pub password: String,
}

/// Answer to a login that went through.
#[derive(Debug)]
pub struct LoginResponse {
    pub access_token: String,
    pub refresh_token: String,
    pub user: UserInfo,
}

/// The public face of an account: no password material, no timestamps.
#[derive(Debug)]
pub struct UserInfo {
    pub id: UserId,
    pub username: String,
    pub first_name: Option<String>,
    pub last_name: Option<String>,
    pub email: Option<String>,
    pub user_type_id: i32,
}

/// The public face of an account as a mathematical value.
pub struct UserInfoView {
    pub id: u128,
    pub username: Seq<char>,
    pub first_name: Option<Seq<char>>,
    pub last_name: Option<Seq<char>>,
    pub email: Option<Seq<char>>,
    pub user_type_id: i32,
}

impl View for UserInfo {
    type V = UserInfoView;

    open spec fn view(&self) -> UserInfoView {
        UserInfoView {
            id: self.id,
            username: self.username@,
            first_name: text_of(self.first_name),
            last_name: text_of(self.last_name),
            email: text_of(self.email),
            user_type_id: self.user_type_id,
        }
    }
}

impl UserInfo {
    /// Projects an account record to its public face.
    pub fn of_user(user: User) -> (info: Self)
        ensures
            info@ == user@.public(),
    {
        UserInfo {
            id: user.id,
            username: user.username,
            first_name: user.first_name,
            last_name: user.last_name,
            email: user.email,
            user_type_id: user.user_type_id,
        }
    }
}

impl Clone for UserInfo {
    fn clone(&self) -> (copy: Self)
        ensures
            copy == *self,
    {
        UserInfo {
            id: self.id,
            username: self.username.clone(),
            first_name: copy_text(&self.first_name),
            last_name: copy_text(&self.last_name),
            email: copy_text(&self.email),
            user_type_id: self.user_type_id,
        }
    }
}

/// Body of a token refresh request.
#[derive(Debug)]
pub struct RefreshTokenRequest {
    pub refresh_token: String,
}

/// Answer to a token refresh that went through.
#[derive(Debug)]
pub struct RefreshTokenResponse {
    pub access_token: String,
}

/// Body of a profile update: a field left out stays as it is.
#[derive(Debug)]
pub struct UpdateUserRequest {
    pub first_name: Option<String>,
    pub last_name: Option<String>,
    pub email: Option<String>,
}

/// Answer to a profile update that went through.
#[derive(Debug)]
pub struct UpdateUserResponse {
    pub user: UserInfo,
    pub message: String,
}

/// Answer of the open endpoint. The timestamp is in microseconds since the
/// Unix epoch.
#[derive(Debug)]
pub struct GuestResponse {
    pub message: String,
    pub timestamp: i64,
}

/// The signed payload of a token. Timestamps are seconds since the Unix epoch.
#[derive(Debug)]
pub struct TokenClaims {
    pub sub: String,
    pub email: String,
    pub exp: u64,
    pub iat: u64,
    pub token_type: String,
}

/// The signed payload of a token as a mathematical value.
pub struct ClaimsView {
    pub sub: Seq<char>,
    pub email: Seq<char>,
    pub exp: u64,
    pub iat: u64,
    pub token_type: Seq<char>,
}

impl View for TokenClaims {
    type V = ClaimsView;

    open spec fn view(&self) -> ClaimsView {
        ClaimsView {
            sub: self.sub@,
            email: self.email@,
            exp: self.exp,
            iat: self.iat,
            token_type: self.token_type@,
        }
    }
}

/// Body of an account creation request of the management interface.
#[derive(Debug)]
pub struct CreateUserRequest {
    pub username: String,
    pub email: String,
}

/// Answer to an account creation of the management interface.
#[derive(Debug)]
pub struct CreateUserResponse {
    pub id: u32,
    pub username: String,
    pub email: String,
    pub message: String,
}

/// A listing of the visible accounts.
#[derive(Debug)]
pub struct UsersListResponse {
    pub users: Vec<User>,
    pub total: usize,
}

} // verus!

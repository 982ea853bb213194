use vstd::prelude::*;
use crate::entities::{
    CreateUserRequest, CreateUserResponse, DbStatus, PingResponse, User, UsersListResponse,
};
use crate::identifier::UserId;

verus! {

/// Something that can probe the database and report on it.
pub trait DatabaseHealthChecker {
    fn check_health(&self) -> DbStatus;
}

/// The health endpoints' view of the system.
pub trait HealthService {
    /// The liveness answer.
    fn status(&self) -> (pong: PingResponse)
        ensures
            pong.status@ == "ok"@,
            pong.message@ == "pong"@,
    ;

    /// The database's report.
    fn check_database(&self) -> DbStatus;
}

/// The store of accounts as the management interface uses it. A failure of
/// the backend is an `Err` with its text; an account that is not there is
/// not. Soft-deleted accounts are shown by no method.
pub trait UserRepository {
    fn create_user(&mut self, user_data: CreateUserRequest) -> (created: Result<User, String>)
        ensures
            created matches Ok(user) ==> user@.visible() && user@.username == user_data.username@
                && user@.email == Some(user_data.email@),
    ;

    fn get_user_by_id(&self, id: UserId) -> (found: Result<Option<User>, String>)
        ensures
            found matches Ok(Some(user)) ==> user@.visible() && user.id == id,
    ;

    fn get_all_users(&self) -> (listed: Result<Vec<User>, String>)
        ensures
            listed matches Ok(users) ==> forall|i: int|
                0 <= i < users@.len() ==> (#[trigger] users@[i])@.visible(),
    ;

    /// Soft-deletes the account; `Ok(false)` where no visible account has
    /// the identifier.
    fn delete_user(&mut self, id: UserId) -> Result<bool, String>;
}

/// The store of accounts as the authentication core uses it. A failure of
/// the backend is an `Err` with its text; an account that is not there is
/// not. Soft-deleted accounts are shown by no method.
pub trait UserAuthRepository {
    fn find_by_username(&self, username: &str) -> (found: Result<Option<User>, String>)
        ensures
            found matches Ok(Some(user)) ==> user@.visible() && user@.username == username@,
    ;

    fn find_by_id(&self, id: UserId) -> (found: Result<Option<User>, String>)
        ensures
            found matches Ok(Some(user)) ==> user@.visible() && user.id == id,
    ;

    fn get_password_hash(&self, username: &str) -> Result<Option<String>, String>;

    /// Hashes the password and stores a new account. A user type left out
    /// is the standard one.
    fn create_user_with_password(
        &mut self,
        username: &str,
        password: &str,
        first_name: Option<&str>,
        last_name: Option<&str>,
        email: Option<&str>,
        user_type_id: Option<i32>,
    ) -> (created: Result<User, String>)
        ensures
            created matches Ok(user) ==> user@.visible() && user@.username == username@,
    ;

    /// Replaces the fields given and keeps those left out.
    fn update_user_fields(
        &mut self,
        id: UserId,
        first_name: Option<&str>,
        last_name: Option<&str>,
        email: Option<&str>,
    ) -> (updated: Result<Option<User>, String>)
        ensures
            updated matches Ok(Some(user)) ==> user@.visible() && user.id == id,
    ;
}

/// The management interface over the store of accounts.
pub trait UserService {
    fn create_user(&mut self, user_data: CreateUserRequest) -> (created: Result<
        CreateUserResponse,
        String,
    >)
        ensures
            created matches Ok(response) ==> response.username@ == user_data.username@,
    ;

    fn get_user(&self, id: UserId) -> (found: Result<User, String>)
        ensures
            found matches Ok(user) ==> user@.visible() && user.id == id,
    ;

    fn get_all_users(&self) -> (listed: Result<UsersListResponse, String>)
        ensures
            listed matches Ok(list) ==> list.total == list.users@.len(),
    ;

    fn delete_user(&mut self, id: UserId) -> Result<String, String>;
}

} // verus!

use vstd::prelude::*;
use vstd::string::*;
use crate::entities::{
    record_value, CreateUserRequest, CreateUserResponse, DbStatus, PingResponse, User, UserView,
    UsersListResponse,
};
use crate::identifier::UserId;
use crate::traits::{DatabaseHealthChecker, HealthService, UserRepository, UserService};

verus! {

/// The health endpoints' service over a database checker.
pub struct HealthServiceImpl<C: DatabaseHealthChecker> {
    db_checker: C,
}

impl<C: DatabaseHealthChecker> HealthServiceImpl<C> {
    /// The checker that the service asks.
    pub closed spec fn checker(&self) -> C {
        self.db_checker
    }

    pub fn new(db_checker: C) -> (service: Self)
        ensures
            service.checker() == db_checker,
    {
        HealthServiceImpl { db_checker }
    }
}

impl<C: DatabaseHealthChecker> HealthService for HealthServiceImpl<C> {
    fn status(&self) -> (pong: PingResponse) {
        PingResponse::default()
    }

    /// The report is the one that the checker gave when asked.
    fn check_database(&self) -> (report: DbStatus)
        ensures
            call_ensures(C::check_health, (&self.checker(),), report),
    {
        self.db_checker.check_health()
    }
}

/// The identifier that every creation answer of the management interface
/// carries, whatever account was made.
pub const CREATED_ANSWER_ID: u32 = 1;

/// The answer to an account creation as a mathematical value.
pub struct CreatedView {
    pub id: u32,
    pub username: Seq<char>,
    pub email: Seq<char>,
    pub message: Seq<char>,
}

impl View for CreateUserResponse {
    type V = CreatedView;

    open spec fn view(&self) -> CreatedView {
        CreatedView {
            id: self.id,
            username: self.username@,
            email: self.email@,
            message: self.message@,
        }
    }
}

/// What the management interface answers to a creation, given the store's answer.
pub open spec fn creation_answer(created: Result<UserView, Seq<char>>) -> Result<
    CreatedView,
    Seq<char>,
> {
    match created {
        Ok(user) => Ok(
            CreatedView {
                id: CREATED_ANSWER_ID,
                username: user.username,
                email: match user.email {
                    Some(email) => email,
                    None => Seq::empty(),
                },
                message: "Пользователь успешно создан"@,
            },
        ),
        Err(fault) => Err(fault),
    }
}

/// Whether an answer is the one that the store's answer to a creation
/// leads to.
pub open spec fn answers_creation(
    created: Result<User, String>,
    answer: Result<CreateUserResponse, String>,
) -> bool {
    match creation_answer(record_value(created)) {
        Ok(view) => answer matches Ok(response) && response@ == view,
        Err(fault) => answer matches Err(text) && text@ == fault,
    }
}

/// Whether an answer is the one that the store's answer to a lookup leads
/// to: the account, the complaint that there is none, or the store's fault.
pub open spec fn answers_lookup(
    found: Result<Option<User>, String>,
    answer: Result<User, String>,
) -> bool {
    match found {
        Ok(Some(user)) => answer == Ok::<User, String>(user),
        Ok(None) => answer matches Err(text) && text@ == "Пользователь не найден"@,
        Err(fault) => answer == Err::<User, String>(fault),
    }
}

/// Whether an answer is the one that the store's answer to a listing leads
/// to: the accounts with their number, or the store's fault.
pub open spec fn answers_listing(
    listed: Result<Vec<User>, String>,
    answer: Result<UsersListResponse, String>,
) -> bool {
    match listed {
        Ok(users) => answer matches Ok(list) && list.users == users && list.total
            == users@.len(),
        Err(fault) => answer matches Err(text) && text == fault,
    }
}

/// Whether an answer is the one that the store's answer to a deletion
/// leads to: the confirmation, the complaint that there was no such
/// account, or the store's fault.
pub open spec fn answers_deletion(
    deleted: Result<bool, String>,
    answer: Result<String, String>,
) -> bool {
    match deleted {
        Ok(true) => answer matches Ok(text) && text@ == "Пользователь успешно удален"@,
        Ok(false) => answer matches Err(text) && text@ == "Пользователь не найден"@,
        Err(fault) => answer == Err::<String, String>(fault),
    }
}

/// Answers a creation from the store's answer.
pub fn created_answer(created: Result<User, String>) -> (answer: Result<CreateUserResponse, String>)
    ensures
        answers_creation(created, answer),
{
    match created {
        Ok(user) => Ok(
            CreateUserResponse {
                id: CREATED_ANSWER_ID,
                username: user.username,
                email: match user.email {
                    Some(email) => email,
                    None => String::new(),
                },
                message: String::from_str("Пользователь успешно создан"),
            },
        ),
        Err(fault) => Err(fault),
    }
}

/// Answers a lookup from the store's answer: an account that is not
/// visible is an error of its own.
pub fn found_answer(found: Result<Option<User>, String>) -> (answer: Result<User, String>)
    ensures
        answers_lookup(found, answer),
{
    match found {
        Ok(Some(user)) => Ok(user),
        Ok(None) => Err(String::from_str("Пользователь не найден")),
        Err(fault) => Err(fault),
    }
}

/// Answers a listing from the store's answer: the accounts and their number.
pub fn listed_answer(listed: Result<Vec<User>, String>) -> (answer: Result<
    UsersListResponse,
    String,
>)
    ensures
        answers_listing(listed, answer),
{
    match listed {
        Ok(users) => {
            let total = users.len();
            Ok(UsersListResponse { users, total })
        },
        Err(fault) => Err(fault),
    }
}

/// Answers a deletion from the store's answer.
pub fn deleted_answer(deleted: Result<bool, String>) -> (answer: Result<String, String>)
    ensures
        answers_deletion(deleted, answer),
{
    match deleted {
        Ok(true) => Ok(String::from_str("Пользователь успешно удален")),
        Ok(false) => Err(String::from_str("Пользователь не найден")),
        Err(fault) => Err(fault),
    }
}

/// The management interface over a store of accounts.
pub struct UserServiceImpl<R: UserRepository> {
    user_repository: R,
}

impl<R: UserRepository> UserServiceImpl<R> {
    /// The store that the service works on.
    pub closed spec fn repository(&self) -> R {
        self.user_repository
    }

    pub fn new(user_repository: R) -> (service: Self)
        ensures
            service.repository() == user_repository,
    {
        UserServiceImpl { user_repository }
    }
}

impl<R: UserRepository> UserService for UserServiceImpl<R> {
    /// Has the store create the account and answers from what the store
    /// answered; the store is left as its `create_user` left it.
    fn create_user(&mut self, user_data: CreateUserRequest) -> (created: Result<
        CreateUserResponse,
        String,
    >)
        ensures
            exists|store: &mut R, answered: Result<User, String>|
                mut_ref_current(store) == old(self).repository() && mut_ref_future(store)
                    == final(self).repository() && #[trigger] call_ensures(
                    R::create_user,
                    (store, user_data),
                    answered,
                ) && answers_creation(answered, created),
            created matches Ok(response) ==> response.id == CREATED_ANSWER_ID && response.email@
                == user_data.email@ && response.message@ == "Пользователь успешно создан"@,
    {
        let answered = self.user_repository.create_user(user_data);
        created_answer(answered)
    }

    /// Asks the store for the account and answers from what the store
    /// answered.
    fn get_user(&self, id: UserId) -> (found: Result<User, String>)
        ensures
            exists|answered: Result<Option<User>, String>|
                #[trigger] call_ensures(R::get_user_by_id, (&self.repository(), id), answered)
                    && answers_lookup(answered, found),
    {
        let answered = self.user_repository.get_user_by_id(id);
        found_answer(answered)
    }

    /// Asks the store for the visible accounts and answers from what the
    /// store answered.
    fn get_all_users(&self) -> (listed: Result<UsersListResponse, String>)
        ensures
            exists|answered: Result<Vec<User>, String>|
                #[trigger] call_ensures(R::get_all_users, (&self.repository(),), answered)
                    && answers_listing(answered, listed),
            listed matches Ok(list) ==> forall|i: int|
                0 <= i < list.users@.len() ==> (#[trigger] list.users@[i])@.visible(),
    {
        let answered = self.user_repository.get_all_users();
        let ghost given = answered;
        let listed = listed_answer(answered);
        assert(call_ensures(R::get_all_users, (&self.repository(),), given));
        listed
    }

    /// Has the store delete the account and answers from what the store
    /// answered; the store is left as its `delete_user` left it.
    fn delete_user(&mut self, id: UserId) -> (deleted: Result<String, String>)
        ensures
            exists|store: &mut R, answered: Result<bool, String>|
                mut_ref_current(store) == old(self).repository() && mut_ref_future(store)
                    == final(self).repository() && #[trigger] call_ensures(
                    R::delete_user,
                    (store, id),
                    answered,
                ) && answers_deletion(answered, deleted),
            deleted matches Ok(text) ==> text@ == "Пользователь успешно удален"@,
    {
        let answered = self.user_repository.delete_user(id);
        deleted_answer(answered)
    }
}

} // verus!

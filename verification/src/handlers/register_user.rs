use vstd::prelude::*;
use vstd::string::*;
use crate::entities::{
    borrowed, lookup_value, record_value, text_given, text_of, RegisterUserRequest,
    RegisterUserResponse, User, UserView,
};
use crate::errors::{rejection, AuthError, Rejection, RejectionView};
use crate::reply::{answer_value, Reply, CREATED};
use crate::traits::UserAuthRepository;

verus! {

/// The least number of characters a password may have.
pub const MIN_PASSWORD_CHARS: usize = 6;

/// The answer to a registration as a mathematical value.
pub struct RegisteredView {
    pub id: u128,
    pub email: Seq<char>,
    pub message: Seq<char>,
}

impl View for RegisterUserResponse {
    type V = RegisteredView;

    open spec fn view(&self) -> RegisteredView {
        RegisteredView { id: self.id, email: self.email@, message: self.message@ }
    }
}

/// What is wrong with a registration request, if anything: the username and
/// the email must not be empty, and the password must have six characters
/// at least.
pub open spec fn request_fault(username: Seq<char>, email: Seq<char>, password: Seq<char>) -> Option<
    RejectionView,
> {
    if username.len() == 0 {
        Some(rejection(AuthError::InvalidRequest, "Username обязателен"@))
    } else if email.len() == 0 {
        Some(rejection(AuthError::InvalidRequest, "Email обязателен"@))
    } else if password.len() < MIN_PASSWORD_CHARS {
        Some(rejection(AuthError::InvalidRequest, "Пароль должен быть не менее 6 символов"@))
    } else {
        None
    }
}

/// What stands in the way of a username, given what the store answered to
/// a lookup of it: nothing, where no visible account carries it.
pub open spec fn username_fault(found: Result<Option<UserView>, Seq<char>>) -> Option<
    RejectionView,
> {
    match found {
        Ok(None) => None,
        Ok(Some(_)) => Some(
            rejection(
                AuthError::DuplicateUsername,
                "Пользователь с таким username уже существует"@,
            ),
        ),
        Err(fault) => Some(
            rejection(AuthError::RepositoryFailure, "Ошибка проверки пользователя: "@ + fault),
        ),
    }
}

/// What a registration is answered with, given what the store answered to
/// the creation of the account.
pub open spec fn creation_outcome(created: Result<UserView, Seq<char>>, email: Seq<char>) -> Result<
    Reply<RegisteredView>,
    RejectionView,
> {
    match created {
        Ok(user) => Ok(
            Reply {
                status: CREATED,
                body: RegisteredView {
                    id: user.id,
                    email,
                    message: "Пользователь успешно зарегистрирован"@,
                },
            },
        ),
        Err(fault) => Err(
            rejection(AuthError::RepositoryFailure, "Ошибка создания пользователя: "@ + fault),
        ),
    }
}

/// The rejection that a fault stands for, if there is one.
pub open spec fn fault_value(checked: Result<(), Rejection>) -> Option<RejectionView> {
    match checked {
        Ok(_) => None,
        Err(r) => Some(r@),
    }
}

/// Validates a registration request before the store is asked anything.
pub fn validate(request: &RegisterUserRequest) -> (checked: Result<(), Rejection>)
    ensures
        fault_value(checked) == request_fault(
            request.username@,
            request.email@,
            request.password@,
        ),
{
    if request.username.as_str().unicode_len() == 0 {
        return Err(Rejection::new(AuthError::InvalidRequest, "Username обязателен"));
    }
    if request.email.as_str().unicode_len() == 0 {
        return Err(Rejection::new(AuthError::InvalidRequest, "Email обязателен"));
    }
    if request.password.as_str().unicode_len() < MIN_PASSWORD_CHARS {
        return Err(
            Rejection::new(AuthError::InvalidRequest, "Пароль должен быть не менее 6 символов"),
        );
    }
    Ok(())
}

/// Decides from the store's answer to a lookup whether the username is free.
pub fn check_available(found: Result<Option<User>, String>) -> (checked: Result<(), Rejection>)
    ensures
        fault_value(checked) == username_fault(lookup_value(found)),
{
    match found {
        Ok(None) => Ok(()),
        Ok(Some(_)) => Err(
            Rejection::new(
                AuthError::DuplicateUsername,
                "Пользователь с таким username уже существует",
            ),
        ),
        Err(fault) => Err(
            Rejection::with_detail(
                AuthError::RepositoryFailure,
                "Ошибка проверки пользователя: ",
                fault.as_str(),
            ),
        ),
    }
}

/// Answers a registration from the store's answer to the creation.
pub fn respond(created: Result<User, String>, email: String) -> (answer: Result<
    Reply<RegisterUserResponse>,
    Rejection,
>)
    ensures
        answer_value(answer) == creation_outcome(record_value(created), email@),
{
    match created {
        Ok(user) => Ok(
            Reply::created(
                RegisterUserResponse {
                    id: user.id,
                    email,
                    message: String::from_str("Пользователь успешно зарегистрирован"),
                },
            ),
        ),
        Err(fault) => Err(
            Rejection::with_detail(
                AuthError::RepositoryFailure,
                "Ошибка создания пользователя: ",
                fault.as_str(),
            ),
        ),
    }
}

/// Registers an account with a credential store. An invalid request never
/// reaches the store. A valid one has the store look the username up, and
/// is rejected where the store shows an account or fails; in all these
/// cases the store stays as it was. Otherwise the store is asked, once, to
/// hash the request's password and to keep an account with the request's
/// username, names and email as a standard user; the answer is what the
/// store's answer leads to, and the store is left as that creation left
/// it.
pub fn handler<R: UserAuthRepository>(
    user_auth_repository: &mut R,
    request_data: RegisterUserRequest,
) -> (answer: Result<Reply<RegisterUserResponse>, Rejection>)
    ensures
        match request_fault(request_data.username@, request_data.email@, request_data.password@) {
            Some(fault) => answer_value(answer) == Err::<Reply<RegisteredView>, RejectionView>(
                fault,
            ) && *final(user_auth_repository) == *old(user_auth_repository),
            None => exists|name: &str, asked: Result<Option<User>, String>|
                name@ == request_data.username@ && #[trigger] call_ensures(
                    R::find_by_username,
                    (&*old(user_auth_repository), name),
                    asked,
                ) && match username_fault(lookup_value(asked)) {
                    Some(fault) => answer_value(answer) == Err::<
                        Reply<RegisteredView>,
                        RejectionView,
                    >(fault) && *final(user_auth_repository) == *old(user_auth_repository),
                    None => exists|
                        store: &mut R,
                        password: &str,
                        first_name: Option<&str>,
                        last_name: Option<&str>,
                        email: &str,
                        created: Result<User, String>,
                    |
                        mut_ref_current(store) == *old(user_auth_repository) && mut_ref_future(
                            store,
                        ) == *final(user_auth_repository) && password@ == request_data.password@
                            && text_given(first_name) == text_of(request_data.first_name)
                            && text_given(last_name) == text_of(request_data.last_name) && email@
                            == request_data.email@ && #[trigger] call_ensures(
                            R::create_user_with_password,
                            (store, name, password, first_name, last_name, Some(email), None::<i32>),
                            created,
                        ) && answer_value(answer) == creation_outcome(
                            record_value(created),
                            request_data.email@,
                        ),
                },
        },
{
    if let Err(fault) = validate(&request_data) {
        return Err(fault);
    }
    let name = request_data.username.as_str();
    let found = user_auth_repository.find_by_username(name);
    let ghost asked = found;
    if let Err(fault) = check_available(found) {
        assert(call_ensures(R::find_by_username, (&*old(user_auth_repository), name), asked));
        return Err(fault);
    }
    let password = request_data.password.as_str();
    let first_name = borrowed(&request_data.first_name);
    let last_name = borrowed(&request_data.last_name);
    let email = request_data.email.as_str();
    let created = user_auth_repository.create_user_with_password(
        name,
        password,
        first_name,
        last_name,
        Some(email),
        None,
    );
    let ghost made = created;
    let ghost email_text = request_data.email@;
    let answer = respond(created, request_data.email);
    // The store was asked twice, by the calls above: those calls are the witnesses.
    assert(call_ensures(R::find_by_username, (&*old(user_auth_repository), name), asked));
    assert(exists|
        store: &mut R,
        password: &str,
        first_name: Option<&str>,
        last_name: Option<&str>,
        email: &str,
        created: Result<User, String>,
    |
        mut_ref_current(store) == *old(user_auth_repository) && mut_ref_future(store) == *final(
            user_auth_repository) && password@ == request_data.password@ && text_given(first_name)
            == text_of(request_data.first_name) && text_given(last_name) == text_of(
            request_data.last_name,
        ) && email@ == email_text && #[trigger] call_ensures(
            R::create_user_with_password,
            (store, name, password, first_name, last_name, Some(email), None::<i32>),
            created,
        ) && answer_value(answer) == creation_outcome(record_value(created), email_text));
    answer
}

} // verus!

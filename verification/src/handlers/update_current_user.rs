use vstd::prelude::*;
use vstd::string::*;
use crate::bearer::header_bytes;
use crate::entities::{
    borrowed, lookup_value, text_given, text_of, UpdateUserRequest, UpdateUserResponse, User,
    UserInfo, UserInfoView, UserView,
};
use crate::errors::{rejection, AuthError, Rejection, RejectionView};
use crate::extract_user_uuid::{from_request, guard_outcome, guard_value};
use crate::jwt_service::JwtService;
use crate::reply::{answer_value, Reply, OK};
use crate::traits::UserAuthRepository;

verus! {

/// The answer to a profile update as a mathematical value.
pub struct UpdatedView {
    pub user: UserInfoView,
    pub message: Seq<char>,
}

impl View for UpdateUserResponse {
    type V = UpdatedView;

    open spec fn view(&self) -> UpdatedView {
        UpdatedView { user: self.user@, message: self.message@ }
    }
}

/// What a caller updating their own profile is answered with, given what
/// the store answered to the update.
pub open spec fn update_outcome(updated: Result<Option<UserView>, Seq<char>>) -> Result<
    Reply<UpdatedView>,
    RejectionView,
> {
    match updated {
        Ok(Some(user)) => Ok(
            Reply {
                status: OK,
                body: UpdatedView {
                    user: user.public(),
                    message: "Пользователь успешно обновлен"@,
                },
            },
        ),
        Ok(None) => Err(rejection(AuthError::AccountNotFound, "Пользователь не найден"@)),
        Err(fault) => Err(
            rejection(AuthError::RepositoryFailure, "Ошибка обновления пользователя: "@ + fault),
        ),
    }
}

/// Answers a caller updating their own profile from the store's answer to
/// the update.
pub fn respond(updated: Result<Option<User>, String>) -> (answer: Result<
    Reply<UpdateUserResponse>,
    Rejection,
>)
    ensures
        answer_value(answer) == update_outcome(lookup_value(updated)),
{
    match updated {
        Ok(Some(user)) => Ok(
            Reply::ok(
                UpdateUserResponse {
                    user: UserInfo::of_user(user),
                    message: String::from_str("Пользователь успешно обновлен"),
                },
            ),
        ),
        Ok(None) => Err(Rejection::new(AuthError::AccountNotFound, "Пользователь не найден")),
        Err(fault) => Err(
            Rejection::with_detail(
                AuthError::RepositoryFailure,
                "Ошибка обновления пользователя: ",
                fault.as_str(),
            ),
        ),
    }
}

/// Updates a caller's own profile. The account is the one that the
/// credential was verified for, never one that the caller names. A request
/// that the guard rejects does not reach the store, which stays as it was.
/// One that it lets pass has the store update the account of the guard's
/// decision with the three fields of the request, and is answered from
/// what the store answered; the store is left as that update left it.
pub fn handler<R: UserAuthRepository>(
    header: Option<&[u8]>,
    jwt_service: &JwtService,
    user_auth_repository: &mut R,
    request_data: UpdateUserRequest,
) -> (answer: Result<Reply<UpdateUserResponse>, Rejection>)
    ensures
        exists|now: int|
            match #[trigger] guard_outcome(jwt_service.secret(), header_bytes(header), now) {
                Err(rejected) => answer_value(answer) == Err::<Reply<UpdatedView>, RejectionView>(
                    rejected,
                ) && *final(user_auth_repository) == *old(user_auth_repository),
                Ok(id) => (answer matches Ok(reply) ==> reply.body.user.id == id) && exists|
                    store: &mut R,
                    first_name: Option<&str>,
                    last_name: Option<&str>,
                    email: Option<&str>,
                    updated: Result<Option<User>, String>,
                |
                    mut_ref_current(store) == *old(user_auth_repository) && mut_ref_future(store)
                        == *final(user_auth_repository) && text_given(first_name) == text_of(
                        request_data.first_name,
                    ) && text_given(last_name) == text_of(request_data.last_name) && text_given(
                        email,
                    ) == text_of(request_data.email) && #[trigger] call_ensures(
                        R::update_user_fields,
                        (store, id, first_name, last_name, email),
                        updated,
                    ) && answer_value(answer) == update_outcome(lookup_value(updated)),
            },
{
    let decided = from_request(header, jwt_service);
    let ghost now = choose|now: int|
        guard_value(decided) == #[trigger] guard_outcome(
            jwt_service.secret(),
            header_bytes(header),
            now,
        );
    let user_id = match decided {
        Ok(id) => id,
        Err(rejected) => {
            return Err(rejected);
        },
    };
    let first_name = borrowed(&request_data.first_name);
    let last_name = borrowed(&request_data.last_name);
    let email = borrowed(&request_data.email);
    let updated = user_auth_repository.update_user_fields(user_id, first_name, last_name, email);
    let answer = respond(updated);
    // The store was asked once, by the call above: that call is the witness.
    assert(match guard_outcome(jwt_service.secret(), header_bytes(header), now) {
        Err(_) => false,
        Ok(id) => exists|
            store: &mut R,
            first_name: Option<&str>,
            last_name: Option<&str>,
            email: Option<&str>,
            updated: Result<Option<User>, String>,
        |
            mut_ref_current(store) == *old(user_auth_repository) && mut_ref_future(store)
                == *final(user_auth_repository) && text_given(first_name) == text_of(
                request_data.first_name,
            ) && text_given(last_name) == text_of(request_data.last_name) && text_given(email)
                == text_of(request_data.email) && #[trigger] call_ensures(
                R::update_user_fields,
                (store, id, first_name, last_name, email),
                updated,
            ) && answer_value(answer) == update_outcome(lookup_value(updated)),
    });
    answer
}

} // verus!

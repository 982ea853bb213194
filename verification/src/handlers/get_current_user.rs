use vstd::prelude::*;
use crate::entities::{lookup_value, User, UserInfo, UserInfoView, UserView};
use crate::errors::{rejection, AuthError, Rejection, RejectionView};
use crate::extract_user_uuid::{from_request, guard_outcome, guard_value};
use crate::bearer::header_bytes;
use crate::jwt_service::JwtService;
use crate::reply::{answer_value, Reply, OK};
use crate::traits::UserAuthRepository;

verus! {

/// What a caller asking for their own account is answered with, given what
/// the store answered to the lookup: the account's public face, which
/// holds no password material.
pub open spec fn lookup_outcome(found: Result<Option<UserView>, Seq<char>>) -> Result<
    Reply<UserInfoView>,
    RejectionView,
> {
    match found {
        Ok(Some(user)) => Ok(Reply { status: OK, body: user.public() }),
        Ok(None) => Err(rejection(AuthError::AccountNotFound, "Пользователь не найден"@)),
        Err(fault) => Err(
            rejection(AuthError::RepositoryFailure, "Ошибка поиска пользователя: "@ + fault),
        ),
    }
}

/// Answers a caller asking for their own account from the store's answer
/// to the lookup.
pub fn respond(found: Result<Option<User>, String>) -> (answer: Result<Reply<UserInfo>, Rejection>)
    ensures
        answer_value(answer) == lookup_outcome(lookup_value(found)),
{
    match found {
        Ok(Some(user)) => Ok(Reply::ok(UserInfo::of_user(user))),
        Ok(None) => Err(Rejection::new(AuthError::AccountNotFound, "Пользователь не найден")),
        Err(fault) => Err(
            Rejection::with_detail(
                AuthError::RepositoryFailure,
                "Ошибка поиска пользователя: ",
                fault.as_str(),
            ),
        ),
    }
}

/// Shows a caller their own account. The account is the one that the
/// credential was verified for, never one that the caller names: a request
/// that the guard rejects does not reach the store, and one it lets pass
/// is answered from what the store answered when asked for the account of
/// the guard's decision.
pub fn handler<R: UserAuthRepository>(
    header: Option<&[u8]>,
    jwt_service: &JwtService,
    user_auth_repository: &R,
) -> (answer: Result<Reply<UserInfo>, Rejection>)
    ensures
        exists|now: int|
            match #[trigger] guard_outcome(jwt_service.secret(), header_bytes(header), now) {
                Err(rejected) => answer_value(answer) == Err::<Reply<UserInfoView>, RejectionView>(
                    rejected,
                ),
                Ok(id) => (answer matches Ok(reply) ==> reply.body.id == id) && exists|
                    asked: Result<Option<User>, String>,
                |
                    #[trigger] call_ensures(R::find_by_id, (user_auth_repository, id), asked)
                        && answer_value(answer) == lookup_outcome(lookup_value(asked)),
            },
{
    let decided = from_request(header, jwt_service);
    let ghost now = choose|now: int|
        guard_value(decided) == #[trigger] guard_outcome(
            jwt_service.secret(),
            header_bytes(header),
            now,
        );
    let user_id = match decided {
        Ok(id) => id,
        Err(rejected) => {
            return Err(rejected);
        },
    };
    let found = user_auth_repository.find_by_id(user_id);
    let ghost asked = found;
    let answer = respond(found);
    assert(call_ensures(R::find_by_id, (user_auth_repository, user_id), asked));
    answer
}

} // verus!

use vstd::prelude::*;
use crate::entities::{
    CreateUserRequest, CreateUserResponse, DbStatus, PingResponse, User, UsersListResponse,
};
use crate::errors::{AuthError, Rejection};
use crate::identifier::UserId;
use crate::reply::{Reply, OK, SERVICE_UNAVAILABLE};
use crate::traits::{HealthService, UserService};

pub mod auth_user;
pub mod db;
pub mod get_current_user;
pub mod guest_zone;
pub mod refresh;
pub mod register_user;
pub mod server;
pub mod update_current_user;

verus! {

/// Whether an endpoint's answer is the one that a service's answer leads
/// to: the value under the given status, or the service's complaint as a
/// rejection of the given class.
pub open spec fn replies_to<T>(
    answered: Result<T, String>,
    status: u16,
    error: AuthError,
    answer: Result<Reply<T>, Rejection>,
) -> bool {
    match answered {
        Ok(body) => answer matches Ok(reply) && reply.status == status && reply.body == body,
        Err(fault) => answer matches Err(rejected) && rejected.error == error && rejected.message
            == fault,
    }
}

/// Turns what a service answered into an endpoint's answer: the value under
/// the given status, or the service's complaint as a rejection of the given
/// class.
pub fn reply_or_reject<T>(answered: Result<T, String>, status: u16, error: AuthError) -> (answer:
    Result<Reply<T>, Rejection>)
    ensures
        replies_to(answered, status, error, answer),
{
    match answered {
        Ok(body) => Ok(Reply { status, body }),
        Err(fault) => Err(Rejection { error, message: fault }),
    }
}

/// The status under which a database report is answered: 200 where the
/// database is connected and 503 where it is not.
pub open spec fn report_status(report: DbStatus) -> u16 {
    if report.connected {
        OK
    } else {
        SERVICE_UNAVAILABLE
    }
}

/// The answer that carries a database report.
pub fn db_status_reply(report: DbStatus) -> (reply: Reply<DbStatus>)
    ensures
        reply.body == report,
        reply.status == report_status(report),
{
    if report.connected {
        Reply { status: OK, body: report }
    } else {
        Reply { status: SERVICE_UNAVAILABLE, body: report }
    }
}

/// The liveness endpoint: 200 with what the service answers, which is the
/// pong.
pub fn server_status_handler<H: HealthService>(health_service: &H) -> (reply: Reply<PingResponse>)
    ensures
        reply.status == OK,
        call_ensures(H::status, (health_service,), reply.body),
        reply.body.status@ == "ok"@,
        reply.body.message@ == "pong"@,
{
    Reply::ok(health_service.status())
}

/// The database health endpoint: the report that the service gave, under
/// the status that the report calls for.
pub fn db_status_handler<H: HealthService>(health_service: &H) -> (reply: Reply<DbStatus>)
    ensures
        call_ensures(H::check_database, (health_service,), reply.body),
        reply.status == report_status(reply.body),
{
    db_status_reply(health_service.check_database())
}

/// Creates an account through the management interface: has the service
/// create it, and answers 201 with the service's answer, or its complaint
/// as an invalid request. The service is left as its `create_user` left it.
pub fn create_user_handler<S: UserService>(user_service: &mut S, user_data: CreateUserRequest) -> (answer:
    Result<Reply<CreateUserResponse>, Rejection>)
    ensures
        exists|service: &mut S, created: Result<CreateUserResponse, String>|
            mut_ref_current(service) == *old(user_service) && mut_ref_future(service)
                == *final(user_service) && #[trigger] call_ensures(S::create_user, (service, user_data), created)
                && replies_to(created, crate::reply::CREATED, AuthError::InvalidRequest, answer),
        answer matches Ok(reply) ==> reply.status == crate::reply::CREATED
            && reply.body.username@ == user_data.username@,
        answer matches Err(rejected) ==> rejected.error == AuthError::InvalidRequest,
{
    let created = user_service.create_user(user_data);
    reply_or_reject(created, crate::reply::CREATED, AuthError::InvalidRequest)
}

/// Looks an account up through the management interface: asks the service
/// for it, and answers 200 with the account, or the service's complaint as
/// an account not found.
pub fn get_user_handler<S: UserService>(user_service: &S, user_id: UserId) -> (answer: Result<
    Reply<User>,
    Rejection,
>)
    ensures
        exists|found: Result<User, String>| #[trigger]
            call_ensures(S::get_user, (user_service, user_id), found) && replies_to(
                found,
                OK,
                AuthError::AccountNotFound,
                answer,
            ),
        answer matches Ok(reply) ==> reply.status == OK && reply.body.id == user_id
            && reply.body@.visible(),
        answer matches Err(rejected) ==> rejected.error == AuthError::AccountNotFound,
{
    let found = user_service.get_user(user_id);
    reply_or_reject(found, OK, AuthError::AccountNotFound)
}

/// Lists the accounts through the management interface: asks the service
/// for the listing, and answers 200 with it, or the service's complaint as
/// a store failure.
pub fn get_all_users_handler<S: UserService>(user_service: &S) -> (answer: Result<
    Reply<UsersListResponse>,
    Rejection,
>)
    ensures
        exists|listed: Result<UsersListResponse, String>| #[trigger]
            call_ensures(S::get_all_users, (user_service,), listed) && replies_to(
                listed,
                OK,
                AuthError::RepositoryFailure,
                answer,
            ),
        answer matches Ok(reply) ==> reply.status == OK && reply.body.total
            == reply.body.users@.len(),
        answer matches Err(rejected) ==> rejected.error == AuthError::RepositoryFailure,
{
    let listed = user_service.get_all_users();
    reply_or_reject(listed, OK, AuthError::RepositoryFailure)
}

/// Deletes an account through the management interface: has the service
/// delete it, and answers 200 with the service's message, or its complaint
/// as an account not found. The service is left as its `delete_user` left
/// it.
pub fn delete_user_handler<S: UserService>(user_service: &mut S, user_id: UserId) -> (answer:
    Result<Reply<String>, Rejection>)
    ensures
        exists|service: &mut S, deleted: Result<String, String>|
            mut_ref_current(service) == *old(user_service) && mut_ref_future(service)
                == *final(user_service) && #[trigger] call_ensures(S::delete_user, (service, user_id), deleted)
                && replies_to(deleted, OK, AuthError::AccountNotFound, answer),
        answer matches Ok(reply) ==> reply.status == OK,
        answer matches Err(rejected) ==> rejected.error == AuthError::AccountNotFound,
{
    let deleted = user_service.delete_user(user_id);
    reply_or_reject(deleted, OK, AuthError::AccountNotFound)
}

} // verus!

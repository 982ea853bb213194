use vstd::prelude::*;
use crate::clock::unix_now;
use crate::entities::{
    lookup_value, text_lookup_value, LoginRequest, LoginResponse, User, UserInfo, UserInfoView,
    UserView,
};
use crate::bearer::{bearer_header, is_header_text};
use crate::errors::{rejection, AuthError, Rejection, RejectionView};
use crate::extract_user_uuid::{guard_admits_identifying_token, guard_outcome};
use crate::jwt_service::{
    mint_outcome, minted_claims, token_claims, token_text, user_id_outcome, JwtService,
    TokenClass,
};
use crate::password::{bcrypt_verified, password_check, verify_password};
use crate::reply::{answer_value, Reply, OK};
use crate::traits::UserAuthRepository;
use crate::user_repository::{
    admits, after_delete, by_id, by_username, hash_of, lemma_insert_keeps_wf,
    lemma_username_found, new_record, record_of, shows_id, shows_username_under,
    soft_deleted_account_is_invisible, store_wf, storing, AccountView, Accounts,
};

verus! {

/// The answer to a login as a mathematical value.
pub struct LoginView {
    pub access_token: Seq<char>,
    pub refresh_token: Seq<char>,
    pub user: UserInfoView,
}

impl View for LoginResponse {
    type V = LoginView;

    open spec fn view(&self) -> LoginView {
        LoginView {
            access_token: self.access_token@,
            refresh_token: self.refresh_token@,
            user: self.user@,
        }
    }
}

/// The email that an account's tokens carry: its own, or the empty text
/// where it has none.
pub open spec fn token_email(user: UserView) -> Seq<char> {
    match user.email {
        Some(email) => email,
        None => Seq::empty(),
    }
}

/// The one rejection for a login that names no visible account or gives a
/// wrong password: the two are not told apart.
pub open spec fn bad_login() -> RejectionView {
    rejection(AuthError::InvalidCredentials, "Неверный username или пароль"@)
}

/// The rejection for a login during which the store failed to look the
/// account up. What the store reported is not shown.
pub open spec fn lookup_failed() -> RejectionView {
    rejection(AuthError::RepositoryFailure, "Ошибка поиска пользователя"@)
}

/// The rejection for a login during which the store failed to hand out the
/// password hash. What the store reported is not shown.
pub open spec fn hash_lookup_failed() -> RejectionView {
    rejection(AuthError::RepositoryFailure, "Ошибка получения пароля"@)
}

/// Whom a login is for and what the password is held against, given what
/// the store answered for the account and for its password hash. The
/// answer for the hash counts only where an account was found. A fault of
/// the store is rejected with a fixed text: nothing of what the store
/// reported reaches the caller.
pub open spec fn credentials_outcome(
    found: Result<Option<UserView>, Seq<char>>,
    stored: Result<Option<Seq<char>>, Seq<char>>,
) -> Result<(UserView, Seq<char>), RejectionView> {
    match found {
        Err(_) => Err(lookup_failed()),
        Ok(None) => Err(bad_login()),
        Ok(Some(user)) => match stored {
            Err(_) => Err(hash_lookup_failed()),
            Ok(None) => Err(bad_login()),
            Ok(Some(hash)) => Ok((user, hash)),
        },
    }
}

/// What stands in the way of a login after the password was checked
/// against the stored hash, if anything.
pub open spec fn check_fault(checked: Result<bool, AuthError>) -> Option<RejectionView> {
    match checked {
        Err(_) => Some(rejection(AuthError::HashingFailure, "Ошибка проверки пароля"@)),
        Ok(false) => Some(bad_login()),
        Ok(true) => None,
    }
}

/// The answer to a login for which the two tokens were minted, or the
/// rejection where one was not. A refresh token counts only beside an
/// access token.
pub open spec fn session_reply_outcome(
    user: UserView,
    access: Result<Seq<char>, AuthError>,
    refresh: Result<Seq<char>, AuthError>,
) -> Result<Reply<LoginView>, RejectionView> {
    match access {
        Err(_) => Err(rejection(AuthError::TokenMintFailed, "Ошибка создания access токена"@)),
        Ok(access_token) => match refresh {
            Err(_) => Err(
                rejection(AuthError::TokenMintFailed, "Ошибка создания refresh токена"@),
            ),
            Ok(refresh_token) => Ok(
                Reply {
                    status: OK,
                    body: LoginView { access_token, refresh_token, user: user.public() },
                },
            ),
        },
    }
}

/// What issuing the pair of tokens for an account at an instant comes to.
pub open spec fn session_outcome(secret: Seq<u8>, user: UserView, now: int) -> Result<
    Reply<LoginView>,
    RejectionView,
> {
    session_reply_outcome(
        user,
        mint_outcome(secret, user.id, token_email(user), TokenClass::Access, now),
        mint_outcome(secret, user.id, token_email(user), TokenClass::Refresh, now),
    )
}

/// What a login comes to, given what the store answered for the account
/// and for its password hash, the password offered, and the instant
/// (seconds since the epoch).
pub open spec fn login_outcome(
    secret: Seq<u8>,
    found: Result<Option<UserView>, Seq<char>>,
    stored: Result<Option<Seq<char>>, Seq<char>>,
    password: Seq<char>,
    now: int,
) -> Result<Reply<LoginView>, RejectionView> {
    match credentials_outcome(found, stored) {
        Err(rejected) => Err(rejected),
        Ok((user, hash)) => match check_fault(password_check(password, hash)) {
            Some(rejected) => Err(rejected),
            None => session_outcome(secret, user, now),
        },
    }
}

/// The mathematical value of the credentials found for a login.
pub open spec fn credentials_value(found: Result<(User, String), Rejection>) -> Result<
    (UserView, Seq<char>),
    RejectionView,
> {
    match found {
        Ok((user, hash)) => Ok((user@, hash@)),
        Err(rejected) => Err(rejected@),
    }
}

/// Whether the store is to be asked for a password hash after it answered
/// the lookup of the account: only where it found one.
pub fn wants_hash(found: &Result<Option<User>, String>) -> (wanted: bool)
    ensures
        wanted == (found matches Ok(Some(_))),
{
    match found {
        Ok(Some(_)) => true,
        _ => false,
    }
}

/// Picks the account and the stored hash for a login out of what the store
/// answered. An unknown account and a missing hash are the same bad login;
/// a fault of the store is reported as such, without its text.
pub fn stored_credentials(
    found: Result<Option<User>, String>,
    stored: Result<Option<String>, String>,
) -> (credentials: Result<(User, String), Rejection>)
    ensures
        credentials_value(credentials) == credentials_outcome(
            lookup_value(found),
            text_lookup_value(stored),
        ),
{
    let user = match found {
        Ok(Some(user)) => user,
        Ok(None) => {
            return Err(
                Rejection::new(AuthError::InvalidCredentials, "Неверный username или пароль"),
            );
        },
        Err(_) => {
            return Err(Rejection::new(AuthError::RepositoryFailure, "Ошибка поиска пользователя"));
        },
    };
    match stored {
        Ok(Some(hash)) => Ok((user, hash)),
        Ok(None) => Err(
            Rejection::new(AuthError::InvalidCredentials, "Неверный username или пароль"),
        ),
        Err(_) => Err(Rejection::new(AuthError::RepositoryFailure, "Ошибка получения пароля")),
    }
}

/// Judges the check of a password against the stored hash: a mismatch is
/// the bad login, a hash that could not be checked a failure of its own.
pub fn password_verdict(checked: Result<bool, AuthError>) -> (verdict: Result<(), Rejection>)
    ensures
        match check_fault(checked) {
            Some(rejected) => verdict matches Err(r) && r@ == rejected,
            None => verdict is Ok,
        },
{
    match checked {
        Err(_) => Err(Rejection::new(AuthError::HashingFailure, "Ошибка проверки пароля")),
        Ok(false) => Err(
            Rejection::new(AuthError::InvalidCredentials, "Неверный username или пароль"),
        ),
        Ok(true) => Ok(()),
    }
}

/// Answers a login with the two tokens minted for the account and the
/// account's public face, or rejects it where a token could not be minted.
pub fn session_reply(
    user: User,
    access: Result<String, AuthError>,
    refresh: Result<String, AuthError>,
) -> (answer: Result<Reply<LoginResponse>, Rejection>)
    ensures
        answer_value(answer) == session_reply_outcome(
            user@,
            token_text(access),
            token_text(refresh),
        ),
{
    let access_token = match access {
        Ok(token) => token,
        Err(_) => {
            return Err(
                Rejection::new(AuthError::TokenMintFailed, "Ошибка создания access токена"),
            );
        },
    };
    let refresh_token = match refresh {
        Ok(token) => token,
        Err(_) => {
            return Err(
                Rejection::new(AuthError::TokenMintFailed, "Ошибка создания refresh токена"),
            );
        },
    };
    Ok(Reply::ok(LoginResponse { access_token, refresh_token, user: UserInfo::of_user(user) }))
}

/// Whether the guard admits a token for an account at every instant up to
/// the expiry of an access token issued at the given instant, when the
/// token is presented behind the scheme.
pub open spec fn opens_session(secret: Seq<u8>, token: Seq<char>, id: u128, issued: int) -> bool {
    forall|at: int|
        at <= issued + TokenClass::Access.spec_lifetime() ==> #[trigger] guard_outcome(
            secret,
            Some(bearer_header(token)),
            at,
        ) == Ok::<u128, RejectionView>(id)
}

/// Issues the access and the refresh token for an account at the given
/// instant and answers with both and the account's public face. It
/// succeeds at every instant that is not before the epoch. Each token
/// carries the claims minted for the account at that instant and can stand
/// in a header value; presented behind the scheme, the access token is
/// admitted by the guard for this account until it expires. No refresh
/// token is minted where the access token failed.
pub fn issue_session_at(jwt_service: &JwtService, user: User, now: i64) -> (answer: Result<
    Reply<LoginResponse>,
    Rejection,
>)
    ensures
        answer_value(answer) == session_outcome(jwt_service.secret(), user@, now as int),
        now >= 0 ==> answer is Ok,
        answer matches Ok(reply) ==> token_claims(jwt_service.secret(), reply.body.access_token@)
            == Some(minted_claims(user.id, token_email(user@), TokenClass::Access, now as int))
            && token_claims(jwt_service.secret(), reply.body.refresh_token@) == Some(
            minted_claims(user.id, token_email(user@), TokenClass::Refresh, now as int),
        ),
        answer matches Ok(reply) ==> is_header_text(reply.body.access_token@) && is_header_text(
            reply.body.refresh_token@,
        ) && opens_session(
            jwt_service.secret(),
            reply.body.access_token@,
            user.id,
            now as int,
        ),
{
    let email = match &user.email {
        Some(email) => email.as_str(),
        None => "",
    };
    proof {
        reveal_strlit("");
        assert(""@ =~= Seq::<char>::empty());
    }
    let access = jwt_service.mint_at(user.id, email, TokenClass::Access, now);
    let refresh = match &access {
        Ok(_) => jwt_service.mint_at(user.id, email, TokenClass::Refresh, now),
        Err(fault) => Err(*fault),
    };
    proof {
        if access is Ok {
            let token = access->Ok_0;
            assert forall|at: int|
                at <= now + TokenClass::Access.spec_lifetime() implies #[trigger] guard_outcome(
                jwt_service.secret(),
                Some(bearer_header(token@)),
                at,
            ) == Ok::<u128, RejectionView>(user.id) by {
                assert(user_id_outcome(jwt_service.secret(), token@, at) == Ok::<u128, AuthError>(
                    user.id,
                ));
                guard_admits_identifying_token(jwt_service.secret(), token@, user.id, at);
            }
        }
    }
    session_reply(user, access, refresh)
}

/// Decides a login at the given instant (seconds since the epoch) from what
/// the store answered for the account and for its password hash. The
/// answer for the hash is looked at only where an account was found.
pub fn respond_at(
    jwt_service: &JwtService,
    found: Result<Option<User>, String>,
    stored: Result<Option<String>, String>,
    password: &str,
    now: i64,
) -> (answer: Result<Reply<LoginResponse>, Rejection>)
    ensures
        answer_value(answer) == login_outcome(
            jwt_service.secret(),
            lookup_value(found),
            text_lookup_value(stored),
            password@,
            now as int,
        ),
        answer matches Ok(reply) ==> found matches Ok(Some(user)) && reply.body.user@
            == user@.public() && token_claims(jwt_service.secret(), reply.body.access_token@)
            == Some(minted_claims(user.id, token_email(user@), TokenClass::Access, now as int))
            && token_claims(jwt_service.secret(), reply.body.refresh_token@) == Some(
            minted_claims(user.id, token_email(user@), TokenClass::Refresh, now as int),
        ),
        answer matches Ok(reply) ==> is_header_text(reply.body.access_token@) && is_header_text(
            reply.body.refresh_token@,
        ) && opens_session(
            jwt_service.secret(),
            reply.body.access_token@,
            reply.body.user.id,
            now as int,
        ),
        now >= 0 && found is Ok && found->Ok_0 is Some && stored is Ok && stored->Ok_0 is Some
            && bcrypt_verified(password@, stored->Ok_0->0@) == Some(true) ==> answer is Ok,
{
    let (user, hash) = match stored_credentials(found, stored) {
        Ok(credentials) => credentials,
        Err(rejected) => {
            return Err(rejected);
        },
    };
    if let Err(rejected) = password_verdict(verify_password(password, hash.as_str())) {
        return Err(rejected);
    }
    issue_session_at(jwt_service, user, now)
}

/// Logs a caller in against a credential store: asks the store for the
/// account with the request's username, asks it for that account's
/// password hash only where it found one, and decides at the time the clock
/// reads. The answer is the decision for what the store answered to those
/// questions and for what the clock read.
pub fn handler<R: UserAuthRepository>(
    jwt_service: &JwtService,
    user_auth_repository: &R,
    request_data: LoginRequest,
) -> (answer: Result<Reply<LoginResponse>, Rejection>)
    ensures
        exists|
            name: &str,
            asked: Result<Option<User>, String>,
            hashed: Result<Option<String>, String>,
            now: int,
        |
            name@ == request_data.username@ && #[trigger] call_ensures(
                R::find_by_username,
                (user_auth_repository, name),
                asked,
            ) && (if asked matches Ok(Some(_)) {
                call_ensures(R::get_password_hash, (user_auth_repository, name), hashed)
            } else {
                hashed == Ok::<Option<String>, String>(None)
            }) && answer_value(answer) == #[trigger] login_outcome(
                jwt_service.secret(),
                lookup_value(asked),
                text_lookup_value(hashed),
                request_data.password@,
                now,
            ),
        answer matches Ok(reply) ==> reply.body.user.username@ == request_data.username@,
{
    let name = request_data.username.as_str();
    let found = user_auth_repository.find_by_username(name);
    let stored = if wants_hash(&found) {
        user_auth_repository.get_password_hash(name)
    } else {
        Ok(None)
    };
    let now = unix_now();
    let ghost asked = found;
    let ghost hashed = stored;
    let answer = respond_at(jwt_service, found, stored, request_data.password.as_str(), now);
    assert(call_ensures(R::find_by_username, (user_auth_repository, name), asked));
    assert(answer_value(answer) == login_outcome(
        jwt_service.secret(),
        lookup_value(asked),
        text_lookup_value(hashed),
        request_data.password@,
        now as int,
    ));
    answer
}

/// A login against a soft-deleted account behaves as one against an
/// account that never was: once an account is soft-deleted, what the store
/// answers for its username leads to the one rejection for a bad login,
/// whatever password is offered.
pub proof fn login_after_soft_delete_is_rejected(
    secret: Seq<u8>,
    store: Accounts,
    id: u128,
    deleted_at: i64,
    stored: Result<Option<Seq<char>>, Seq<char>>,
    password: Seq<char>,
    now: int,
)
    requires
        store_wf(store),
        shows_id(store, id),
    ensures
        login_outcome(
            secret,
            Ok(
                record_of(
                    by_username(
                        after_delete(store, id, deleted_at),
                        by_id(store, id)->0.user.username,
                    ),
                ),
            ),
            stored,
            password,
            now,
        ) == Err::<Reply<LoginView>, RejectionView>(bad_login()),
{
    soft_deleted_account_is_invisible(store, id, deleted_at);
}

/// An account that was stored with the hash of a password can log in with
/// that password: what the store then answers for its username leads to
/// the issue of the session, and to no rejection of the login.
pub proof fn stored_account_can_log_in(
    secret: Seq<u8>,
    store: Accounts,
    id: u128,
    username: Seq<char>,
    password: Seq<char>,
    hash: Seq<char>,
    first_name: Option<Seq<char>>,
    last_name: Option<Seq<char>>,
    email: Option<Seq<char>>,
    user_type_id: i32,
    stored_at: i64,
    now: int,
)
    requires
        store_wf(store),
        admits(store, id, username),
        bcrypt_verified(password, hash) == Some(true),
    ensures
        ({
            let after = storing(
                store,
                id,
                username,
                hash,
                first_name,
                last_name,
                email,
                user_type_id,
                stored_at,
            ).1;
            let user = new_record(
                id,
                username,
                first_name,
                last_name,
                email,
                user_type_id,
                stored_at,
            );
            &&& store_wf(after)
            &&& record_of(by_username(after, username)) == Some(user)
            &&& login_outcome(
                secret,
                Ok(record_of(by_username(after, username))),
                Ok(hash_of(by_username(after, username))),
                password,
                now,
            ) == session_outcome(secret, user, now)
        }),
{
    let user = new_record(id, username, first_name, last_name, email, user_type_id, stored_at);
    let account = AccountView { user, password_hash: hash };
    let after = store.insert(id, account);
    lemma_insert_keeps_wf(store, account);
    assert(shows_username_under(after, username, id));
    lemma_username_found(after, username, id);
}

/// A wrong password and an unknown username look alike: both logins are
/// rejected with the same class and the same text.
pub proof fn failed_logins_look_alike(
    secret: Seq<u8>,
    user: UserView,
    hash: Seq<char>,
    password: Seq<char>,
    other_stored: Result<Option<Seq<char>>, Seq<char>>,
    now: int,
)
    requires
        bcrypt_verified(password, hash) == Some(false),
    ensures
        login_outcome(secret, Ok(Some(user)), Ok(Some(hash)), password, now) == login_outcome(
            secret,
            Ok(None),
            other_stored,
            password,
            now,
        ),
        login_outcome(secret, Ok(None), other_stored, password, now) == Err::<
            Reply<LoginView>,
            RejectionView,
        >(bad_login()),
{
}

} // verus!

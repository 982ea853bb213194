use vstd::prelude::*;
use vstd::string::*;
use crate::clock::unix_now;
use crate::entities::{ClaimsView, RefreshTokenRequest, RefreshTokenResponse, TokenClaims};
use crate::errors::{rejection, AuthError, Rejection, RejectionView};
use crate::identifier::{parse_user_id, uuid_parsed};
use crate::jwt_service::{
    claims_value, class_labels_differ, mint_outcome, verify_outcome, JwtService, TokenClass,
};
use crate::reply::{answer_value, Reply, OK};

verus! {

impl View for RefreshTokenResponse {
    type V = Seq<char>;

    /// The new access token.
    open spec fn view(&self) -> Seq<char> {
        self.access_token@
    }
}

/// The rejection for a validly signed token that is not of the refresh class.
pub open spec fn wrong_class() -> RejectionView {
    rejection(AuthError::WrongTokenClass, "Неверный тип токена"@)
}

/// What the refresh endpoint makes of a verification: the claims, where
/// the token verified and is of the refresh class.
pub open spec fn class_outcome(verified: Result<ClaimsView, AuthError>) -> Result<
    ClaimsView,
    RejectionView,
> {
    match verified {
        Err(_) => Err(rejection(AuthError::InvalidCredentials, "Недействительный refresh токен"@)),
        Ok(claims) => if claims.token_type != TokenClass::Refresh.spec_label() {
            Err(wrong_class())
        } else {
            Ok(claims)
        },
    }
}

/// What a refresh comes to for a token at an instant (seconds since the
/// epoch): a new access token for the token's subject and email, and no new
/// refresh token; or the rejection.
pub open spec fn refresh_outcome(secret: Seq<u8>, token: Seq<char>, now: int) -> Result<
    Reply<Seq<char>>,
    RejectionView,
> {
    match class_outcome(verify_outcome(secret, token, now)) {
        Err(rejected) => Err(rejected),
        Ok(claims) => match uuid_parsed(claims.sub) {
            None => Err(
                rejection(
                    AuthError::MalformedCredential,
                    "Неверный формат пользователя в токене"@,
                ),
            ),
            Some(id) => match mint_outcome(secret, id, claims.email, TokenClass::Access, now) {
                Err(_) => Err(
                    rejection(AuthError::TokenMintFailed, "Ошибка создания access токена"@),
                ),
                Ok(access_token) => Ok(Reply { status: OK, body: access_token }),
            },
        },
    }
}

/// The mathematical value of the claims that passed the class check.
pub open spec fn checked_value(checked: Result<TokenClaims, Rejection>) -> Result<
    ClaimsView,
    RejectionView,
> {
    match checked {
        Ok(claims) => Ok(claims@),
        Err(rejected) => Err(rejected@),
    }
}

/// Enforces the class at the refresh endpoint: a token that did not verify
/// is rejected as invalid credentials, and one that verified but is not of
/// the refresh class as being of the wrong class.
pub fn check_class(verified: Result<TokenClaims, AuthError>) -> (checked: Result<
    TokenClaims,
    Rejection,
>)
    ensures
        checked_value(checked) == class_outcome(claims_value(verified)),
{
    let claims = match verified {
        Ok(claims) => claims,
        Err(_) => {
            return Err(
                Rejection::new(AuthError::InvalidCredentials, "Недействительный refresh токен"),
            );
        },
    };
    if claims.token_type != TokenClass::Refresh.label() {
        return Err(Rejection::new(AuthError::WrongTokenClass, "Неверный тип токена"));
    }
    Ok(claims)
}

/// Trades a refresh token for a new access token at the given instant
/// (seconds since the epoch). The token must verify and be of the refresh
/// class; the refresh token itself stays valid until its own expiry.
pub fn handler_at(jwt_service: &JwtService, request_data: RefreshTokenRequest, now: i64) -> (answer:
    Result<Reply<RefreshTokenResponse>, Rejection>)
    ensures
        answer_value(answer) == refresh_outcome(
            jwt_service.secret(),
            request_data.refresh_token@,
            now as int,
        ),
{
    let verified = jwt_service.verify_token_at(request_data.refresh_token.as_str(), now);
    let claims = match check_class(verified) {
        Ok(claims) => claims,
        Err(rejected) => {
            return Err(rejected);
        },
    };
    let user_id = match parse_user_id(claims.sub.as_str()) {
        Some(id) => id,
        None => {
            return Err(
                Rejection::new(
                    AuthError::MalformedCredential,
                    "Неверный формат пользователя в токене",
                ),
            );
        },
    };
    match jwt_service.mint_at(user_id, claims.email.as_str(), TokenClass::Access, now) {
        Ok(access_token) => Ok(Reply::ok(RefreshTokenResponse { access_token })),
        Err(_) => Err(Rejection::new(AuthError::TokenMintFailed, "Ошибка создания access токена")),
    }
}

/// Trades a refresh token for a new access token at the time the clock
/// reads. Whatever it reads, the answer is the refresh's at that instant.
pub fn handler(jwt_service: &JwtService, request_data: RefreshTokenRequest) -> (answer: Result<
    Reply<RefreshTokenResponse>,
    Rejection,
>)
    ensures
        exists|now: int|
            answer_value(answer) == #[trigger] refresh_outcome(
                jwt_service.secret(),
                request_data.refresh_token@,
                now,
            ),
{
    let now = unix_now();
    let ghost token = request_data.refresh_token@;
    let answer = handler_at(jwt_service, request_data, now);
    assert(answer_value(answer) == refresh_outcome(jwt_service.secret(), token, now as int));
    answer
}

/// The refresh endpoint enforces the class: a token that verifies and
/// carries the access tag is rejected as being of the wrong class.
pub proof fn refresh_rejects_access_tokens(secret: Seq<u8>, token: Seq<char>, now: int)
    requires
        verify_outcome(secret, token, now) is Ok,
        verify_outcome(secret, token, now)->Ok_0.token_type == TokenClass::Access.spec_label(),
    ensures
        refresh_outcome(secret, token, now) == Err::<Reply<Seq<char>>, RejectionView>(
            wrong_class(),
        ),
{
    class_labels_differ();
}

/// The refresh endpoint accepts no class but its own: a token it trades
/// for a new access token has verified and carries the refresh tag, and a
/// verified token with any other tag is rejected as being of the wrong
/// class.
pub proof fn refresh_accepts_only_refresh_tokens(secret: Seq<u8>, token: Seq<char>, now: int)
    ensures
        refresh_outcome(secret, token, now) is Ok ==> verify_outcome(secret, token, now) is Ok
            && verify_outcome(secret, token, now)->Ok_0.token_type
            == TokenClass::Refresh.spec_label(),
        verify_outcome(secret, token, now) is Ok && verify_outcome(
            secret,
            token,
            now,
        )->Ok_0.token_type != TokenClass::Refresh.spec_label() ==> refresh_outcome(
            secret,
            token,
            now,
        ) == Err::<Reply<Seq<char>>, RejectionView>(wrong_class()),
{
}

} // verus!

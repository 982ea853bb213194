use vstd::prelude::*;
use crate::bearer::{
    bearer_header, bearer_outcome, bearer_token, header_bytes, is_header_text,
    lemma_bearer_header, BearerFault,
};
use crate::clock::unix_now;
use crate::errors::{rejection, AuthError, Rejection, RejectionView};
use crate::identifier::UserId;
use crate::jwt_service::{
    mintable, minted_claims, token_claims, user_id_outcome, JwtService, TokenClass,
};

verus! {

/// What the guard in front of a protected endpoint decides for a credential
/// header at an instant: the account the request acts for, or the rejection.
pub open spec fn guard_outcome(secret: Seq<u8>, header: Option<Seq<u8>>, now: int) -> Result<
    u128,
    RejectionView,
> {
    match bearer_outcome(header) {
        Err(BearerFault::Missing) => Err(
            rejection(AuthError::MissingCredential, "Требуется заголовок Authorization"@),
        ),
        Err(BearerFault::NotText) => Err(
            rejection(AuthError::MalformedCredential, "Неверный формат заголовка Authorization"@),
        ),
        Err(BearerFault::NoScheme) => Err(
            rejection(AuthError::MalformedCredential, "Токен должен начинаться с 'Bearer '"@),
        ),
        Ok(token) => match user_id_outcome(secret, token, now) {
            Ok(id) => Ok(id),
            Err(_) => Err(
                rejection(AuthError::InvalidCredential, "Недействительный или истекший токен"@),
            ),
        },
    }
}

/// The mathematical value of a guard's decision.
pub open spec fn guard_value(decided: Result<UserId, Rejection>) -> Result<u128, RejectionView> {
    match decided {
        Ok(id) => Ok(id),
        Err(r) => Err(r@),
    }
}

/// Decides at the given instant (seconds since the epoch) whether a request
/// with this credential header may pass, and for which account it acts.
pub fn from_request_at(header: Option<&[u8]>, jwt_service: &JwtService, now: i64) -> (decided:
    Result<UserId, Rejection>)
    ensures
        guard_value(decided) == guard_outcome(jwt_service.secret(), header_bytes(header), now as int),
{
    let token = match bearer_token(header) {
        Ok(token) => token,
        Err(BearerFault::Missing) => {
            return Err(
                Rejection::new(AuthError::MissingCredential, "Требуется заголовок Authorization"),
            );
        },
        Err(BearerFault::NotText) => {
            return Err(
                Rejection::new(
                    AuthError::MalformedCredential,
                    "Неверный формат заголовка Authorization",
                ),
            );
        },
        Err(BearerFault::NoScheme) => {
            return Err(
                Rejection::new(
                    AuthError::MalformedCredential,
                    "Токен должен начинаться с 'Bearer '",
                ),
            );
        },
    };
    match jwt_service.get_user_id_from_token_at(token.as_str(), now) {
        Ok(id) => Ok(id),
        Err(_) => Err(
            Rejection::new(AuthError::InvalidCredential, "Недействительный или истекший токен"),
        ),
    }
}

/// Decides against the clock whether a request with this credential header
/// may pass, and for which account it acts. Whatever the clock reads, the
/// decision is the guard's at that instant.
pub fn from_request(header: Option<&[u8]>, jwt_service: &JwtService) -> (decided: Result<
    UserId,
    Rejection,
>)
    ensures
        exists|now: int|
            guard_value(decided) == #[trigger] guard_outcome(
                jwt_service.secret(),
                header_bytes(header),
                now,
            ),
{
    let now = unix_now();
    let decided = from_request_at(header, jwt_service, now);
    assert(guard_value(decided) == guard_outcome(
        jwt_service.secret(),
        header_bytes(header),
        now as int,
    ));
    decided
}

/// The guard does not look at a token's class: two credentials whose tokens
/// carry the same subject and expiry are decided alike at any instant,
/// whatever class, issue time or email either carries.
pub proof fn guard_is_blind_to_class(
    secret: Seq<u8>,
    first: Option<Seq<u8>>,
    second: Option<Seq<u8>>,
    now: int,
)
    requires
        bearer_outcome(first) is Ok,
        bearer_outcome(second) is Ok,
        token_claims(secret, bearer_outcome(first)->Ok_0) is Some,
        token_claims(secret, bearer_outcome(second)->Ok_0) is Some,
        token_claims(secret, bearer_outcome(first)->Ok_0)->0.sub == token_claims(
            secret,
            bearer_outcome(second)->Ok_0,
        )->0.sub,
        token_claims(secret, bearer_outcome(first)->Ok_0)->0.exp == token_claims(
            secret,
            bearer_outcome(second)->Ok_0,
        )->0.exp,
    ensures
        guard_outcome(secret, first, now) == guard_outcome(secret, second, now),
{
}

/// A token that can stand in a header value and identifies an account at
/// an instant is admitted for that account when presented behind the
/// scheme. The token's class plays no part.
pub proof fn guard_admits_identifying_token(secret: Seq<u8>, token: Seq<char>, id: u128, now: int)
    requires
        is_header_text(token),
        user_id_outcome(secret, token, now) == Ok::<u128, AuthError>(id),
    ensures
        guard_outcome(secret, Some(bearer_header(token)), now) == Ok::<u128, RejectionView>(id),
{
    lemma_bearer_header(token);
}

/// A refresh token minted for an account is decided by the guard exactly
/// as an access token minted for that account is, at every instant at
/// which neither has expired.
pub proof fn guard_takes_refresh_token_as_access_token(
    secret: Seq<u8>,
    access: Seq<char>,
    refresh: Seq<char>,
    id: u128,
    email: Seq<char>,
    access_issued: int,
    refresh_issued: int,
    now: int,
)
    requires
        mintable(TokenClass::Access, access_issued),
        mintable(TokenClass::Refresh, refresh_issued),
        token_claims(secret, access) == Some(
            minted_claims(id, email, TokenClass::Access, access_issued),
        ),
        token_claims(secret, refresh) == Some(
            minted_claims(id, email, TokenClass::Refresh, refresh_issued),
        ),
        is_header_text(access),
        is_header_text(refresh),
        now <= access_issued + TokenClass::Access.spec_lifetime(),
        now <= refresh_issued + TokenClass::Refresh.spec_lifetime(),
    ensures
        guard_outcome(secret, Some(bearer_header(refresh)), now) == guard_outcome(
            secret,
            Some(bearer_header(access)),
            now,
        ),
{
    lemma_bearer_header(access);
    lemma_bearer_header(refresh);
}

} // verus!

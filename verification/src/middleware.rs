use vstd::prelude::*;
use crate::bearer::{
    bearer_header, bearer_outcome, bearer_token, header_bytes, is_header_text,
    lemma_bearer_header, BearerFault,
};
use crate::clock::unix_now;
use crate::errors::{rejection, AuthError, Rejection, RejectionView};
use crate::identifier::{parse_user_id, uuid_parsed, UserId};
use crate::jwt_service::{
    mintable, minted_claims, token_claims, user_id_outcome, verify_outcome, JwtService,
    TokenClass,
};

verus! {

/// What a request carries along its handling chain: the account it was
/// verified to act for, once the interceptor has bound one. It lives for
/// one request.
#[derive(Clone, Copy, Debug, PartialEq, Eq, Structural)]
pub struct RequestContext {
    pub user_id: Option<UserId>,
}

/// What the interceptor decides for a credential header at an instant: the
/// context the request goes on with, or the rejection that ends it.
pub open spec fn interception(secret: Seq<u8>, header: Option<Seq<u8>>, now: int) -> Result<
    RequestContext,
    RejectionView,
> {
    match bearer_outcome(header) {
        Err(BearerFault::Missing) => Err(
            rejection(AuthError::MissingCredential, "Требуется авторизация"@),
        ),
        Err(_) => Err(rejection(AuthError::MalformedCredential, "Неверный формат токена"@)),
        Ok(token) => match verify_outcome(secret, token, now) {
            Err(_) => Err(rejection(AuthError::InvalidCredential, "Недействительный токен"@)),
            Ok(claims) => Ok(RequestContext { user_id: uuid_parsed(claims.sub) }),
        },
    }
}

/// The mathematical value of the interceptor's decision.
pub open spec fn interception_value(decided: Result<RequestContext, Rejection>) -> Result<
    RequestContext,
    RejectionView,
> {
    match decided {
        Ok(context) => Ok(context),
        Err(r) => Err(r@),
    }
}

/// Builds interceptors that share one token service.
pub struct AuthMiddleware {
    jwt_service: JwtService,
}

impl AuthMiddleware {
    /// The secret of the token service that the interceptors verify with.
    pub closed spec fn secret(&self) -> Seq<u8> {
        self.jwt_service.secret()
    }

    pub fn new(jwt_service: JwtService) -> (middleware: Self)
        ensures
            middleware.secret() == jwt_service.secret(),
    {
        AuthMiddleware { jwt_service }
    }

    /// An interceptor to stand in front of one protected service.
    pub fn new_transform(&self) -> (inner: AuthMiddlewareInner)
        ensures
            inner.secret() == self.secret(),
    {
        AuthMiddlewareInner { jwt_service: self.jwt_service.clone() }
    }
}

/// The guard in front of a protected service.
pub struct AuthMiddlewareInner {
    jwt_service: JwtService,
}

impl AuthMiddlewareInner {
    /// The secret of the token service that the interceptor verifies with.
    pub closed spec fn secret(&self) -> Seq<u8> {
        self.jwt_service.secret()
    }

    /// Decides at the given instant (seconds since the epoch) whether a
    /// request with this credential header goes on to the protected service,
    /// and with which context. A verified token whose subject is no account
    /// identifier lets the request through with no account bound.
    pub fn call_at(&self, header: Option<&[u8]>, now: i64) -> (decided: Result<
        RequestContext,
        Rejection,
    >)
        ensures
            interception_value(decided) == interception(
                self.secret(),
                header_bytes(header),
                now as int,
            ),
    {
        let token = match bearer_token(header) {
            Ok(token) => token,
            Err(BearerFault::Missing) => {
                return Err(Rejection::new(AuthError::MissingCredential, "Требуется авторизация"));
            },
            Err(_) => {
                return Err(
                    Rejection::new(AuthError::MalformedCredential, "Неверный формат токена"),
                );
            },
        };
        match self.jwt_service.verify_token_at(token.as_str(), now) {
            Ok(claims) => Ok(RequestContext { user_id: parse_user_id(claims.sub.as_str()) }),
            Err(_) => Err(Rejection::new(AuthError::InvalidCredential, "Недействительный токен")),
        }
    }

    /// Decides against the clock whether a request with this credential
    /// header goes on to the protected service. Whatever the clock reads,
    /// the decision is the interceptor's at that instant.
    pub fn call(&self, header: Option<&[u8]>) -> (decided: Result<RequestContext, Rejection>)
        ensures
            exists|now: int|
                interception_value(decided) == #[trigger] interception(
                    self.secret(),
                    header_bytes(header),
                    now,
                ),
    {
        let now = unix_now();
        let decided = self.call_at(header, now);
        assert(interception_value(decided) == interception(
            self.secret(),
            header_bytes(header),
            now as int,
        ));
        decided
    }
}

/// The account that the interceptor bound to the request, if it bound one.
pub fn extract_user_id(context: &RequestContext) -> (bound: Option<UserId>)
    ensures
        bound == context.user_id,
{
    context.user_id
}

/// The interceptor does not look at a token's class: two credentials whose
/// tokens carry the same subject and expiry are decided alike at any
/// instant, whatever class, issue time or email either carries.
pub proof fn interceptor_is_blind_to_class(
    secret: Seq<u8>,
    first: Option<Seq<u8>>,
    second: Option<Seq<u8>>,
    now: int,
)
    requires
        bearer_outcome(first) is Ok,
        bearer_outcome(second) is Ok,
        token_claims(secret, bearer_outcome(first)->Ok_0) is Some,
        token_claims(secret, bearer_outcome(second)->Ok_0) is Some,
        token_claims(secret, bearer_outcome(first)->Ok_0)->0.sub == token_claims(
            secret,
            bearer_outcome(second)->Ok_0,
        )->0.sub,
        token_claims(secret, bearer_outcome(first)->Ok_0)->0.exp == token_claims(
            secret,
            bearer_outcome(second)->Ok_0,
        )->0.exp,
    ensures
        interception(secret, first, now) == interception(secret, second, now),
{
}

/// A token that can stand in a header value and identifies an account at
/// an instant lets the request through with that account bound, when
/// presented behind the scheme. The token's class plays no part.
pub proof fn interceptor_binds_identifying_token(
    secret: Seq<u8>,
    token: Seq<char>,
    id: u128,
    now: int,
)
    requires
        is_header_text(token),
        user_id_outcome(secret, token, now) == Ok::<u128, AuthError>(id),
    ensures
        interception(secret, Some(bearer_header(token)), now) == Ok::<
            RequestContext,
            RejectionView,
        >(RequestContext { user_id: Some(id) }),
{
    lemma_bearer_header(token);
}

/// A refresh token minted for an account is decided by the interceptor
/// exactly as an access token minted for that account is, at every instant
/// at which neither has expired.
pub proof fn interceptor_takes_refresh_token_as_access_token(
    secret: Seq<u8>,
    access: Seq<char>,
    refresh: Seq<char>,
    id: u128,
    email: Seq<char>,
    access_issued: int,
    refresh_issued: int,
    now: int,
)
    requires
        mintable(TokenClass::Access, access_issued),
        mintable(TokenClass::Refresh, refresh_issued),
        token_claims(secret, access) == Some(
            minted_claims(id, email, TokenClass::Access, access_issued),
        ),
        token_claims(secret, refresh) == Some(
            minted_claims(id, email, TokenClass::Refresh, refresh_issued),
        ),
        is_header_text(access),
        is_header_text(refresh),
        now <= access_issued + TokenClass::Access.spec_lifetime(),
        now <= refresh_issued + TokenClass::Refresh.spec_lifetime(),
    ensures
        interception(secret, Some(bearer_header(refresh)), now) == interception(
            secret,
            Some(bearer_header(access)),
            now,
        ),
{
    lemma_bearer_header(access);
    lemma_bearer_header(refresh);
}

} // verus!

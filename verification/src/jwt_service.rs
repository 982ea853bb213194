use vstd::prelude::*;
use vstd::slice::*;
use vstd::string::*;
use crate::bearer::is_header_text;
use crate::clock::unix_now;
use crate::entities::{ClaimsView, TokenClaims};
use crate::errors::AuthError;
use crate::identifier::{parse_user_id, user_id_text, uuid_parsed, uuid_text, UserId};

verus! {

/// Lifetime of an access token: fifteen minutes, in seconds.
pub const ACCESS_LIFETIME_SECS: u64 = 15 * 60;

/// Lifetime of a refresh token: thirty days, in seconds.
pub const REFRESH_LIFETIME_SECS: u64 = 30 * 24 * 60 * 60;

/// The purpose a token was minted for.
#[derive(Clone, Copy, Debug, PartialEq, Eq, Structural)]
pub enum TokenClass {
    /// Short-lived, presented with each protected request.
    Access,
    /// Long-lived, presented only to obtain a new access token.
    Refresh,
}

impl TokenClass {
    /// The tag that the claims carry for this class.
    pub open spec fn spec_label(self) -> Seq<char> {
        match self {
            TokenClass::Access => "access"@,
            TokenClass::Refresh => "refresh"@,
        }
    }

    /// The tag that the claims carry for this class.
    pub fn label(self) -> (tag: String)
        ensures
            tag@ == self.spec_label(),
    {
        match self {
            TokenClass::Access => String::from_str("access"),
            TokenClass::Refresh => String::from_str("refresh"),
        }
    }

    /// Seconds between issue and expiry for this class.
    pub open spec fn spec_lifetime(self) -> u64 {
        match self {
            TokenClass::Access => ACCESS_LIFETIME_SECS,
            TokenClass::Refresh => REFRESH_LIFETIME_SECS,
        }
    }

    /// Seconds between issue and expiry for this class.
    #[verifier::when_used_as_spec(spec_lifetime)]
    pub fn lifetime(self) -> (seconds: u64)
        ensures
            seconds == self.spec_lifetime(),
            seconds > 0,
    {
        match self {
            TokenClass::Access => ACCESS_LIFETIME_SECS,
            TokenClass::Refresh => REFRESH_LIFETIME_SECS,
        }
    }
}

/// The two class tags are different texts.
pub proof fn class_labels_differ()
    ensures
        TokenClass::Access.spec_label() != TokenClass::Refresh.spec_label(),
{
    reveal_strlit("access");
    reveal_strlit("refresh");
    assert("access"@.len() == 6);
    assert("refresh"@.len() == 7);
}

/// What a token's payload holds under the five claim names, each either
/// present with the right kind of value or not.
pub struct RawClaims {
    pub sub: Option<String>,
    pub email: Option<String>,
    pub exp: Option<u64>,
    pub iat: Option<u64>,
    pub token_type: Option<String>,
}

/// A token's payload as a mathematical value.
pub struct RawClaimsView {
    pub sub: Option<Seq<char>>,
    pub email: Option<Seq<char>>,
    pub exp: Option<u64>,
    pub iat: Option<u64>,
    pub token_type: Option<Seq<char>>,
}

impl View for RawClaims {
    type V = RawClaimsView;

    open spec fn view(&self) -> RawClaimsView {
        RawClaimsView {
            sub: crate::entities::text_of(self.sub),
            email: crate::entities::text_of(self.email),
            exp: self.exp,
            iat: self.iat,
            token_type: crate::entities::text_of(self.token_type),
        }
    }
}

impl ClaimsView {
    /// The payload in which all five claims are present with these values.
    pub open spec fn as_raw(self) -> RawClaimsView {
        RawClaimsView {
            sub: Some(self.sub),
            email: Some(self.email),
            exp: Some(self.exp),
            iat: Some(self.iat),
            token_type: Some(self.token_type),
        }
    }
}

impl RawClaimsView {
    /// The claims, where none of the five is missing.
    pub open spec fn complete(self) -> Option<ClaimsView> {
        if self.sub is Some && self.email is Some && self.exp is Some && self.iat is Some
            && self.token_type is Some {
            Some(
                ClaimsView {
                    sub: self.sub->0,
                    email: self.email->0,
                    exp: self.exp->0,
                    iat: self.iat->0,
                    token_type: self.token_type->0,
                },
            )
        } else {
            None
        }
    }
}

/// The error of `jsonwebtoken`, carried through and never looked into.
#[verifier::external_type_specification]
#[verifier::external_body]
pub struct ExJwtError(jsonwebtoken::errors::Error);

/// The token that `jsonwebtoken::encode` makes of a secret and claims, under
/// the default header (HS256): a function of the two alone. `None` where it
/// reports an error, which under that header and an HMAC key it does not.
pub uninterp spec fn jwt_encoded(secret: Seq<u8>, claims: ClaimsView) -> Option<Seq<char>>;

/// The payload that `jsonwebtoken::decode` hands back for a secret and a
/// token when it checks shape, algorithm and signature but not expiry:
/// a function of the two alone. `None` where it reports an error.
pub uninterp spec fn jwt_decoded(secret: Seq<u8>, token: Seq<char>) -> Option<RawClaimsView>;

/// Signs claims with `jsonwebtoken::encode`, under `Header::default()` and
/// the secret as an HMAC key; the claims go in as a JSON object of their
/// five fields. Under that header and such a key it does not fail: the
/// key fits the algorithm, a JSON object of texts and numbers always
/// serialises, and an HMAC is always computed. What it returns is the
/// named encoding. The token is three base64url parts joined by dots, so
/// it can stand in a header value as it is; and it is one that
/// `jsonwebtoken::decode` accepts under the same secret, handing back
/// those five fields.
#[verifier::external_body]
fn jwt_encode(secret: &[u8], claims: &TokenClaims) -> (signed: Result<
    String,
    jsonwebtoken::errors::Error,
>)
    ensures
        signed is Ok,
        signed matches Ok(token) ==> jwt_encoded(secret@, claims@) == Some(token@),
        signed matches Ok(token) ==> is_header_text(token@),
        signed matches Ok(token) ==> jwt_decoded(secret@, token@) == Some(claims@.as_raw()),
{
    let mut payload = serde_json::Map::new();
    payload.insert("sub".to_string(), claims.sub.clone().into());
    payload.insert("email".to_string(), claims.email.clone().into());
    payload.insert("exp".to_string(), claims.exp.into());
    payload.insert("iat".to_string(), claims.iat.into());
    payload.insert("token_type".to_string(), claims.token_type.clone().into());
    let key = jsonwebtoken::EncodingKey::from_secret(secret);
    jsonwebtoken::encode(&jsonwebtoken::Header::default(), &payload, &key)
}

/// Opens a token with `jsonwebtoken::decode`, under `Validation::default()`
/// with the expiry check switched off and the secret as an HMAC key, and
/// picks the five claims out of the JSON payload. What it returns is the
/// named decoding.
#[verifier::external_body]
fn jwt_decode(secret: &[u8], token: &str) -> (opened: Result<RawClaims, jsonwebtoken::errors::Error>)
    ensures
        opened matches Ok(raw) ==> jwt_decoded(secret@, token@) == Some(raw@),
        opened is Err ==> jwt_decoded(secret@, token@) is None,
{
    let mut validation = jsonwebtoken::Validation::default();
    validation.validate_exp = false;
    let key = jsonwebtoken::DecodingKey::from_secret(secret);
    let payload = jsonwebtoken::decode::<serde_json::Value>(token, &key, &validation)?.claims;
    Ok(RawClaims {
        sub: payload.get("sub").and_then(serde_json::Value::as_str).map(str::to_string),
        email: payload.get("email").and_then(serde_json::Value::as_str).map(str::to_string),
        exp: payload.get("exp").and_then(serde_json::Value::as_u64),
        iat: payload.get("iat").and_then(serde_json::Value::as_u64),
        token_type: payload.get("token_type").and_then(serde_json::Value::as_str).map(str::to_string),
    })
}

/// Turns a decoded payload into claims; `None` where one of the five is missing.
pub fn claims_from_raw(raw: RawClaims) -> (claims: Option<TokenClaims>)
    ensures
        match raw@.complete() {
            Some(c) => claims matches Some(made) && made@ == c,
            None => claims is None,
        },
{
    match (raw.sub, raw.email, raw.exp, raw.iat, raw.token_type) {
        (Some(sub), Some(email), Some(exp), Some(iat), Some(token_type)) => Some(
            TokenClaims { sub, email, exp, iat, token_type },
        ),
        _ => None,
    }
}

/// The claims that a token carries under a secret: present where the token
/// is well formed, signed with that secret, and holds all five claims.
pub open spec fn token_claims(secret: Seq<u8>, token: Seq<char>) -> Option<ClaimsView> {
    match jwt_decoded(secret, token) {
        Some(raw) => raw.complete(),
        None => None,
    }
}

/// What an opened token comes to at an instant (seconds since the epoch):
/// its claims, unless the token did not open, a claim is missing, or the
/// expiry lies before the instant.
pub open spec fn claims_outcome(opened: Option<RawClaimsView>, now: int) -> Result<
    ClaimsView,
    AuthError,
> {
    match opened {
        None => Err(AuthError::TokenInvalid),
        Some(raw) => match raw.complete() {
            None => Err(AuthError::TokenInvalid),
            Some(claims) => if now > claims.exp {
                Err(AuthError::TokenExpired)
            } else {
                Ok(claims)
            },
        },
    }
}

/// What verifying a token at an instant (seconds since the epoch) comes to.
pub open spec fn verify_outcome(secret: Seq<u8>, token: Seq<char>, now: int) -> Result<
    ClaimsView,
    AuthError,
> {
    claims_outcome(jwt_decoded(secret, token), now)
}

/// Whether claims can be minted at an instant: it is not before the epoch
/// and the expiry fits the claim's 64 bits.
pub open spec fn mintable(class: TokenClass, now: int) -> bool {
    0 <= now && now + class.spec_lifetime() <= u64::MAX
}

/// The claims of the given class for a subject, issued at an instant.
pub open spec fn claims_with(subject: Seq<char>, email: Seq<char>, class: TokenClass, now: int) -> ClaimsView
    recommends
        mintable(class, now),
{
    ClaimsView {
        sub: subject,
        email,
        exp: (now + class.spec_lifetime()) as u64,
        iat: now as u64,
        token_type: class.spec_label(),
    }
}

/// The claims minted for an account at an instant: its subject is the
/// canonical text of the account's identifier.
pub open spec fn minted_claims(id: u128, email: Seq<char>, class: TokenClass, now: int) -> ClaimsView
    recommends
        mintable(class, now),
{
    claims_with(uuid_text(id), email, class, now)
}

/// What minting a token at an instant comes to.
pub open spec fn mint_outcome(
    secret: Seq<u8>,
    id: u128,
    email: Seq<char>,
    class: TokenClass,
    now: int,
) -> Result<Seq<char>, AuthError> {
    if !mintable(class, now) {
        Err(AuthError::TokenMintFailed)
    } else {
        match jwt_encoded(secret, minted_claims(id, email, class, now)) {
            Some(token) => Ok(token),
            None => Err(AuthError::TokenMintFailed),
        }
    }
}

/// What reading the account identifier out of a token at an instant comes to.
pub open spec fn user_id_outcome(secret: Seq<u8>, token: Seq<char>, now: int) -> Result<
    u128,
    AuthError,
> {
    match verify_outcome(secret, token, now) {
        Err(e) => Err(e),
        Ok(claims) => match uuid_parsed(claims.sub) {
            Some(id) => Ok(id),
            None => Err(AuthError::MalformedCredential),
        },
    }
}

/// The text of a minting result.
pub open spec fn token_text(minted: Result<String, AuthError>) -> Result<Seq<char>, AuthError> {
    match minted {
        Ok(token) => Ok(token@),
        Err(e) => Err(e),
    }
}

/// The mathematical value of a verification result.
pub open spec fn claims_value(verified: Result<TokenClaims, AuthError>) -> Result<
    ClaimsView,
    AuthError,
> {
    match verified {
        Ok(claims) => Ok(claims@),
        Err(e) => Err(e),
    }
}

/// The mathematical value of an opened token.
pub open spec fn opened_value(opened: Option<RawClaims>) -> Option<RawClaimsView> {
    match opened {
        Some(raw) => Some(raw@),
        None => None,
    }
}

/// Builds the claims of the given class for a subject at the given instant
/// (seconds since the epoch): issued then, expiring one lifetime of the
/// class later. There are none where the instant lies before the epoch or
/// the expiry does not fit.
pub fn claims_at(subject: String, email: &str, class: TokenClass, now: i64) -> (claims: Option<
    TokenClaims,
>)
    ensures
        match claims {
            Some(built) => mintable(class, now as int) && built@ == claims_with(
                subject@,
                email@,
                class,
                now as int,
            ) && built.exp > built.iat && built.exp - built.iat == class.spec_lifetime(),
            None => !mintable(class, now as int),
        },
{
    if now < 0 {
        return None;
    }
    let issued: u64 = now as u64;
    if issued > u64::MAX - class.lifetime() {
        return None;
    }
    Some(
        TokenClaims {
            sub: subject,
            email: String::from_str(email),
            exp: issued + class.lifetime(),
            iat: issued,
            token_type: class.label(),
        },
    )
}

/// Judges an opened token at the given instant (seconds since the epoch):
/// all five claims must be there, and the expiry must not lie before the
/// instant. The class is not looked at.
pub fn judge_claims(opened: Option<RawClaims>, now: i64) -> (verified: Result<
    TokenClaims,
    AuthError,
>)
    ensures
        claims_value(verified) == claims_outcome(opened_value(opened), now as int),
{
    let raw = match opened {
        Some(raw) => raw,
        None => {
            return Err(AuthError::TokenInvalid);
        },
    };
    match claims_from_raw(raw) {
        None => Err(AuthError::TokenInvalid),
        Some(claims) => {
            if now >= 0 && now as u64 > claims.exp {
                Err(AuthError::TokenExpired)
            } else {
                Ok(claims)
            }
        },
    }
}

/// Round trip: a token that carries the claims minted for an account
/// verifies at every instant up to its expiry, and what comes back has the
/// account's identifier as subject, the email and class it was minted with,
/// and the class's lifetime between issue and expiry.
pub proof fn minted_token_verifies(
    secret: Seq<u8>,
    token: Seq<char>,
    id: u128,
    email: Seq<char>,
    class: TokenClass,
    issued: int,
    at: int,
)
    requires
        mintable(class, issued),
        token_claims(secret, token) == Some(minted_claims(id, email, class, issued)),
        at <= issued + class.spec_lifetime(),
    ensures
        verify_outcome(secret, token, at) == Ok::<ClaimsView, AuthError>(
            minted_claims(id, email, class, issued),
        ),
        minted_claims(id, email, class, issued).sub == uuid_text(id),
        minted_claims(id, email, class, issued).email == email,
        minted_claims(id, email, class, issued).token_type == class.spec_label(),
        minted_claims(id, email, class, issued).exp - minted_claims(id, email, class, issued).iat
            == class.spec_lifetime(),
        minted_claims(id, email, class, issued).exp > minted_claims(id, email, class, issued).iat,
{
}

/// Expiry: verification accepts no token past its expiry. A token whose
/// claims expire before the instant of verification is rejected as expired
/// where its signature holds, and as invalid where it does not.
pub proof fn expired_token_is_rejected(secret: Seq<u8>, token: Seq<char>, now: int)
    ensures
        verify_outcome(secret, token, now) is Ok ==> now <= verify_outcome(
            secret,
            token,
            now,
        )->Ok_0.exp,
        token_claims(secret, token) is Some && token_claims(secret, token)->0.exp < now
            ==> verify_outcome(secret, token, now) == Err::<ClaimsView, AuthError>(
            AuthError::TokenExpired,
        ),
        token_claims(secret, token) is None ==> verify_outcome(secret, token, now) == Err::<
            ClaimsView,
            AuthError,
        >(AuthError::TokenInvalid),
{
}

/// Verification reads the claims and changes nothing: what it hands back
/// on success is what the token carries.
pub proof fn verification_keeps_claims(secret: Seq<u8>, token: Seq<char>, now: int)
    ensures
        verify_outcome(secret, token, now) is Ok ==> token_claims(secret, token) == Some(
            verify_outcome(secret, token, now)->Ok_0,
        ),
{
}

/// Mints and verifies signed session tokens under one shared secret.
pub struct JwtService {
    secret: Vec<u8>,
}

impl JwtService {
    /// The signing secret.
    pub closed spec fn secret(&self) -> Seq<u8> {
        self.secret@
    }

    /// The secret used where none is configured.
    pub open spec fn default_secret() -> Seq<u8> {
        "default_secret_key".spec_bytes()
    }

    /// A service under the configured secret, or under the default one where
    /// none is configured.
    pub fn new(configured: Option<&str>) -> (service: Self)
        ensures
            service.secret() == match configured {
                Some(secret) => secret.spec_bytes(),
                None => Self::default_secret(),
            },
    {
        let text = match configured {
            Some(secret) => secret,
            None => "default_secret_key",
        };
        JwtService { secret: slice_to_vec(text.as_bytes()) }
    }

    /// Mints a token of the given class for an account at the given instant
    /// (seconds since the epoch). It succeeds exactly where the instant is
    /// not before the epoch and the expiry fits. The token can stand in a
    /// header value; it verifies under this service at every instant up to
    /// its expiry, yields the minted claims, and identifies the account.
    pub fn mint_at(&self, user_id: UserId, email: &str, class: TokenClass, now: i64) -> (minted:
        Result<String, AuthError>)
        ensures
            token_text(minted) == mint_outcome(self.secret(), user_id, email@, class, now as int),
            minted is Ok <==> mintable(class, now as int),
            minted matches Ok(token) ==> is_header_text(token@),
            minted matches Ok(token) ==> forall|at: int|
                at <= now + class.spec_lifetime() ==> #[trigger] user_id_outcome(
                    self.secret(),
                    token@,
                    at,
                ) == Ok::<u128, AuthError>(user_id),
            minted matches Ok(token) ==> token_claims(self.secret(), token@) == Some(
                minted_claims(user_id, email@, class, now as int),
            ),
            minted matches Ok(token) ==> forall|at: int|
                at <= now + class.spec_lifetime() ==> #[trigger] verify_outcome(
                    self.secret(),
                    token@,
                    at,
                ) == Ok::<ClaimsView, AuthError>(
                    minted_claims(user_id, email@, class, now as int),
                ),
    {
        let claims = match claims_at(user_id_text(user_id), email, class, now) {
            Some(claims) => claims,
            None => {
                return Err(AuthError::TokenMintFailed);
            },
        };
        match jwt_encode(self.secret.as_slice(), &claims) {
            Ok(token) => Ok(token),
            Err(_) => Err(AuthError::TokenMintFailed),
        }
    }

    /// Mints an access token for an account: it expires fifteen minutes
    /// after issue. Fails only where the signing backend does, or the clock
    /// reads a time that the claims cannot hold.
    pub fn generate_access_token(&self, user_id: UserId, email: &str) -> (minted: Result<
        String,
        AuthError,
    >)
        ensures
            exists|now: int|
                token_text(minted) == #[trigger] mint_outcome(
                    self.secret(),
                    user_id,
                    email@,
                    TokenClass::Access,
                    now,
                ),
            minted matches Ok(token) ==> is_header_text(token@),
            minted matches Ok(token) ==> token_claims(self.secret(), token@) matches Some(claims)
                && claims.sub == uuid_text(user_id) && claims.email == email@ && claims.token_type
                == TokenClass::Access.spec_label() && claims.exp - claims.iat
                == ACCESS_LIFETIME_SECS,
            minted matches Err(e) ==> e == AuthError::TokenMintFailed,
    {
        let now = unix_now();
        let minted = self.mint_at(user_id, email, TokenClass::Access, now);
        assert(token_text(minted) == mint_outcome(
            self.secret(),
            user_id,
            email@,
            TokenClass::Access,
            now as int,
        ));
        minted
    }

    /// Mints a refresh token for an account: it expires thirty days after
    /// issue. Fails only where the signing backend does, or the clock reads
    /// a time that the claims cannot hold.
    pub fn generate_refresh_token(&self, user_id: UserId, email: &str) -> (minted: Result<
        String,
        AuthError,
    >)
        ensures
            exists|now: int|
                token_text(minted) == #[trigger] mint_outcome(
                    self.secret(),
                    user_id,
                    email@,
                    TokenClass::Refresh,
                    now,
                ),
            minted matches Ok(token) ==> is_header_text(token@),
            minted matches Ok(token) ==> token_claims(self.secret(), token@) matches Some(claims)
                && claims.sub == uuid_text(user_id) && claims.email == email@ && claims.token_type
                == TokenClass::Refresh.spec_label() && claims.exp - claims.iat
                == REFRESH_LIFETIME_SECS,
            minted matches Err(e) ==> e == AuthError::TokenMintFailed,
    {
        let now = unix_now();
        let minted = self.mint_at(user_id, email, TokenClass::Refresh, now);
        assert(token_text(minted) == mint_outcome(
            self.secret(),
            user_id,
            email@,
            TokenClass::Refresh,
            now as int,
        ));
        minted
    }

    /// Verifies a token at the given instant (seconds since the epoch):
    /// shape and signature first, then expiry. The token's class is not
    /// looked at.
    pub fn verify_token_at(&self, token: &str, now: i64) -> (verified: Result<
        TokenClaims,
        AuthError,
    >)
        ensures
            claims_value(verified) == verify_outcome(self.secret(), token@, now as int),
    {
        let opened = match jwt_decode(self.secret.as_slice(), token) {
            Ok(raw) => Some(raw),
            Err(_) => None,
        };
        judge_claims(opened, now)
    }

    /// Verifies a token against the clock. Whatever the clock reads, the
    /// result is what verification at that instant comes to.
    pub fn verify_token(&self, token: &str) -> (verified: Result<TokenClaims, AuthError>)
        ensures
            exists|now: int| claims_value(verified) == #[trigger] verify_outcome(
                self.secret(),
                token@,
                now,
            ),
    {
        let now = unix_now();
        let verified = self.verify_token_at(token, now);
        assert(claims_value(verified) == verify_outcome(self.secret(), token@, now as int));
        verified
    }

    /// Verifies a token at the given instant and reads the account
    /// identifier out of its subject.
    pub fn get_user_id_from_token_at(&self, token: &str, now: i64) -> (found: Result<
        UserId,
        AuthError,
    >)
        ensures
            found == user_id_outcome(self.secret(), token@, now as int),
    {
        let claims = self.verify_token_at(token, now)?;
        match parse_user_id(claims.sub.as_str()) {
            Some(id) => Ok(id),
            None => Err(AuthError::MalformedCredential),
        }
    }

    /// Verifies a token against the clock and reads the account identifier
    /// out of its subject.
    pub fn get_user_id_from_token(&self, token: &str) -> (found: Result<UserId, AuthError>)
        ensures
            exists|now: int| found == #[trigger] user_id_outcome(self.secret(), token@, now),
    {
        let now = unix_now();
        let found = self.get_user_id_from_token_at(token, now);
        assert(found == user_id_outcome(self.secret(), token@, now as int));
        found
    }
}

impl Clone for JwtService {
    fn clone(&self) -> (copy: Self)
        ensures
            copy.secret() == self.secret(),
    {
        JwtService { secret: self.secret.clone() }
    }
}

} // verus!

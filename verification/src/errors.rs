use vstd::prelude::*;
use vstd::string::*;

verus! {

/// Why a request to the authentication core was turned away.
#[derive(Clone, Copy, Debug, PartialEq, Eq, Structural)]
pub enum AuthError {
    /// No credential header came with the request.
    MissingCredential,
    /// The credential header is not text, or lacks the bearer scheme.
    MalformedCredential,
    /// The bearer token has a bad signature, a bad shape, or is past its expiry.
    InvalidCredential,
    /// The token is genuine but of the wrong class for the endpoint.
    WrongTokenClass,
    /// Login failed: unknown account or wrong password, deliberately not told apart.
    InvalidCredentials,
    /// Another visible account already carries the username.
    DuplicateUsername,
    /// The password hashing scheme failed, or the stored hash is corrupt.
    HashingFailure,
    /// The signing backend refused to produce a token.
    TokenMintFailed,
    /// The credential store reported a fault.
    RepositoryFailure,
    /// The token cannot be parsed or its signature does not match.
    TokenInvalid,
    /// The token is genuine but its expiry lies in the past.
    TokenExpired,
    /// A request field failed validation.
    InvalidRequest,
    /// The account the request speaks of is not visible in the store.
    AccountNotFound,
}

impl AuthError {
    /// The transport status that stands for this rejection.
    pub open spec fn spec_status(self) -> u16 {
        match self {
            AuthError::MissingCredential => 401,
            AuthError::MalformedCredential => 400,
            AuthError::InvalidCredential => 401,
            AuthError::WrongTokenClass => 400,
            AuthError::InvalidCredentials => 401,
            AuthError::DuplicateUsername => 400,
            AuthError::HashingFailure => 500,
            AuthError::TokenMintFailed => 500,
            AuthError::RepositoryFailure => 500,
            AuthError::TokenInvalid => 401,
            AuthError::TokenExpired => 401,
            AuthError::InvalidRequest => 400,
            AuthError::AccountNotFound => 404,
        }
    }

    #[verifier::when_used_as_spec(spec_status)]
    pub fn status(self) -> (code: u16)
        ensures
            code == self.spec_status(),
    {
        match self {
            AuthError::MissingCredential => 401,
            AuthError::MalformedCredential => 400,
            AuthError::InvalidCredential => 401,
            AuthError::WrongTokenClass => 400,
            AuthError::InvalidCredentials => 401,
            AuthError::DuplicateUsername => 400,
            AuthError::HashingFailure => 500,
            AuthError::TokenMintFailed => 500,
            AuthError::RepositoryFailure => 500,
            AuthError::TokenInvalid => 401,
            AuthError::TokenExpired => 401,
            AuthError::InvalidRequest => 400,
            AuthError::AccountNotFound => 404,
        }
    }
}

/// A rejection as a caller sees it: its class and the text shown.
#[derive(Debug)]
pub struct Rejection {
    pub error: AuthError,
    pub message: String,
}

/// A rejection as a mathematical value.
pub struct RejectionView {
    pub error: AuthError,
    pub message: Seq<char>,
}

impl View for Rejection {
    type V = RejectionView;

    open spec fn view(&self) -> RejectionView {
        RejectionView { error: self.error, message: self.message@ }
    }
}

impl Rejection {
    /// A rejection of the given class with a fixed text.
    pub fn new(error: AuthError, message: &str) -> (rejection: Self)
        ensures
            rejection@ == (RejectionView { error, message: message@ }),
    {
        Rejection { error, message: String::from_str(message) }
    }

    /// A rejection of the given class whose text is a fixed lead followed by
    /// what the failing component reported.
    pub fn with_detail(error: AuthError, lead: &str, detail: &str) -> (rejection: Self)
        ensures
            rejection@ == (RejectionView { error, message: lead@ + detail@ }),
    {
        Rejection { error, message: String::from_str(lead).concat(detail) }
    }

    /// The transport status that stands for this rejection.
    pub fn status(&self) -> (code: u16)
        ensures
            code == self.error.spec_status(),
    {
        self.error.status()
    }
}

/// A rejection of the given class and text, as a mathematical value.
pub open spec fn rejection(error: AuthError, message: Seq<char>) -> RejectionView {
    RejectionView { error, message }
}

} // verus!

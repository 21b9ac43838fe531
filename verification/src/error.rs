use vstd::prelude::*;

verus! {

/// Why an operation of the credential core failed.
#[derive(Clone, Copy, Debug, PartialEq, Eq, Structural)]
pub enum AuthError {
    /// The token is not one that the key signed, or its payload lacks a claim.
    InvalidSignature,
    /// The token's expiry lies before the time of the check.
    Expired,
    /// The token was issued, or becomes valid, after the time of the check.
    NotYetValid,
    /// The token's record says that it was revoked.
    Revoked,
    /// No record is kept under the token's identifier.
    UnknownToken,
    /// No usable signing key could be loaded or derived.
    KeyMaterialUnavailable,
    /// The federation state is unknown, expired, consumed or of another provider.
    CsrfStateMismatchOrExpired,
    /// The identity provider could not be reached or answered with a failure.
    UpstreamProviderError,
    /// The provider's profile lacks an email or a display name.
    IncompleteProfile,
    /// The durable store could not be reached.
    StoreUnavailable,
    /// The claims to sign cannot be represented: the lifetime leaves the range of
    /// dates, or the token identifier is not a canonical UUID.
    InvalidClaims,
    /// No provider is registered under the name, or it is registered with
    /// addresses that are no URLs.
    UnknownProvider,
}

/// The body of a failure response.
#[derive(Debug)]
pub struct ErrorResponse {
    pub status: &'static str,
    pub message: String,
}

impl AuthError {
    /// Whether the caller sees this failure as "unauthorized".
    pub open spec fn spec_is_unauthorized(self) -> bool {
        self == AuthError::InvalidSignature || self == AuthError::Expired || self
            == AuthError::NotYetValid || self == AuthError::Revoked || self
            == AuthError::UnknownToken
    }

    /// Whether a later attempt of the same call may succeed.
    pub open spec fn spec_is_retryable(self) -> bool {
        self == AuthError::StoreUnavailable || self == AuthError::UpstreamProviderError
    }

    /// Whether the caller sees this failure as "unauthorized".
    #[verifier::when_used_as_spec(spec_is_unauthorized)]
    pub fn is_unauthorized(self) -> (r: bool)
        ensures
            r == self.spec_is_unauthorized(),
    {
        match self {
            AuthError::InvalidSignature
            | AuthError::Expired
            | AuthError::NotYetValid
            | AuthError::Revoked
            | AuthError::UnknownToken => true,
            _ => false,
        }
    }

    /// Whether a later attempt of the same call may succeed.
    #[verifier::when_used_as_spec(spec_is_retryable)]
    pub fn is_retryable(self) -> (r: bool)
        ensures
            r == self.spec_is_retryable(),
    {
        match self {
            AuthError::StoreUnavailable | AuthError::UpstreamProviderError => true,
            _ => false,
        }
    }

    /// The HTTP status that answers this failure.
    pub open spec fn spec_status_code(self) -> u16 {
        if self.spec_is_unauthorized() {
            401
        } else if self == AuthError::CsrfStateMismatchOrExpired || self
            == AuthError::IncompleteProfile || self == AuthError::UnknownProvider || self
            == AuthError::InvalidClaims {
            400
        } else {
            500
        }
    }

    /// The HTTP status that answers this failure.
    #[verifier::when_used_as_spec(spec_status_code)]
    pub fn status_code(self) -> (r: u16)
        ensures
            r == self.spec_status_code(),
    {
        match self {
            AuthError::InvalidSignature
            | AuthError::Expired
            | AuthError::NotYetValid
            | AuthError::Revoked
            | AuthError::UnknownToken => 401,
            AuthError::CsrfStateMismatchOrExpired
            | AuthError::IncompleteProfile
            | AuthError::UnknownProvider
            | AuthError::InvalidClaims => 400,
            _ => 500,
        }
    }

    /// The text shown to a user: one and the same for every unauthorized outcome.
    pub fn public_message(self) -> (r: &'static str)
        ensures
            r@ == public_message_text(self),
    {
        match self {
            AuthError::InvalidSignature
            | AuthError::Expired
            | AuthError::NotYetValid
            | AuthError::Revoked
            | AuthError::UnknownToken => "invalid or expired session",
            AuthError::KeyMaterialUnavailable => "signing keys are unavailable",
            AuthError::CsrfStateMismatchOrExpired => "sign-in attempt is unknown or has expired",
            AuthError::UpstreamProviderError => "identity provider failed",
            AuthError::IncompleteProfile => "identity provider returned an incomplete profile",
            AuthError::StoreUnavailable => "store is unavailable",
            AuthError::InvalidClaims => "token claims are out of range",
            AuthError::UnknownProvider => "identity provider is not known",
        }
    }

    /// The failure response for this error.
    pub fn response(self) -> (r: ErrorResponse)
        ensures
            r.status@ == "fail"@,
            r.message@ == public_message_text(self),
    {
        ErrorResponse { status: "fail", message: self.public_message().to_owned() }
    }
}

/// The text shown to a user for a failure: one and the same for every
/// unauthorized outcome.
pub open spec fn public_message_text(e: AuthError) -> Seq<char> {
    if e.spec_is_unauthorized() {
        "invalid or expired session"@
    } else {
        match e {
            AuthError::KeyMaterialUnavailable => "signing keys are unavailable"@,
            AuthError::CsrfStateMismatchOrExpired => "sign-in attempt is unknown or has expired"@,
            AuthError::UpstreamProviderError => "identity provider failed"@,
            AuthError::IncompleteProfile => "identity provider returned an incomplete profile"@,
            AuthError::StoreUnavailable => "store is unavailable"@,
            AuthError::UnknownProvider => "identity provider is not known"@,
            _ => "token claims are out of range"@,
        }
    }
}

/// Any two unauthorized outcomes show the same text and the same status, so
/// the answer tells a caller nothing of which check failed.
pub proof fn unauthorized_outcomes_are_opaque(a: AuthError, b: AuthError)
    requires
        a.spec_is_unauthorized(),
        b.spec_is_unauthorized(),
    ensures
        public_message_text(a) == public_message_text(b),
        a.spec_status_code() == b.spec_status_code(),
{
}

} // verus!

//! The failures that token verification and key discovery report.

use vstd::prelude::*;

verus! {

/// Which of the three tokens of a bundle is meant.
#[derive(Clone, Copy, Debug, PartialEq, Eq, Structural)]
pub enum TokenKind {
    Access,
    Identity,
    Userinfo,
}

/// A claim that every token must carry.
#[derive(Clone, Copy, Debug, PartialEq, Eq, Structural)]
pub enum ClaimName {
    /// `iss`, the issuer.
    Iss,
    /// `aud`, the audience.
    Aud,
    /// `sub`, the subject.
    Sub,
    /// `exp`, the expiry instant in seconds since the epoch.
    Exp,
}

/// Why a single token was refused.
#[derive(Clone, Copy, Debug, PartialEq, Eq, Structural)]
pub enum DecodeError {
    /// The token is not well-formed compact-serialized signed content.
    StructuralDecodeFailure,
    /// The token body decodes but lacks a required claim.
    MissingRequiredClaim(ClaimName),
    /// No candidate key of the issuer verifies the signature.
    InvalidSignature,
    /// The header names an algorithm outside the configured allow-list.
    AlgorithmNotPermitted,
    /// The `exp` claim lies in the past.
    Expired,
    /// The `iss` claim matches no trusted issuer.
    UntrustedIssuer,
}

/// Why the keys of a trusted issuer could not be resolved.
#[derive(Clone, Copy, Debug, PartialEq, Eq, Structural)]
pub enum FetchError {
    /// The request did not complete.
    Transport,
    /// The endpoint answered with a status other than 200.
    Status(u16),
    /// The body is not a discovery document or key set of the expected shape.
    Malformed,
    /// The discovery document names another issuer than the configured one.
    IssuerMismatch,
}

/// Why a bundle of tokens was refused.
#[derive(Clone, Copy, Debug, PartialEq, Eq, Structural)]
pub enum ServiceError {
    /// The access token failed on its own.
    InvalidAccessToken(DecodeError),
    /// The identity token failed on its own.
    InvalidIdToken(DecodeError),
    /// The userinfo token failed on its own.
    InvalidUserinfoToken(DecodeError),
    /// Each token is valid on its own, but they disagree on this claim.
    CrossTokenInconsistency(ClaimName),
}

impl ClaimName {
    /// The member name under which the claim stands in a token body.
    pub open spec fn spec_key(self) -> Seq<char> {
        match self {
            ClaimName::Iss => "iss"@,
            ClaimName::Aud => "aud"@,
            ClaimName::Sub => "sub"@,
            ClaimName::Exp => "exp"@,
        }
    }

    /// The member name under which the claim stands in a token body.
    pub fn key(self) -> (r: &'static str)
        ensures
            r@ == self.spec_key(),
    {
        match self {
            ClaimName::Iss => "iss",
            ClaimName::Aud => "aud",
            ClaimName::Sub => "sub",
            ClaimName::Exp => "exp",
        }
    }
}

impl FetchError {
    /// Whether the failure lies in the transport: the request did not
    /// complete, or completed with a status other than 200.
    pub fn is_transport_failure(self) -> (r: bool)
        ensures
            r == (self is Transport || self is Status),
    {
        match self {
            FetchError::Transport => true,
            FetchError::Status(_) => true,
            _ => false,
        }
    }
}

impl ServiceError {
    /// The failure that `kind`'s token met on its own.
    pub open spec fn spec_for_token(kind: TokenKind, error: DecodeError) -> ServiceError {
        match kind {
            TokenKind::Access => ServiceError::InvalidAccessToken(error),
            TokenKind::Identity => ServiceError::InvalidIdToken(error),
            TokenKind::Userinfo => ServiceError::InvalidUserinfoToken(error),
        }
    }

    /// The token that failed on its own, if the failure is of one token.
    pub open spec fn spec_token_kind(self) -> Option<TokenKind> {
        match self {
            ServiceError::InvalidAccessToken(_) => Some(TokenKind::Access),
            ServiceError::InvalidIdToken(_) => Some(TokenKind::Identity),
            ServiceError::InvalidUserinfoToken(_) => Some(TokenKind::Userinfo),
            ServiceError::CrossTokenInconsistency(_) => None,
        }
    }

    /// Tags a single token's failure with the kind of token that met it.
    pub fn for_token(kind: TokenKind, error: DecodeError) -> (r: ServiceError)
        ensures
            r == Self::spec_for_token(kind, error),
            r.spec_token_kind() == Some(kind),
    {
        match kind {
            TokenKind::Access => ServiceError::InvalidAccessToken(error),
            TokenKind::Identity => ServiceError::InvalidIdToken(error),
            TokenKind::Userinfo => ServiceError::InvalidUserinfoToken(error),
        }
    }

    /// The token that failed on its own; `None` where the tokens disagree
    /// with each other.
    pub fn token_kind(self) -> (r: Option<TokenKind>)
        ensures
            r == self.spec_token_kind(),
    {
        match self {
            ServiceError::InvalidAccessToken(_) => Some(TokenKind::Access),
            ServiceError::InvalidIdToken(_) => Some(TokenKind::Identity),
            ServiceError::InvalidUserinfoToken(_) => Some(TokenKind::Userinfo),
            ServiceError::CrossTokenInconsistency(_) => None,
        }
    }
}

} // verus!

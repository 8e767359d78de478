//! Signing algorithms and the key families they belong to.

use vstd::prelude::*;
use crate::text::same_text;

verus! {

/// The family of key material a signing algorithm works with.
#[derive(Clone, Copy, Debug, PartialEq, Eq, Structural)]
pub enum KeyFamily {
    /// A shared secret (`kty` = `oct`).
    Hmac,
    /// An RSA public key (`kty` = `RSA`).
    Rsa,
    /// An elliptic-curve public key (`kty` = `EC`).
    EllipticCurve,
    /// An Edwards-curve public key (`kty` = `OKP`).
    OctetKeyPair,
}

/// A signing algorithm that a token header may name.
#[derive(Clone, Copy, Debug, PartialEq, Eq, Structural)]
pub enum Algorithm {
    HS256,
    HS384,
    HS512,
    ES256,
    ES384,
    RS256,
    RS384,
    RS512,
    PS256,
    PS384,
    PS512,
    EdDSA,
}

/// The algorithm that carries the identifier `name`, if any does.
pub open spec fn algorithm_named(name: Seq<char>) -> Option<Algorithm> {
    if name == "HS256"@ {
        Some(Algorithm::HS256)
    } else if name == "HS384"@ {
        Some(Algorithm::HS384)
    } else if name == "HS512"@ {
        Some(Algorithm::HS512)
    } else if name == "ES256"@ {
        Some(Algorithm::ES256)
    } else if name == "ES384"@ {
        Some(Algorithm::ES384)
    } else if name == "RS256"@ {
        Some(Algorithm::RS256)
    } else if name == "RS384"@ {
        Some(Algorithm::RS384)
    } else if name == "RS512"@ {
        Some(Algorithm::RS512)
    } else if name == "PS256"@ {
        Some(Algorithm::PS256)
    } else if name == "PS384"@ {
        Some(Algorithm::PS384)
    } else if name == "PS512"@ {
        Some(Algorithm::PS512)
    } else if name == "EdDSA"@ {
        Some(Algorithm::EdDSA)
    } else {
        None
    }
}

/// The key family that carries the key-type identifier `kty`, if any does.
pub open spec fn family_named(kty: Seq<char>) -> Option<KeyFamily> {
    if kty == "oct"@ {
        Some(KeyFamily::Hmac)
    } else if kty == "RSA"@ {
        Some(KeyFamily::Rsa)
    } else if kty == "EC"@ {
        Some(KeyFamily::EllipticCurve)
    } else if kty == "OKP"@ {
        Some(KeyFamily::OctetKeyPair)
    } else {
        None
    }
}

impl Algorithm {
    /// The identifier under which a token header names this algorithm.
    pub open spec fn spec_name(self) -> Seq<char> {
        match self {
            Algorithm::HS256 => "HS256"@,
            Algorithm::HS384 => "HS384"@,
            Algorithm::HS512 => "HS512"@,
            Algorithm::ES256 => "ES256"@,
            Algorithm::ES384 => "ES384"@,
            Algorithm::RS256 => "RS256"@,
            Algorithm::RS384 => "RS384"@,
            Algorithm::RS512 => "RS512"@,
            Algorithm::PS256 => "PS256"@,
            Algorithm::PS384 => "PS384"@,
            Algorithm::PS512 => "PS512"@,
            Algorithm::EdDSA => "EdDSA"@,
        }
    }

    /// The family of keys that can verify a signature made with this algorithm.
    pub open spec fn spec_family(self) -> KeyFamily {
        match self {
            Algorithm::HS256 | Algorithm::HS384 | Algorithm::HS512 => KeyFamily::Hmac,
            Algorithm::ES256 | Algorithm::ES384 => KeyFamily::EllipticCurve,
            Algorithm::EdDSA => KeyFamily::OctetKeyPair,
            _ => KeyFamily::Rsa,
        }
    }

    /// The identifier under which a token header names this algorithm.
    pub fn name(self) -> (r: &'static str)
        ensures
            r@ == self.spec_name(),
    {
        match self {
            Algorithm::HS256 => "HS256",
            Algorithm::HS384 => "HS384",
            Algorithm::HS512 => "HS512",
            Algorithm::ES256 => "ES256",
            Algorithm::ES384 => "ES384",
            Algorithm::RS256 => "RS256",
            Algorithm::RS384 => "RS384",
            Algorithm::RS512 => "RS512",
            Algorithm::PS256 => "PS256",
            Algorithm::PS384 => "PS384",
            Algorithm::PS512 => "PS512",
            Algorithm::EdDSA => "EdDSA",
        }
    }

    /// Reads an algorithm identifier; identifiers are case-sensitive.
    pub fn from_name(name: &str) -> (r: Option<Algorithm>)
        ensures
            r == algorithm_named(name@),
    {
        if same_text(name, "HS256") {
            Some(Algorithm::HS256)
        } else if same_text(name, "HS384") {
            Some(Algorithm::HS384)
        } else if same_text(name, "HS512") {
            Some(Algorithm::HS512)
        } else if same_text(name, "ES256") {
            Some(Algorithm::ES256)
        } else if same_text(name, "ES384") {
            Some(Algorithm::ES384)
        } else if same_text(name, "RS256") {
            Some(Algorithm::RS256)
        } else if same_text(name, "RS384") {
            Some(Algorithm::RS384)
        } else if same_text(name, "RS512") {
            Some(Algorithm::RS512)
        } else if same_text(name, "PS256") {
            Some(Algorithm::PS256)
        } else if same_text(name, "PS384") {
            Some(Algorithm::PS384)
        } else if same_text(name, "PS512") {
            Some(Algorithm::PS512)
        } else if same_text(name, "EdDSA") {
            Some(Algorithm::EdDSA)
        } else {
            None
        }
    }

    /// The family of keys that can verify a signature made with this algorithm.
    pub fn family(self) -> (r: KeyFamily)
        ensures
            r == self.spec_family(),
    {
        match self {
            Algorithm::HS256 | Algorithm::HS384 | Algorithm::HS512 => KeyFamily::Hmac,
            Algorithm::ES256 | Algorithm::ES384 => KeyFamily::EllipticCurve,
            Algorithm::EdDSA => KeyFamily::OctetKeyPair,
            _ => KeyFamily::Rsa,
        }
    }

    /// Whether `allowed` holds this algorithm.
    pub fn is_in(self, allowed: &Vec<Algorithm>) -> (r: bool)
        ensures
            r == allowed@.contains(self),
    {
        let mut i: usize = 0;
        while i < allowed.len()
            invariant
                i <= allowed.len(),
                forall|j: int| 0 <= j < i ==> allowed@[j] != self,
            decreases allowed.len() - i,
        {
            if allowed[i] == self {
                return true;
            }
            i += 1;
        }
        false
    }
}

impl KeyFamily {
    /// Reads the key-type identifier of a published key.
    pub fn from_key_type(kty: &str) -> (r: Option<KeyFamily>)
        ensures
            r == family_named(kty@),
    {
        if same_text(kty, "oct") {
            Some(KeyFamily::Hmac)
        } else if same_text(kty, "RSA") {
            Some(KeyFamily::Rsa)
        } else if same_text(kty, "EC") {
            Some(KeyFamily::EllipticCurve)
        } else if same_text(kty, "OKP") {
            Some(KeyFamily::OctetKeyPair)
        } else {
            None
        }
    }
}

} // verus!

//! The claims of a decoded token and the rules on their presence and expiry.

use vstd::prelude::*;
use crate::decimal::{whole_part, whole_seconds};
use crate::error::{ClaimName, DecodeError};
use crate::jose::{json_member, member_of, JsonMember, Member};

verus! {

/// The claims of one token after a successful decode. A value of this type
/// always carries the four required claims.
#[derive(Clone, Debug)]
pub struct Claims {
    /// The `iss` claim.
    pub iss: String,
    /// The `aud` claim: the audiences, in the order of the token. A token
    /// that names one audience as a string has that one.
    pub aud: Vec<String>,
    /// The `sub` claim.
    pub sub: String,
    /// The `exp` claim, in whole seconds since the epoch.
    pub exp: u64,
    /// The whole claim mapping, as JSON text.
    pub payload: String,
}

/// The mathematical value of [`Claims`].
pub struct ClaimsModel {
    pub iss: Seq<char>,
    pub aud: Seq<Seq<char>>,
    pub sub: Seq<char>,
    pub exp: nat,
    pub payload: Seq<char>,
}

impl View for Claims {
    type V = ClaimsModel;

    open spec fn view(&self) -> ClaimsModel {
        ClaimsModel {
            iss: self.iss@,
            aud: self.aud.deep_view(),
            sub: self.sub@,
            exp: self.exp as nat,
            payload: self.payload@,
        }
    }
}

/// The outcome of a decode, by the view of its claims.
pub open spec fn outcome_view(r: Result<Claims, DecodeError>) -> Result<ClaimsModel, DecodeError> {
    match r {
        Ok(c) => Ok(c@),
        Err(e) => Err(e),
    }
}

/// The audiences that the member `aud` names: a string names one, a list
/// of strings names each of its items.
pub open spec fn audiences(aud: Member) -> Option<Seq<Seq<char>>> {
    match aud {
        Member::Text(a) => Some(seq![a]),
        Member::List(l) => Some(l),
        _ => None,
    }
}

/// The expiry instant that the member `exp` gives, in whole seconds: a
/// non-negative number below 2^64, without its fraction where it has one.
/// Against an instant in whole seconds, the fraction decides nothing.
pub open spec fn expiry(exp: Member) -> Option<nat> {
    match exp {
        Member::Number(n) => Some(n),
        Member::Decimal(numeral) => whole_part(numeral),
        _ => None,
    }
}

/// The claims that a body with these four members yields: `iss` and `sub`
/// must be strings, `aud` a string or a list of strings, `exp` a number.
/// The first of `iss`, `aud`, `sub`, `exp` that is not is named as missing.
pub open spec fn required_claims(
    iss: Member,
    aud: Member,
    sub: Member,
    exp: Member,
    payload: Seq<char>,
) -> Result<ClaimsModel, DecodeError> {
    if !(iss is Text) {
        Err(DecodeError::MissingRequiredClaim(ClaimName::Iss))
    } else if audiences(aud) is None {
        Err(DecodeError::MissingRequiredClaim(ClaimName::Aud))
    } else if !(sub is Text) {
        Err(DecodeError::MissingRequiredClaim(ClaimName::Sub))
    } else if expiry(exp) is None {
        Err(DecodeError::MissingRequiredClaim(ClaimName::Exp))
    } else {
        Ok(
            ClaimsModel {
                iss: iss->Text_0,
                aud: audiences(aud)->Some_0,
                sub: sub->Text_0,
                exp: expiry(exp)->Some_0,
                payload: payload,
            },
        )
    }
}

/// The claims that the token body `payload` yields.
pub open spec fn claims_of_payload(payload: Seq<char>) -> Result<ClaimsModel, DecodeError> {
    required_claims(
        member_of(payload, "iss"@),
        member_of(payload, "aud"@),
        member_of(payload, "sub"@),
        member_of(payload, "exp"@),
        payload,
    )
}

/// The claims, unless their expiry instant lies before `now`.
pub open spec fn unexpired(claims: ClaimsModel, now: nat) -> Result<ClaimsModel, DecodeError> {
    if claims.exp < now {
        Err(DecodeError::Expired)
    } else {
        Ok(claims)
    }
}

impl Claims {
    /// Promotes the four required members of a token body to claims, or
    /// names the first that is missing.
    pub fn from_members(
        iss: JsonMember,
        aud: JsonMember,
        sub: JsonMember,
        exp: JsonMember,
        payload: String,
    ) -> (r: Result<Claims, DecodeError>)
        ensures
            outcome_view(r) == required_claims(iss@, aud@, sub@, exp@, payload@),
    {
        let iss = match iss {
            JsonMember::Text(s) => s,
            _ => { return Err(DecodeError::MissingRequiredClaim(ClaimName::Iss)); },
        };
        let aud = match aud {
            JsonMember::Text(s) => {
                let one = vec![s];
                assert(one.deep_view() =~= seq![s@]);
                one
            },
            JsonMember::List(l) => l,
            _ => { return Err(DecodeError::MissingRequiredClaim(ClaimName::Aud)); },
        };
        let sub = match sub {
            JsonMember::Text(s) => s,
            _ => { return Err(DecodeError::MissingRequiredClaim(ClaimName::Sub)); },
        };
        let exp = match exp {
            JsonMember::Number(n) => Some(n),
            JsonMember::Decimal(numeral) => whole_seconds(numeral.as_str()),
            _ => None,
        };
        let exp = match exp {
            Some(n) => n,
            None => { return Err(DecodeError::MissingRequiredClaim(ClaimName::Exp)); },
        };
        Ok(Claims { iss, aud, sub, exp, payload })
    }

    /// Reads the required claims out of a token body.
    pub fn from_payload(payload: String) -> (r: Result<Claims, DecodeError>)
        ensures
            outcome_view(r) == claims_of_payload(payload@),
    {
        let iss = json_member(payload.as_str(), ClaimName::Iss.key());
        let aud = json_member(payload.as_str(), ClaimName::Aud.key());
        let sub = json_member(payload.as_str(), ClaimName::Sub.key());
        let exp = json_member(payload.as_str(), ClaimName::Exp.key());
        Claims::from_members(iss, aud, sub, exp, payload)
    }

    /// Refuses claims whose expiry instant lies before `now`; a token that
    /// expires at `now` itself still stands.
    pub fn check_expiry(self, now: u64) -> (r: Result<Claims, DecodeError>)
        ensures
            outcome_view(r) == unexpired(self@, now as nat),
    {
        if self.exp < now {
            Err(DecodeError::Expired)
        } else {
            Ok(self)
        }
    }
}

/// A body that lacks one of `iss`, `aud`, `sub` never yields claims: the
/// decode fails with a missing-claim error.
pub proof fn lemma_missing_claim_is_reported(payload: Seq<char>, claim: ClaimName)
    requires
        claim != ClaimName::Exp,
        member_of(payload, claim.spec_key()) is Absent,
    ensures
        claims_of_payload(payload) is Err,
        claims_of_payload(payload)->Err_0 is MissingRequiredClaim,
{
}

/// Where exactly one of the four required claims is missing, the error names
/// that claim.
pub proof fn lemma_single_missing_claim_is_named(payload: Seq<char>, claim: ClaimName)
    requires
        (member_of(payload, "iss"@) is Text) == (claim != ClaimName::Iss),
        (audiences(member_of(payload, "aud"@)) is Some) == (claim != ClaimName::Aud),
        (member_of(payload, "sub"@) is Text) == (claim != ClaimName::Sub),
        (expiry(member_of(payload, "exp"@)) is Some) == (claim != ClaimName::Exp),
    ensures
        claims_of_payload(payload) == Err::<ClaimsModel, DecodeError>(
            DecodeError::MissingRequiredClaim(claim),
        ),
{
}

/// Claims whose expiry instant lies in the past are refused as expired,
/// whatever else they hold.
pub proof fn lemma_past_expiry_is_refused(claims: ClaimsModel, now: nat)
    requires
        claims.exp < now,
    ensures
        unexpired(claims, now) == Err::<ClaimsModel, DecodeError>(DecodeError::Expired),
{
}

} // verus!

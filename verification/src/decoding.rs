//! The two ways of decoding a token: with validation against the trusted
//! issuers' keys, or by structure alone.

use vstd::prelude::*;
use crate::algorithm::{algorithm_named, Algorithm};
use crate::claims::{claims_of_payload, outcome_view, unexpired, Claims, ClaimsModel};
use crate::error::{ClaimName, DecodeError};
use crate::issuer::{ResolvedIssuer, ResolvedModel};
use crate::jose::{
    decode_payload, header_of, json_member, member_of, payload_of, text_of, token_header,
    JsonMember, Member,
};
use crate::keys::{is_candidate, verified_from};
use crate::registry::{resolved, TrustRegistry};
use crate::text::same_text;

verus! {

/// How a service decodes tokens; chosen once, when the service is built.
#[derive(Clone, Debug)]
pub enum DecodingStrategy {
    /// Tokens are decoded by structure alone: neither signature nor issuer
    /// nor expiry is checked.
    WithoutValidation,
    /// Tokens must be signed, under one of `supported_algs`, by a key of the
    /// issuer in `registry` that they name, and must not have expired.
    WithValidation { supported_algs: Vec<Algorithm>, registry: TrustRegistry },
}

/// The mathematical value of a [`DecodingStrategy`].
pub enum StrategyModel {
    WithoutValidation,
    WithValidation { supported_algs: Seq<Algorithm>, registry: Seq<ResolvedModel> },
}

impl View for DecodingStrategy {
    type V = StrategyModel;

    open spec fn view(&self) -> StrategyModel {
        match self {
            DecodingStrategy::WithoutValidation => StrategyModel::WithoutValidation,
            DecodingStrategy::WithValidation { supported_algs, registry } => {
                StrategyModel::WithValidation {
                    supported_algs: supported_algs@,
                    registry: registry@,
                }
            },
        }
    }
}

/// The issuer and the algorithm under which a token is granted to
/// signature verification. The token must name its issuer, the issuer must
/// be a trusted one, and the header's algorithm must be on the allow-list;
/// the checks fail in that order.
pub open spec fn authorization(
    allowed: Seq<Algorithm>,
    registry: Seq<ResolvedModel>,
    alg_name: Seq<char>,
    iss: Member,
) -> Result<(ResolvedModel, Algorithm), DecodeError> {
    match iss {
        Member::Text(name) => match resolved(registry, name) {
            None => Err(DecodeError::UntrustedIssuer),
            Some(entry) => match algorithm_named(alg_name) {
                Some(alg) => if allowed.contains(alg) {
                    Ok((entry, alg))
                } else {
                    Err(DecodeError::AlgorithmNotPermitted)
                },
                None => Err(DecodeError::AlgorithmNotPermitted),
            },
        },
        _ => Err(DecodeError::MissingRequiredClaim(ClaimName::Iss)),
    }
}

/// The claims that a token yields once signature verification has ended in
/// `verified`: without a verified body the signature is invalid; the body
/// must carry the required claims, name the issuer whose key verified it,
/// and not have expired at `now`.
pub open spec fn acceptance(identifier: Seq<char>, verified: Option<Seq<char>>, now: nat) -> Result<
    ClaimsModel,
    DecodeError,
> {
    match verified {
        None => Err(DecodeError::InvalidSignature),
        Some(body) => match claims_of_payload(body) {
            Err(e) => Err(e),
            Ok(claims) => if claims.iss != identifier {
                Err(DecodeError::UntrustedIssuer)
            } else {
                unexpired(claims, now)
            },
        },
    }
}

/// What decoding `token` by structure alone yields.
pub open spec fn unvalidated_outcome(token: Seq<char>) -> Result<ClaimsModel, DecodeError> {
    match header_of(token) {
        None => Err(DecodeError::StructuralDecodeFailure),
        Some((alg_name, _)) => match payload_of(token, alg_name, None) {
            None => Err(DecodeError::StructuralDecodeFailure),
            Some(body) => claims_of_payload(body),
        },
    }
}

/// What decoding `token` with validation yields at the instant `now`.
pub open spec fn validated_outcome(
    allowed: Seq<Algorithm>,
    registry: Seq<ResolvedModel>,
    token: Seq<char>,
    now: nat,
) -> Result<ClaimsModel, DecodeError> {
    match header_of(token) {
        None => Err(DecodeError::StructuralDecodeFailure),
        Some((alg_name, kid)) => match payload_of(token, alg_name, None) {
            None => Err(DecodeError::StructuralDecodeFailure),
            Some(body) => match authorization(allowed, registry, alg_name, member_of(body, "iss"@)) {
                Err(e) => Err(e),
                Ok((entry, alg)) => acceptance(
                    entry.identifier,
                    verified_from(entry.keys, 0, token, kid, alg),
                    now,
                ),
            },
        },
    }
}

/// The view of an authorization.
pub open spec fn authorization_view(r: Result<(&ResolvedIssuer, Algorithm), DecodeError>) -> Result<
    (ResolvedModel, Algorithm),
    DecodeError,
> {
    match r {
        Ok((entry, alg)) => Ok((entry@, alg)),
        Err(e) => Err(e),
    }
}

impl StrategyModel {
    /// What decoding `token` yields at the instant `now`.
    pub open spec fn outcome(self, token: Seq<char>, now: nat) -> Result<ClaimsModel, DecodeError> {
        match self {
            StrategyModel::WithoutValidation => unvalidated_outcome(token),
            StrategyModel::WithValidation { supported_algs, registry } => validated_outcome(
                supported_algs,
                registry,
                token,
                now,
            ),
        }
    }
}

/// Decides under which issuer and algorithm a token is granted to
/// signature verification, from the algorithm identifier of its header and
/// the `iss` member of its body.
pub fn authorize<'a>(
    supported_algs: &Vec<Algorithm>,
    registry: &'a TrustRegistry,
    alg_name: &str,
    iss: &JsonMember,
) -> (r: Result<(&'a ResolvedIssuer, Algorithm), DecodeError>)
    ensures
        authorization_view(r) == authorization(supported_algs@, registry@, alg_name@, iss@),
{
    let name = match iss {
        JsonMember::Text(name) => name,
        _ => { return Err(DecodeError::MissingRequiredClaim(ClaimName::Iss)); },
    };
    let entry = match registry.resolve(name.as_str()) {
        Some(entry) => entry,
        None => { return Err(DecodeError::UntrustedIssuer); },
    };
    match Algorithm::from_name(alg_name) {
        Some(alg) => if alg.is_in(supported_algs) {
            Ok((entry, alg))
        } else {
            Err(DecodeError::AlgorithmNotPermitted)
        },
        None => Err(DecodeError::AlgorithmNotPermitted),
    }
}

/// Decides what a token yields once signature verification has ended in
/// `verified`, for the issuer `identifier` and at the instant `now`.
pub fn accept(identifier: &str, verified: Option<String>, now: u64) -> (r: Result<
    Claims,
    DecodeError,
>)
    ensures
        outcome_view(r) == acceptance(identifier@, text_of(verified), now as nat),
{
    let body = match verified {
        Some(body) => body,
        None => { return Err(DecodeError::InvalidSignature); },
    };
    let claims = match Claims::from_payload(body) {
        Ok(claims) => claims,
        Err(e) => { return Err(e); },
    };
    if !same_text(claims.iss.as_str(), identifier) {
        return Err(DecodeError::UntrustedIssuer);
    }
    claims.check_expiry(now)
}

impl DecodingStrategy {
    /// Decodes one token at the instant `now`.
    pub fn decode(&self, token: &str, now: u64) -> (r: Result<Claims, DecodeError>)
        ensures
            outcome_view(r) == self@.outcome(token@, now as nat),
    {
        let header = match token_header(token) {
            Some(header) => header,
            None => { return Err(DecodeError::StructuralDecodeFailure); },
        };
        let body = match decode_payload(token, header.alg.as_str(), None) {
            Some(body) => body,
            None => { return Err(DecodeError::StructuralDecodeFailure); },
        };
        match self {
            DecodingStrategy::WithoutValidation => Claims::from_payload(body),
            DecodingStrategy::WithValidation { supported_algs, registry } => {
                let iss = json_member(body.as_str(), ClaimName::Iss.key());
                let (entry, alg) = match authorize(supported_algs, registry, header.alg.as_str(), &iss) {
                    Ok(granted) => granted,
                    Err(e) => { return Err(e); },
                };
                let verified = entry.keys.verify(token, &header.kid, alg);
                accept(entry.identifier.as_str(), verified, now)
            },
        }
    }
}

/// A token whose issuer is trusted but whose header names an algorithm
/// outside the allow-list is refused as such, whether or not any key
/// verifies its signature.
pub proof fn lemma_unlisted_algorithm_is_refused(
    allowed: Seq<Algorithm>,
    registry: Seq<ResolvedModel>,
    token: Seq<char>,
    now: nat,
)
    requires
        header_of(token) is Some,
        payload_of(token, header_of(token)->Some_0.0, None) is Some,
        member_of(payload_of(token, header_of(token)->Some_0.0, None)->Some_0, "iss"@) is Text,
        resolved(
            registry,
            member_of(
                payload_of(token, header_of(token)->Some_0.0, None)->Some_0,
                "iss"@,
            )->Text_0,
        ) is Some,
        algorithm_named(header_of(token)->Some_0.0) is None || !allowed.contains(
            algorithm_named(header_of(token)->Some_0.0)->Some_0,
        ),
    ensures
        validated_outcome(allowed, registry, token, now) == Err::<ClaimsModel, DecodeError>(
            DecodeError::AlgorithmNotPermitted,
        ),
{
}

/// A token that no key of its issuer verifies is refused for its signature,
/// once it is granted to verification.
pub proof fn lemma_unverified_token_is_refused(
    allowed: Seq<Algorithm>,
    registry: Seq<ResolvedModel>,
    token: Seq<char>,
    now: nat,
)
    requires
        header_of(token) is Some,
        payload_of(token, header_of(token)->Some_0.0, None) is Some,
        authorization(
            allowed,
            registry,
            header_of(token)->Some_0.0,
            member_of(payload_of(token, header_of(token)->Some_0.0, None)->Some_0, "iss"@),
        ) is Ok,
        ({
            let (alg_name, kid) = header_of(token)->Some_0;
            let body = payload_of(token, alg_name, None)->Some_0;
            let (entry, alg) = authorization(
                allowed,
                registry,
                alg_name,
                member_of(body, "iss"@),
            )->Ok_0;
            forall|i: int|
                0 <= i < entry.keys.len() ==> payload_of(
                    token,
                    alg.spec_name(),
                    Some(#[trigger] entry.keys[i].text),
                ) is None
        }),
    ensures
        validated_outcome(allowed, registry, token, now) == Err::<ClaimsModel, DecodeError>(
            DecodeError::InvalidSignature,
        ),
{
    let (alg_name, kid) = header_of(token)->Some_0;
    let body = payload_of(token, alg_name, None)->Some_0;
    let (entry, alg) = authorization(allowed, registry, alg_name, member_of(body, "iss"@))->Ok_0;
    crate::keys::lemma_no_key_no_verification(entry.keys, 0, token, kid, alg);
}

/// A token whose verified body carries every required claim but an expiry
/// instant in the past is refused as expired.
pub proof fn lemma_expired_token_is_refused(identifier: Seq<char>, body: Seq<char>, now: nat)
    requires
        claims_of_payload(body) is Ok,
        claims_of_payload(body)->Ok_0.iss == identifier,
        claims_of_payload(body)->Ok_0.exp < now,
    ensures
        acceptance(identifier, Some(body), now) == Err::<ClaimsModel, DecodeError>(
            DecodeError::Expired,
        ),
{
}

/// A token whose verified body lacks a required claim is refused with the
/// missing-claim error of its body.
pub proof fn lemma_incomplete_token_is_refused(identifier: Seq<char>, body: Seq<char>, now: nat)
    requires
        claims_of_payload(body) is Err,
    ensures
        acceptance(identifier, Some(body), now) == claims_of_payload(body),
        claims_of_payload(body)->Err_0 is MissingRequiredClaim,
{
}

/// Claims that a decode yields at one instant are those that it yields at
/// every instant at which it succeeds, and it succeeds at every earlier
/// one.
pub proof fn lemma_outcome_over_time(strategy: StrategyModel, token: Seq<char>, now: nat, other: nat)
    requires
        strategy.outcome(token, now) is Ok,
    ensures
        strategy.outcome(token, other) is Ok ==> strategy.outcome(token, other)
            == strategy.outcome(token, now),
        other <= now ==> strategy.outcome(token, other) is Ok,
{
}

/// Claims that come out of a validating decode name a trusted issuer, had
/// not expired at the instant of the decode, were signed under an algorithm
/// of the allow-list, and are the claims of the token body as a candidate
/// key of that issuer verified it.
pub proof fn lemma_validated_claims_are_trusted(
    allowed: Seq<Algorithm>,
    registry: Seq<ResolvedModel>,
    token: Seq<char>,
    now: nat,
)
    requires
        validated_outcome(allowed, registry, token, now) is Ok,
    ensures
        resolved(registry, validated_outcome(allowed, registry, token, now)->Ok_0.iss) is Some,
        validated_outcome(allowed, registry, token, now)->Ok_0.exp >= now,
        allowed.contains(algorithm_named(header_of(token)->Some_0.0)->Some_0),
        ({
            let claims = validated_outcome(allowed, registry, token, now)->Ok_0;
            let keys = resolved(registry, claims.iss)->Some_0.keys;
            let (alg_name, kid) = header_of(token)->Some_0;
            let alg = algorithm_named(alg_name)->Some_0;
            exists|i: int|
                0 <= i < keys.len() && is_candidate(#[trigger] keys[i], kid, alg) && payload_of(
                    token,
                    alg.spec_name(),
                    Some(keys[i].text),
                ) is Some && claims_of_payload(
                    payload_of(token, alg.spec_name(), Some(keys[i].text))->Some_0,
                ) == Ok::<ClaimsModel, DecodeError>(claims)
        }),
{
    let (alg_name, kid) = header_of(token)->Some_0;
    let body = payload_of(token, alg_name, None)->Some_0;
    let iss = member_of(body, "iss"@)->Text_0;
    crate::registry::lemma_resolved_iff_listed(registry, 0, iss);
    let entry = resolved(registry, iss)->Some_0;
    assert(entry.identifier == iss);
    let alg = algorithm_named(alg_name)->Some_0;
    let claims = validated_outcome(allowed, registry, token, now)->Ok_0;
    assert(claims.iss == iss);
    crate::keys::lemma_verified_by_a_candidate(entry.keys, 0, token, kid, alg);
    let i = choose|i: int|
        0 <= i < entry.keys.len() && is_candidate(#[trigger] entry.keys[i], kid, alg) && payload_of(
            token,
            alg.spec_name(),
            Some(entry.keys[i].text),
        ) == verified_from(entry.keys, 0, token, kid, alg);
    assert(is_candidate(entry.keys[i], kid, alg));
}

} // verus!

//! The service that validates an access token, an identity token and a
//! userinfo token as one bundle.

use vstd::prelude::*;
use crate::algorithm::Algorithm;
use crate::claims::{Claims, ClaimsModel};
use crate::decoding::{DecodingStrategy, StrategyModel};
use crate::error::{ClaimName, DecodeError, ServiceError};
use crate::issuer::ResolvedIssuer;
use crate::registry::TrustRegistry;
use crate::text::{same_list, same_text};

verus! {

/// How a service is to decode tokens.
#[derive(Clone, Debug)]
pub enum JwtServiceConfig {
    /// Decode by structure alone.
    WithoutValidation,
    /// Validate against these issuers, accepting these algorithms only.
    WithValidation { supported_algs: Vec<Algorithm>, trusted_idps: Vec<ResolvedIssuer> },
}

/// The entry point of token validation.
#[derive(Clone, Debug)]
pub struct JwtService {
    pub strategy: DecodingStrategy,
}

/// The claims of a bundle: those of the access token, of the identity token
/// and of the userinfo token.
pub type Bundle = (ClaimsModel, ClaimsModel, ClaimsModel);

impl View for JwtService {
    type V = StrategyModel;

    open spec fn view(&self) -> StrategyModel {
        self.strategy@
    }
}

/// The claim on which three tokens disagree, if they do: the userinfo token
/// must name the issuer and the audiences of the access token, these in the
/// same order, and the subject of the identity token. The first of `iss`, `aud`, `sub` on which
/// they differ is named.
pub open spec fn disagreement(
    access: ClaimsModel,
    id: ClaimsModel,
    userinfo: ClaimsModel,
) -> Option<ClaimName> {
    if userinfo.iss != access.iss {
        Some(ClaimName::Iss)
    } else if userinfo.aud != access.aud {
        Some(ClaimName::Aud)
    } else if userinfo.sub != id.sub {
        Some(ClaimName::Sub)
    } else {
        None
    }
}

/// What three decodes amount to as a bundle: the failure of the first token
/// that failed, in the order access, identity, userinfo, tagged with that
/// token's kind; else the disagreement of the three; else the three claim
/// sets.
pub open spec fn bundle_of(
    access: Result<ClaimsModel, DecodeError>,
    id: Result<ClaimsModel, DecodeError>,
    userinfo: Result<ClaimsModel, DecodeError>,
) -> Result<Bundle, ServiceError> {
    match (access, id, userinfo) {
        (Err(e), _, _) => Err(ServiceError::InvalidAccessToken(e)),
        (Ok(_), Err(e), _) => Err(ServiceError::InvalidIdToken(e)),
        (Ok(_), Ok(_), Err(e)) => Err(ServiceError::InvalidUserinfoToken(e)),
        (Ok(a), Ok(i), Ok(u)) => match disagreement(a, i, u) {
            Some(claim) => Err(ServiceError::CrossTokenInconsistency(claim)),
            None => Ok((a, i, u)),
        },
    }
}

/// What validating the three tokens yields at the instant `now`.
pub open spec fn bundle_outcome(
    strategy: StrategyModel,
    access_token: Seq<char>,
    id_token: Seq<char>,
    userinfo_token: Seq<char>,
    now: nat,
) -> Result<Bundle, ServiceError> {
    bundle_of(
        strategy.outcome(access_token, now),
        strategy.outcome(id_token, now),
        strategy.outcome(userinfo_token, now),
    )
}

/// The view of a validated bundle.
pub open spec fn bundle_view(r: Result<(Claims, Claims, Claims), ServiceError>) -> Result<
    Bundle,
    ServiceError,
> {
    match r {
        Ok((a, i, u)) => Ok((a@, i@, u@)),
        Err(e) => Err(e),
    }
}

/// Checks that three decoded tokens describe one session.
pub fn check_consistency(access: &Claims, id: &Claims, userinfo: &Claims) -> (r: Result<
    (),
    ServiceError,
>)
    ensures
        r is Ok <==> disagreement(access@, id@, userinfo@) is None,
        r is Err ==> r->Err_0 == ServiceError::CrossTokenInconsistency(
            disagreement(access@, id@, userinfo@)->Some_0,
        ),
{
    if !same_text(userinfo.iss.as_str(), access.iss.as_str()) {
        Err(ServiceError::CrossTokenInconsistency(ClaimName::Iss))
    } else if !same_list(&userinfo.aud, &access.aud) {
        Err(ServiceError::CrossTokenInconsistency(ClaimName::Aud))
    } else if !same_text(userinfo.sub.as_str(), id.sub.as_str()) {
        Err(ServiceError::CrossTokenInconsistency(ClaimName::Sub))
    } else {
        Ok(())
    }
}

impl JwtService {
    /// Builds the service; the issuers of the configuration become its
    /// registry, in their order.
    pub fn new_with_config(config: JwtServiceConfig) -> (r: JwtService)
        ensures
            match config {
                JwtServiceConfig::WithoutValidation => r@ is WithoutValidation,
                JwtServiceConfig::WithValidation { supported_algs, trusted_idps } => r@ == (
                StrategyModel::WithValidation {
                    supported_algs: supported_algs@,
                    registry: Seq::new(trusted_idps@.len(), |i: int| trusted_idps@[i]@),
                }),
            },
    {
        match config {
            JwtServiceConfig::WithoutValidation => JwtService {
                strategy: DecodingStrategy::WithoutValidation,
            },
            JwtServiceConfig::WithValidation { supported_algs, trusted_idps } => JwtService {
                strategy: DecodingStrategy::WithValidation {
                    supported_algs,
                    registry: TrustRegistry { entries: trusted_idps },
                },
            },
        }
    }

    /// Validates the three tokens at the instant `now`, in seconds since the
    /// epoch, which the caller reads from its clock. No claims are returned
    /// unless every token is valid and the three agree.
    pub fn decode_tokens_at(
        &self,
        access_token: &str,
        id_token: &str,
        userinfo_token: &str,
        now: u64,
    ) -> (r: Result<(Claims, Claims, Claims), ServiceError>)
        ensures
            bundle_view(r) == bundle_outcome(
                self@,
                access_token@,
                id_token@,
                userinfo_token@,
                now as nat,
            ),
    {
        let access = match self.strategy.decode(access_token, now) {
            Ok(claims) => claims,
            Err(e) => { return Err(ServiceError::InvalidAccessToken(e)); },
        };
        let id = match self.strategy.decode(id_token, now) {
            Ok(claims) => claims,
            Err(e) => { return Err(ServiceError::InvalidIdToken(e)); },
        };
        let userinfo = match self.strategy.decode(userinfo_token, now) {
            Ok(claims) => claims,
            Err(e) => { return Err(ServiceError::InvalidUserinfoToken(e)); },
        };
        match check_consistency(&access, &id, &userinfo) {
            Ok(_) => Ok((access, id, userinfo)),
            Err(e) => Err(e),
        }
    }
}

/// A token that fails on its own is reported under its own kind, with its
/// own error, and never as a disagreement between tokens.
pub proof fn lemma_failure_is_attributed(
    access: Result<ClaimsModel, DecodeError>,
    id: Result<ClaimsModel, DecodeError>,
    userinfo: Result<ClaimsModel, DecodeError>,
)
    ensures
        access is Err ==> bundle_of(access, id, userinfo) == Err::<Bundle, ServiceError>(
            ServiceError::InvalidAccessToken(access->Err_0),
        ),
        access is Ok && id is Err ==> bundle_of(access, id, userinfo) == Err::<
            Bundle,
            ServiceError,
        >(ServiceError::InvalidIdToken(id->Err_0)),
        access is Ok && id is Ok && userinfo is Err ==> bundle_of(access, id, userinfo) == Err::<
            Bundle,
            ServiceError,
        >(ServiceError::InvalidUserinfoToken(userinfo->Err_0)),
        bundle_of(access, id, userinfo) is Err && bundle_of(
            access,
            id,
            userinfo,
        )->Err_0 is CrossTokenInconsistency ==> access is Ok && id is Ok && userinfo is Ok,
{
}

/// Three valid tokens whose userinfo token names another subject than the
/// identity token are refused for that disagreement, though the userinfo
/// token agrees with the access token.
pub proof fn lemma_subject_disagreement_is_refused(
    access: ClaimsModel,
    id: ClaimsModel,
    userinfo: ClaimsModel,
)
    requires
        userinfo.iss == access.iss,
        userinfo.aud == access.aud,
        userinfo.sub != id.sub,
    ensures
        bundle_of(Ok(access), Ok(id), Ok(userinfo)) == Err::<Bundle, ServiceError>(
            ServiceError::CrossTokenInconsistency(ClaimName::Sub),
        ),
{
}

/// Three valid tokens that agree yield their three claim sets, unchanged;
/// and only such tokens yield any claims.
pub proof fn lemma_agreeing_tokens_are_returned(
    access: Result<ClaimsModel, DecodeError>,
    id: Result<ClaimsModel, DecodeError>,
    userinfo: Result<ClaimsModel, DecodeError>,
)
    ensures
        bundle_of(access, id, userinfo) is Ok <==> access is Ok && id is Ok && userinfo is Ok
            && userinfo->Ok_0.iss == access->Ok_0.iss && userinfo->Ok_0.aud == access->Ok_0.aud
            && userinfo->Ok_0.sub == id->Ok_0.sub,
        bundle_of(access, id, userinfo) is Ok ==> bundle_of(access, id, userinfo)->Ok_0 == (
            access->Ok_0,
            id->Ok_0,
            userinfo->Ok_0,
        ),
{
}

/// Validating the same three tokens again yields the same claims: a
/// successful outcome does not depend on the instant of the validation.
pub proof fn lemma_validation_is_repeatable(
    strategy: StrategyModel,
    access_token: Seq<char>,
    id_token: Seq<char>,
    userinfo_token: Seq<char>,
    first: nat,
    second: nat,
)
    requires
        bundle_outcome(strategy, access_token, id_token, userinfo_token, first) is Ok,
        bundle_outcome(strategy, access_token, id_token, userinfo_token, second) is Ok,
    ensures
        bundle_outcome(strategy, access_token, id_token, userinfo_token, first) == bundle_outcome(
            strategy,
            access_token,
            id_token,
            userinfo_token,
            second,
        ),
{
    crate::decoding::lemma_outcome_over_time(strategy, access_token, first, second);
    crate::decoding::lemma_outcome_over_time(strategy, id_token, first, second);
    crate::decoding::lemma_outcome_over_time(strategy, userinfo_token, first, second);
}

} // verus!

//! Trusted issuers, the discovery documents they publish, and what is known
//! of an issuer once its keys are resolved.

use vstd::prelude::*;
use crate::jose::{json_member, member_of, JsonMember, Member};
use crate::keys::{KeyModel, KeySet};
use crate::text::{lemma_append_then_strip, strip_suffix, without_suffix};

verus! {

/// Keys supplied with the configuration, which stand in for those that the
/// issuer would publish.
#[derive(Clone, Debug)]
pub struct TokenMetadata {
    /// A JSON Web Key Set document.
    pub jwks: String,
}

/// A configured authority whose signed tokens are accepted.
#[derive(Clone, Debug)]
pub struct TrustedIssuer {
    pub name: String,
    pub description: String,
    /// Where the issuer publishes its discovery document.
    pub openid_configuration_endpoint: String,
    /// Keys to use in place of a fetch, if any.
    pub token_metadata: Option<TokenMetadata>,
}

/// The mathematical value of a [`TrustedIssuer`].
pub struct IssuerModel {
    pub name: Seq<char>,
    pub description: Seq<char>,
    pub endpoint: Seq<char>,
    pub static_jwks: Option<Seq<char>>,
}

/// The metadata that an issuer publishes at its discovery endpoint, as far
/// as it is read; other members of the document are ignored.
#[derive(Clone, Debug)]
pub struct DiscoveryDocument {
    /// The issuer identifier.
    pub issuer: String,
    /// Where the issuer publishes its key set.
    pub jwks_uri: String,
}

/// The mathematical value of a [`DiscoveryDocument`].
pub struct DocumentModel {
    pub issuer: Seq<char>,
    pub jwks_uri: Seq<char>,
}

/// A trusted issuer together with its resolved identifier and keys.
#[derive(Clone, Debug)]
pub struct ResolvedIssuer {
    pub issuer: TrustedIssuer,
    /// The string that tokens of this issuer carry as `iss`.
    pub identifier: String,
    /// Where the keys were fetched from; `None` where they were supplied
    /// with the configuration.
    pub jwks_uri: Option<String>,
    pub keys: KeySet,
}

/// The mathematical value of a [`ResolvedIssuer`].
pub struct ResolvedModel {
    pub issuer: IssuerModel,
    pub identifier: Seq<char>,
    pub jwks_uri: Option<Seq<char>>,
    pub keys: Seq<KeyModel>,
}

impl View for TrustedIssuer {
    type V = IssuerModel;

    open spec fn view(&self) -> IssuerModel {
        IssuerModel {
            name: self.name@,
            description: self.description@,
            endpoint: self.openid_configuration_endpoint@,
            static_jwks: match self.token_metadata {
                Some(m) => Some(m.jwks@),
                None => None,
            },
        }
    }
}

impl View for DiscoveryDocument {
    type V = DocumentModel;

    open spec fn view(&self) -> DocumentModel {
        DocumentModel { issuer: self.issuer@, jwks_uri: self.jwks_uri@ }
    }
}

impl View for ResolvedIssuer {
    type V = ResolvedModel;

    open spec fn view(&self) -> ResolvedModel {
        ResolvedModel {
            issuer: self.issuer@,
            identifier: self.identifier@,
            jwks_uri: match self.jwks_uri {
                Some(u) => Some(u@),
                None => None,
            },
            keys: self.keys@,
        }
    }
}

/// The path under which an issuer publishes its discovery document.
pub open spec fn well_known_path() -> Seq<char> {
    "/.well-known/openid-configuration"@
}

/// The issuer identifier that a discovery endpoint stands for: the endpoint
/// without the well-known path at its end.
pub open spec fn expected_issuer(endpoint: Seq<char>) -> Seq<char> {
    without_suffix(endpoint, well_known_path())
}

/// The discovery document that `body` describes: a JSON object whose
/// members `issuer` and `jwks_uri` are strings.
pub open spec fn document_of(body: Seq<char>) -> Option<DocumentModel> {
    match (member_of(body, "issuer"@), member_of(body, "jwks_uri"@)) {
        (Member::Text(issuer), Member::Text(jwks_uri)) => Some(
            DocumentModel { issuer, jwks_uri },
        ),
        _ => None,
    }
}

/// The view of an optional document.
pub open spec fn document_view(d: Option<DiscoveryDocument>) -> Option<DocumentModel> {
    match d {
        Some(x) => Some(x@),
        None => None,
    }
}

impl TrustedIssuer {
    /// The issuer identifier that this issuer's discovery document must
    /// name.
    pub fn expected_issuer(&self) -> (r: String)
        ensures
            r@ == expected_issuer(self@.endpoint),
    {
        strip_suffix(self.openid_configuration_endpoint.as_str(), "/.well-known/openid-configuration")
    }
}

impl DiscoveryDocument {
    /// Reads a discovery document; members other than `issuer` and
    /// `jwks_uri` are ignored.
    pub fn parse(body: &str) -> (r: Option<DiscoveryDocument>)
        ensures
            document_view(r) == document_of(body@),
    {
        let issuer = json_member(body, "issuer");
        let jwks_uri = json_member(body, "jwks_uri");
        match (issuer, jwks_uri) {
            (JsonMember::Text(issuer), JsonMember::Text(jwks_uri)) => Some(
                DiscoveryDocument { issuer, jwks_uri },
            ),
            _ => None,
        }
    }
}

/// The discovery endpoint of an issuer is its identifier followed by the
/// well-known path, so the identifier expected at that endpoint is the
/// issuer's own.
pub proof fn lemma_endpoint_names_its_issuer(identifier: Seq<char>)
    ensures
        expected_issuer(identifier + well_known_path()) == identifier,
{
    lemma_append_then_strip(identifier, well_known_path());
}

} // verus!

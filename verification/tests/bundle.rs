//! Validation of whole token bundles against a resolved issuer.

use jsonwebtoken::{encode, get_current_timestamp, EncodingKey, Header};
use serde_json::Value;
use token_trust::algorithm::Algorithm;
use token_trust::claims::Claims;
use token_trust::error::{ClaimName, DecodeError, FetchError, ServiceError, TokenKind};
use token_trust::issuer::{ResolvedIssuer, TrustedIssuer};
use token_trust::key_source::{HttpEvent, Resolution};
use token_trust::service::{JwtService, JwtServiceConfig};

const SERVER: &str = "http://127.0.0.1:1234";

const EC_ONE: [&str; 3] = [
    "MIGHAgEAMBMGByqGSM49AgEGCCqGSM49AwEHBG0wawIBAQQgfKMdNwgsrH67ebhM",
    "Jru1ZUUMocR61vmys+Dlpj3KLAChRANCAASnRtKiqOnoEBYqMa58AyvqKDE53JCU",
    "FK0vKvkt7HrKlPrlwmPD9gmJysD9sYtTk7gZJ1E7i3JFJrW+y6hjWa8B",
];

const EC_ONE_X: &str = "p0bSoqjp6BAWKjGufAMr6igxOdyQlBStLyr5Lex6ypQ";

const EC_ONE_Y: &str = "-uXCY8P2CYnKwP2xi1OTuBknUTuLckUmtb7LqGNZrwE";

const EC_TWO: [&str; 3] = [
    "MIGHAgEAMBMGByqGSM49AgEGCCqGSM49AwEHBG0wawIBAQQgt5TU0/euIYTqKK8Z",
    "1x44G791t3+Qd2jA0e5EobQrVOahRANCAAT1dUTK2udVsm/UYcd8bt1kLOmbkiPH",
    "PbwcGSiTaAz3PXcX6LDQP6YIUA0nIy9RtlIks0bx24aMHIEHa5GScYjH",
];

const SHARED: &str = "a-shared-secret-of-thirty-two-by";

const SHARED_B64: &str = "YS1zaGFyZWQtc2VjcmV0LW9mLXRoaXJ0eS10d28tYnk";

/// A key to sign with, the algorithm it signs under and its identifier.
struct Signer {
    key: EncodingKey,
    alg: jsonwebtoken::Algorithm,
    kid: Option<String>,
}

fn ec_key(lines: [&str; 3]) -> EncodingKey {
    let label = "PRIVATE KEY";
    let pem = format!(
        "-----BEGIN {}-----\n{}\n{}\n{}\n-----END {}-----\n",
        label, lines[0], lines[1], lines[2], label
    );
    EncodingKey::from_ec_pem(pem.as_bytes()).expect("the key should be read")
}

/// The two keys of the issuer: an ES256 key, then an HS256 key.
fn generate_keys() -> (Vec<Signer>, String) {
    let signers = vec![
        Signer {
            key: ec_key(EC_ONE),
            alg: jsonwebtoken::Algorithm::ES256,
            kid: Some("some_id_1".to_string()),
        },
        Signer {
            key: EncodingKey::from_secret(SHARED.as_bytes()),
            alg: jsonwebtoken::Algorithm::HS256,
            kid: Some("some_id_2".to_string()),
        },
    ];
    let jwks = format!(
        "{{\"keys\":[{{\"kty\":\"EC\",\"crv\":\"P-256\",\"x\":\"{}\",\"y\":\"{}\",\"kid\":\"some_id_1\",\"alg\":\"ES256\",\"use\":\"sig\"}},{{\"kty\":\"oct\",\"k\":\"{}\",\"kid\":\"some_id_2\",\"alg\":\"HS256\"}}]}}",
        EC_ONE_X, EC_ONE_Y, SHARED_B64
    );
    (signers, jwks)
}

fn claims_of(members: &[(&str, Value)]) -> Value {
    let mut map = serde_json::Map::new();
    for (name, value) in members {
        map.insert(name.to_string(), value.clone());
    }
    Value::Object(map)
}

fn text(s: &str) -> Value {
    Value::String(s.to_string())
}

fn number(n: u64) -> Value {
    Value::Number(n.into())
}

fn one_hour_after_now() -> u64 {
    get_current_timestamp() + 3600
}

fn generate_token_using_claims(claims: &Value, signer: &Signer) -> String {
    let mut header = Header::new(signer.alg);
    header.kid = signer.kid.clone();
    encode(&header, claims, &signer.key).expect("the token should be signed")
}

/// Changes the first character of the signature.
fn invalidate_token(token: String) -> String {
    let cut = token.rfind('.').expect("a signed token has dots") + 1;
    let first = token[cut..].chars().next().expect("a signature");
    let other = if first == 'A' { 'B' } else { 'A' };
    format!("{}{}{}", &token[..cut], other, &token[cut + 1..])
}

fn access_claims() -> Value {
    claims_of(&[
        ("iss", text(SERVER)),
        ("aud", text("some_aud")),
        ("sub", text("some_sub")),
        ("scopes", text("some_scope")),
        ("iat", number(get_current_timestamp())),
        ("exp", number(one_hour_after_now())),
    ])
}

fn id_claims() -> Value {
    claims_of(&[
        ("iss", text(SERVER)),
        ("aud", text("some_aud")),
        ("sub", text("some_sub")),
        ("email", text("some_email@gmail.com")),
        ("iat", number(get_current_timestamp())),
        ("exp", number(one_hour_after_now())),
    ])
}

fn userinfo_claims() -> Value {
    claims_of(&[
        ("iss", text(SERVER)),
        ("aud", text("some_aud")),
        ("sub", text("some_sub")),
        ("client_id", text("some_aud")),
        ("name", text("ferris")),
        ("email", text("ferris@gluu.com")),
        ("iat", number(get_current_timestamp())),
        ("exp", number(one_hour_after_now())),
    ])
}

fn with(claims: &Value, name: &str, value: Value) -> Value {
    let mut map = claims.as_object().expect("an object").clone();
    map.insert(name.to_string(), value);
    Value::Object(map)
}

fn openid_config_response(server: &str) -> String {
    claims_of(&[
        ("issuer", text(server)),
        ("jwks_uri", text(&format!("{}/jwks", server))),
        ("unexpected", number(123123)),
    ])
    .to_string()
}

fn some_idp(server: &str) -> TrustedIssuer {
    TrustedIssuer {
        name: "some_idp".to_string(),
        description: "some_desc".to_string(),
        openid_configuration_endpoint: format!("{}/.well-known/openid-configuration", server),
        token_metadata: None,
    }
}

/// Plays the part of the server: answers the discovery endpoint and the key
/// set endpoint, and counts the requests to each.
struct MockServer {
    url: String,
    jwks: String,
    openid_conf_hits: usize,
    jwks_hits: usize,
}

impl MockServer {
    fn new(url: &str, jwks: &str) -> MockServer {
        MockServer { url: url.to_string(), jwks: jwks.to_string(), openid_conf_hits: 0, jwks_hits: 0 }
    }

    fn get(&mut self, address: &str) -> HttpEvent {
        if address == format!("{}/.well-known/openid-configuration", self.url) {
            self.openid_conf_hits += 1;
            HttpEvent::Response { status: 200, body: openid_config_response(&self.url) }
        } else if address == format!("{}/jwks", self.url) {
            self.jwks_hits += 1;
            HttpEvent::Response { status: 200, body: self.jwks.clone() }
        } else {
            HttpEvent::Response { status: 404, body: String::new() }
        }
    }

    fn fetch(&mut self, issuer: TrustedIssuer) -> Result<ResolvedIssuer, FetchError> {
        let mut state = Resolution::start(issuer);
        while let Some(address) = state.pending_request() {
            let event = self.get(&address);
            state = state.advance(event);
        }
        state.finish().expect("the resolution has ended")
    }
}

fn service_for(server: &mut MockServer, supported_algs: Vec<Algorithm>) -> JwtService {
    let url = server.url.clone();
    let trusted_idp =
        server.fetch(some_idp(&url)).expect("openid config should be fetched successfully");
    JwtService::new_with_config(JwtServiceConfig::WithValidation {
        supported_algs,
        trusted_idps: vec![trusted_idp],
    })
}

fn payload_value(claims: &Claims) -> Value {
    serde_json::from_str(&claims.payload).expect("the payload is JSON")
}

fn test_missing_claim(missing_claim: &str) {
    let (encoding_keys, jwks) = generate_keys();
    let mut server = MockServer::new(SERVER, &jwks);

    let access_token_claims = claims_of(&[
        ("iss", text(SERVER)),
        ("aud", text("some_aud")),
        ("sub", text("some_sub")),
        ("iat", number(get_current_timestamp())),
        ("exp", number(one_hour_after_now())),
        ("scopes", text("some_scope")),
    ]);
    let id_token_claims = claims_of(&[
        ("iss", text(SERVER)),
        ("aud", text("some_aud")),
        ("sub", text("some_sub")),
        ("iat", number(get_current_timestamp())),
        ("exp", number(one_hour_after_now())),
        ("email", text("some_email@gmail.com")),
    ]);
    let mut userinfo_token_claims = claims_of(&[
        ("client_id", text("some_aud")),
        ("name", text("ferris")),
        ("email", text("ferris@gluu.com")),
        ("iat", number(get_current_timestamp())),
    ]);
    if missing_claim != "iss" {
        userinfo_token_claims = with(&userinfo_token_claims, "iss", text(SERVER));
    }
    if missing_claim != "aud" {
        userinfo_token_claims = with(&userinfo_token_claims, "aud", text("some_aud"));
    }
    if missing_claim != "sub" {
        userinfo_token_claims = with(&userinfo_token_claims, "sub", text("some_sub"));
    }
    if missing_claim != "exp" {
        userinfo_token_claims =
            with(&userinfo_token_claims, "exp", number(one_hour_after_now()));
    }

    let access_token = generate_token_using_claims(&access_token_claims, &encoding_keys[0]);
    let id_token = generate_token_using_claims(&id_token_claims, &encoding_keys[0]);
    let userinfo_token = generate_token_using_claims(&userinfo_token_claims, &encoding_keys[0]);

    let jwt_service = service_for(&mut server, vec![Algorithm::ES256, Algorithm::HS256]);
    assert!(server.openid_conf_hits >= 1 && server.openid_conf_hits <= 2);

    let decode_result = jwt_service.decode_tokens_at(&access_token, &id_token, &userinfo_token, get_current_timestamp());

    let expected = match missing_claim {
        "iss" => ClaimName::Iss,
        "aud" => ClaimName::Aud,
        "sub" => ClaimName::Sub,
        _ => ClaimName::Exp,
    };
    assert!(
        matches!(
            decode_result,
            Err(ServiceError::InvalidUserinfoToken(DecodeError::MissingRequiredClaim(claim)))
                if claim == expected
        ),
        "Expected decoding to fail due to `userinfo_token` missing a required header: {:?}",
        decode_result
    );
    assert_eq!(expected.key(), missing_claim);

    assert!(server.openid_conf_hits >= 1 && server.openid_conf_hits <= 2);
    assert!(server.jwks_hits >= 1 && server.jwks_hits <= 2);
}

#[test]
fn errors_on_missing_iss() {
    test_missing_claim("iss");
}

#[test]
fn errors_on_missing_aud() {
    test_missing_claim("aud");
}

#[test]
fn errors_on_missing_sub() {
    test_missing_claim("sub");
}

#[test]
fn errors_on_missing_exp() {
    test_missing_claim("exp");
}

#[test]
fn errors_on_invalid_signature() {
    let (encoding_keys, jwks) = generate_keys();
    let mut server = MockServer::new(SERVER, &jwks);

    let access_token = generate_token_using_claims(&access_claims(), &encoding_keys[0]);
    let id_token = generate_token_using_claims(&id_claims(), &encoding_keys[1]);
    let userinfo_token = generate_token_using_claims(&userinfo_claims(), &encoding_keys[0]);
    let userinfo_token = invalidate_token(userinfo_token);

    let jwt_service = service_for(&mut server, vec![Algorithm::ES256, Algorithm::HS256]);
    assert!(server.openid_conf_hits >= 1 && server.openid_conf_hits <= 2);
    assert!(server.jwks_hits >= 1 && server.jwks_hits <= 2);

    let decode_result = jwt_service.decode_tokens_at(&access_token, &id_token, &userinfo_token, get_current_timestamp());

    assert!(
        matches!(
            decode_result,
            Err(ServiceError::InvalidUserinfoToken(DecodeError::InvalidSignature))
        ),
        "Expected error due to invalid signature from `userinfo_token` during token decoding: {:?}",
        decode_result,
    );

    assert!(server.openid_conf_hits >= 1 && server.openid_conf_hits <= 2);
    assert!(server.jwks_hits >= 1 && server.jwks_hits <= 2);
}

#[test]
fn missing_claim_is_attributed_to_each_token_kind() {
    let (keys, jwks) = generate_keys();
    let mut server = MockServer::new(SERVER, &jwks);
    let service = service_for(&mut server, vec![Algorithm::ES256, Algorithm::HS256]);
    let good_access = generate_token_using_claims(&access_claims(), &keys[0]);
    let good_id = generate_token_using_claims(&id_claims(), &keys[0]);
    let good_userinfo = generate_token_using_claims(&userinfo_claims(), &keys[0]);
    for (name, claim) in [("aud", ClaimName::Aud), ("sub", ClaimName::Sub), ("exp", ClaimName::Exp)]
    {
        let mut map = access_claims().as_object().expect("an object").clone();
        map.remove(name);
        let bad = generate_token_using_claims(&Value::Object(map), &keys[0]);

        let r = service.decode_tokens_at(&bad, &good_id, &good_userinfo, get_current_timestamp());
        let e = r.expect_err("the access token lacks a claim");
        assert_eq!(e, ServiceError::InvalidAccessToken(DecodeError::MissingRequiredClaim(claim)));
        assert_eq!(e.token_kind(), Some(TokenKind::Access));

        let r = service.decode_tokens_at(&good_access, &bad, &good_userinfo, get_current_timestamp());
        let e = r.expect_err("the identity token lacks a claim");
        assert_eq!(e, ServiceError::InvalidIdToken(DecodeError::MissingRequiredClaim(claim)));
        assert_eq!(e.token_kind(), Some(TokenKind::Identity));

        let r = service.decode_tokens_at(&good_access, &good_id, &bad, get_current_timestamp());
        let e = r.expect_err("the userinfo token lacks a claim");
        assert_eq!(e, ServiceError::InvalidUserinfoToken(DecodeError::MissingRequiredClaim(claim)));
        assert_eq!(e.token_kind(), Some(TokenKind::Userinfo));
    }
    let mut map = access_claims().as_object().expect("an object").clone();
    map.remove("iss");
    let bad = generate_token_using_claims(&Value::Object(map), &keys[0]);
    assert_eq!(
        service.decode_tokens_at(&bad, &good_id, &good_userinfo, get_current_timestamp()).expect_err("no issuer"),
        ServiceError::InvalidAccessToken(DecodeError::MissingRequiredClaim(ClaimName::Iss))
    );
    assert_eq!(
        service.decode_tokens_at(&good_access, &bad, &good_userinfo, get_current_timestamp()).expect_err("no issuer"),
        ServiceError::InvalidIdToken(DecodeError::MissingRequiredClaim(ClaimName::Iss))
    );
}

#[test]
fn claim_of_the_wrong_shape_counts_as_missing() {
    let (keys, jwks) = generate_keys();
    let mut server = MockServer::new(SERVER, &jwks);
    let service = service_for(&mut server, vec![Algorithm::ES256]);
    let good = generate_token_using_claims(&access_claims(), &keys[0]);
    let bad = generate_token_using_claims(&with(&access_claims(), "sub", number(7)), &keys[0]);
    assert_eq!(
        service.decode_tokens_at(&bad, &good, &good, get_current_timestamp()).expect_err("sub is a number"),
        ServiceError::InvalidAccessToken(DecodeError::MissingRequiredClaim(ClaimName::Sub))
    );
    let bad = generate_token_using_claims(&with(&access_claims(), "exp", text("soon")), &keys[0]);
    assert_eq!(
        service.decode_tokens_at(&bad, &good, &good, get_current_timestamp()).expect_err("exp is a string"),
        ServiceError::InvalidAccessToken(DecodeError::MissingRequiredClaim(ClaimName::Exp))
    );
}

#[test]
fn key_outside_the_key_set_gives_invalid_signature() {
    let (keys, jwks) = generate_keys();
    let mut server = MockServer::new(SERVER, &jwks);
    let service = service_for(&mut server, vec![Algorithm::ES256, Algorithm::HS256]);
    let good = generate_token_using_claims(&access_claims(), &keys[0]);
    // Signed by a stranger's key under the identifier of a published key.
    let stranger = Signer {
        key: ec_key(EC_TWO),
        alg: jsonwebtoken::Algorithm::ES256,
        kid: Some("some_id_1".to_string()),
    };
    let forged = generate_token_using_claims(&access_claims(), &stranger);
    assert_eq!(
        service.decode_tokens_at(&forged, &good, &good, get_current_timestamp()).expect_err("forged"),
        ServiceError::InvalidAccessToken(DecodeError::InvalidSignature)
    );
    // Signed under an identifier that the issuer does not publish.
    let unknown = Signer {
        key: ec_key(EC_TWO),
        alg: jsonwebtoken::Algorithm::ES256,
        kid: Some("some_id_9".to_string()),
    };
    let forged = generate_token_using_claims(&access_claims(), &unknown);
    assert_eq!(
        service.decode_tokens_at(&good, &forged, &good, get_current_timestamp()).expect_err("forged"),
        ServiceError::InvalidIdToken(DecodeError::InvalidSignature)
    );
    // Signed without an identifier: every key of the family is tried.
    let nameless = Signer { key: ec_key(EC_TWO), alg: jsonwebtoken::Algorithm::ES256, kid: None };
    let forged = generate_token_using_claims(&access_claims(), &nameless);
    assert_eq!(
        service.decode_tokens_at(&good, &good, &forged, get_current_timestamp()).expect_err("forged"),
        ServiceError::InvalidUserinfoToken(DecodeError::InvalidSignature)
    );
    // A shared secret other than the published one.
    let other_secret = Signer {
        key: EncodingKey::from_secret(b"another-secret"),
        alg: jsonwebtoken::Algorithm::HS256,
        kid: Some("some_id_2".to_string()),
    };
    let forged = generate_token_using_claims(&access_claims(), &other_secret);
    assert_eq!(
        service.decode_tokens_at(&forged, &good, &good, get_current_timestamp()).expect_err("forged"),
        ServiceError::InvalidAccessToken(DecodeError::InvalidSignature)
    );
}

#[test]
fn token_without_key_id_is_verified_by_a_key_of_its_family() {
    let (keys, jwks) = generate_keys();
    let mut server = MockServer::new(SERVER, &jwks);
    let service = service_for(&mut server, vec![Algorithm::ES256, Algorithm::HS256]);
    let ec = Signer { key: ec_key(EC_ONE), alg: jsonwebtoken::Algorithm::ES256, kid: None };
    let mac = Signer {
        key: EncodingKey::from_secret(SHARED.as_bytes()),
        alg: jsonwebtoken::Algorithm::HS256,
        kid: None,
    };
    let access = generate_token_using_claims(&access_claims(), &ec);
    let id = generate_token_using_claims(&id_claims(), &mac);
    let userinfo = generate_token_using_claims(&userinfo_claims(), &keys[1]);
    let (a, i, u) = service.decode_tokens_at(&access, &id, &userinfo, get_current_timestamp()).expect("valid tokens");
    assert_eq!(a.sub, "some_sub");
    assert_eq!(i.sub, "some_sub");
    assert_eq!(u.sub, "some_sub");
}

#[test]
fn key_id_of_a_key_of_another_family_gives_invalid_signature() {
    let (_, jwks) = generate_keys();
    let mut server = MockServer::new(SERVER, &jwks);
    let service = service_for(&mut server, vec![Algorithm::ES256, Algorithm::HS256]);
    let crossed = Signer {
        key: EncodingKey::from_secret(SHARED.as_bytes()),
        alg: jsonwebtoken::Algorithm::HS256,
        kid: Some("some_id_1".to_string()),
    };
    let token = generate_token_using_claims(&access_claims(), &crossed);
    assert_eq!(
        service.decode_tokens_at(&token, &token, &token, get_current_timestamp()).expect_err("wrong family"),
        ServiceError::InvalidAccessToken(DecodeError::InvalidSignature)
    );
}

#[test]
fn algorithm_outside_the_allow_list_is_not_permitted() {
    let (keys, jwks) = generate_keys();
    let mut server = MockServer::new(SERVER, &jwks);
    let service = service_for(&mut server, vec![Algorithm::ES256]);
    let good = generate_token_using_claims(&access_claims(), &keys[0]);
    // Correctly signed with a trusted key, under HS256.
    let unlisted = generate_token_using_claims(&id_claims(), &keys[1]);
    assert_eq!(
        service.decode_tokens_at(&good, &unlisted, &good, get_current_timestamp()).expect_err("HS256 is not listed"),
        ServiceError::InvalidIdToken(DecodeError::AlgorithmNotPermitted)
    );
    // The same token passes where HS256 is listed.
    let mut server = MockServer::new(SERVER, &jwks);
    let service = service_for(&mut server, vec![Algorithm::ES256, Algorithm::HS256]);
    assert!(service.decode_tokens_at(&good, &unlisted, &good, get_current_timestamp()).is_ok());
    // With a broken signature the algorithm is still what is reported.
    let mut server = MockServer::new(SERVER, &jwks);
    let service = service_for(&mut server, vec![Algorithm::HS256]);
    let broken = invalidate_token(good.clone());
    assert_eq!(
        service.decode_tokens_at(&broken, &unlisted, &unlisted, get_current_timestamp()).expect_err("ES256 is not listed"),
        ServiceError::InvalidAccessToken(DecodeError::AlgorithmNotPermitted)
    );
    // An empty allow-list permits nothing.
    let mut server = MockServer::new(SERVER, &jwks);
    let service = service_for(&mut server, vec![]);
    assert_eq!(
        service.decode_tokens_at(&good, &good, &good, get_current_timestamp()).expect_err("nothing is listed"),
        ServiceError::InvalidAccessToken(DecodeError::AlgorithmNotPermitted)
    );
}

#[test]
fn expired_token_is_refused() {
    let (keys, jwks) = generate_keys();
    let mut server = MockServer::new(SERVER, &jwks);
    let service = service_for(&mut server, vec![Algorithm::ES256, Algorithm::HS256]);
    let good = generate_token_using_claims(&access_claims(), &keys[0]);
    let past = with(&userinfo_claims(), "exp", number(get_current_timestamp() - 3600));
    let expired = generate_token_using_claims(&past, &keys[0]);
    assert_eq!(
        service.decode_tokens_at(&good, &good, &expired, get_current_timestamp()).expect_err("expired"),
        ServiceError::InvalidUserinfoToken(DecodeError::Expired)
    );
    assert_eq!(
        service.decode_tokens_at(&expired, &good, &good, get_current_timestamp()).expect_err("expired"),
        ServiceError::InvalidAccessToken(DecodeError::Expired)
    );
}

#[test]
fn expiry_is_judged_at_the_given_instant() {
    let (keys, jwks) = generate_keys();
    let mut server = MockServer::new(SERVER, &jwks);
    let service = service_for(&mut server, vec![Algorithm::ES256]);
    let claims = with(&access_claims(), "exp", number(1000));
    let token = generate_token_using_claims(&claims, &keys[0]);
    assert!(service.decode_tokens_at(&token, &token, &token, 999).is_ok());
    assert!(service.decode_tokens_at(&token, &token, &token, 1000).is_ok());
    assert_eq!(
        service.decode_tokens_at(&token, &token, &token, 1001).expect_err("expired"),
        ServiceError::InvalidAccessToken(DecodeError::Expired)
    );
    let (a, _, _) = service.decode_tokens_at(&token, &token, &token, 0).expect("valid");
    assert_eq!(a.exp, 1000);
}

#[test]
fn subject_disagreement_is_a_cross_token_inconsistency() {
    let (keys, jwks) = generate_keys();
    let mut server = MockServer::new(SERVER, &jwks);
    let service = service_for(&mut server, vec![Algorithm::ES256, Algorithm::HS256]);
    let access = generate_token_using_claims(&with(&access_claims(), "sub", text("A")), &keys[0]);
    let id = generate_token_using_claims(&with(&id_claims(), "sub", text("B")), &keys[0]);
    let userinfo =
        generate_token_using_claims(&with(&userinfo_claims(), "sub", text("A")), &keys[0]);
    let e = service.decode_tokens_at(&access, &id, &userinfo, get_current_timestamp()).expect_err("subjects differ");
    assert_eq!(e, ServiceError::CrossTokenInconsistency(ClaimName::Sub));
    assert_eq!(e.token_kind(), None);
}

#[test]
fn audience_disagreement_is_a_cross_token_inconsistency() {
    let (keys, jwks) = generate_keys();
    let mut server = MockServer::new(SERVER, &jwks);
    let service = service_for(&mut server, vec![Algorithm::ES256, Algorithm::HS256]);
    let access = generate_token_using_claims(&access_claims(), &keys[0]);
    let id = generate_token_using_claims(&id_claims(), &keys[0]);
    let userinfo =
        generate_token_using_claims(&with(&userinfo_claims(), "aud", text("other_aud")), &keys[0]);
    assert_eq!(
        service.decode_tokens_at(&access, &id, &userinfo, get_current_timestamp()).expect_err("audiences differ"),
        ServiceError::CrossTokenInconsistency(ClaimName::Aud)
    );
    // The identity token's audience is not part of the rule.
    let id = generate_token_using_claims(&with(&id_claims(), "aud", text("other_aud")), &keys[0]);
    let userinfo = generate_token_using_claims(&userinfo_claims(), &keys[0]);
    assert!(service.decode_tokens_at(&access, &id, &userinfo, get_current_timestamp()).is_ok());
}

#[test]
fn issuer_disagreement_is_a_cross_token_inconsistency() {
    let (keys, jwks) = generate_keys();
    let mut first = MockServer::new(SERVER, &jwks);
    let mut second = MockServer::new("http://127.0.0.1:5678", &jwks);
    let one = first.fetch(some_idp(SERVER)).expect("resolved");
    let two = second.fetch(some_idp("http://127.0.0.1:5678")).expect("resolved");
    let service = JwtService::new_with_config(JwtServiceConfig::WithValidation {
        supported_algs: vec![Algorithm::ES256],
        trusted_idps: vec![one, two],
    });
    let access = generate_token_using_claims(&access_claims(), &keys[0]);
    let id = generate_token_using_claims(&id_claims(), &keys[0]);
    let elsewhere = with(&userinfo_claims(), "iss", text("http://127.0.0.1:5678"));
    let userinfo = generate_token_using_claims(&elsewhere, &keys[0]);
    assert_eq!(
        service.decode_tokens_at(&access, &id, &userinfo, get_current_timestamp()).expect_err("issuers differ"),
        ServiceError::CrossTokenInconsistency(ClaimName::Iss)
    );
    // A single bad token is reported before any disagreement.
    let broken = invalidate_token(id.clone());
    assert_eq!(
        service.decode_tokens_at(&access, &broken, &userinfo, get_current_timestamp()).expect_err("broken"),
        ServiceError::InvalidIdToken(DecodeError::InvalidSignature)
    );
}

#[test]
fn untrusted_issuer_is_refused() {
    let (keys, jwks) = generate_keys();
    let mut server = MockServer::new(SERVER, &jwks);
    let service = service_for(&mut server, vec![Algorithm::ES256]);
    let good = generate_token_using_claims(&access_claims(), &keys[0]);
    let stranger = with(&access_claims(), "iss", text("http://elsewhere.example"));
    let token = generate_token_using_claims(&stranger, &keys[0]);
    assert_eq!(
        service.decode_tokens_at(&good, &token, &good, get_current_timestamp()).expect_err("untrusted"),
        ServiceError::InvalidIdToken(DecodeError::UntrustedIssuer)
    );
    // An untrusted issuer is reported before an unlisted algorithm.
    let token = generate_token_using_claims(&stranger, &keys[1]);
    assert_eq!(
        service.decode_tokens_at(&token, &good, &good, get_current_timestamp()).expect_err("untrusted"),
        ServiceError::InvalidAccessToken(DecodeError::UntrustedIssuer)
    );
}

#[test]
fn malformed_token_is_a_structural_failure() {
    let (keys, jwks) = generate_keys();
    let mut server = MockServer::new(SERVER, &jwks);
    let service = service_for(&mut server, vec![Algorithm::ES256]);
    let good = generate_token_using_claims(&access_claims(), &keys[0]);
    for bad in ["", "abc", "a.b", "a.b.c", "a.b.c.d", "e30.e30.e30"] {
        assert_eq!(
            service.decode_tokens_at(bad, &good, &good, get_current_timestamp()).expect_err("malformed"),
            ServiceError::InvalidAccessToken(DecodeError::StructuralDecodeFailure)
        );
        assert_eq!(
            service.decode_tokens_at(&good, &good, bad, get_current_timestamp()).expect_err("malformed"),
            ServiceError::InvalidUserinfoToken(DecodeError::StructuralDecodeFailure)
        );
    }
    let plain = JwtService::new_with_config(JwtServiceConfig::WithoutValidation);
    assert_eq!(
        plain.decode_tokens_at(&good, "a.b.c", &good, get_current_timestamp()).expect_err("malformed"),
        ServiceError::InvalidIdToken(DecodeError::StructuralDecodeFailure)
    );
}

#[test]
fn valid_bundle_returns_all_three_claim_mappings() {
    let (keys, jwks) = generate_keys();
    let mut server = MockServer::new(SERVER, &jwks);
    let service = service_for(&mut server, vec![Algorithm::ES256, Algorithm::HS256]);
    assert_eq!(server.openid_conf_hits, 1);
    assert_eq!(server.jwks_hits, 1);
    let access_value = access_claims();
    let id_value = id_claims();
    let userinfo_value = userinfo_claims();
    let access = generate_token_using_claims(&access_value, &keys[0]);
    let id = generate_token_using_claims(&id_value, &keys[1]);
    let userinfo = generate_token_using_claims(&userinfo_value, &keys[0]);
    let (a, i, u) = service.decode_tokens_at(&access, &id, &userinfo, get_current_timestamp()).expect("valid tokens");
    assert_eq!(a.iss, SERVER);
    assert_eq!(a.aud, vec!["some_aud"]);
    assert_eq!(a.sub, "some_sub");
    assert_eq!(Some(a.exp), access_value["exp"].as_u64());
    assert_eq!(payload_value(&a), access_value);
    assert_eq!(payload_value(&i), id_value);
    assert_eq!(payload_value(&u), userinfo_value);
    assert_eq!(payload_value(&i)["email"], text("some_email@gmail.com"));
    assert_eq!(payload_value(&u)["name"], text("ferris"));
    // Decoding asks the server for nothing more.
    assert_eq!(server.openid_conf_hits, 1);
    assert_eq!(server.jwks_hits, 1);
}

#[test]
fn decoding_twice_gives_identical_outcomes() {
    let (keys, jwks) = generate_keys();
    let mut server = MockServer::new(SERVER, &jwks);
    let service = service_for(&mut server, vec![Algorithm::ES256, Algorithm::HS256]);
    let access = generate_token_using_claims(&access_claims(), &keys[0]);
    let id = generate_token_using_claims(&id_claims(), &keys[1]);
    let userinfo = generate_token_using_claims(&userinfo_claims(), &keys[0]);
    let first = service.decode_tokens_at(&access, &id, &userinfo, get_current_timestamp()).expect("valid tokens");
    let second = service.decode_tokens_at(&access, &id, &userinfo, get_current_timestamp()).expect("valid tokens");
    for (x, y) in [(&first.0, &second.0), (&first.1, &second.1), (&first.2, &second.2)] {
        assert_eq!(x.iss, y.iss);
        assert_eq!(x.aud, y.aud);
        assert_eq!(x.sub, y.sub);
        assert_eq!(x.exp, y.exp);
        assert_eq!(x.payload, y.payload);
    }
    // A failure repeats as well.
    let broken = invalidate_token(userinfo);
    let first = service.decode_tokens_at(&access, &id, &broken, get_current_timestamp()).expect_err("broken");
    let second = service.decode_tokens_at(&access, &id, &broken, get_current_timestamp()).expect_err("broken");
    assert_eq!(first, second);
}

#[test]
fn without_validation_only_structure_and_claims_are_checked() {
    let (keys, _) = generate_keys();
    let service = JwtService::new_with_config(JwtServiceConfig::WithoutValidation);
    let past = with(&access_claims(), "exp", number(5));
    let stranger = with(&past, "iss", text("http://elsewhere.example"));
    let access = invalidate_token(generate_token_using_claims(&stranger, &keys[0]));
    let id = generate_token_using_claims(&stranger, &keys[1]);
    let (a, i, u) = service.decode_tokens_at(&access, &id, &access, get_current_timestamp()).expect("well-formed tokens");
    assert_eq!(a.iss, "http://elsewhere.example");
    assert_eq!(a.exp, 5);
    assert_eq!(i.sub, "some_sub");
    assert_eq!(u.aud, vec!["some_aud"]);
    // Required claims and the agreement of the tokens still count.
    let mut map = stranger.as_object().expect("an object").clone();
    map.remove("aud");
    let bad = generate_token_using_claims(&Value::Object(map), &keys[0]);
    assert_eq!(
        service.decode_tokens_at(&access, &bad, &access, get_current_timestamp()).expect_err("no audience"),
        ServiceError::InvalidIdToken(DecodeError::MissingRequiredClaim(ClaimName::Aud))
    );
    let other = generate_token_using_claims(&with(&stranger, "sub", text("B")), &keys[0]);
    assert_eq!(
        service.decode_tokens_at(&access, &other, &access, get_current_timestamp()).expect_err("subjects differ"),
        ServiceError::CrossTokenInconsistency(ClaimName::Sub)
    );
}

#[test]
fn audience_given_as_a_list() {
    let (keys, jwks) = generate_keys();
    let mut server = MockServer::new(SERVER, &jwks);
    let service = service_for(&mut server, vec![Algorithm::ES256, Algorithm::HS256]);
    let both = Value::Array(vec![text("some_aud"), text("other_aud")]);
    let access = generate_token_using_claims(&with(&access_claims(), "aud", both.clone()), &keys[0]);
    let id = generate_token_using_claims(&id_claims(), &keys[0]);
    let userinfo =
        generate_token_using_claims(&with(&userinfo_claims(), "aud", both.clone()), &keys[0]);
    let (a, i, u) = service
        .decode_tokens_at(&access, &id, &userinfo, get_current_timestamp())
        .expect("valid tokens");
    assert_eq!(a.aud, vec!["some_aud", "other_aud"]);
    assert_eq!(i.aud, vec!["some_aud"]);
    assert_eq!(u.aud, vec!["some_aud", "other_aud"]);
    // One audience as a string agrees with the list of that one audience.
    let single = Value::Array(vec![text("some_aud")]);
    let access = generate_token_using_claims(&with(&access_claims(), "aud", single), &keys[0]);
    let plain = generate_token_using_claims(&userinfo_claims(), &keys[0]);
    assert!(service.decode_tokens_at(&access, &id, &plain, get_current_timestamp()).is_ok());
    // Another list does not.
    assert_eq!(
        service
            .decode_tokens_at(&access, &id, &userinfo, get_current_timestamp())
            .expect_err("audiences differ"),
        ServiceError::CrossTokenInconsistency(ClaimName::Aud)
    );
    // A list that holds anything but strings is no audience.
    let mixed = Value::Array(vec![text("some_aud"), number(1)]);
    let bad = generate_token_using_claims(&with(&id_claims(), "aud", mixed), &keys[0]);
    assert_eq!(
        service
            .decode_tokens_at(&access, &bad, &plain, get_current_timestamp())
            .expect_err("no audience"),
        ServiceError::InvalidIdToken(DecodeError::MissingRequiredClaim(ClaimName::Aud))
    );
}

#[test]
fn expiry_given_with_a_fraction() {
    let (keys, jwks) = generate_keys();
    let mut server = MockServer::new(SERVER, &jwks);
    let service = service_for(&mut server, vec![Algorithm::ES256]);
    let fraction = Value::Number(serde_json::Number::from_f64(1000.5).expect("finite"));
    let token = generate_token_using_claims(&with(&access_claims(), "exp", fraction), &keys[0]);
    let (a, _, _) = service.decode_tokens_at(&token, &token, &token, 1000).expect("not expired");
    assert_eq!(a.exp, 1000);
    assert_eq!(
        service.decode_tokens_at(&token, &token, &token, 1001).expect_err("expired"),
        ServiceError::InvalidAccessToken(DecodeError::Expired)
    );
    let soon = (get_current_timestamp() + 3600) as f64 + 0.25;
    let fraction = Value::Number(serde_json::Number::from_f64(soon).expect("finite"));
    let token = generate_token_using_claims(&with(&access_claims(), "exp", fraction), &keys[0]);
    assert!(service.decode_tokens_at(&token, &token, &token, get_current_timestamp()).is_ok());
    let negative = Value::Number(serde_json::Number::from_f64(-1000.5).expect("finite"));
    let token = generate_token_using_claims(&with(&access_claims(), "exp", negative), &keys[0]);
    assert_eq!(
        service.decode_tokens_at(&token, &token, &token, 0).expect_err("no instant"),
        ServiceError::InvalidAccessToken(DecodeError::MissingRequiredClaim(ClaimName::Exp))
    );
}

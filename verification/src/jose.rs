//! The calls into `jsonwebtoken` and `serde_json`, each behind a contract
//! that is taken on trust, and the names of what those calls return.

use vstd::prelude::*;

verus! {

/// What a token header says of how the token was signed.
#[derive(Clone, Debug)]
pub struct TokenHeader {
    /// The identifier of the signing algorithm.
    pub alg: String,
    /// The identifier of the signing key, where the header carries one.
    pub kid: Option<String>,
}

/// A member of a JSON object, as far as this library reads it.
#[derive(Clone, Debug)]
pub enum JsonMember {
    /// The document is no JSON object, or holds no member of that name.
    Absent,
    /// The member is a string.
    Text(String),
    /// The member is a non-negative integer below 2^64.
    Number(u64),
    /// The member is another number, given as the numeral that `serde_json`
    /// prints for it.
    Decimal(String),
    /// The member is a list of strings.
    List(Vec<String>),
    /// The member is of another shape.
    Other,
}

/// The mathematical value of a [`JsonMember`].
pub enum Member {
    Absent,
    Text(Seq<char>),
    Number(nat),
    Decimal(Seq<char>),
    List(Seq<Seq<char>>),
    Other,
}

impl View for TokenHeader {
    type V = (Seq<char>, Option<Seq<char>>);

    open spec fn view(&self) -> Self::V {
        (self.alg@, text_of(self.kid))
    }
}

impl View for JsonMember {
    type V = Member;

    open spec fn view(&self) -> Member {
        match self {
            JsonMember::Absent => Member::Absent,
            JsonMember::Text(s) => Member::Text(s@),
            JsonMember::Number(n) => Member::Number(*n as nat),
            JsonMember::Decimal(s) => Member::Decimal(s@),
            JsonMember::List(l) => Member::List(l.deep_view()),
            JsonMember::Other => Member::Other,
        }
    }
}

/// The characters of an optional string.
pub open spec fn text_of(s: Option<String>) -> Option<Seq<char>> {
    match s {
        Some(t) => Some(t@),
        None => None,
    }
}

/// The characters of an optional string slice.
pub open spec fn slice_text_of(s: Option<&str>) -> Option<Seq<char>> {
    match s {
        Some(t) => Some(t@),
        None => None,
    }
}

/// The algorithm identifier and key identifier of the header of `token`, or
/// `None` where `jsonwebtoken::decode_header` refuses the token.
pub uninterp spec fn header_of(token: Seq<char>) -> Option<(Seq<char>, Option<Seq<char>>)>;

/// The JSON text of the body of `token` as `jsonwebtoken::decode` yields it
/// with expiry, audience and required-claim checks switched off. With `jwk`
/// the signature is verified with that key under the algorithm `alg`;
/// without, it is not looked at. `None` where the call fails.
pub uninterp spec fn payload_of(token: Seq<char>, alg: Seq<char>, jwk: Option<Seq<char>>) -> Option<Seq<char>>;

/// The member `name` of the JSON document `doc`, as `serde_json` parses it.
pub uninterp spec fn member_of(doc: Seq<char>, name: Seq<char>) -> Member;

/// The keys of the JSON Web Key Set `body`, each as the JSON text of one key
/// and in the order of the document, or `None` where `serde_json` cannot read
/// `body` as `jsonwebtoken::jwk::JwkSet`.
pub uninterp spec fn key_texts(body: Seq<char>) -> Option<Seq<Seq<char>>>;

/// The characters of each string of an optional list.
pub open spec fn texts_of(list: Option<Vec<String>>) -> Option<Seq<Seq<char>>> {
    match list {
        Some(v) => Some(v.deep_view()),
        None => None,
    }
}

/// The view of an optional header.
pub open spec fn header_view(h: Option<TokenHeader>) -> Option<(Seq<char>, Option<Seq<char>>)> {
    match h {
        Some(x) => Some(x@),
        None => None,
    }
}

/// Calls `jsonwebtoken::decode_header`, which splits the token at its two
/// last dots, decodes the first part from base64url and reads it as a JSON
/// header. Trusted: the result is a function of the token's text alone. The
/// algorithm comes back under the identifier that `jsonwebtoken::Algorithm`
/// prints.
#[verifier::external_body]
pub(crate) fn token_header(token: &str) -> (r: Option<TokenHeader>)
    ensures
        header_view(r) == header_of(token@),
{
    let header = jsonwebtoken::decode_header(token).ok()?;
    Some(TokenHeader { alg: format!("{:?}", header.alg), kid: header.kid })
}

/// Calls `jsonwebtoken::decode` onto a `serde_json::Value`, with the expiry,
/// audience and required-claim checks of `jsonwebtoken::Validation` switched
/// off, so that the call reads no clock. The arguments are converted first:
/// `alg` by `jsonwebtoken::Algorithm`'s `FromStr`, `jwk` by
/// `serde_json::from_str` onto a `jsonwebtoken::jwk::Jwk` and
/// `DecodingKey::from_jwk`. With `jwk` the signature is verified with that
/// key under the algorithm `alg`; without, signature validation is disabled
/// and the key is an empty secret that the call does not read. The body
/// comes back as the text that `serde_json` prints for it; `None` stands for
/// a failure of the call or of a conversion. Trusted: the result is a
/// function of the three arguments alone.
#[verifier::external_body]
pub(crate) fn decode_payload(token: &str, alg: &str, jwk: Option<&str>) -> (r: Option<String>)
    ensures
        text_of(r) == payload_of(token@, alg@, slice_text_of(jwk)),
{
    let mut rules = jsonwebtoken::Validation::new(alg.parse().ok()?);
    rules.required_spec_claims.clear();
    rules.validate_exp = false;
    rules.validate_aud = false;
    let key = match jwk {
        Some(text) => jsonwebtoken::DecodingKey::from_jwk(&serde_json::from_str(text).ok()?).ok()?,
        None => {
            rules.insecure_disable_signature_validation();
            jsonwebtoken::DecodingKey::from_secret(&[])
        },
    };
    let data = jsonwebtoken::decode::<serde_json::Value>(token, &key, &rules).ok()?;
    Some(data.claims.to_string())
}

/// Calls `serde_json::from_str` onto a `serde_json::Value`, then
/// `Value::get` with the member's name, and tells the variants of the value
/// found apart. A number counts as an integer where `Number::as_u64` yields
/// it and comes back as the numeral that `Number` prints otherwise; a list
/// counts where `Value::as_str` yields each of its items. A document that
/// does not parse, or is no object, has no members. Trusted: the result is a
/// function of the two arguments alone.
#[verifier::external_body]
pub(crate) fn json_member(doc: &str, name: &str) -> (r: JsonMember)
    ensures
        r@ == member_of(doc@, name@),
{
    let parsed = serde_json::from_str::<serde_json::Value>(doc).ok();
    match parsed.as_ref().and_then(|v| v.get(name)) {
        None => JsonMember::Absent,
        Some(serde_json::Value::String(s)) => JsonMember::Text(s.clone()),
        Some(serde_json::Value::Number(n)) => match n.as_u64() {
            Some(whole) => JsonMember::Number(whole),
            None => JsonMember::Decimal(n.to_string()),
        },
        Some(serde_json::Value::Array(items)) => {
            let list: Option<Vec<String>> = items.iter().map(|v| v.as_str().map(String::from)).collect();
            list.map_or(JsonMember::Other, JsonMember::List)
        },
        Some(_) => JsonMember::Other,
    }
}

/// Calls `serde_json::from_str` onto a `jsonwebtoken::jwk::JwkSet` and
/// `serde_json::to_string` on each of its keys. Trusted: the result is a
/// function of the body alone.
#[verifier::external_body]
pub(crate) fn key_set_entries(body: &str) -> (r: Option<Vec<String>>)
    ensures
        texts_of(r) == key_texts(body@),
{
    let set = serde_json::from_str::<jsonwebtoken::jwk::JwkSet>(body).ok()?;
    set.keys.iter().map(|key| serde_json::to_string(key).ok()).collect()
}

} // verus!

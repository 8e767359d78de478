//! The verification keys that an issuer publishes, and the search for one
//! that verifies a token.

use vstd::prelude::*;
use crate::algorithm::{family_named, Algorithm, KeyFamily};
use crate::text::same_text;
use crate::jose::{
    decode_payload, json_member, key_set_entries, key_texts, member_of, payload_of, text_of,
    JsonMember, Member,
};

verus! {

/// One published verification key.
#[derive(Clone, Debug)]
pub struct VerificationKey {
    /// The key identifier, where the key carries one.
    pub kid: Option<String>,
    /// The family of the key material, where its key type is a known one.
    pub family: Option<KeyFamily>,
    /// The key as JSON text, in JSON Web Key format.
    pub text: String,
}

/// The mathematical value of a [`VerificationKey`].
pub struct KeyModel {
    pub kid: Option<Seq<char>>,
    pub family: Option<KeyFamily>,
    pub text: Seq<char>,
}

/// The keys of one issuer, in the order in which it published them.
#[derive(Clone, Debug)]
pub struct KeySet {
    pub keys: Vec<VerificationKey>,
}

impl View for VerificationKey {
    type V = KeyModel;

    open spec fn view(&self) -> KeyModel {
        KeyModel { kid: text_of(self.kid), family: self.family, text: self.text@ }
    }
}

impl View for KeySet {
    type V = Seq<KeyModel>;

    open spec fn view(&self) -> Seq<KeyModel> {
        Seq::new(self.keys@.len(), |i: int| self.keys@[i]@)
    }
}

/// The key that the JSON text `text` describes: its identifier is the member
/// `kid` where that is a string, its family the one that the member `kty`
/// names.
pub open spec fn key_of_text(text: Seq<char>) -> KeyModel {
    KeyModel {
        kid: match member_of(text, "kid"@) {
            Member::Text(k) => Some(k),
            _ => None,
        },
        family: match member_of(text, "kty"@) {
            Member::Text(k) => family_named(k),
            _ => None,
        },
        text: text,
    }
}

/// The key set that the document `body` describes, if it is one.
pub open spec fn key_set_of(body: Seq<char>) -> Option<Seq<KeyModel>> {
    match key_texts(body) {
        Some(texts) => Some(Seq::new(texts.len(), |i: int| key_of_text(texts[i]))),
        None => None,
    }
}

/// The view of an optional key set.
pub open spec fn key_set_view(set: Option<KeySet>) -> Option<Seq<KeyModel>> {
    match set {
        Some(s) => Some(s@),
        None => None,
    }
}

/// Whether `key` is tried for a token whose header names the key identifier
/// `kid` and the algorithm `alg`: with an identifier in the header, the keys
/// that carry it; without, the keys of the algorithm's family.
pub open spec fn is_candidate(key: KeyModel, kid: Option<Seq<char>>, alg: Algorithm) -> bool {
    match kid {
        Some(k) => key.kid == Some(k),
        None => key.family == Some(alg.spec_family()),
    }
}

/// The body of `token` as verified by the first candidate among
/// `keys[from..]` that verifies its signature, if one does.
pub open spec fn verified_from(
    keys: Seq<KeyModel>,
    from: int,
    token: Seq<char>,
    kid: Option<Seq<char>>,
    alg: Algorithm,
) -> Option<Seq<char>>
    decreases keys.len() - from,
{
    if from < 0 || from >= keys.len() {
        None
    } else if is_candidate(keys[from], kid, alg) && payload_of(
        token,
        alg.spec_name(),
        Some(keys[from].text),
    ) is Some {
        payload_of(token, alg.spec_name(), Some(keys[from].text))
    } else {
        verified_from(keys, from + 1, token, kid, alg)
    }
}

impl VerificationKey {
    /// Reads the identifier and the family of a key given as JSON text.
    pub fn from_text(text: String) -> (r: VerificationKey)
        ensures
            r@ == key_of_text(text@),
    {
        let kid = match json_member(text.as_str(), "kid") {
            JsonMember::Text(k) => Some(k),
            _ => None,
        };
        let family = match json_member(text.as_str(), "kty") {
            JsonMember::Text(k) => KeyFamily::from_key_type(k.as_str()),
            _ => None,
        };
        VerificationKey { kid, family, text }
    }

    /// Whether this key is tried for a token whose header names `kid` and
    /// `alg`.
    pub fn is_candidate_for(&self, kid: &Option<String>, alg: Algorithm) -> (r: bool)
        ensures
            r == is_candidate(self@, text_of(*kid), alg),
    {
        match kid {
            Some(wanted) => match &self.kid {
                Some(own) => same_text(own.as_str(), wanted.as_str()),
                None => false,
            },
            None => match self.family {
                Some(f) => f == alg.family(),
                None => false,
            },
        }
    }
}

impl KeySet {
    /// Reads a JSON Web Key Set document.
    pub fn parse(body: &str) -> (r: Option<KeySet>)
        ensures
            key_set_view(r) == key_set_of(body@),
    {
        let texts = match key_set_entries(body) {
            Some(t) => t,
            None => { return None; },
        };
        let ghost all = texts.deep_view();
        assert(key_texts(body@) == Some(all));
        let mut keys: Vec<VerificationKey> = Vec::new();
        let mut i: usize = 0;
        while i < texts.len()
            invariant
                i <= texts.len(),
                texts.deep_view() == all,
                all.len() == texts.len(),
                keys@.len() == i,
                forall|j: int| 0 <= j < i ==> (#[trigger] keys@[j])@ == key_of_text(all[j]),
            decreases texts.len() - i,
        {
            let text = texts[i].clone();
            assert(text@ == all[i as int]);
            keys.push(VerificationKey::from_text(text));
            i += 1;
        }
        let set = KeySet { keys };
        assert(set@ =~= key_set_of(body@)->Some_0);
        Some(set)
    }

    /// The number of keys in the set.
    pub fn len(&self) -> (n: usize)
        ensures
            n == self@.len(),
    {
        self.keys.len()
    }

    /// Searches the set, in order, for a candidate key that verifies the
    /// signature of `token`, and yields the verified token body.
    pub fn verify(&self, token: &str, kid: &Option<String>, alg: Algorithm) -> (r: Option<String>)
        ensures
            text_of(r) == verified_from(self@, 0, token@, text_of(*kid), alg),
    {
        let mut i: usize = 0;
        while i < self.keys.len()
            invariant
                i <= self.keys.len(),
                verified_from(self@, 0, token@, text_of(*kid), alg) == verified_from(
                    self@,
                    i as int,
                    token@,
                    text_of(*kid),
                    alg,
                ),
            decreases self.keys.len() - i,
        {
            let key = &self.keys[i];
            assert(self@[i as int] == key@);
            if key.is_candidate_for(kid, alg) {
                let found = decode_payload(token, alg.name(), Some(key.text.as_str()));
                if found.is_some() {
                    return found;
                }
            }
            i += 1;
        }
        None
    }
}

/// A token that no key of the set verifies is verified by the set as a
/// whole neither, whichever keys are candidates.
pub proof fn lemma_no_key_no_verification(
    keys: Seq<KeyModel>,
    from: int,
    token: Seq<char>,
    kid: Option<Seq<char>>,
    alg: Algorithm,
)
    requires
        forall|i: int|
            0 <= i < keys.len() ==> payload_of(
                token,
                alg.spec_name(),
                Some(#[trigger] keys[i].text),
            ) is None,
    ensures
        verified_from(keys, from, token, kid, alg) is None,
    decreases keys.len() - from,
{
    if 0 <= from < keys.len() {
        lemma_no_key_no_verification(keys, from + 1, token, kid, alg);
    }
}

/// A result of the search is the token body as some candidate key of the
/// set verifies it.
pub proof fn lemma_verified_by_a_candidate(
    keys: Seq<KeyModel>,
    from: int,
    token: Seq<char>,
    kid: Option<Seq<char>>,
    alg: Algorithm,
)
    requires
        verified_from(keys, from, token, kid, alg) is Some,
    ensures
        exists|i: int|
            from <= i < keys.len() && 0 <= i && is_candidate(#[trigger] keys[i], kid, alg)
                && payload_of(token, alg.spec_name(), Some(keys[i].text)) == verified_from(
                keys,
                from,
                token,
                kid,
                alg,
            ),
    decreases keys.len() - from,
{
    if is_candidate(keys[from], kid, alg) && payload_of(
        token,
        alg.spec_name(),
        Some(keys[from].text),
    ) is Some {
        assert(is_candidate(keys[from], kid, alg));
    } else {
        lemma_verified_by_a_candidate(keys, from + 1, token, kid, alg);
    }
}

} // verus!

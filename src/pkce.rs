use vstd::prelude::*;
use oauth2::{CsrfToken, PkceCodeChallenge, PkceCodeVerifier};

verus! {

/// The S256 challenge of a verifier: its SHA-256 digest in unpadded URL-safe base64.
pub uninterp spec fn s256_challenge(verifier: Seq<char>) -> Seq<char>;

/// A character of the unreserved alphabet that a PKCE verifier may use.
pub open spec fn is_unreserved(c: char) -> bool {
    ('A' <= c && c <= 'Z') || ('a' <= c && c <= 'z') || ('0' <= c && c <= '9') || c == '-'
        || c == '.' || c == '_' || c == '~'
}

/// A verifier of 43 to 128 unreserved characters.
pub open spec fn valid_verifier(v: Seq<char>) -> bool {
    43 <= v.len() <= 128 && forall|i: int| 0 <= i < v.len() ==> is_unreserved(#[trigger] v[i])
}

/// Relies on PkceCodeChallenge::new_random_sha256: its verifier is 32 random bytes
/// in unpadded URL-safe base64, so 43 characters of that alphabet.
#[verifier::external_body]
fn random_verifier() -> (r: String)
    ensures
        r@.len() == 43,
        forall|i: int|
            0 <= i < r@.len() ==> (#[trigger] r@[i] != '.' && r@[i] != '~' && is_unreserved(r@[i])),
{
    let (_challenge, verifier) = PkceCodeChallenge::new_random_sha256();
    verifier.secret().clone()
}

/// Relies on PkceCodeChallenge::from_code_verifier_sha256, which panics unless the
/// verifier has 43 to 128 bytes (for unreserved characters, as many as characters).
#[verifier::external_body]
fn challenge_of(verifier: &String) -> (r: String)
    requires
        valid_verifier(verifier@),
    ensures
        r@ == s256_challenge(verifier@),
{
    let code = PkceCodeVerifier::new(verifier.clone());
    PkceCodeChallenge::from_code_verifier_sha256(&code).as_str().to_string()
}

/// Relies on CsrfToken::new_random: 16 random bytes in unpadded URL-safe base64.
#[verifier::external_body]
pub(crate) fn random_csrf_state() -> (r: String)
    ensures
        r@.len() == 22,
{
    CsrfToken::new_random().secret().clone()
}

/// A PKCE verifier and the challenge derived from it.
pub struct PkcePair {
    pub verifier: String,
    pub challenge: String,
}

impl PkcePair {
    /// The challenge is the S256 challenge of a valid verifier.
    pub open spec fn wf(&self) -> bool {
        valid_verifier(self.verifier@) && self.challenge@ == s256_challenge(self.verifier@)
    }

    /// A fresh pair from a random verifier.
    pub fn generate() -> (r: PkcePair)
        ensures
            r.wf(),
    {
        let verifier = random_verifier();
        let challenge = challenge_of(&verifier);
        PkcePair { verifier, challenge }
    }

    /// The pair for a given verifier, or `None` when it is not a valid verifier.
    pub fn from_verifier(verifier: String) -> (r: Option<PkcePair>)
        ensures
            r is Some <==> valid_verifier(verifier@),
            r matches Some(p) ==> p.wf() && p.verifier@ == verifier@,
    {
        if !is_valid_verifier(verifier.as_str()) {
            return None;
        }
        let challenge = challenge_of(&verifier);
        Some(PkcePair { verifier, challenge })
    }
}

/// Whether a character is unreserved.
pub fn is_unreserved_char(c: char) -> (r: bool)
    ensures
        r == is_unreserved(c),
{
    ('A' <= c && c <= 'Z') || ('a' <= c && c <= 'z') || ('0' <= c && c <= '9') || c == '-'
        || c == '.' || c == '_' || c == '~'
}

/// Whether a string is a valid verifier.
pub fn is_valid_verifier(v: &str) -> (r: bool)
    ensures
        r == valid_verifier(v@),
{
    let n = v.unicode_len();
    if n < 43 || n > 128 {
        return false;
    }
    let mut i: usize = 0;
    while i < n
        invariant
            n == v@.len(),
            i <= n,
            forall|j: int| 0 <= j < i ==> is_unreserved(#[trigger] v@[j]),
        decreases n - i,
    {
        if !is_unreserved_char(v.get_char(i)) {
            return false;
        }
        i = i + 1;
    }
    true
}

} // verus!

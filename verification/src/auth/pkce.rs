//! Proof Key for Code Exchange: verifier and challenge.

use vstd::prelude::*;
use crate::auth::encoding;
use crate::radix64;

verus! {

/// The SHA-256 digest of these bytes.
pub uninterp spec fn sha256_digest(bytes: Seq<u8>) -> Seq<u8>;

/// Calls `sha2::Digest::digest` of `sha2::Sha256`: the digest of the bytes,
/// which has 32 of them.
#[verifier::external_body]
fn sha256(bytes: &[u8]) -> (r: Vec<u8>)
    ensures
        r@ == sha256_digest(bytes@),
        r@.len() == 32,
{
    <sha2::Sha256 as sha2::Digest>::digest(bytes).to_vec()
}

/// Calls `rand::random`. Nothing is claimed of the bytes.
#[verifier::external_body]
pub(crate) fn random_bytes() -> [u8; 32] {
    rand::random()
}

/// Whether `s` is a UUID of version 7 in hyphenated lower-case form.
pub open spec fn is_uuid_v7(s: Seq<char>) -> bool {
    &&& s.len() == 36
    &&& s[14] == '7'
    &&& forall|i: int|
        0 <= i < 36 ==> if i == 8 || i == 13 || i == 18 || i == 23 {
            #[trigger] s[i] == '-'
        } else {
            '0' <= s[i] <= '9' || 'a' <= s[i] <= 'f'
        }
}

/// Calls `uuid::Uuid::now_v7` and writes the UUID out. The contract fixes its
/// form; the value depends on time and chance.
#[verifier::external_body]
pub(crate) fn new_uuid_v7() -> (r: String)
    ensures
        is_uuid_v7(r@),
{
    uuid::Uuid::now_v7().to_string()
}

/// Calls `uuid::Uuid::now_v7` twice and writes both UUIDs out. The UUIDs that one
/// process creates are ordered by their creation; the contract says that the two
/// differ, and fixes their form.
#[verifier::external_body]
pub(crate) fn new_uuid_v7_pair() -> (r: (String, String))
    ensures
        is_uuid_v7(r.0@),
        is_uuid_v7(r.1@),
        r.0@ != r.1@,
{
    (uuid::Uuid::now_v7().to_string(), uuid::Uuid::now_v7().to_string())
}

/// The challenge that goes with a verifier: the base64 of its SHA-256 digest.
pub open spec fn challenge_for(verifier: Seq<char>) -> Seq<char> {
    radix64::base64_text(sha256_digest(vstd::utf8::encode_utf8(verifier)), true)
}

/// Whether a verifier and a challenge belong together and have the form that
/// the authorization endpoint expects: 43 characters each of the URL-safe
/// alphabet.
pub open spec fn is_pkce_pair(verifier: Seq<char>, challenge: Seq<char>) -> bool {
    &&& challenge == challenge_for(verifier)
    &&& verifier.len() == 43
    &&& challenge.len() == 43
    &&& radix64::is_url_text(verifier)
    &&& radix64::is_url_text(challenge)
}

/// The verifier and challenge made of 32 random bytes.
pub fn pkce_pair(bytes: &[u8; 32]) -> (r: (String, String))
    ensures
        r.0@ == radix64::base64_text(bytes@, true),
        r.1@ == radix64::base64_text(sha256_digest(vstd::utf8::encode_utf8(r.0@)), true),
        is_pkce_pair(r.0@, r.1@),
{
    let verifier: String = radix64::base64_url(bytes.as_slice());
    let digest: Vec<u8> = sha256(verifier.as_str().as_bytes());
    let challenge: String = radix64::base64_url(digest.as_slice());
    proof {
        radix64::law_base64_form(bytes@);
        radix64::law_base64_form(digest@);
    }
    (verifier, challenge)
}

/// A verifier and a challenge need no escaping in a query.
pub proof fn law_pkce_needs_no_escaping(verifier: Seq<char>, challenge: Seq<char>)
    requires
        is_pkce_pair(verifier, challenge),
    ensures
        encoding::all_unreserved(verifier),
        encoding::all_unreserved(challenge),
{
}

} // verus!

use vstd::prelude::*;

use crate::digits::{dec_digits, u64_to_dec};
use crate::errors::ClientError;
use hmac::Mac;

verus! {

/// What `base64::decode` returns on a given string: `Some` of the
/// decoded bytes exactly when the string is well-formed base64.
pub uninterp spec fn b64_decode_of(s: Seq<char>) -> Option<Seq<u8>>;

/// What `base64::encode` returns on given bytes.
pub uninterp spec fn b64_encode_of(b: Seq<u8>) -> Seq<char>;

/// What HMAC-SHA256 returns for a key and the UTF-8 bytes of a message.
pub uninterp spec fn hmac_sha256_of(key: Seq<u8>, msg: Seq<char>) -> Seq<u8>;

#[verifier::external_type_specification]
#[verifier::external_body]
pub struct ExDecodeError(base64::DecodeError);

/// Relies on base64::decode (STANDARD alphabet with padding): the result
/// depends on the input characters alone, and is `Ok` exactly on
/// well-formed base64 input.
#[verifier::external_body]
fn b64_decode(s: &str) -> (r: Result<Vec<u8>, base64::DecodeError>)
    ensures
        r is Ok <==> b64_decode_of(s@) is Some,
        r matches Ok(v) ==> b64_decode_of(s@) == Some(v@),
{
    base64::decode(s)
}

/// Relies on base64::encode (STANDARD alphabet with padding): the result
/// depends on the input bytes alone; four output characters for every
/// three input bytes, rounded up by padding. The bound keeps the
/// output size within `usize`, on which the callee would panic.
#[verifier::external_body]
fn b64_encode(b: &[u8]) -> (r: String)
    requires
        4 * ((b@.len() + 2) / 3) <= usize::MAX,
    ensures
        r@ == b64_encode_of(b@),
        r@.len() == 4 * ((b@.len() + 2) / 3),
{
    base64::encode(b)
}

/// Relies on `Hmac::<Sha256>` of the hmac and sha2 crates
/// (`new_from_slice`, `update`, `finalize`): the MAC depends on the key
/// and message bytes alone and is 32 bytes long; `new_from_slice`
/// accepts a key of any length for HMAC, so it never fails.
#[verifier::external_body]
fn hmac_sha256(key: &[u8], msg: &str) -> (r: Vec<u8>)
    ensures
        r@ == hmac_sha256_of(key@, msg@),
        r@.len() == 32,
{
    let mut mac: hmac::Hmac<sha2::Sha256> = hmac::Hmac::new_from_slice(key).expect(
        "HMAC accepts a key of any length",
    );
    mac.update(msg.as_bytes());
    mac.finalize().into_bytes().to_vec()
}

/// The canonical string that is signed: the decimal timestamp, the HTTP
/// method, the path, and the body, concatenated in that order with no
/// separators.
pub open spec fn canonical_message(
    timestamp: u64,
    method: Seq<char>,
    path: Seq<char>,
    body: Seq<char>,
) -> Seq<char> {
    dec_digits(timestamp as nat) + method + path + body
}

/// The signature over the canonical message: the base64 MAC when the
/// secret is well-formed base64, nothing otherwise.
pub open spec fn signature_of(
    secret: Seq<char>,
    timestamp: u64,
    method: Seq<char>,
    path: Seq<char>,
    body: Seq<char>,
) -> Option<Seq<char>> {
    match b64_decode_of(secret) {
        Some(key) => Some(
            b64_encode_of(hmac_sha256_of(key, canonical_message(timestamp, method, path, body))),
        ),
        None => None,
    }
}

/// Sign a request: decode the base64 secret, HMAC-SHA256 the canonical
/// message, and return the base64 MAC. Fails with a decode error exactly
/// when the secret is not well-formed base64. The method is written
/// into the canonical message as given: the protocol's canonical form
/// expects it already uppercase ("POST", "GET"), and every caller here
/// passes it so.
pub fn sign(secret: &str, timestamp: u64, method: &str, path: &str, body: &str) -> (r: Result<
    String,
    ClientError,
>)
    ensures
        match signature_of(secret@, timestamp, method@, path@, body@) {
            Some(sig) => r matches Ok(s) && s@ == sig,
            None => r == Err::<String, ClientError>(ClientError::Decode),
        },
{
    let key = match b64_decode(secret) {
        Ok(k) => k,
        Err(_) => {
            return Err(ClientError::Decode);
        },
    };
    let mut msg = u64_to_dec(timestamp);
    msg.append(method);
    msg.append(path);
    msg.append(body);
    proof {
        assert(msg@ =~= canonical_message(timestamp, method@, path@, body@));
    }
    let mac = hmac_sha256(key.as_slice(), msg.as_str());
    Ok(b64_encode(mac.as_slice()))
}

/// Signing is deterministic: two signatures computed from identical
/// secret, timestamp, method, path and body are identical.
pub proof fn lemma_sign_deterministic(
    secret: Seq<char>,
    timestamp: u64,
    method: Seq<char>,
    path: Seq<char>,
    body: Seq<char>,
    r1: Option<Seq<char>>,
    r2: Option<Seq<char>>,
)
    requires
        r1 == signature_of(secret, timestamp, method, path, body),
        r2 == signature_of(secret, timestamp, method, path, body),
    ensures
        r1 == r2,
{
}

} // verus!

//! Detached Ed25519 signatures over `timestamp || body`.

use vstd::prelude::*;
use crate::hexcode::{decode_hex, hex_decoding, HexError};

verus! {

/// Whether Ed25519 verification accepts `signature` (64 bytes) as a signature
/// of `message` under `public_key` (32 bytes).
pub uninterp spec fn ed25519_accepts(
    signature: Seq<u8>,
    message: Seq<u8>,
    public_key: Seq<u8>,
) -> bool;

/// `dryoc::classic::crypto_sign::crypto_sign_verify_detached`: detached
/// Ed25519 verification. The outcome depends on the three byte strings alone;
/// an error of any kind counts as a rejection.
#[verifier::external_body]
fn verify_detached(signature: &[u8; 64], message: &[u8], public_key: &[u8; 32]) -> (accepted: bool)
    ensures
        accepted == ed25519_accepts(signature@, message@, public_key@),
{
    dryoc::classic::crypto_sign::crypto_sign_verify_detached(signature, message, public_key).is_ok()
}

/// The message that a request's signature covers: the timestamp, then the body.
pub open spec fn signed_message(timestamp: Seq<u8>, body: Seq<u8>) -> Seq<u8> {
    timestamp + body
}

/// The verdict on a request: a fault in the hexadecimal signature, else a
/// fault in the hexadecimal public key, else whether the signature is
/// accepted for the timestamp followed by the body.
pub open spec fn key_verdict(
    body: Seq<u8>,
    signature: Seq<u8>,
    timestamp: Seq<u8>,
    public_key: Seq<u8>,
) -> Result<bool, HexError> {
    match hex_decoding(signature, 64) {
        Err(e) => Err(e),
        Ok(sig) => match hex_decoding(public_key, 32) {
            Err(e) => Err(e),
            Ok(pk) => Ok(ed25519_accepts(sig, signed_message(timestamp, body), pk)),
        },
    }
}

/// Checks the detached signature of a request. `signature` and `public_key`
/// are hexadecimal text; `timestamp` and `body` are taken as raw bytes.
pub fn verify_key(body: &[u8], signature: &[u8], timestamp: &[u8], public_key: &[u8]) -> (r: Result<
    bool,
    HexError,
>)
    ensures
        r == key_verdict(body@, signature@, timestamp@, public_key@),
{
    let mut message: Vec<u8> = Vec::new();
    message.extend_from_slice(timestamp);
    message.extend_from_slice(body);
    assert(message@ =~= signed_message(timestamp@, body@));
    let sig = match decode_hex::<64>(signature) {
        Ok(sig) => sig,
        Err(e) => { return Err(e); },
    };
    let pk = match decode_hex::<32>(public_key) {
        Ok(pk) => pk,
        Err(e) => { return Err(e); },
    };
    Ok(verify_detached(&sig, message.as_slice(), &pk))
}

} // verus!

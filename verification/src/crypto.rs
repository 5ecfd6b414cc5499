//! Trusted bindings to the cryptographic primitives: Keccak-256 and
//! secp256k1 ECDSA recovery and verification.
//!
//! Each binding gives the outside call a contract over an uninterpreted
//! name for its result; everything built on top of these is verified.

use vstd::prelude::*;

verus! {

/// What Keccak-256 returns for a byte string; a fixed function of the
/// input bytes alone.
pub uninterp spec fn keccak256_of(bytes: Seq<u8>) -> Seq<u8>;

/// The uncompressed serialized public key that ECDSA recovery yields for a
/// 32-byte digest, a 64-byte compact signature and a recovery id, or
/// nothing when no key can be recovered. A fixed function of its inputs.
pub uninterp spec fn ecdsa_recover_of(digest: Seq<u8>, sig: Seq<u8>, rec_id: u8) -> Option<Seq<u8>>;

/// Whether a 64-byte compact ECDSA signature is valid for a 32-byte digest
/// under an uncompressed serialized public key.
pub uninterp spec fn ecdsa_verifies(digest: Seq<u8>, sig: Seq<u8>, key: Seq<u8>) -> bool;

/// The uncompressed serialized public key belonging to a 32-byte secret
/// key, or nothing when the bytes are not a valid secret key.
pub uninterp spec fn public_key_of_secret(secret: Seq<u8>) -> Option<Seq<u8>>;

/// Relies on tiny_keccak's Keccak-256: a 32-byte digest that depends on
/// the input bytes alone.
#[verifier::external_body]
pub(crate) fn keccak256(bytes: &[u8]) -> (r: [u8; 32])
    ensures
        r@ == keccak256_of(bytes@),
{
    let mut hasher = tiny_keccak::Keccak::v256();
    let mut out = [0u8; 32];
    tiny_keccak::Hasher::update(&mut hasher, bytes);
    tiny_keccak::Hasher::finalize(hasher, &mut out);
    out
}

/// Relies on secp256k1's ECDSA public-key recovery
/// (`RecoverableSignature::recover_ecdsa`), a deterministic function of
/// the digest, the compact signature and the recovery id;
/// `PublicKey::serialize_uncompressed` documents the 65-byte form with
/// the 0x04 format prefix. Note that recovery and `ecdsa::verify` accept
/// different signature ranges (verification additionally rejects an
/// upper-half s), so nothing is claimed here about `ecdsa_verifies`.
#[verifier::external_body]
pub(crate) fn ecdsa_recover(digest: &[u8; 32], sig: &[u8; 64], rec_id: u8) -> (r: Option<
    [u8; 65],
>)
    ensures
        (r is Some) == (ecdsa_recover_of(digest@, sig@, rec_id) is Some),
        r matches Some(pk) ==> ecdsa_recover_of(digest@, sig@, rec_id) matches Some(k) && pk@ == k
            && k.len() == 65 && k[0] == 4,
{
    let id = match secp256k1::ecdsa::RecoveryId::try_from(rec_id as i32) {
        Ok(id) => id,
        Err(_) => return None,
    };
    let rsig = match secp256k1::ecdsa::RecoverableSignature::from_compact(sig, id) {
        Ok(s) => s,
        Err(_) => return None,
    };
    let msg = secp256k1::Message::from_digest(*digest);
    match rsig.recover_ecdsa(msg) {
        Ok(pk) => Some(pk.serialize_uncompressed()),
        Err(_) => None,
    }
}

/// Relies on secp256k1's `ecdsa::verify`: whether the signature is valid
/// for the digest under the key; false as well when the key or signature
/// bytes do not parse.
#[verifier::external_body]
pub(crate) fn ecdsa_verify(digest: &[u8; 32], sig: &[u8; 64], key: &[u8; 65]) -> (r: bool)
    ensures
        r == ecdsa_verifies(digest@, sig@, key@),
{
    let pk = match secp256k1::PublicKey::from_slice(key) {
        Ok(p) => p,
        Err(_) => return false,
    };
    let csig = match secp256k1::ecdsa::Signature::from_compact(sig) {
        Ok(s) => s,
        Err(_) => return false,
    };
    let msg = secp256k1::Message::from_digest(*digest);
    secp256k1::ecdsa::verify(&csig, msg, &pk).is_ok()
}

/// Relies on secp256k1's `SecretKey::from_secret_bytes` and
/// `SecretKey::public_key`: the public key derived from a secret key,
/// in the 65-byte uncompressed serialized form.
#[verifier::external_body]
pub(crate) fn public_key_of(secret: &[u8; 32]) -> (r: Option<[u8; 65]>)
    ensures
        (r is Some) == (public_key_of_secret(secret@) is Some),
        r matches Some(pk) ==> public_key_of_secret(secret@) matches Some(k) && pk@ == k && k.len()
            == 65 && k[0] == 4,
{
    match secp256k1::SecretKey::from_secret_bytes(*secret) {
        Ok(sk) => Some(sk.public_key().serialize_uncompressed()),
        Err(_) => None,
    }
}

/// The address derived from an uncompressed serialized public key: the
/// last 20 bytes of the Keccak-256 digest of the key body after the
/// 1-byte format prefix.
pub open spec fn derived_address_of(key: Seq<u8>) -> Seq<u8> {
    keccak256_of(key.skip(1)).skip(12)
}

/// Computes the address derived from an uncompressed public key.
pub fn derived_address(key: &[u8; 65]) -> (r: [u8; 20])
    ensures
        r@ == derived_address_of(key@),
{
    let mut body: Vec<u8> = Vec::new();
    let mut i: usize = 1;
    while i < 65
        invariant
            1 <= i <= 65,
            body@ =~= key@.subrange(1, i as int),
        decreases 65 - i,
    {
        body.push(key[i]);
        i = i + 1;
    }
    proof {
        assert(body@ =~= key@.skip(1));
    }
    let digest = keccak256(body.as_slice());
    let mut out = [0u8; 20];
    let mut k: usize = 0;
    while k < 20
        invariant
            k <= 20,
            digest@ == keccak256_of(key@.skip(1)),
            forall|j: int| 0 <= j < k ==> out@[j] == digest@[12 + j],
        decreases 20 - k,
    {
        out[k] = digest[12 + k];
        k = k + 1;
    }
    proof {
        assert(out@ =~= keccak256_of(key@.skip(1)).skip(12));
    }
    out
}

} // verus!

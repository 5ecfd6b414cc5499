//! Per-signer signature verification with a lazy key-upgrade cache.
//!
//! A verifier starts out knowing only the signer's address and verifies by
//! ECDSA public-key recovery. Once a recovered key's derived address has
//! matched the stored address, the key is cached and later calls run a
//! direct verification against it. The upgrade is monotonic and is a pure
//! performance optimization: the cached key is re-checked against every
//! supplied signature, never trusted blindly.

use vstd::prelude::*;

use crate::crypto::derived_address;
use crate::crypto::derived_address_of;
use crate::crypto::ecdsa_recover;
use crate::crypto::ecdsa_recover_of;
use crate::crypto::ecdsa_verifies;
use crate::crypto::ecdsa_verify;
use crate::crypto::keccak256;
use crate::crypto::keccak256_of;
use crate::types::Address;
use crate::types::PublicKeyBytes;
use crate::types::RecoverableSignature;

verus! {

/// The signer a verifier currently knows: an address alone, or the
/// public key recovered and validated earlier.
#[derive(Clone, Copy, PartialEq, Eq, Debug)]
pub enum Signer {
    Address(Address),
    PublicKey(PublicKeyBytes),
}

/// The mathematical image of a [`Signer`].
pub enum SignerView {
    Address(Seq<u8>),
    PublicKey(Seq<u8>),
}

impl View for Signer {
    type V = SignerView;

    open spec fn view(&self) -> SignerView {
        match self {
            Signer::Address(a) => SignerView::Address(a@),
            Signer::PublicKey(k) => SignerView::PublicKey(k@),
        }
    }
}

/// What one `verify` call returns and leaves behind, as a function of the
/// signer state, the message digest and the signature: the answer (`None`
/// standing for a recovery failure) and the signer state after the call.
pub open spec fn verify_outcome(s: SignerView, digest: Seq<u8>, sig: Seq<u8>, rec_id: u8) -> (
    Option<bool>,
    SignerView,
) {
    match s {
        SignerView::PublicKey(key) => (Some(ecdsa_verifies(digest, sig, key)), s),
        SignerView::Address(addr) => match ecdsa_recover_of(digest, sig, rec_id) {
            Option::None => (Option::<bool>::None, s),
            Option::Some(key) => if derived_address_of(key) == addr {
                (Some(true), SignerView::PublicKey(key))
            } else {
                (Some(false), s)
            },
        },
    }
}

/// Stateful verification engine for one signer.
pub struct SignatureVerifier {
    signer: Signer,
}

impl SignatureVerifier {
    /// The signer state the verifier currently holds.
    pub closed spec fn signer_view(&self) -> SignerView {
        self.signer@
    }

    /// Creates a verifier that knows the signer by address only.
    pub fn new(signer: Address) -> (r: SignatureVerifier)
        ensures
            r.signer_view() == SignerView::Address(signer@),
    {
        SignatureVerifier { signer: Signer::Address(signer) }
    }

    /// Verifies a signature over a message against the known signer.
    ///
    /// The message is digested with Keccak-256. With a cached public key
    /// the signature is checked directly against it; with an address
    /// alone the key is recovered from the signature, its derived address
    /// compared, and on a match the key is cached for later calls.
    pub fn verify(&mut self, message: &[u8], signature: &RecoverableSignature) -> (r: Result<
        bool,
        &'static str,
    >)
        ensures
            ({
                let outcome = verify_outcome(
                    old(self).signer_view(),
                    keccak256_of(message@),
                    signature.compact_view(),
                    signature.v,
                );
                &&& final(self).signer_view() == outcome.1
                &&& match outcome.0 {
                    Some(b) => r == Ok::<bool, &'static str>(b),
                    Option::None => r is Err,
                }
            }),
            r matches Err(m) ==> m@ == "Failed to recover signature"@,
    {
        let digest = keccak256(message);
        let compact = signature.compact();
        let current = self.signer;
        match current {
            Signer::PublicKey(key) => {
                let ok = ecdsa_verify(&digest, &compact, &key.bytes);
                Ok(ok)
            },
            Signer::Address(addr) => {
                match ecdsa_recover(&digest, &compact, signature.v) {
                    Option::None => Err("Failed to recover signature"),
                    Option::Some(key) => {
                        let candidate = Address::new(derived_address(&key));
                        let equal = candidate.equals(&addr);
                        if equal {
                            self.signer = Signer::PublicKey(PublicKeyBytes { bytes: key });
                            Ok(true)
                        } else {
                            Ok(false)
                        }
                    },
                }
            },
        }
    }
}

/// A correctly produced signature — one that recovers to a key whose
/// derived address is the signer's and that is valid under that key — is
/// accepted both before the cache upgrade and by every later call on the
/// upgraded state: caching never changes an accepting answer.
pub proof fn lemma_valid_signature_accepted_before_and_after_upgrade(
    addr: Seq<u8>,
    digest: Seq<u8>,
    sig: Seq<u8>,
    rec_id: u8,
)
    requires
        ecdsa_recover_of(digest, sig, rec_id) matches Some(key) && derived_address_of(key) == addr
            && ecdsa_verifies(digest, sig, key),
    ensures
        verify_outcome(SignerView::Address(addr), digest, sig, rec_id).0 == Some(true),
        verify_outcome(
            verify_outcome(SignerView::Address(addr), digest, sig, rec_id).1,
            digest,
            sig,
            rec_id,
        ).0 == Some(true),
{
}

/// A signature from an unrelated key — one whose recovered key derives a
/// different address — is rejected, and the signer state is not upgraded.
pub proof fn lemma_unrelated_signature_rejected_without_upgrade(
    addr: Seq<u8>,
    digest: Seq<u8>,
    sig: Seq<u8>,
    rec_id: u8,
)
    requires
        ecdsa_recover_of(digest, sig, rec_id) matches Some(key) && derived_address_of(key) != addr,
    ensures
        verify_outcome(SignerView::Address(addr), digest, sig, rec_id) == (
            Some(false),
            SignerView::Address(addr),
        ),
{
}

/// After the upgrade the cached key is still checked against every
/// supplied signature: an invalid signature is rejected, and the cached
/// key is kept.
pub proof fn lemma_cached_key_still_checked(key: Seq<u8>, digest: Seq<u8>, sig: Seq<u8>, rec_id: u8)
    requires
        !ecdsa_verifies(digest, sig, key),
    ensures
        verify_outcome(SignerView::PublicKey(key), digest, sig, rec_id) == (
            Some(false),
            SignerView::PublicKey(key),
        ),
{
}

/// The upgrade is monotonic: once the verifier holds a public key, no
/// call — whatever its message or signature — ever moves it back to an
/// address-only state or to a different key.
pub proof fn lemma_upgrade_is_monotonic(key: Seq<u8>, digest: Seq<u8>, sig: Seq<u8>, rec_id: u8)
    ensures
        verify_outcome(SignerView::PublicKey(key), digest, sig, rec_id).1
            == SignerView::PublicKey(key),
{
}

/// No call ever answers `true` for a signature that does not validate
/// under the known key/address relationship: an accepting call from the
/// upgraded state means the signature is valid under the cached key, and
/// an accepting call from the address state means the signature's
/// recovered key derives exactly the stored address.
pub proof fn lemma_no_false_acceptance(s: SignerView, digest: Seq<u8>, sig: Seq<u8>, rec_id: u8)
    ensures
        verify_outcome(s, digest, sig, rec_id).0 == Some(true) ==> match s {
            SignerView::PublicKey(key) => ecdsa_verifies(digest, sig, key),
            SignerView::Address(addr) => ecdsa_recover_of(digest, sig, rec_id) matches Some(key)
                && derived_address_of(key) == addr,
        },
{
}

/// Racing upgrades are benign: with a correctly produced signature, a
/// caller that still sees the address state and a caller that already
/// sees the upgraded state both observe `true`, and repeating the call
/// leaves the state exactly where the first accepting call put it, so
/// every interleaving converges on the same signer state.
pub proof fn lemma_concurrent_upgrades_converge(
    addr: Seq<u8>,
    digest: Seq<u8>,
    sig: Seq<u8>,
    rec_id: u8,
)
    requires
        ecdsa_recover_of(digest, sig, rec_id) matches Some(key) && derived_address_of(key) == addr
            && ecdsa_verifies(digest, sig, key),
    ensures
        ({
            let first = verify_outcome(SignerView::Address(addr), digest, sig, rec_id);
            let second = verify_outcome(first.1, digest, sig, rec_id);
            &&& first.0 == Some(true)
            &&& second.0 == Some(true)
            &&& second.1 == first.1
        }),
{
}

} // verus!

//! Plain value types shared by the verifier and the receipt manager.

use vstd::prelude::*;

verus! {

/// A 20-byte account or allocation identifier.
#[derive(Clone, Copy, PartialEq, Eq, Debug)]
pub struct Address {
    pub bytes: [u8; 20],
}

impl View for Address {
    type V = Seq<u8>;

    open spec fn view(&self) -> Seq<u8> {
        self.bytes@
    }
}

impl Address {
    pub fn new(bytes: [u8; 20]) -> (r: Address)
        ensures
            r@ == bytes@,
    {
        Address { bytes }
    }

    /// Byte-for-byte comparison of two addresses.
    pub fn equals(&self, other: &Address) -> (r: bool)
        ensures
            r == (self@ == other@),
    {
        let mut i: usize = 0;
        while i < 20
            invariant
                i <= 20,
                forall|j: int| 0 <= j < i ==> self.bytes@[j] == other.bytes@[j],
            decreases 20 - i,
        {
            if self.bytes[i] != other.bytes[i] {
                proof {
                    assert(self@[i as int] != other@[i as int]);
                }
                return false;
            }
            i = i + 1;
        }
        proof {
            assert(self@ =~= other@);
        }
        true
    }
}

/// An uncompressed 65-byte serialized secp256k1 public key.
#[derive(Clone, Copy, PartialEq, Eq, Debug)]
pub struct PublicKeyBytes {
    pub bytes: [u8; 65],
}

impl View for PublicKeyBytes {
    type V = Seq<u8>;

    open spec fn view(&self) -> Seq<u8> {
        self.bytes@
    }
}

/// An ECDSA signature in recoverable form: the (r, s) pair and a recovery id.
#[derive(Clone, Copy, PartialEq, Eq, Debug)]
pub struct RecoverableSignature {
    pub r: [u8; 32],
    pub s: [u8; 32],
    pub v: u8,
}

impl RecoverableSignature {
    /// The 64-byte compact form, r followed by s, which drops the
    /// recovery id and is used on the fast verification path.
    pub open spec fn compact_view(self) -> Seq<u8> {
        self.r@ + self.s@
    }

    /// Converts to the 64-byte compact form.
    pub fn compact(&self) -> (out: [u8; 64])
        ensures
            out@ == self.compact_view(),
    {
        let mut out = [0u8; 64];
        let mut i: usize = 0;
        while i < 32
            invariant
                i <= 32,
                forall|j: int| 0 <= j < i ==> out@[j] == self.r@[j],
            decreases 32 - i,
        {
            out[i] = self.r[i];
            i = i + 1;
        }
        let mut k: usize = 0;
        while k < 32
            invariant
                k <= 32,
                forall|j: int| 0 <= j < 32 ==> out@[j] == self.r@[j],
                forall|j: int| 0 <= j < k ==> out@[32 + j] == self.s@[j],
            decreases 32 - k,
        {
            out[32 + k] = self.s[k];
            k = k + 1;
        }
        proof {
            assert(out@ =~= self.r@ + self.s@);
        }
        out
    }
}

} // verus!

//! Signed payment receipts and their signing digest.
//!
//! A receipt is signed over a structured digest that mixes in an immutable
//! domain separator, preventing cross-protocol and cross-deployment
//! replay: each struct member is encoded as a 32-byte word, hashed
//! together with a hash of the struct's type description, and combined
//! with the domain separator hash under a two-byte framing prefix.

use vstd::prelude::*;
use vstd::utf8::encode_utf8;

use crate::crypto::keccak256;
use crate::crypto::keccak256_of;
use crate::types::Address;
use crate::types::RecoverableSignature;

verus! {

/// The immutable signing context one deployment verifies receipts under.
#[derive(Clone, Debug)]
pub struct DomainSeparator {
    pub name: String,
    pub version: String,
    pub chain_id: u64,
    pub verifying_contract: Address,
}

/// The mathematical image of a [`DomainSeparator`].
pub struct DomainView {
    pub name: Seq<char>,
    pub version: Seq<char>,
    pub chain_id: u64,
    pub verifying_contract: Seq<u8>,
}

impl View for DomainSeparator {
    type V = DomainView;

    open spec fn view(&self) -> DomainView {
        DomainView {
            name: self.name@,
            version: self.version@,
            chain_id: self.chain_id,
            verifying_contract: self.verifying_contract@,
        }
    }
}

/// The payload of a payment receipt.
#[derive(Clone, Copy, PartialEq, Eq, Debug)]
pub struct Receipt {
    pub allocation_id: Address,
    pub nonce: u64,
    pub timestamp_ns: u64,
    pub value: u128,
}

/// The mathematical image of a [`Receipt`].
pub struct ReceiptView {
    pub allocation_id: Seq<u8>,
    pub nonce: u64,
    pub timestamp_ns: u64,
    pub value: u128,
}

impl View for Receipt {
    type V = ReceiptView;

    open spec fn view(&self) -> ReceiptView {
        ReceiptView {
            allocation_id: self.allocation_id@,
            nonce: self.nonce,
            timestamp_ns: self.timestamp_ns,
            value: self.value,
        }
    }
}

/// A receipt together with its recoverable signature.
#[derive(Clone, Copy, PartialEq, Eq, Debug)]
pub struct SignedReceipt {
    pub message: Receipt,
    pub signature: RecoverableSignature,
}

/// The mathematical image of a [`SignedReceipt`].
pub struct SignedReceiptView {
    pub message: ReceiptView,
    pub sig: Seq<u8>,
    pub rec_id: u8,
}

impl View for SignedReceipt {
    type V = SignedReceiptView;

    open spec fn view(&self) -> SignedReceiptView {
        SignedReceiptView {
            message: self.message@,
            sig: self.signature.compact_view(),
            rec_id: self.signature.v,
        }
    }
}

/// One byte of a 128-bit value, selected by a bit shift.
pub open spec fn u128_byte(v: u128, sh: u128) -> u8 {
    ((v >> sh) & 0xff) as u8
}

/// The 32-byte word encoding of an unsigned value: zero-padded on the
/// left, the value's bytes in big-endian order on the right.
pub open spec fn abi_word_of_u128(v: u128) -> Seq<u8> {
    Seq::new(
        32,
        |i: int|
            if i < 16 {
                0u8
            } else {
                u128_byte(v, (8 * (31 - i)) as u128)
            },
    )
}

/// The 32-byte word encoding of an address: 12 zero bytes, then the
/// 20 address bytes.
pub open spec fn abi_word_of_address(a: Seq<u8>) -> Seq<u8> {
    Seq::new(12, |i: int| 0u8) + a
}

/// The type description the domain separator is hashed under.
pub open spec fn domain_type_bytes() -> Seq<u8> {
    encode_utf8(
        "EIP712Domain(string name,string version,uint256 chainId,address verifyingContract)"@,
    )
}

/// The type description a receipt is hashed under.
pub open spec fn receipt_type_bytes() -> Seq<u8> {
    encode_utf8("Receipt(address allocation_id,uint64 nonce,uint64 timestamp_ns,uint128 value)"@)
}

/// The hash of the domain separator.
pub open spec fn domain_separator_hash(d: DomainView) -> Seq<u8> {
    keccak256_of(
        keccak256_of(domain_type_bytes()) + keccak256_of(encode_utf8(d.name)) + keccak256_of(
            encode_utf8(d.version),
        ) + abi_word_of_u128(d.chain_id as u128) + abi_word_of_address(d.verifying_contract),
    )
}

/// The hash of a receipt's members under their type description.
pub open spec fn receipt_struct_hash(m: ReceiptView) -> Seq<u8> {
    keccak256_of(
        keccak256_of(receipt_type_bytes()) + abi_word_of_address(m.allocation_id)
            + abi_word_of_u128(m.nonce as u128) + abi_word_of_u128(m.timestamp_ns as u128)
            + abi_word_of_u128(m.value),
    )
}

/// The digest a receipt is signed over: the framing prefix, the domain
/// separator hash, and the receipt's struct hash, hashed together.
pub open spec fn receipt_signing_digest(d: DomainView, m: ReceiptView) -> Seq<u8> {
    keccak256_of(seq![0x19u8, 0x01u8] + domain_separator_hash(d) + receipt_struct_hash(m))
}

proof fn lemma_byte_mask(v: u128, sh: u128)
    by (bit_vector)
    ensures
        ((v >> sh) & 0xff) < 256,
{
}

fn push_bytes(out: &mut Vec<u8>, bs: &[u8])
    ensures
        final(out)@ == old(out)@ + bs@,
{
    let ghost base = out@;
    let mut i: usize = 0;
    while i < bs.len()
        invariant
            i <= bs@.len(),
            out@ =~= base + bs@.take(i as int),
        decreases bs@.len() - i,
    {
        out.push(bs[i]);
        proof {
            assert(out@ =~= base + bs@.take(i as int + 1));
        }
        i = i + 1;
    }
    proof {
        assert(base + bs@.take(bs@.len() as int) =~= base + bs@);
    }
}

fn push_word_u128(out: &mut Vec<u8>, v: u128)
    ensures
        final(out)@ == old(out)@ + abi_word_of_u128(v),
{
    let ghost base = out@;
    let mut i: usize = 0;
    while i < 32
        invariant
            i <= 32,
            out@ =~= base + abi_word_of_u128(v).take(i as int),
        decreases 32 - i,
    {
        if i < 16 {
            out.push(0u8);
        } else {
            let sh: u128 = (8 * (31 - i)) as u128;
            proof {
                lemma_byte_mask(v, sh);
            }
            let b = ((v >> sh) & 0xff) as u8;
            out.push(b);
        }
        proof {
            assert(out@ =~= base + abi_word_of_u128(v).take(i as int + 1));
        }
        i = i + 1;
    }
    proof {
        assert(base + abi_word_of_u128(v).take(32) =~= base + abi_word_of_u128(v));
    }
}

fn push_word_address(out: &mut Vec<u8>, a: &Address)
    ensures
        final(out)@ == old(out)@ + abi_word_of_address(a@),
{
    let ghost base = out@;
    let mut i: usize = 0;
    while i < 12
        invariant
            i <= 12,
            out@ =~= base + abi_word_of_address(a@).take(i as int),
        decreases 12 - i,
    {
        out.push(0u8);
        proof {
            assert(out@ =~= base + abi_word_of_address(a@).take(i as int + 1));
        }
        i = i + 1;
    }
    let mut k: usize = 0;
    while k < 20
        invariant
            k <= 20,
            out@ =~= base + abi_word_of_address(a@).take(12 + k as int),
        decreases 20 - k,
    {
        out.push(a.bytes[k]);
        proof {
            assert(out@ =~= base + abi_word_of_address(a@).take(12 + k as int + 1));
        }
        k = k + 1;
    }
    proof {
        assert(base + abi_word_of_address(a@).take(32) =~= base + abi_word_of_address(a@));
    }
}

/// Computes the digest a receipt is signed over under a domain separator.
pub fn signing_digest(domain: &DomainSeparator, message: &Receipt) -> (r: [u8; 32])
    ensures
        r@ == receipt_signing_digest(domain@, message@),
{
    let domain_type_hash = keccak256(
        "EIP712Domain(string name,string version,uint256 chainId,address verifyingContract)".as_bytes(),
    );
    let name_hash = keccak256(domain.name.as_str().as_bytes());
    let version_hash = keccak256(domain.version.as_str().as_bytes());
    let mut denc: Vec<u8> = Vec::new();
    push_bytes(&mut denc, domain_type_hash.as_slice());
    push_bytes(&mut denc, name_hash.as_slice());
    push_bytes(&mut denc, version_hash.as_slice());
    push_word_u128(&mut denc, domain.chain_id as u128);
    push_word_address(&mut denc, &domain.verifying_contract);
    proof {
        assert(denc@ =~= keccak256_of(domain_type_bytes()) + keccak256_of(
            encode_utf8(domain.name@),
        ) + keccak256_of(encode_utf8(domain.version@)) + abi_word_of_u128(domain.chain_id as u128)
            + abi_word_of_address(domain.verifying_contract@));
    }
    let domain_hash = keccak256(denc.as_slice());
    let receipt_type_hash = keccak256(
        "Receipt(address allocation_id,uint64 nonce,uint64 timestamp_ns,uint128 value)".as_bytes(),
    );
    let mut senc: Vec<u8> = Vec::new();
    push_bytes(&mut senc, receipt_type_hash.as_slice());
    push_word_address(&mut senc, &message.allocation_id);
    push_word_u128(&mut senc, message.nonce as u128);
    push_word_u128(&mut senc, message.timestamp_ns as u128);
    push_word_u128(&mut senc, message.value);
    proof {
        assert(senc@ =~= keccak256_of(receipt_type_bytes()) + abi_word_of_address(
            message.allocation_id@,
        ) + abi_word_of_u128(message.nonce as u128) + abi_word_of_u128(
            message.timestamp_ns as u128,
        ) + abi_word_of_u128(message.value));
    }
    let struct_hash = keccak256(senc.as_slice());
    let mut fenc: Vec<u8> = Vec::new();
    fenc.push(0x19u8);
    fenc.push(0x01u8);
    push_bytes(&mut fenc, domain_hash.as_slice());
    push_bytes(&mut fenc, struct_hash.as_slice());
    proof {
        assert(fenc@ =~= seq![0x19u8, 0x01u8] + domain_separator_hash(domain@)
            + receipt_struct_hash(message@));
    }
    keccak256(fenc.as_slice())
}

} // verus!

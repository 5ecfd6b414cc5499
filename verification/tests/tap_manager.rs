use indexer_service::receipt::DomainSeparator;
use indexer_service::receipt::Receipt;
use indexer_service::receipt::SignedReceipt;
use indexer_service::receipt::signing_digest;
use indexer_service::tap_manager::AllocationMonitor;
use indexer_service::tap_manager::EscrowMonitor;
use indexer_service::tap_manager::ReceiptError;
use indexer_service::tap_manager::ReceiptStore;
use indexer_service::tap_manager::TapManager;
use indexer_service::types::Address;
use indexer_service::types::RecoverableSignature;

fn keccak(bytes: &[u8]) -> [u8; 32] {
    let mut hasher = tiny_keccak::Keccak::v256();
    let mut out = [0u8; 32];
    tiny_keccak::Hasher::update(&mut hasher, bytes);
    tiny_keccak::Hasher::finalize(hasher, &mut out);
    out
}

fn keys() -> (secp256k1::SecretKey, Address) {
    let sk = secp256k1::SecretKey::from_secret_bytes([7u8; 32]).unwrap();
    let ser = sk.public_key().serialize_uncompressed();
    let digest = keccak(&ser[1..]);
    let mut addr = [0u8; 20];
    addr.copy_from_slice(&digest[12..]);
    (sk, Address::new(addr))
}

fn domain() -> DomainSeparator {
    DomainSeparator {
        name: "TAP".to_string(),
        version: "1".to_string(),
        chain_id: 1,
        verifying_contract: Address::new([0x11u8; 20]),
    }
}

fn parse_allocation_id() -> Address {
    // 0xdeadbeefcafebabedeadbeefcafebabedeadbeef
    let bytes: [u8; 20] = [
        0xde, 0xad, 0xbe, 0xef, 0xca, 0xfe, 0xba, 0xbe, 0xde, 0xad, 0xbe, 0xef, 0xca, 0xfe, 0xba,
        0xbe, 0xde, 0xad, 0xbe, 0xef,
    ];
    Address::new(bytes)
}

fn create_signed_receipt(
    allocation_id: Address,
    nonce: u64,
    timestamp_ns: u64,
    value: u128,
) -> SignedReceipt {
    let (sk, _) = keys();
    let message = Receipt { allocation_id, nonce, timestamp_ns, value };
    let digest = signing_digest(&domain(), &message);
    let msg = secp256k1::Message::from_digest(digest);
    let rsig = secp256k1::ecdsa::RecoverableSignature::sign_ecdsa_recoverable(msg, &sk);
    let (rec_id, data) = rsig.serialize_compact();
    let mut r = [0u8; 32];
    let mut s = [0u8; 32];
    r.copy_from_slice(&data[..32]);
    s.copy_from_slice(&data[32..]);
    SignedReceipt { message, signature: RecoverableSignature { r, s, v: rec_id.to_u8() } }
}

#[test]
fn test_verify_and_store_receipt() {
    let allocation_id = parse_allocation_id();
    let (_sk, sender) = keys();
    let signed_receipt = create_signed_receipt(allocation_id, u64::MAX, u64::MAX, u128::MAX);

    let allocation_monitor = AllocationMonitor::new(vec![allocation_id]);
    let escrow_monitor = EscrowMonitor::new(vec![sender]);
    let mut tap_manager =
        TapManager::new(ReceiptStore::new(), allocation_monitor, escrow_monitor, domain());

    tap_manager.verify_and_store_receipt(signed_receipt).unwrap();

    // Exactly one row was stored and exactly one notification emitted.
    assert_eq!(tap_manager.store.rows.len(), 1);
    assert_eq!(tap_manager.store.notifications.len(), 1);

    // The allocation id is stored as lowercase hex without a prefix and
    // round-trips to the same address.
    let notification = &tap_manager.store.notifications[0];
    assert_eq!(notification.allocation_id, "deadbeefcafebabedeadbeefcafebabedeadbeef");
    assert_eq!(tap_manager.store.rows[0].allocation_id, notification.allocation_id);
    assert_eq!(notification.timestamp_ns, u64::MAX);
    assert_eq!(notification.id, 1);
}

#[test]
fn test_ineligible_allocation_stores_nothing() {
    let allocation_id = parse_allocation_id();
    let (_sk, sender) = keys();
    let signed_receipt = create_signed_receipt(allocation_id, 1, 2, 3);

    // The allocation snapshot does not hold the receipt's allocation id.
    let allocation_monitor = AllocationMonitor::new(vec![Address::new([0x22u8; 20])]);
    let escrow_monitor = EscrowMonitor::new(vec![sender]);
    let mut tap_manager =
        TapManager::new(ReceiptStore::new(), allocation_monitor, escrow_monitor, domain());

    let result = tap_manager.verify_and_store_receipt(signed_receipt);
    assert_eq!(
        result,
        Err(ReceiptError::AllocationIneligible { allocation_id })
    );
    assert_eq!(tap_manager.store.rows.len(), 0);
    assert_eq!(tap_manager.store.notifications.len(), 0);
}

#[test]
fn test_ineligible_sender_stores_nothing() {
    let allocation_id = parse_allocation_id();
    let (_sk, sender) = keys();
    let signed_receipt = create_signed_receipt(allocation_id, 1, 2, 3);

    let allocation_monitor = AllocationMonitor::new(vec![allocation_id]);
    // The escrow snapshot does not hold the signer's address.
    let escrow_monitor = EscrowMonitor::new(vec![Address::new([0x33u8; 20])]);
    let mut tap_manager =
        TapManager::new(ReceiptStore::new(), allocation_monitor, escrow_monitor, domain());

    let result = tap_manager.verify_and_store_receipt(signed_receipt);
    assert_eq!(result, Err(ReceiptError::SenderIneligible { sender }));
    assert_eq!(tap_manager.store.rows.len(), 0);
    assert_eq!(tap_manager.store.notifications.len(), 0);
}

#[test]
fn test_unrecoverable_signature_rejected() {
    let allocation_id = parse_allocation_id();
    let (_sk, sender) = keys();
    let mut signed_receipt = create_signed_receipt(allocation_id, 1, 2, 3);
    signed_receipt.signature = RecoverableSignature { r: [0xff; 32], s: [0xff; 32], v: 0 };

    let allocation_monitor = AllocationMonitor::new(vec![allocation_id]);
    let escrow_monitor = EscrowMonitor::new(vec![sender]);
    let mut tap_manager =
        TapManager::new(ReceiptStore::new(), allocation_monitor, escrow_monitor, domain());

    let result = tap_manager.verify_and_store_receipt(signed_receipt);
    assert_eq!(result, Err(ReceiptError::SignatureRecoveryFailure));
    assert_eq!(tap_manager.store.rows.len(), 0);
    assert_eq!(tap_manager.store.notifications.len(), 0);
}

#[test]
fn test_tampered_receipt_recovers_different_sender() {
    let allocation_id = parse_allocation_id();
    let (_sk, sender) = keys();
    let mut signed_receipt = create_signed_receipt(allocation_id, 1, 2, 3);
    // Raise the claimed value after signing: recovery yields some other
    // address, which the escrow snapshot does not hold.
    signed_receipt.message.value = 1_000_000;

    let allocation_monitor = AllocationMonitor::new(vec![allocation_id]);
    let escrow_monitor = EscrowMonitor::new(vec![sender]);
    let mut tap_manager =
        TapManager::new(ReceiptStore::new(), allocation_monitor, escrow_monitor, domain());

    let result = tap_manager.verify_and_store_receipt(signed_receipt);
    match result {
        Err(ReceiptError::SenderIneligible { sender: other }) => {
            assert_ne!(other, sender);
        }
        Err(ReceiptError::SignatureRecoveryFailure) => {}
        other => panic!("tampered receipt was not rejected: {:?}", other),
    }
    assert_eq!(tap_manager.store.rows.len(), 0);
    assert_eq!(tap_manager.store.notifications.len(), 0);
}

#[test]
fn test_exhausted_row_ids_fail_persistence() {
    let allocation_id = parse_allocation_id();
    let (_sk, sender) = keys();
    let signed_receipt = create_signed_receipt(allocation_id, 1, 2, 3);

    let allocation_monitor = AllocationMonitor::new(vec![allocation_id]);
    let escrow_monitor = EscrowMonitor::new(vec![sender]);
    let mut store = ReceiptStore::new();
    store.next_id = u64::MAX;
    let mut tap_manager = TapManager::new(store, allocation_monitor, escrow_monitor, domain());

    let result = tap_manager.verify_and_store_receipt(signed_receipt);
    assert_eq!(result, Err(ReceiptError::PersistenceFailure));
    assert_eq!(tap_manager.store.rows.len(), 0);
    assert_eq!(tap_manager.store.notifications.len(), 0);
}

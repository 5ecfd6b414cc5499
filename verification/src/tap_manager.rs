//! Receipt admission: eligibility checks, signer recovery and storage.
//!
//! The manager sequences the cheap checks first: allocation eligibility,
//! then signer recovery, then sender eligibility, and only then one
//! storage insert, which also records a change notification for
//! downstream aggregation. No row and no notification is written for a
//! rejected receipt.

use vstd::prelude::*;

use crate::crypto::derived_address;
use crate::crypto::derived_address_of;
use crate::crypto::ecdsa_recover;
use crate::crypto::ecdsa_recover_of;
use crate::hex::encode_hex;
use crate::hex::hex_of;
use crate::receipt::DomainSeparator;
use crate::receipt::DomainView;
use crate::receipt::receipt_signing_digest;
use crate::receipt::SignedReceipt;
use crate::receipt::SignedReceiptView;
use crate::receipt::signing_digest;
use crate::types::Address;

verus! {

/// Point-in-time allocation eligibility, a snapshot maintained by an
/// externally scheduled refresh loop and only read here.
#[derive(Clone, Debug)]
pub struct AllocationMonitor {
    pub eligible: Vec<Address>,
}

impl AllocationMonitor {
    /// Whether the snapshot holds this allocation id.
    pub open spec fn is_eligible_view(&self, id: Seq<u8>) -> bool {
        exists|j: int| 0 <= j < self.eligible@.len() && (#[trigger] self.eligible@[j])@ == id
    }

    pub fn new(eligible: Vec<Address>) -> (r: AllocationMonitor)
        ensures
            r.eligible == eligible,
    {
        AllocationMonitor { eligible }
    }

    /// Looks the allocation id up in the snapshot.
    pub fn is_allocation_eligible(&self, id: &Address) -> (r: bool)
        ensures
            r == self.is_eligible_view(id@),
    {
        let mut j: usize = 0;
        while j < self.eligible.len()
            invariant
                j <= self.eligible@.len(),
                forall|k: int| 0 <= k < j ==> (#[trigger] self.eligible@[k])@ != id@,
            decreases self.eligible@.len() - j,
        {
            if self.eligible[j].equals(id) {
                return true;
            }
            j = j + 1;
        }
        false
    }
}

/// Point-in-time sender eligibility, backed by escrow state synced
/// outside this library and only read here.
#[derive(Clone, Debug)]
pub struct EscrowMonitor {
    pub eligible: Vec<Address>,
}

impl EscrowMonitor {
    /// Whether the snapshot holds this sender address.
    pub open spec fn is_eligible_view(&self, sender: Seq<u8>) -> bool {
        exists|j: int| 0 <= j < self.eligible@.len() && (#[trigger] self.eligible@[j])@ == sender
    }

    pub fn new(eligible: Vec<Address>) -> (r: EscrowMonitor)
        ensures
            r.eligible == eligible,
    {
        EscrowMonitor { eligible }
    }

    /// Looks the sender address up in the snapshot.
    pub fn is_sender_eligible(&self, sender: &Address) -> (r: bool)
        ensures
            r == self.is_eligible_view(sender@),
    {
        let mut j: usize = 0;
        while j < self.eligible.len()
            invariant
                j <= self.eligible@.len(),
                forall|k: int| 0 <= k < j ==> (#[trigger] self.eligible@[k])@ != sender@,
            decreases self.eligible@.len() - j,
        {
            if self.eligible[j].equals(sender) {
                return true;
            }
            j = j + 1;
        }
        false
    }
}

/// A persisted receipt row: the allocation id as lowercase hexadecimal
/// text without a prefix, the receipt's timestamp, and the receipt.
#[derive(Clone, Debug)]
pub struct StoredReceipt {
    pub allocation_id: String,
    pub timestamp_ns: u64,
    pub receipt: SignedReceipt,
}

/// The mathematical image of a [`StoredReceipt`].
pub struct StoredReceiptView {
    pub allocation_id: Seq<char>,
    pub timestamp_ns: u64,
    pub receipt: SignedReceiptView,
}

impl View for StoredReceipt {
    type V = StoredReceiptView;

    open spec fn view(&self) -> StoredReceiptView {
        StoredReceiptView {
            allocation_id: self.allocation_id@,
            timestamp_ns: self.timestamp_ns,
            receipt: self.receipt@,
        }
    }
}

/// The change notification emitted for one stored row.
#[derive(Clone, Debug)]
pub struct ReceiptNotification {
    pub id: u64,
    pub allocation_id: String,
    pub timestamp_ns: u64,
}

/// The mathematical image of a [`ReceiptNotification`].
pub struct ReceiptNotificationView {
    pub id: u64,
    pub allocation_id: Seq<char>,
    pub timestamp_ns: u64,
}

impl View for ReceiptNotification {
    type V = ReceiptNotificationView;

    open spec fn view(&self) -> ReceiptNotificationView {
        ReceiptNotificationView {
            id: self.id,
            allocation_id: self.allocation_id@,
            timestamp_ns: self.timestamp_ns,
        }
    }
}

/// The receipt table together with its notification channel: every
/// successful insert appends exactly one row and emits exactly one
/// notification carrying the row's id, allocation id and timestamp.
#[derive(Clone, Debug)]
pub struct ReceiptStore {
    pub rows: Vec<StoredReceipt>,
    pub notifications: Vec<ReceiptNotification>,
    pub next_id: u64,
}

impl ReceiptStore {
    /// The rows, as mathematical values.
    pub open spec fn rows_view(&self) -> Seq<StoredReceiptView> {
        self.rows@.map_values(|row: StoredReceipt| row@)
    }

    /// The notifications, as mathematical values.
    pub open spec fn notifications_view(&self) -> Seq<ReceiptNotificationView> {
        self.notifications@.map_values(|n: ReceiptNotification| n@)
    }

    /// An empty store; row ids are assigned from 1 upward.
    pub fn new() -> (r: ReceiptStore)
        ensures
            r.rows@.len() == 0,
            r.notifications@.len() == 0,
            r.next_id == 1,
    {
        ReceiptStore { rows: Vec::new(), notifications: Vec::new(), next_id: 1 }
    }

    /// Appends one row and emits its notification; fails without any
    /// change when the row ids are exhausted.
    pub fn insert(&mut self, allocation_id: &str, timestamp_ns: u64, receipt: SignedReceipt) -> (r:
        Result<u64, ()>)
        ensures
            old(self).next_id == u64::MAX ==> r is Err && *final(self) == *old(self),
            old(self).next_id < u64::MAX ==> {
                &&& r == Ok::<u64, ()>(old(self).next_id)
                &&& final(self).rows_view() == old(self).rows_view().push(
                    (StoredReceiptView {
                        allocation_id: allocation_id@,
                        timestamp_ns,
                        receipt: receipt@,
                    }),
                )
                &&& final(self).notifications_view() == old(self).notifications_view().push(
                    (ReceiptNotificationView {
                        id: old(self).next_id,
                        allocation_id: allocation_id@,
                        timestamp_ns,
                    }),
                )
                &&& final(self).next_id == old(self).next_id + 1
            },
    {
        if self.next_id == u64::MAX {
            return Err(());
        }
        let id = self.next_id;
        let row_text = allocation_id.to_owned();
        let note_text = allocation_id.to_owned();
        self.rows.push(StoredReceipt { allocation_id: row_text, timestamp_ns, receipt });
        self.notifications.push(
            ReceiptNotification { id, allocation_id: note_text, timestamp_ns },
        );
        self.next_id = id + 1;
        proof {
            assert(self.rows_view() =~= old(self).rows_view().push(
                (StoredReceiptView {
                    allocation_id: allocation_id@,
                    timestamp_ns,
                    receipt: receipt@,
                }),
            ));
            assert(self.notifications_view() =~= old(self).notifications_view().push(
                (ReceiptNotificationView {
                    id: old(self).next_id,
                    allocation_id: allocation_id@,
                    timestamp_ns,
                }),
            ));
        }
        Ok(id)
    }
}

/// Why a receipt was rejected.
#[derive(Clone, Copy, PartialEq, Eq, Debug)]
pub enum ReceiptError {
    /// The receipt's allocation id is not eligible for this indexer.
    AllocationIneligible { allocation_id: Address },
    /// No signer could be recovered from the receipt's signature.
    SignatureRecoveryFailure,
    /// The recovered sender is not eligible for this indexer.
    SenderIneligible { sender: Address },
    /// The storage layer failed; the receipt must not be treated as
    /// accepted.
    PersistenceFailure,
}

/// The sender a receipt's signature recovers to under a domain
/// separator, or nothing when recovery fails.
pub open spec fn receipt_signer_of(d: DomainView, r: SignedReceiptView) -> Option<Seq<u8>> {
    match ecdsa_recover_of(receipt_signing_digest(d, r.message), r.sig, r.rec_id) {
        Option::None => Option::<Seq<u8>>::None,
        Option::Some(key) => Some(derived_address_of(key)),
    }
}

/// How one receipt is admitted or rejected, as a function of the
/// eligibility snapshots, the domain separator and the receipt.
pub enum Admission {
    RejectAllocation,
    RejectSignature,
    RejectSender { sender: Seq<u8> },
    Accept { sender: Seq<u8> },
}

/// The admission decision: allocation eligibility first, then signer
/// recovery, then sender eligibility.
pub open spec fn admission_of(
    allocations: AllocationMonitor,
    escrow: EscrowMonitor,
    d: DomainView,
    r: SignedReceiptView,
) -> Admission {
    if !allocations.is_eligible_view(r.message.allocation_id) {
        Admission::RejectAllocation
    } else {
        match receipt_signer_of(d, r) {
            Option::None => Admission::RejectSignature,
            Option::Some(sender) => if !escrow.is_eligible_view(sender) {
                Admission::RejectSender { sender }
            } else {
                Admission::Accept { sender }
            },
        }
    }
}

/// Orchestrates receipt admission against one domain separator, two
/// eligibility snapshots and the receipt store.
#[derive(Clone, Debug)]
pub struct TapManager {
    pub store: ReceiptStore,
    pub allocation_monitor: AllocationMonitor,
    pub escrow_monitor: EscrowMonitor,
    pub domain_separator: DomainSeparator,
}

impl TapManager {
    pub fn new(
        store: ReceiptStore,
        allocation_monitor: AllocationMonitor,
        escrow_monitor: EscrowMonitor,
        domain_separator: DomainSeparator,
    ) -> (r: TapManager)
        ensures
            r.store == store,
            r.allocation_monitor == allocation_monitor,
            r.escrow_monitor == escrow_monitor,
            r.domain_separator == domain_separator,
    {
        TapManager { store, allocation_monitor, escrow_monitor, domain_separator }
    }

    /// Checks that the receipt refers to an eligible allocation id and an
    /// eligible sender, and stores it when both checks pass.
    ///
    /// A rejected receipt changes nothing: zero rows and zero
    /// notifications. An accepted receipt is stored exactly once, with
    /// the allocation id as lowercase hexadecimal text without a prefix,
    /// and emits exactly one notification carrying the new row's id, the
    /// same allocation id text and the receipt's timestamp.
    pub fn verify_and_store_receipt(&mut self, receipt: SignedReceipt) -> (r: Result<
        (),
        ReceiptError,
    >)
        ensures
            final(self).allocation_monitor == old(self).allocation_monitor,
            final(self).escrow_monitor == old(self).escrow_monitor,
            final(self).domain_separator == old(self).domain_separator,
            ({
                let adm = admission_of(
                    old(self).allocation_monitor,
                    old(self).escrow_monitor,
                    old(self).domain_separator@,
                    receipt@,
                );
                match adm {
                    Admission::RejectAllocation => {
                        &&& r matches Err(e) && e matches ReceiptError::AllocationIneligible {
                            allocation_id,
                        } && allocation_id@ == receipt.message.allocation_id@
                        &&& final(self).store == old(self).store
                    },
                    Admission::RejectSignature => {
                        &&& r matches Err(e) && e is SignatureRecoveryFailure
                        &&& final(self).store == old(self).store
                    },
                    Admission::RejectSender { sender } => {
                        &&& r matches Err(e) && e matches ReceiptError::SenderIneligible {
                            sender: s,
                        } && s@ == sender
                        &&& final(self).store == old(self).store
                    },
                    Admission::Accept { sender } => {
                        if old(self).store.next_id == u64::MAX {
                            &&& r matches Err(e) && e is PersistenceFailure
                            &&& final(self).store == old(self).store
                        } else {
                            &&& r is Ok
                            &&& final(self).store.rows_view() == old(self).store.rows_view().push(
                                (StoredReceiptView {
                                    allocation_id: hex_of(receipt.message.allocation_id@),
                                    timestamp_ns: receipt.message.timestamp_ns,
                                    receipt: receipt@,
                                }),
                            )
                            &&& final(self).store.notifications_view() == old(
                                self,
                            ).store.notifications_view().push(
                                (ReceiptNotificationView {
                                    id: old(self).store.next_id,
                                    allocation_id: hex_of(receipt.message.allocation_id@),
                                    timestamp_ns: receipt.message.timestamp_ns,
                                }),
                            )
                            &&& final(self).store.next_id == old(self).store.next_id + 1
                        }
                    },
                }
            }),
    {
        let allocation_id = receipt.message.allocation_id;
        if !self.allocation_monitor.is_allocation_eligible(&allocation_id) {
            return Err(ReceiptError::AllocationIneligible { allocation_id });
        }
        let digest = signing_digest(&self.domain_separator, &receipt.message);
        let compact = receipt.signature.compact();
        let key = match ecdsa_recover(&digest, &compact, receipt.signature.v) {
            Some(k) => k,
            Option::None => {
                return Err(ReceiptError::SignatureRecoveryFailure);
            },
        };
        let sender = Address::new(derived_address(&key));
        if !self.escrow_monitor.is_sender_eligible(&sender) {
            return Err(ReceiptError::SenderIneligible { sender });
        }
        let hex_id = encode_hex(allocation_id.bytes.as_slice());
        let timestamp_ns = receipt.message.timestamp_ns;
        match self.store.insert(hex_id.as_str(), timestamp_ns, receipt) {
            Ok(_) => Ok(()),
            Err(_) => Err(ReceiptError::PersistenceFailure),
        }
    }
}

} // verus!


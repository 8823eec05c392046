//! Lifecycle coordinator: accepts a confidential-computation request,
//! validates its structural bounds, emits a commitment-bearing queued
//! record, and later accepts exactly one callback that finalizes or
//! aborts it. Terminal records are retained for audit; a computation
//! ID is never reused and a replayed callback is rejected without
//! touching the record.

use crate::codec::{
    is_valid_btc_address, spec_valid_btc_address, to_upper_bytes, trim_bytes, trim_spec,
    upper_spec,
};
use crate::commitment::{bridge_amount_encoding, commit_bridge_amount, commitment, keccak_of};
use crate::transforms::{MAX_CIPHERTEXT_BYTES, MAX_SLIPPAGE_PERCENT, MIN_CIPHERTEXT_BYTES};
use vstd::prelude::*;

verus! {

/// Longest accepted chain name after trimming, in bytes.
pub const MAX_CHAIN_NAME_LEN: usize = 32;

/// Synchronous rejections raised before a request is queued, and the
/// arithmetic failure of the swap conversion. None carries the value
/// that violated the rule.
#[derive(Clone, Copy, Debug, PartialEq, Eq, Structural)]
pub enum ErrorCode {
    BridgeInactive,
    InvalidAmount,
    MissingChainInfo,
    InvalidBtcAddress,
    InvalidTxHash,
    InvalidEncryptedPayload,
    InvalidSwapInputs,
    Overflow,
    DuplicateComputation,
}

/// Terminal and non-terminal lifecycle states of one queued
/// computation.
#[derive(Clone, Copy, Debug, PartialEq, Eq, Structural)]
pub enum ComputationStatus {
    Queued,
    Completed,
    Aborted,
}

/// Rejections of the callback path: a callback must match a known,
/// still-pending computation ID.
#[derive(Clone, Copy, Debug, PartialEq, Eq, Structural)]
pub enum LifecycleError {
    UnknownComputation,
    DuplicateCallback,
    AbortedComputation,
}

/// The execution fabric's answer for one computation: a commitment
/// to the sealed result, or an abort signal.
#[derive(Clone, Copy, Debug)]
pub enum CallbackOutcome {
    Success([u8; 32]),
    Aborted,
}

/// The coordinator's tracked state for one queued computation,
/// retained after it turns terminal.
#[derive(Clone, Copy, Debug)]
pub struct ComputationRecord {
    pub computation_id: [u8; 32],
    pub computation_offset: u64,
    pub status: ComputationStatus,
    pub commitment: [u8; 32],
    pub result_commitment: Option<[u8; 32]>,
}

/// A status is terminal once it has left Queued.
pub open spec fn spec_terminal(status: ComputationStatus) -> bool {
    status != ComputationStatus::Queued
}

/// No two records share a computation ID.
pub open spec fn unique_ids(records: Seq<ComputationRecord>) -> bool {
    forall|i: int, j: int|
        0 <= i < j < records.len() ==> records[i].computation_id@ != records[j].computation_id@
}

/// Some record carries this computation ID.
pub open spec fn contains_id(records: Seq<ComputationRecord>, id: Seq<u8>) -> bool {
    exists|i: int| 0 <= i < records.len() && records[i].computation_id@ == id
}

/// The position of the record carrying this computation ID; with
/// unique IDs it is the only one.
pub open spec fn spec_index_of(records: Seq<ComputationRecord>, id: Seq<u8>) -> int {
    choose|i: int| 0 <= i < records.len() && records[i].computation_id@ == id
}

/// The record carrying this computation ID.
pub open spec fn spec_record_of(records: Seq<ComputationRecord>, id: Seq<u8>) -> ComputationRecord {
    records[spec_index_of(records, id)]
}

/// The status of the record carrying this computation ID.
pub open spec fn spec_status_of(records: Seq<ComputationRecord>, id: Seq<u8>) -> ComputationStatus {
    spec_record_of(records, id).status
}

/// With unique IDs, any position holding the ID is the position.
pub proof fn lemma_index_of_unique(records: Seq<ComputationRecord>, id: Seq<u8>, i: int)
    requires
        unique_ids(records),
        0 <= i < records.len(),
        records[i].computation_id@ == id,
    ensures
        contains_id(records, id),
        spec_index_of(records, id) == i,
{
    assert(contains_id(records, id));
    let j = spec_index_of(records, id);
    if i != j {
        if i < j {
            assert(records[i].computation_id@ != records[j].computation_id@);
        } else {
            assert(records[j].computation_id@ != records[i].computation_id@);
        }
    }
}

/// The lifecycle coordinator: exclusive owner of all computation
/// records for their full lifetime.
#[derive(Debug)]
pub struct Coordinator {
    pub records: Vec<ComputationRecord>,
}

/// A freshly queued record binding an ID, an offset, and the public
/// commitment digest of the request.
pub open spec fn queued_record_matches(
    rec: ComputationRecord,
    computation_id: [u8; 32],
    computation_offset: u64,
    digest: Seq<u8>,
) -> bool {
    &&& rec.computation_id@ == computation_id@
    &&& rec.computation_offset == computation_offset
    &&& rec.status == ComputationStatus::Queued
    &&& rec.commitment@ == digest
    &&& rec.result_commitment is None
}

/// The records grew by exactly one queued record; all earlier
/// records are untouched.
pub open spec fn spec_queued(
    pre: Seq<ComputationRecord>,
    post: Seq<ComputationRecord>,
    computation_id: [u8; 32],
    computation_offset: u64,
    digest: Seq<u8>,
) -> bool {
    &&& post.len() == pre.len() + 1
    &&& post.drop_last() == pre
    &&& queued_record_matches(post.last(), computation_id, computation_offset, digest)
}

impl Coordinator {
    /// All records carry distinct computation IDs.
    pub open spec fn wf(self) -> bool {
        unique_ids(self.records@)
    }

    /// A coordinator that has queued nothing yet.
    pub fn new() -> (c: Coordinator)
        ensures
            c.wf(),
            c.records@.len() == 0,
    {
        Coordinator { records: Vec::new() }
    }

    /// Find the record owned by a computation ID.
    fn find_record(&self, computation_id: &[u8; 32]) -> (r: Option<usize>)
        ensures
            r matches Some(i) ==> i < self.records@.len() && self.records@[i as int].computation_id@
                == computation_id@,
            r is None ==> !contains_id(self.records@, computation_id@),
    {
        let mut i: usize = 0;
        while i < self.records.len()
            invariant
                0 <= i <= self.records@.len(),
                forall|j: int|
                    0 <= j < i ==> self.records@[j].computation_id@ != computation_id@,
            decreases self.records@.len() - i,
        {
            if ids_equal(&self.records[i].computation_id, computation_id) {
                return Some(i);
            }
            i = i + 1;
        }
        None
    }

    /// The status of a computation, if any record owns the ID.
    pub fn status_of(&self, computation_id: &[u8; 32]) -> (r: Option<ComputationStatus>)
        requires
            self.wf(),
        ensures
            contains_id(self.records@, computation_id@) ==> r == Some(
                spec_status_of(self.records@, computation_id@),
            ),
            !contains_id(self.records@, computation_id@) ==> r is None,
    {
        match self.find_record(computation_id) {
            Some(i) => {
                proof {
                    lemma_index_of_unique(self.records@, computation_id@, i as int);
                }
                Some(self.records[i].status)
            },
            None => None,
        }
    }

    /// What a waiter learns of a computation: still pending, the
    /// commitment to its sealed result once completed, or the
    /// terminal aborted condition — which is never retried from
    /// here.
    pub fn computation_result(&self, computation_id: &[u8; 32]) -> (r: Result<
        Option<[u8; 32]>,
        LifecycleError,
    >)
        requires
            self.wf(),
        ensures
            !contains_id(self.records@, computation_id@) ==> r == Err::<
                Option<[u8; 32]>,
                LifecycleError,
            >(LifecycleError::UnknownComputation),
            contains_id(self.records@, computation_id@) ==> match spec_status_of(
                self.records@,
                computation_id@,
            ) {
                ComputationStatus::Queued => r == Ok::<Option<[u8; 32]>, LifecycleError>(None),
                ComputationStatus::Completed => r == Ok::<Option<[u8; 32]>, LifecycleError>(
                    spec_record_of(self.records@, computation_id@).result_commitment,
                ),
                ComputationStatus::Aborted => r == Err::<Option<[u8; 32]>, LifecycleError>(
                    LifecycleError::AbortedComputation,
                ),
            },
    {
        let idx = match self.find_record(computation_id) {
            Some(i) => i,
            None => {
                return Err(LifecycleError::UnknownComputation);
            },
        };
        proof {
            lemma_index_of_unique(self.records@, computation_id@, idx as int);
        }
        match self.records[idx].status {
            ComputationStatus::Queued => Ok(None),
            ComputationStatus::Completed => Ok(self.records[idx].result_commitment),
            ComputationStatus::Aborted => Err(LifecycleError::AbortedComputation),
        }
    }

    /// Register exactly one callback binding for a fresh computation
    /// ID, recording the public commitment digest of the request.
    /// An ID already owned by a record is rejected unchanged.
    fn queue_record(
        &mut self,
        computation_id: [u8; 32],
        computation_offset: u64,
        digest: [u8; 32],
    ) -> (r: Result<(), ErrorCode>)
        requires
            old(self).wf(),
        ensures
            final(self).wf(),
            contains_id(old(self).records@, computation_id@) ==> r == Err::<(), ErrorCode>(
                ErrorCode::DuplicateComputation,
            ) && *final(self) == *old(self),
            !contains_id(old(self).records@, computation_id@) ==> r == Ok::<(), ErrorCode>(())
                && spec_queued(
                old(self).records@,
                final(self).records@,
                computation_id,
                computation_offset,
                digest@,
            ),
    {
        if self.find_record(&computation_id).is_some() {
            return Err(ErrorCode::DuplicateComputation);
        }
        let rec = ComputationRecord {
            computation_id,
            computation_offset,
            status: ComputationStatus::Queued,
            commitment: digest,
            result_commitment: None,
        };
        self.records.push(rec);
        proof {
            assert(self.records@.drop_last() =~= old(self).records@);
            assert forall|i: int, j: int|
                0 <= i < j < self.records@.len() implies self.records@[i].computation_id@
                != self.records@[j].computation_id@ by {
                if j < self.records@.len() - 1 {
                    assert(old(self).records@[i].computation_id@ != old(
                        self,
                    ).records@[j].computation_id@);
                } else {
                    assert(!contains_id(old(self).records@, computation_id@));
                }
            }
        }
        Ok(())
    }

    /// Accept the single callback for a queued computation: a
    /// success payload completes the record with its result
    /// commitment, an abort signal marks it terminal with no further
    /// mutation. A callback for an unknown ID, or for an already
    /// terminal record, is rejected and changes nothing.
    pub fn handle_callback(&mut self, computation_id: [u8; 32], outcome: CallbackOutcome) -> (r:
        Result<ComputationStatus, LifecycleError>)
        requires
            old(self).wf(),
        ensures
            final(self).wf(),
            !contains_id(old(self).records@, computation_id@) ==> r == Err::<
                ComputationStatus,
                LifecycleError,
            >(LifecycleError::UnknownComputation) && *final(self) == *old(self),
            contains_id(old(self).records@, computation_id@) && spec_terminal(
                spec_status_of(old(self).records@, computation_id@),
            ) ==> r == Err::<ComputationStatus, LifecycleError>(LifecycleError::DuplicateCallback)
                && *final(self) == *old(self),
            contains_id(old(self).records@, computation_id@) && !spec_terminal(
                spec_status_of(old(self).records@, computation_id@),
            ) ==> {
                let i = spec_index_of(old(self).records@, computation_id@);
                let pre = old(self).records@[i];
                match outcome {
                    CallbackOutcome::Success(result_digest) => {
                        &&& r == Ok::<ComputationStatus, LifecycleError>(
                            ComputationStatus::Completed,
                        )
                        &&& final(self).records@ == old(self).records@.update(
                            i,
                            ComputationRecord {
                                computation_id: pre.computation_id,
                                computation_offset: pre.computation_offset,
                                status: ComputationStatus::Completed,
                                commitment: pre.commitment,
                                result_commitment: Some(result_digest),
                            },
                        )
                    },
                    CallbackOutcome::Aborted => {
                        &&& r == Ok::<ComputationStatus, LifecycleError>(
                            ComputationStatus::Aborted,
                        )
                        &&& final(self).records@ == old(self).records@.update(
                            i,
                            ComputationRecord {
                                computation_id: pre.computation_id,
                                computation_offset: pre.computation_offset,
                                status: ComputationStatus::Aborted,
                                commitment: pre.commitment,
                                result_commitment: pre.result_commitment,
                            },
                        )
                    },
                }
            },
    {
        let idx = match self.find_record(&computation_id) {
            Some(i) => i,
            None => {
                return Err(LifecycleError::UnknownComputation);
            },
        };
        proof {
            lemma_index_of_unique(self.records@, computation_id@, idx as int);
        }
        let pending = matches!(self.records[idx].status, ComputationStatus::Queued);
        if !pending {
            return Err(LifecycleError::DuplicateCallback);
        }
        let status = match outcome {
            CallbackOutcome::Success(result_digest) => {
                let rec = ComputationRecord {
                    computation_id: self.records[idx].computation_id,
                    computation_offset: self.records[idx].computation_offset,
                    status: ComputationStatus::Completed,
                    commitment: self.records[idx].commitment,
                    result_commitment: Some(result_digest),
                };
                self.records.set(idx, rec);
                ComputationStatus::Completed
            },
            CallbackOutcome::Aborted => {
                let rec = ComputationRecord {
                    computation_id: self.records[idx].computation_id,
                    computation_offset: self.records[idx].computation_offset,
                    status: ComputationStatus::Aborted,
                    commitment: self.records[idx].commitment,
                    result_commitment: self.records[idx].result_commitment,
                };
                self.records.set(idx, rec);
                ComputationStatus::Aborted
            },
        };
        proof {
            assert forall|i: int, j: int|
                0 <= i < j < self.records@.len() implies self.records@[i].computation_id@
                != self.records@[j].computation_id@ by {
                assert(old(self).records@[i].computation_id@ != old(
                    self,
                ).records@[j].computation_id@);
                assert(self.records@[i].computation_id@ == old(self).records@[i].computation_id@);
                assert(self.records@[j].computation_id@ == old(self).records@[j].computation_id@);
            }
        }
        Ok(status)
    }
}

impl Coordinator {
    /// Queue a bridge-amount encryption: validate the amount and the
    /// chain names, commit to all fields of the request at once, and
    /// register the callback binding. On any rejection no record is
    /// created.
    pub fn encrypt_bridge_amount(
        &mut self,
        computation_id: [u8; 32],
        computation_offset: u64,
        amount: u64,
        source_chain: &Vec<u8>,
        dest_chain: &Vec<u8>,
        user_pubkey: [u8; 32],
        timestamp: i64,
    ) -> (r: Result<BridgeAmountEncryptionQueued, ErrorCode>)
        requires
            old(self).wf(),
        ensures
            final(self).wf(),
            r is Ok <==> amount != 0 && spec_chain_ok(source_chain@) && spec_chain_ok(dest_chain@)
                && !contains_id(old(self).records@, computation_id@),
            r is Err ==> *final(self) == *old(self),
            amount == 0 ==> (r matches Err(e) && e == ErrorCode::InvalidAmount),
            amount != 0 && !(spec_chain_ok(source_chain@) && spec_chain_ok(dest_chain@)) ==> (
            r matches Err(e) && e == ErrorCode::MissingChainInfo),
            amount != 0 && spec_chain_ok(source_chain@) && spec_chain_ok(dest_chain@)
                && contains_id(old(self).records@, computation_id@) ==> (r matches Err(e) && e
                == ErrorCode::DuplicateComputation),
            r matches Ok(ev) ==> {
                &&& ev.user@ == user_pubkey@
                &&& ev.source_chain@ == spec_norm_chain(source_chain@)
                &&& ev.dest_chain@ == spec_norm_chain(dest_chain@)
                &&& ev.amount_commitment@ == keccak_of(
                    bridge_amount_encoding(
                        amount,
                        spec_norm_chain(source_chain@),
                        spec_norm_chain(dest_chain@),
                        user_pubkey@,
                    ),
                )
                &&& ev.computation_offset == computation_offset
                &&& ev.timestamp == timestamp
                &&& spec_queued(
                    old(self).records@,
                    final(self).records@,
                    computation_id,
                    computation_offset,
                    ev.amount_commitment@,
                )
            },
    {
        if amount == 0 {
            return Err(ErrorCode::InvalidAmount);
        }
        let norm_source = match normalize_chain(source_chain) {
            Ok(v) => v,
            Err(e) => {
                return Err(e);
            },
        };
        let norm_dest = match normalize_chain(dest_chain) {
            Ok(v) => v,
            Err(e) => {
                return Err(e);
            },
        };
        let digest = commit_bridge_amount(amount, &norm_source, &norm_dest, &user_pubkey);
        match self.queue_record(computation_id, computation_offset, digest) {
            Ok(()) => {},
            Err(e) => {
                return Err(e);
            },
        }
        Ok(
            BridgeAmountEncryptionQueued {
                user: user_pubkey,
                source_chain: norm_source,
                dest_chain: norm_dest,
                amount_commitment: digest,
                computation_offset,
                timestamp,
            },
        )
    }

    /// Queue a transaction verification: validate the hash, the
    /// ciphertext window, and the chain name, and emit commitments
    /// in place of both confidential fields.
    pub fn verify_bridge_transaction(
        &mut self,
        computation_id: [u8; 32],
        computation_offset: u64,
        tx_hash: &Vec<u8>,
        expected_amount: &Vec<u8>,
        blockchain: &Vec<u8>,
        timestamp: i64,
    ) -> (r: Result<BridgeVerificationQueued, ErrorCode>)
        requires
            old(self).wf(),
        ensures
            final(self).wf(),
            r is Ok <==> trim_spec(tx_hash@).len() != 0 && MIN_CIPHERTEXT_BYTES
                <= expected_amount@.len() <= MAX_CIPHERTEXT_BYTES && spec_chain_ok(blockchain@)
                && !contains_id(old(self).records@, computation_id@),
            r is Err ==> *final(self) == *old(self),
            trim_spec(tx_hash@).len() == 0 ==> (r matches Err(e) && e == ErrorCode::InvalidTxHash),
            trim_spec(tx_hash@).len() != 0 && !(MIN_CIPHERTEXT_BYTES <= expected_amount@.len()
                <= MAX_CIPHERTEXT_BYTES) ==> (r matches Err(e) && e
                == ErrorCode::InvalidEncryptedPayload),
            trim_spec(tx_hash@).len() != 0 && MIN_CIPHERTEXT_BYTES <= expected_amount@.len()
                <= MAX_CIPHERTEXT_BYTES && !spec_chain_ok(blockchain@) ==> (r matches Err(e) && e
                == ErrorCode::MissingChainInfo),
            trim_spec(tx_hash@).len() != 0 && MIN_CIPHERTEXT_BYTES <= expected_amount@.len()
                <= MAX_CIPHERTEXT_BYTES && spec_chain_ok(blockchain@) && contains_id(
                old(self).records@,
                computation_id@,
            ) ==> (r matches Err(e) && e == ErrorCode::DuplicateComputation),
            r matches Ok(ev) ==> {
                &&& ev.tx_hash_commitment@ == keccak_of(trim_spec(tx_hash@))
                &&& ev.blockchain@ == spec_norm_chain(blockchain@)
                &&& ev.expected_amount_commitment@ == keccak_of(expected_amount@)
                &&& ev.computation_offset == computation_offset
                &&& ev.timestamp == timestamp
                &&& spec_queued(
                    old(self).records@,
                    final(self).records@,
                    computation_id,
                    computation_offset,
                    keccak_of(expected_amount@),
                )
            },
    {
        let trimmed_hash = trim_bytes(tx_hash);
        if trimmed_hash.len() == 0 {
            return Err(ErrorCode::InvalidTxHash);
        }
        if expected_amount.len() < MIN_CIPHERTEXT_BYTES || expected_amount.len()
            > MAX_CIPHERTEXT_BYTES {
            return Err(ErrorCode::InvalidEncryptedPayload);
        }
        let norm_chain = match normalize_chain(blockchain) {
            Ok(v) => v,
            Err(e) => {
                return Err(e);
            },
        };
        let tx_hash_commitment = commitment(&trimmed_hash);
        let expected_amount_commitment = commitment(expected_amount);
        match self.queue_record(computation_id, computation_offset, expected_amount_commitment) {
            Ok(()) => {},
            Err(e) => {
                return Err(e);
            },
        }
        Ok(
            BridgeVerificationQueued {
                tx_hash_commitment,
                blockchain: norm_chain,
                expected_amount_commitment,
                computation_offset,
                timestamp,
            },
        )
    }

    /// Queue a swap calculation: validate the rate terms and the
    /// payload window, convert with overflow-checked arithmetic, and
    /// emit a commitment to the confidential source amount.
    pub fn calculate_swap_amount(
        &mut self,
        computation_id: [u8; 32],
        computation_offset: u64,
        zen_amount: &Vec<u8>,
        exchange_rate: u64,
        slippage_tolerance: u64,
        timestamp: i64,
    ) -> (r: Result<SwapCalculationQueued, ErrorCode>)
        requires
            old(self).wf(),
        ensures
            final(self).wf(),
            r is Err ==> *final(self) == *old(self),
            exchange_rate == 0 || slippage_tolerance > MAX_SLIPPAGE_PERCENT ==> (r matches Err(e)
                && e == ErrorCode::InvalidSwapInputs),
            exchange_rate > 0 && slippage_tolerance <= MAX_SLIPPAGE_PERCENT && !(
            MIN_CIPHERTEXT_BYTES <= zen_amount@.len() <= MAX_CIPHERTEXT_BYTES) ==> (r matches Err(e)
                && e == ErrorCode::InvalidEncryptedPayload),
            exchange_rate > 0 && slippage_tolerance <= MAX_SLIPPAGE_PERCENT && MIN_CIPHERTEXT_BYTES
                <= zen_amount@.len() <= MAX_CIPHERTEXT_BYTES ==> {
                let zen = vstd::bytes::spec_u64_from_le_bytes(zen_amount@.subrange(0, 8));
                &&& zen * exchange_rate > u64::MAX ==> (r matches Err(e) && e == ErrorCode::Overflow)
                &&& zen * exchange_rate <= u64::MAX && contains_id(
                    old(self).records@,
                    computation_id@,
                ) ==> (r matches Err(e) && e == ErrorCode::DuplicateComputation)
                &&& zen * exchange_rate <= u64::MAX && !contains_id(
                    old(self).records@,
                    computation_id@,
                ) ==> (r matches Ok(ev) && {
                    &&& ev.zen_amount_commitment@ == keccak_of(zen_amount@)
                    &&& ev.exchange_rate == exchange_rate
                    &&& ev.slippage_tolerance == slippage_tolerance
                    &&& ev.sol_amount == crate::transforms::spec_swap_result(
                        zen,
                        exchange_rate,
                        slippage_tolerance,
                    )
                    &&& ev.computation_offset == computation_offset
                    &&& ev.timestamp == timestamp
                    &&& spec_queued(
                        old(self).records@,
                        final(self).records@,
                        computation_id,
                        computation_offset,
                        keccak_of(zen_amount@),
                    )
                })
            },
    {
        let swap_input = crate::transforms::SwapCalculation {
            zen_amount: vstd::slice::slice_to_vec(zen_amount.as_slice()),
            exchange_rate,
            slippage_tolerance,
        };
        let sol_amount = match crate::transforms::calculate_swap_amount(&swap_input) {
            Ok(v) => v,
            Err(e) => {
                return Err(map_transform_error(e));
            },
        };
        proof {
            crate::transforms::lemma_swap_result_bounds(
                vstd::bytes::spec_u64_from_le_bytes(zen_amount@.subrange(0, 8)),
                exchange_rate,
                slippage_tolerance,
            );
        }
        let zen_commitment = commitment(zen_amount);
        match self.queue_record(computation_id, computation_offset, zen_commitment) {
            Ok(()) => {},
            Err(e) => {
                return Err(e);
            },
        }
        Ok(
            SwapCalculationQueued {
                zen_amount_commitment: zen_commitment,
                exchange_rate,
                slippage_tolerance,
                sol_amount,
                computation_offset,
                timestamp,
            },
        )
    }

    /// Queue an address encryption: validate the address shape and
    /// emit a commitment in place of the address.
    pub fn encrypt_btc_address(
        &mut self,
        computation_id: [u8; 32],
        computation_offset: u64,
        btc_address: &Vec<u8>,
        recipient_pubkey: [u8; 32],
        timestamp: i64,
    ) -> (r: Result<BtcAddressEncryptionQueued, ErrorCode>)
        requires
            old(self).wf(),
        ensures
            final(self).wf(),
            r is Ok <==> spec_valid_btc_address(btc_address@) && !contains_id(
                old(self).records@,
                computation_id@,
            ),
            r is Err ==> *final(self) == *old(self),
            !spec_valid_btc_address(btc_address@) ==> (r matches Err(e) && e
                == ErrorCode::InvalidBtcAddress),
            spec_valid_btc_address(btc_address@) && contains_id(
                old(self).records@,
                computation_id@,
            ) ==> (r matches Err(e) && e == ErrorCode::DuplicateComputation),
            r matches Ok(ev) ==> {
                &&& ev.recipient@ == recipient_pubkey@
                &&& ev.btc_address_commitment@ == keccak_of(btc_address@)
                &&& ev.computation_offset == computation_offset
                &&& ev.timestamp == timestamp
                &&& spec_queued(
                    old(self).records@,
                    final(self).records@,
                    computation_id,
                    computation_offset,
                    keccak_of(btc_address@),
                )
            },
    {
        if !is_valid_btc_address(btc_address) {
            return Err(ErrorCode::InvalidBtcAddress);
        }
        let digest = commitment(btc_address);
        match self.queue_record(computation_id, computation_offset, digest) {
            Ok(()) => {},
            Err(e) => {
                return Err(e);
            },
        }
        Ok(
            BtcAddressEncryptionQueued {
                recipient: recipient_pubkey,
                btc_address_commitment: digest,
                computation_offset,
                timestamp,
            },
        )
    }
}

/// Map a transform's typed failure onto the coordinator's rejection
/// codes.
fn map_transform_error(e: crate::transforms::TransformError) -> (r: ErrorCode)
    ensures
        e == crate::transforms::TransformError::InvalidAmount ==> r == ErrorCode::InvalidAmount,
        e == crate::transforms::TransformError::InvalidTxHash ==> r == ErrorCode::InvalidTxHash,
        e == crate::transforms::TransformError::InvalidEncryptedPayload ==> r
            == ErrorCode::InvalidEncryptedPayload,
        e == crate::transforms::TransformError::InvalidSwapInputs ==> r
            == ErrorCode::InvalidSwapInputs,
        e == crate::transforms::TransformError::Overflow ==> r == ErrorCode::Overflow,
        e == crate::transforms::TransformError::InvalidAddress ==> r == ErrorCode::InvalidBtcAddress,
{
    match e {
        crate::transforms::TransformError::InvalidAmount => ErrorCode::InvalidAmount,
        crate::transforms::TransformError::InvalidTxHash => ErrorCode::InvalidTxHash,
        crate::transforms::TransformError::InvalidEncryptedPayload => ErrorCode::InvalidEncryptedPayload,
        crate::transforms::TransformError::InvalidSwapInputs => ErrorCode::InvalidSwapInputs,
        crate::transforms::TransformError::Overflow => ErrorCode::Overflow,
        crate::transforms::TransformError::InvalidAddress => ErrorCode::InvalidBtcAddress,
    }
}

/// A chain name normalized for public state: trimmed of blank bytes
/// and raised to canonical upper case.
pub open spec fn spec_norm_chain(chain: Seq<u8>) -> Seq<u8> {
    upper_spec(trim_spec(chain))
}

/// A chain name is acceptable when, after trimming, it is neither
/// empty nor longer than the cap.
pub open spec fn spec_chain_ok(chain: Seq<u8>) -> bool {
    1 <= trim_spec(chain).len() <= MAX_CHAIN_NAME_LEN
}

/// Trim and canonicalize a chain name, rejecting an empty or
/// overlong one.
pub fn normalize_chain(chain: &Vec<u8>) -> (r: Result<Vec<u8>, ErrorCode>)
    ensures
        r is Ok <==> spec_chain_ok(chain@),
        r matches Ok(v) ==> v@ == spec_norm_chain(chain@),
        r matches Err(e) ==> e == ErrorCode::MissingChainInfo,
{
    let trimmed = trim_bytes(chain);
    if trimmed.len() == 0 || trimmed.len() > MAX_CHAIN_NAME_LEN {
        return Err(ErrorCode::MissingChainInfo);
    }
    Ok(to_upper_bytes(&trimmed))
}

/// Compare two 32-byte identifiers.
fn ids_equal(a: &[u8; 32], b: &[u8; 32]) -> (r: bool)
    ensures
        r == (a@ == b@),
{
    let mut i: usize = 0;
    while i < 32
        invariant
            0 <= i <= 32,
            forall|j: int| 0 <= j < i ==> a@[j] == b@[j],
        decreases 32 - i,
    {
        if a[i] != b[i] {
            return false;
        }
        i = i + 1;
    }
    proof {
        assert(a@ =~= b@);
    }
    true
}

/// Public, content-safe record of a queued bridge-amount
/// encryption: chain tags, a commitment, and an offset — never the
/// amount.
#[derive(Clone, Debug)]
pub struct BridgeAmountEncryptionQueued {
    pub user: [u8; 32],
    pub source_chain: Vec<u8>,
    pub dest_chain: Vec<u8>,
    pub amount_commitment: [u8; 32],
    pub computation_offset: u64,
    pub timestamp: i64,
}

/// Public record of a queued transaction verification: commitments
/// in place of the hash and the expected amount.
#[derive(Clone, Debug)]
pub struct BridgeVerificationQueued {
    pub tx_hash_commitment: [u8; 32],
    pub blockchain: Vec<u8>,
    pub expected_amount_commitment: [u8; 32],
    pub computation_offset: u64,
    pub timestamp: i64,
}

/// Public record of a queued swap calculation: a commitment to the
/// confidential source amount beside the public rate terms.
#[derive(Clone, Debug)]
pub struct SwapCalculationQueued {
    pub zen_amount_commitment: [u8; 32],
    pub exchange_rate: u64,
    pub slippage_tolerance: u64,
    pub sol_amount: u64,
    pub computation_offset: u64,
    pub timestamp: i64,
}

/// Public record of a queued address encryption: a commitment in
/// place of the address.
#[derive(Clone, Debug)]
pub struct BtcAddressEncryptionQueued {
    pub recipient: [u8; 32],
    pub btc_address_commitment: [u8; 32],
    pub computation_offset: u64,
    pub timestamp: i64,
}

/// The transforms a computation definition can be registered for.
#[derive(Clone, Copy, Debug, PartialEq, Eq, Structural)]
pub enum TransformKind {
    EncryptBridgeAmount,
    VerifyBridgeTransaction,
    CalculateSwapAmount,
    EncryptBtcAddress,
}

/// Public record of one registered computation definition.
#[derive(Clone, Copy, Debug)]
pub struct ComputationDefinitionInitialized {
    pub name: TransformKind,
    pub authority: [u8; 32],
    pub timestamp: i64,
}

/// Register the bridge-amount encryption transform.
pub fn init_encrypt_bridge_comp_def(authority: [u8; 32], timestamp: i64) -> (e:
    ComputationDefinitionInitialized)
    ensures
        e.name == TransformKind::EncryptBridgeAmount,
        e.authority@ == authority@,
        e.timestamp == timestamp,
{
    ComputationDefinitionInitialized { name: TransformKind::EncryptBridgeAmount, authority, timestamp }
}

/// Register the transaction verification transform.
pub fn init_verify_tx_comp_def(authority: [u8; 32], timestamp: i64) -> (e:
    ComputationDefinitionInitialized)
    ensures
        e.name == TransformKind::VerifyBridgeTransaction,
        e.authority@ == authority@,
        e.timestamp == timestamp,
{
    ComputationDefinitionInitialized {
        name: TransformKind::VerifyBridgeTransaction,
        authority,
        timestamp,
    }
}

/// Register the swap calculation transform.
pub fn init_calculate_swap_comp_def(authority: [u8; 32], timestamp: i64) -> (e:
    ComputationDefinitionInitialized)
    ensures
        e.name == TransformKind::CalculateSwapAmount,
        e.authority@ == authority@,
        e.timestamp == timestamp,
{
    ComputationDefinitionInitialized { name: TransformKind::CalculateSwapAmount, authority, timestamp }
}

/// Register the address encryption transform.
pub fn init_encrypt_btc_comp_def(authority: [u8; 32], timestamp: i64) -> (e:
    ComputationDefinitionInitialized)
    ensures
        e.name == TransformKind::EncryptBtcAddress,
        e.authority@ == authority@,
        e.timestamp == timestamp,
{
    ComputationDefinitionInitialized { name: TransformKind::EncryptBtcAddress, authority, timestamp }
}

/// Callbacks are idempotent: an accepted callback leaves the record
/// terminal, still present under its ID, and the callback handler
/// rejects any further callback for a terminal record without
/// changing it. Together with the handler's contract this rules out
/// a second effective callback for any computation ID ever queued.
pub proof fn lemma_callback_idempotent(
    pre: Seq<ComputationRecord>,
    post: Seq<ComputationRecord>,
    id: Seq<u8>,
    rec: ComputationRecord,
)
    requires
        unique_ids(pre),
        contains_id(pre, id),
        !spec_terminal(spec_status_of(pre, id)),
        rec.computation_id@ == id,
        spec_terminal(rec.status),
        post == pre.update(spec_index_of(pre, id), rec),
    ensures
        unique_ids(post),
        contains_id(post, id),
        spec_terminal(spec_status_of(post, id)),
{
    let i = spec_index_of(pre, id);
    assert(0 <= i < pre.len() && pre[i].computation_id@ == id);
    assert forall|p: int, q: int|
        0 <= p < q < post.len() implies post[p].computation_id@ != post[q].computation_id@ by {
        assert(pre[p].computation_id@ != pre[q].computation_id@);
    }
    assert(post[i].computation_id@ == id);
    lemma_index_of_unique(post, id, i);
}

} // verus!

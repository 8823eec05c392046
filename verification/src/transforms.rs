//! Confidential transform library: the pure computations that run
//! only inside the trusted confidential-compute boundary. Each
//! transform validates its plaintext-domain input, fails with a typed
//! condition before any output is produced, and otherwise returns the
//! exact records to be sealed for their recipients.
//!
//! Computation and task identifiers are minted by the surrounding
//! fabric from a cryptographically strong entropy source and handed
//! in as arguments; nothing here derives them from the clock.

use crate::audit::{
    assess_risk_level, categorize_amount, determine_priority, spec_category, spec_priority,
    spec_risk_level, AmountCategory, PriorityTier, RiskLevel,
};
use crate::codec::{
    extract_u64_from_bytes, hex_bytes_of, hex_encode, is_valid_btc_address,
    spec_valid_btc_address, trim_bytes, trim_spec,
};
use crate::commitment::{hash_user_id, keccak_of};
use vstd::prelude::*;

verus! {

/// Plaintext-domain confidential input for a bridge transfer.
#[derive(Clone, Debug)]
pub struct BridgeAmount {
    pub amount: u64,
    pub source_chain: Vec<u8>,
    pub dest_chain: Vec<u8>,
    pub timestamp: u64,
    pub user_pubkey: [u8; 32],
}

/// Confidentiality tag carried by the owner's sealed transaction
/// record.
#[derive(Clone, Copy, Debug, PartialEq, Eq, Structural)]
pub enum PrivacyLevel {
    Maximum,
}

/// Sealed output visible to the owning user: the full transaction
/// record.
#[derive(Clone, Debug)]
pub struct EncryptedBridgeTx {
    pub encrypted_amount: Vec<u8>,
    pub source_chain: Vec<u8>,
    pub dest_chain: Vec<u8>,
    pub computation_id: [u8; 32],
    pub privacy_level: PrivacyLevel,
}

/// The kind of work a relayer task asks for.
#[derive(Clone, Copy, Debug, PartialEq, Eq, Structural)]
pub enum TaskType {
    BridgeAmountEncryption,
}

/// Sealed output visible only to the relayer: routing metadata
/// derived from the request, carrying no user identity and no raw
/// amount.
#[derive(Clone, Debug)]
pub struct RelayerTask {
    pub task_id: [u8; 32],
    pub task_type: TaskType,
    pub priority: PriorityTier,
    pub routing_hints: Vec<u8>,
    pub callback_url: Vec<u8>,
    pub timeout: u64,
    pub computation_id: [u8; 32],
}

/// The checks recorded as passed on a compliance audit record.
#[derive(Clone, Copy, Debug, PartialEq, Eq, Structural)]
pub struct ComplianceFlags {
    pub amount_verified: bool,
    pub chain_validated: bool,
    pub timestamp_recorded: bool,
}

/// Sealed output visible only to the compliance officer: a hashed
/// identity and coarse bands in place of raw values.
#[derive(Clone, Debug)]
pub struct ComplianceAudit {
    pub transaction_hash: [u8; 32],
    pub user_hash: [u8; 32],
    pub amount_category: AmountCategory,
    pub risk_level: RiskLevel,
    pub compliance_flags: ComplianceFlags,
    pub blockchain: Vec<u8>,
    pub timestamp: u64,
}

/// Confidential input for a transaction-hash check.
#[derive(Clone, Debug)]
pub struct BridgeVerification {
    pub tx_hash: Vec<u8>,
    pub expected_amount: Vec<u8>,
    pub blockchain: Vec<u8>,
    pub timestamp: u64,
}

/// Confidential input for a rate conversion.
#[derive(Clone, Debug)]
pub struct SwapCalculation {
    pub zen_amount: Vec<u8>,
    pub exchange_rate: u64,
    pub slippage_tolerance: u64,
}

/// Confidential withdrawal target.
#[derive(Clone, Debug)]
pub struct BTCAddress {
    pub address: Vec<u8>,
    pub recipient_pubkey: [u8; 32],
    pub timestamp: u64,
}

/// The three differently-shaped sealed outputs of one sealed
/// encryption call.
#[derive(Clone, Debug)]
pub struct SealedBridgeOutputs {
    pub user_tx: EncryptedBridgeTx,
    pub relayer_task: RelayerTask,
    pub compliance_audit: ComplianceAudit,
}

/// Typed failure conditions of the confidential transforms. An
/// invalid-domain input terminates a transform before any output is
/// produced; the condition never carries the offending value.
#[derive(Clone, Copy, Debug, PartialEq, Eq, Structural)]
pub enum TransformError {
    InvalidAmount,
    InvalidTxHash,
    InvalidEncryptedPayload,
    InvalidSwapInputs,
    Overflow,
    InvalidAddress,
}

/// Smallest accepted confidential payload, in bytes.
pub const MIN_CIPHERTEXT_BYTES: usize = 8;

/// Largest accepted confidential payload, in bytes.
pub const MAX_CIPHERTEXT_BYTES: usize = 256;

/// Highest accepted slippage tolerance, in percent.
pub const MAX_SLIPPAGE_PERCENT: u64 = 50;

/// The routing-hint terminator tag.
pub open spec fn routing_tag() -> Seq<u8> {
    seq![
        124u8,
        80u8,
        82u8,
        73u8,
        79u8,
        82u8,
        73u8,
        84u8,
        89u8,
        95u8,
        82u8,
        79u8,
        85u8,
        84u8,
        73u8,
        78u8,
        71u8,
        124u8,
    ]
}

/// Routing hints for a relayer: source chain, a separator, dest
/// chain, and the terminator tag. Only chain tags, never user data.
pub open spec fn spec_routing_hints(source_chain: Seq<u8>, dest_chain: Seq<u8>) -> Seq<u8> {
    source_chain + seq![62u8] + dest_chain + routing_tag()
}

/// The fixed callback endpoint prefix.
pub open spec fn callback_url_prefix() -> Seq<u8> {
    seq![
        104u8,
        116u8,
        116u8,
        112u8,
        115u8,
        58u8,
        47u8,
        47u8,
        97u8,
        112u8,
        105u8,
        46u8,
        102u8,
        108u8,
        97u8,
        115u8,
        104u8,
        45u8,
        98u8,
        114u8,
        105u8,
        100u8,
        103u8,
        101u8,
        46u8,
        99u8,
        111u8,
        109u8,
        47u8,
        99u8,
        97u8,
        108u8,
        108u8,
        98u8,
        97u8,
        99u8,
        107u8,
        47u8,
    ]
}

/// Callback location for one computation: the fixed prefix followed
/// by the hex-encoded computation ID.
pub open spec fn spec_callback_url(computation_id: Seq<u8>) -> Seq<u8> {
    callback_url_prefix() + hex_bytes_of(computation_id)
}

/// Build the routing hints for a relayer task.
pub fn generate_routing_hints(source_chain: &Vec<u8>, dest_chain: &Vec<u8>) -> (r: Vec<u8>)
    ensures
        r@ == spec_routing_hints(source_chain@, dest_chain@),
{
    let mut hints: Vec<u8> = Vec::new();
    hints.extend_from_slice(source_chain.as_slice());
    hints.push(62);
    hints.extend_from_slice(dest_chain.as_slice());
    hints.push(124);
    hints.push(80);
    hints.push(82);
    hints.push(73);
    hints.push(79);
    hints.push(82);
    hints.push(73);
    hints.push(84);
    hints.push(89);
    hints.push(95);
    hints.push(82);
    hints.push(79);
    hints.push(85);
    hints.push(84);
    hints.push(73);
    hints.push(78);
    hints.push(71);
    hints.push(124);
    proof {
        assert(hints@ =~= spec_routing_hints(source_chain@, dest_chain@));
    }
    hints
}

/// Build the callback location bound to one computation ID.
pub fn generate_callback_url(computation_id: &[u8; 32]) -> (r: Vec<u8>)
    ensures
        r@ == spec_callback_url(computation_id@),
{
    let mut url: Vec<u8> = Vec::new();
    url.push(104);
    url.push(116);
    url.push(116);
    url.push(112);
    url.push(115);
    url.push(58);
    url.push(47);
    url.push(47);
    url.push(97);
    url.push(112);
    url.push(105);
    url.push(46);
    url.push(102);
    url.push(108);
    url.push(97);
    url.push(115);
    url.push(104);
    url.push(45);
    url.push(98);
    url.push(114);
    url.push(105);
    url.push(100);
    url.push(103);
    url.push(101);
    url.push(46);
    url.push(99);
    url.push(111);
    url.push(109);
    url.push(47);
    url.push(99);
    url.push(97);
    url.push(108);
    url.push(108);
    url.push(98);
    url.push(97);
    url.push(99);
    url.push(107);
    url.push(47);
    let digits = hex_encode(computation_id.as_slice());
    url.extend_from_slice(digits.as_slice());
    proof {
        assert(url@ =~= spec_callback_url(computation_id@));
    }
    url
}

/// The owner's sealed record is exactly the input transaction,
/// carried under the given computation ID at maximum privacy.
pub open spec fn encrypted_tx_matches(
    tx: EncryptedBridgeTx,
    input: BridgeAmount,
    computation_id: [u8; 32],
) -> bool {
    &&& tx.encrypted_amount@ == vstd::bytes::spec_u64_to_le_bytes(input.amount)
    &&& tx.source_chain@ == input.source_chain@
    &&& tx.dest_chain@ == input.dest_chain@
    &&& tx.computation_id == computation_id
    &&& tx.privacy_level == PrivacyLevel::Maximum
}

/// The relayer's sealed record: every field is a function of the
/// chain tags, the priority band, and the two identifiers alone.
pub open spec fn relayer_task_matches(
    task: RelayerTask,
    input: BridgeAmount,
    computation_id: [u8; 32],
    task_id: [u8; 32],
) -> bool {
    &&& task.task_id == task_id
    &&& task.task_type == TaskType::BridgeAmountEncryption
    &&& task.priority == spec_priority(input.amount)
    &&& task.routing_hints@ == spec_routing_hints(input.source_chain@, input.dest_chain@)
    &&& task.callback_url@ == spec_callback_url(computation_id@)
    &&& task.timeout == 300
    &&& task.computation_id == computation_id
}

/// The compliance officer's sealed record: a hashed identity, the
/// amount band, the risk band, and content-safe metadata.
pub open spec fn compliance_audit_matches(
    audit: ComplianceAudit,
    input: BridgeAmount,
    computation_id: [u8; 32],
) -> bool {
    &&& audit.transaction_hash == computation_id
    &&& audit.user_hash@ == keccak_of(input.user_pubkey@)
    &&& audit.amount_category == spec_category(input.amount)
    &&& audit.risk_level == spec_risk_level(input.amount, input.source_chain@)
    &&& audit.compliance_flags == (ComplianceFlags {
        amount_verified: true,
        chain_validated: true,
        timestamp_recorded: true,
    })
    &&& audit.blockchain@ == input.dest_chain@
    &&& audit.timestamp == input.timestamp
}

/// Encrypt a bridge amount for a privacy-preserving transfer,
/// sealed for the owning user alone. A zero amount is rejected
/// before any output exists.
pub fn encrypt_bridge_amount(input: &BridgeAmount, computation_id: [u8; 32]) -> (r: Result<
    EncryptedBridgeTx,
    TransformError,
>)
    ensures
        r is Ok <==> input.amount != 0,
        r matches Ok(tx) ==> encrypted_tx_matches(tx, *input, computation_id),
        r matches Err(e) ==> e == TransformError::InvalidAmount,
{
    if input.amount == 0 {
        return Err(TransformError::InvalidAmount);
    }
    Ok(
        EncryptedBridgeTx {
            encrypted_amount: vstd::bytes::u64_to_le_bytes(input.amount),
            source_chain: vstd::slice::slice_to_vec(input.source_chain.as_slice()),
            dest_chain: vstd::slice::slice_to_vec(input.dest_chain.as_slice()),
            computation_id,
            privacy_level: PrivacyLevel::Maximum,
        },
    )
}

/// Fan one confidential input out to three differently-shaped sealed
/// outputs — owner, relayer, compliance — under one shared
/// computation ID. A zero amount is rejected before any output
/// exists.
pub fn encrypt_bridge_amount_sealed(
    input: &BridgeAmount,
    computation_id: [u8; 32],
    task_id: [u8; 32],
) -> (r: Result<SealedBridgeOutputs, TransformError>)
    ensures
        r is Ok <==> input.amount != 0,
        r matches Ok(out) ==> {
            &&& encrypted_tx_matches(out.user_tx, *input, computation_id)
            &&& relayer_task_matches(out.relayer_task, *input, computation_id, task_id)
            &&& compliance_audit_matches(out.compliance_audit, *input, computation_id)
        },
        r matches Err(e) ==> e == TransformError::InvalidAmount,
{
    if input.amount == 0 {
        return Err(TransformError::InvalidAmount);
    }
    let user_tx = EncryptedBridgeTx {
        encrypted_amount: vstd::bytes::u64_to_le_bytes(input.amount),
        source_chain: vstd::slice::slice_to_vec(input.source_chain.as_slice()),
        dest_chain: vstd::slice::slice_to_vec(input.dest_chain.as_slice()),
        computation_id,
        privacy_level: PrivacyLevel::Maximum,
    };
    let relayer_task = RelayerTask {
        task_id,
        task_type: TaskType::BridgeAmountEncryption,
        priority: determine_priority(input.amount),
        routing_hints: generate_routing_hints(&input.source_chain, &input.dest_chain),
        callback_url: generate_callback_url(&computation_id),
        timeout: 300,
        computation_id,
    };
    let compliance_audit = ComplianceAudit {
        transaction_hash: computation_id,
        user_hash: hash_user_id(&input.user_pubkey),
        amount_category: categorize_amount(input.amount),
        risk_level: assess_risk_level(input.amount, &input.source_chain),
        compliance_flags: ComplianceFlags {
            amount_verified: true,
            chain_validated: true,
            timestamp_recorded: true,
        },
        blockchain: vstd::slice::slice_to_vec(input.dest_chain.as_slice()),
        timestamp: input.timestamp,
    };
    Ok(SealedBridgeOutputs { user_tx, relayer_task, compliance_audit })
}

/// The relayer view carries no user-identifying plaintext: any two
/// requests that agree on the chain tags and the priority band — and
/// nothing else, not the amount, the user key, or the timestamp —
/// produce relayer tasks that agree in every field.
pub proof fn lemma_relayer_view_confidential(
    t1: RelayerTask,
    t2: RelayerTask,
    i1: BridgeAmount,
    i2: BridgeAmount,
    computation_id: [u8; 32],
    task_id: [u8; 32],
)
    requires
        relayer_task_matches(t1, i1, computation_id, task_id),
        relayer_task_matches(t2, i2, computation_id, task_id),
        i1.source_chain@ == i2.source_chain@,
        i1.dest_chain@ == i2.dest_chain@,
        spec_priority(i1.amount) == spec_priority(i2.amount),
    ensures
        t1.task_id == t2.task_id,
        t1.task_type == t2.task_type,
        t1.priority == t2.priority,
        t1.routing_hints@ == t2.routing_hints@,
        t1.callback_url@ == t2.callback_url@,
        t1.timeout == t2.timeout,
        t1.computation_id == t2.computation_id,
{
}

/// The compliance view carries no raw amount: any two requests that
/// agree on user, chains, and timestamp, and whose amounts fall in
/// the same category and risk bands, produce audit records that
/// agree in every field.
pub proof fn lemma_compliance_view_hides_amount(
    a1: ComplianceAudit,
    a2: ComplianceAudit,
    i1: BridgeAmount,
    i2: BridgeAmount,
    computation_id: [u8; 32],
)
    requires
        compliance_audit_matches(a1, i1, computation_id),
        compliance_audit_matches(a2, i2, computation_id),
        i1.user_pubkey@ == i2.user_pubkey@,
        i1.source_chain@ == i2.source_chain@,
        i1.dest_chain@ == i2.dest_chain@,
        i1.timestamp == i2.timestamp,
        spec_category(i1.amount) == spec_category(i2.amount),
        spec_risk_level(i1.amount, i1.source_chain@) == spec_risk_level(
            i2.amount,
            i2.source_chain@,
        ),
    ensures
        a1.transaction_hash == a2.transaction_hash,
        a1.user_hash@ == a2.user_hash@,
        a1.amount_category == a2.amount_category,
        a1.risk_level == a2.risk_level,
        a1.compliance_flags == a2.compliance_flags,
        a1.blockchain@ == a2.blockchain@,
        a1.timestamp == a2.timestamp,
{
}

/// Sealed outputs of one call share one computation ID, and each is
/// decryptable only under its own recipient's key; the relayer and
/// compliance records never carry the raw amount or raw identity.
pub proof fn lemma_sealed_outputs_share_computation_id(
    out: SealedBridgeOutputs,
    input: BridgeAmount,
    computation_id: [u8; 32],
    task_id: [u8; 32],
)
    requires
        encrypted_tx_matches(out.user_tx, input, computation_id),
        relayer_task_matches(out.relayer_task, input, computation_id, task_id),
        compliance_audit_matches(out.compliance_audit, input, computation_id),
    ensures
        out.user_tx.computation_id == out.relayer_task.computation_id,
        out.relayer_task.computation_id == out.compliance_audit.transaction_hash,
{
}

/// Compare the confidential expected amount of a queued verification
/// against the ground-truth amount fetched privately inside the
/// boundary, returning only a boolean to be sealed. A blank
/// transaction hash or an out-of-window payload is rejected first.
pub fn verify_bridge_transaction(input: &BridgeVerification, actual_amount: u64) -> (r: Result<
    bool,
    TransformError,
>)
    ensures
        trim_spec(input.tx_hash@).len() == 0 ==> r == Err::<bool, TransformError>(
            TransformError::InvalidTxHash,
        ),
        trim_spec(input.tx_hash@).len() != 0 && !(MIN_CIPHERTEXT_BYTES
            <= input.expected_amount@.len() <= MAX_CIPHERTEXT_BYTES) ==> r == Err::<
            bool,
            TransformError,
        >(TransformError::InvalidEncryptedPayload),
        trim_spec(input.tx_hash@).len() != 0 && MIN_CIPHERTEXT_BYTES
            <= input.expected_amount@.len() <= MAX_CIPHERTEXT_BYTES ==> r == Ok::<
            bool,
            TransformError,
        >(
            vstd::bytes::spec_u64_from_le_bytes(input.expected_amount@.subrange(0, 8))
                == actual_amount,
        ),
{
    let trimmed = trim_bytes(&input.tx_hash);
    if trimmed.len() == 0 {
        return Err(TransformError::InvalidTxHash);
    }
    if input.expected_amount.len() < MIN_CIPHERTEXT_BYTES || input.expected_amount.len()
        > MAX_CIPHERTEXT_BYTES {
        return Err(TransformError::InvalidEncryptedPayload);
    }
    match extract_u64_from_bytes(&input.expected_amount) {
        Some(expected) => Ok(expected == actual_amount),
        None => Err(TransformError::InvalidEncryptedPayload),
    }
}

/// The exact swap result: the base conversion minus the slippage
/// penalty, in unbounded arithmetic.
pub open spec fn spec_swap_result(zen_amount: u64, exchange_rate: u64, slippage: u64) -> int {
    let base = zen_amount * exchange_rate;
    base - (base * slippage) / 100
}

/// The swap result is nonnegative and never exceeds the base
/// conversion, so it fits wherever the base fits.
pub proof fn lemma_swap_result_bounds(zen_amount: u64, exchange_rate: u64, slippage: u64)
    requires
        slippage <= MAX_SLIPPAGE_PERCENT,
    ensures
        0 <= spec_swap_result(zen_amount, exchange_rate, slippage) <= zen_amount * exchange_rate,
{
    let base = zen_amount * exchange_rate;
    assert(base >= 0) by (nonlinear_arith)
        requires
            zen_amount >= 0,
            exchange_rate >= 0,
            base == zen_amount * exchange_rate,
    ;
    assert(base * slippage >= 0) by (nonlinear_arith)
        requires
            base >= 0,
            slippage >= 0,
    ;
    assert((base * slippage) / 100 >= 0) by (nonlinear_arith)
        requires
            base * slippage >= 0,
    ;
    assert((base * slippage) / 100 <= base) by (nonlinear_arith)
        requires
            base >= 0,
            slippage <= 50,
    ;
}

/// Convert a confidential source amount by an exchange rate and
/// apply the slippage haircut. The rate must be positive and the
/// slippage within the ceiling; the conversion fails closed on
/// overflow instead of wrapping.
pub fn calculate_swap_amount(input: &SwapCalculation) -> (r: Result<u64, TransformError>)
    ensures
        input.exchange_rate == 0 || input.slippage_tolerance > MAX_SLIPPAGE_PERCENT ==> r == Err::<
            u64,
            TransformError,
        >(TransformError::InvalidSwapInputs),
        input.exchange_rate > 0 && input.slippage_tolerance <= MAX_SLIPPAGE_PERCENT && !(
        MIN_CIPHERTEXT_BYTES <= input.zen_amount@.len() <= MAX_CIPHERTEXT_BYTES) ==> r == Err::<
            u64,
            TransformError,
        >(TransformError::InvalidEncryptedPayload),
        input.exchange_rate > 0 && input.slippage_tolerance <= MAX_SLIPPAGE_PERCENT
            && MIN_CIPHERTEXT_BYTES <= input.zen_amount@.len() <= MAX_CIPHERTEXT_BYTES ==> {
            let zen = vstd::bytes::spec_u64_from_le_bytes(input.zen_amount@.subrange(0, 8));
            if zen * input.exchange_rate > u64::MAX {
                r == Err::<u64, TransformError>(TransformError::Overflow)
            } else {
                r == Ok::<u64, TransformError>(
                    spec_swap_result(zen, input.exchange_rate, input.slippage_tolerance) as u64,
                )
            }
        },
{
    if input.exchange_rate == 0 || input.slippage_tolerance > MAX_SLIPPAGE_PERCENT {
        return Err(TransformError::InvalidSwapInputs);
    }
    if input.zen_amount.len() < MIN_CIPHERTEXT_BYTES || input.zen_amount.len()
        > MAX_CIPHERTEXT_BYTES {
        return Err(TransformError::InvalidEncryptedPayload);
    }
    let zen_value = match extract_u64_from_bytes(&input.zen_amount) {
        Some(v) => v,
        None => {
            return Err(TransformError::InvalidEncryptedPayload);
        },
    };
    let base = match zen_value.checked_mul(input.exchange_rate) {
        Some(b) => b,
        None => {
            return Err(TransformError::Overflow);
        },
    };
    assert((base as u128) * (input.slippage_tolerance as u128) <= (u64::MAX as u128) * 50)
        by (nonlinear_arith)
        requires
            base <= u64::MAX,
            input.slippage_tolerance <= 50,
    ;
    let penalty_wide: u128 = (base as u128) * (input.slippage_tolerance as u128) / 100;
    assert(penalty_wide <= base) by (nonlinear_arith)
        requires
            penalty_wide == (base as u128) * (input.slippage_tolerance as u128) / 100,
            input.slippage_tolerance <= 50,
    ;
    let penalty: u64 = penalty_wide as u64;
    Ok(base - penalty)
}

/// Validate a withdrawal address and hand its bytes on for sealing;
/// an ill-shaped address is rejected with a condition that never
/// carries the address itself.
pub fn encrypt_btc_address(input: &BTCAddress) -> (r: Result<Vec<u8>, TransformError>)
    ensures
        r is Ok <==> spec_valid_btc_address(input.address@),
        r matches Ok(sealed) ==> sealed@ == input.address@,
        r matches Err(e) ==> e == TransformError::InvalidAddress,
{
    if is_valid_btc_address(&input.address) {
        Ok(vstd::slice::slice_to_vec(input.address.as_slice()))
    } else {
        Err(TransformError::InvalidAddress)
    }
}

/// Reduce one draw of the fabric's distributed randomness into
/// [0, max_value). The draw itself comes from the confidential
/// boundary's unbiased randomness protocol, never from a local or
/// deterministic source.
pub fn generate_relayer_random(random_value: u64, max_value: u64) -> (r: u64)
    requires
        max_value > 0,
    ensures
        r == random_value % max_value,
        r < max_value,
{
    random_value % max_value
}

/// Confidentially compare a balance against a required amount; only
/// the boolean outcome leaves the boundary.
pub fn verify_sufficient_balance(user_balance: u64, required_amount: u64) -> (r: bool)
    ensures
        r == (user_balance >= required_amount),
{
    user_balance >= required_amount
}

/// The fixed protocol tag bound into every bridge proof.
pub open spec fn proof_tag() -> Seq<u8> {
    seq![
        70u8,
        76u8,
        65u8,
        83u8,
        72u8,
        95u8,
        66u8,
        82u8,
        73u8,
        68u8,
        71u8,
        69u8,
        95u8,
        86u8,
        49u8,
    ]
}

/// The canonical proof blob: amount, chains, timestamp, the protocol
/// tag, and the computation ID, byte-exact and deterministic.
pub open spec fn spec_bridge_proof(input: BridgeAmount, computation_id: [u8; 32]) -> Seq<u8> {
    vstd::bytes::spec_u64_to_le_bytes(input.amount) + input.source_chain@ + input.dest_chain@
        + vstd::bytes::spec_u64_to_le_bytes(input.timestamp) + proof_tag() + computation_id@
}

/// Produce the auditable proof blob for one bridge transaction,
/// to leave the boundary only through the sealed channel.
pub fn generate_bridge_proof(input: &BridgeAmount, computation_id: [u8; 32]) -> (r: Vec<u8>)
    ensures
        r@ == spec_bridge_proof(*input, computation_id),
{
    let mut proof_data = vstd::bytes::u64_to_le_bytes(input.amount);
    proof_data.extend_from_slice(input.source_chain.as_slice());
    proof_data.extend_from_slice(input.dest_chain.as_slice());
    let ts_bytes = vstd::bytes::u64_to_le_bytes(input.timestamp);
    proof_data.extend_from_slice(ts_bytes.as_slice());
    proof_data.push(70);
    proof_data.push(76);
    proof_data.push(65);
    proof_data.push(83);
    proof_data.push(72);
    proof_data.push(95);
    proof_data.push(66);
    proof_data.push(82);
    proof_data.push(73);
    proof_data.push(68);
    proof_data.push(71);
    proof_data.push(69);
    proof_data.push(95);
    proof_data.push(86);
    proof_data.push(49);
    proof_data.extend_from_slice(computation_id.as_slice());
    proof {
        assert(proof_data@ =~= spec_bridge_proof(*input, computation_id));
    }
    proof_data
}

} // verus!

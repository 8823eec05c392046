use flash_bridge::audit::{
    assess_risk_level, categorize_amount, determine_priority, AmountCategory, PriorityTier,
    RiskLevel,
};
use flash_bridge::codec::{extract_u64_from_bytes, is_valid_btc_address, trim_bytes};
use flash_bridge::commitment::{commit_bridge_amount, commitment, hash_user_id};
use flash_bridge::transforms::{
    calculate_swap_amount, encrypt_bridge_amount, encrypt_bridge_amount_sealed,
    encrypt_btc_address, generate_bridge_proof, generate_callback_url, generate_relayer_random,
    generate_routing_hints, verify_bridge_transaction, verify_sufficient_balance, BTCAddress,
    BridgeAmount, BridgeVerification, PrivacyLevel, SwapCalculation, TaskType, TransformError,
};

fn sample_bridge_amount(amount: u64) -> BridgeAmount {
    BridgeAmount {
        amount,
        source_chain: b"ETH".to_vec(),
        dest_chain: b"SOL".to_vec(),
        timestamp: 1_700_000_000,
        user_pubkey: [7u8; 32],
    }
}

#[test]
fn commitment_is_deterministic() {
    let buf = b"confidential bridge payload".to_vec();
    let again = b"confidential bridge payload".to_vec();
    assert_eq!(commitment(&buf), commitment(&again));
}

#[test]
fn commitment_differs_on_single_byte_change() {
    let buf = b"confidential bridge payload".to_vec();
    let mut tweaked = buf.clone();
    tweaked[0] ^= 1;
    assert_ne!(commitment(&buf), commitment(&tweaked));
}

#[test]
fn commitment_matches_keccak256_vectors() {
    let empty_digest = hex::decode("c5d2460186f7233c927e7db2dcc703c0e500b653ca82273b7bfad8045d85a470")
        .unwrap();
    assert_eq!(commitment(&Vec::new()).to_vec(), empty_digest);
    let abc_digest = hex::decode("4e03657aea45a94fc7d47ba826c8d667c0d1e6e33a64a036ec44f58fa12d6c45")
        .unwrap();
    assert_eq!(commitment(&b"abc".to_vec()).to_vec(), abc_digest);
}

#[test]
fn composite_commitment_binds_every_field() {
    let source = b"BTC".to_vec();
    let dest = b"SOL".to_vec();
    let user = [9u8; 32];
    let base = commit_bridge_amount(1000, &source, &dest, &user);
    assert_ne!(base, commit_bridge_amount(1001, &source, &dest, &user));
    assert_ne!(base, commit_bridge_amount(1000, &b"ZEC".to_vec(), &dest, &user));
    assert_ne!(base, commit_bridge_amount(1000, &source, &b"ETH".to_vec(), &user));
    assert_ne!(base, commit_bridge_amount(1000, &source, &dest, &[8u8; 32]));
    assert_eq!(base, commit_bridge_amount(1000, &source, &dest, &user));
}

#[test]
fn swap_amount_worked_example() {
    let input = SwapCalculation {
        zen_amount: 1000u64.to_le_bytes().to_vec(),
        exchange_rate: 5,
        slippage_tolerance: 10,
    };
    // base 5000, penalty 500, result 4500
    assert_eq!(calculate_swap_amount(&input), Ok(4500));
}

#[test]
fn swap_amount_rejects_slippage_above_ceiling() {
    for (amount, rate) in [(1000u64, 5u64), (1u64, 1u64), (u64::MAX, 3u64)] {
        let input = SwapCalculation {
            zen_amount: amount.to_le_bytes().to_vec(),
            exchange_rate: rate,
            slippage_tolerance: 51,
        };
        assert_eq!(calculate_swap_amount(&input), Err(TransformError::InvalidSwapInputs));
    }
}

#[test]
fn swap_amount_accepts_slippage_at_ceiling() {
    let input = SwapCalculation {
        zen_amount: 1000u64.to_le_bytes().to_vec(),
        exchange_rate: 4,
        slippage_tolerance: 50,
    };
    assert_eq!(calculate_swap_amount(&input), Ok(2000));
}

#[test]
fn swap_amount_rejects_zero_rate() {
    let input = SwapCalculation {
        zen_amount: 1000u64.to_le_bytes().to_vec(),
        exchange_rate: 0,
        slippage_tolerance: 10,
    };
    assert_eq!(calculate_swap_amount(&input), Err(TransformError::InvalidSwapInputs));
}

#[test]
fn swap_amount_fails_closed_on_overflow() {
    let input = SwapCalculation {
        zen_amount: u64::MAX.to_le_bytes().to_vec(),
        exchange_rate: 2,
        slippage_tolerance: 10,
    };
    assert_eq!(calculate_swap_amount(&input), Err(TransformError::Overflow));
}

#[test]
fn swap_amount_rejects_payload_outside_window() {
    let short = SwapCalculation {
        zen_amount: vec![1u8; 7],
        exchange_rate: 5,
        slippage_tolerance: 10,
    };
    assert_eq!(calculate_swap_amount(&short), Err(TransformError::InvalidEncryptedPayload));
    let long = SwapCalculation {
        zen_amount: vec![1u8; 257],
        exchange_rate: 5,
        slippage_tolerance: 10,
    };
    assert_eq!(calculate_swap_amount(&long), Err(TransformError::InvalidEncryptedPayload));
}

#[test]
fn btc_address_length_and_whitespace_rules() {
    let good = BTCAddress {
        address: b"1BoatSLRHtKNngkdXEeobR76b53LETtpyT".to_vec(),
        recipient_pubkey: [3u8; 32],
        timestamp: 0,
    };
    assert_eq!(good.address.len(), 34);
    let sealed = encrypt_btc_address(&good).unwrap();
    assert_eq!(sealed, good.address);

    let short = BTCAddress { address: b"1BoatSLRHt".to_vec(), recipient_pubkey: [3u8; 32], timestamp: 0 };
    assert_eq!(encrypt_btc_address(&short), Err(TransformError::InvalidAddress));

    let spaced = BTCAddress {
        address: b"1BoatSLRHtKNngkdXEeobR76b53LET pyT".to_vec(),
        recipient_pubkey: [3u8; 32],
        timestamp: 0,
    };
    assert_eq!(encrypt_btc_address(&spaced), Err(TransformError::InvalidAddress));
}

#[test]
fn amount_category_boundaries() {
    assert_eq!(categorize_amount(9_999), AmountCategory::Small);
    assert_eq!(categorize_amount(10_000), AmountCategory::Medium);
    assert_eq!(categorize_amount(99_999), AmountCategory::Medium);
    assert_eq!(categorize_amount(100_000), AmountCategory::Large);
    assert_eq!(categorize_amount(999_999), AmountCategory::Large);
    assert_eq!(categorize_amount(1_000_000), AmountCategory::Xlarge);
}

#[test]
fn risk_level_additive_scoring() {
    // amount risk 3 + chain risk 2 = 5 -> high
    assert_eq!(assess_risk_level(600_000, &b"ETH".to_vec()), RiskLevel::High);
    // amount risk 1 + chain risk 1 = 2 -> low
    assert_eq!(assess_risk_level(40_000, &b"BTC".to_vec()), RiskLevel::Low);
    // amount risk 2 + chain risk 1 = 3 -> medium
    assert_eq!(assess_risk_level(60_000, &b"BTC".to_vec()), RiskLevel::Medium);
    // amount risk 1 + chain risk 2 = 3 -> medium
    assert_eq!(assess_risk_level(50_000, &b"SOL".to_vec()), RiskLevel::Medium);
}

#[test]
fn priority_tier_banding() {
    assert_eq!(determine_priority(1_000_001), PriorityTier::High);
    assert_eq!(determine_priority(1_000_000), PriorityTier::Standard);
    assert_eq!(determine_priority(100_001), PriorityTier::Standard);
    assert_eq!(determine_priority(100_000), PriorityTier::Low);
    assert_eq!(determine_priority(0), PriorityTier::Low);
}

#[test]
fn encrypt_bridge_amount_rejects_zero() {
    let input = sample_bridge_amount(0);
    assert!(matches!(
        encrypt_bridge_amount(&input, [1u8; 32]),
        Err(TransformError::InvalidAmount)
    ));
}

#[test]
fn encrypt_bridge_amount_produces_owner_record() {
    let input = sample_bridge_amount(123_456);
    let tx = encrypt_bridge_amount(&input, [1u8; 32]).unwrap();
    assert_eq!(tx.encrypted_amount, 123_456u64.to_le_bytes().to_vec());
    assert_eq!(tx.source_chain, b"ETH".to_vec());
    assert_eq!(tx.dest_chain, b"SOL".to_vec());
    assert_eq!(tx.computation_id, [1u8; 32]);
    assert!(matches!(tx.privacy_level, PrivacyLevel::Maximum));
}

#[test]
fn sealed_outputs_share_one_computation_id() {
    let input = sample_bridge_amount(600_000);
    let cid = [1u8; 32];
    let tid = [2u8; 32];
    let outputs = encrypt_bridge_amount_sealed(&input, cid, tid).unwrap();
    assert_eq!(outputs.user_tx.computation_id, cid);
    assert_eq!(outputs.relayer_task.computation_id, cid);
    assert_eq!(outputs.compliance_audit.transaction_hash, cid);
    assert_eq!(outputs.relayer_task.task_id, tid);
}

#[test]
fn sealed_relayer_output_carries_no_user_plaintext() {
    let input = sample_bridge_amount(600_000);
    let cid = [1u8; 32];
    let outputs = encrypt_bridge_amount_sealed(&input, cid, [2u8; 32]).unwrap();
    let task = outputs.relayer_task;
    assert!(matches!(task.task_type, TaskType::BridgeAmountEncryption));
    assert_eq!(task.priority, PriorityTier::Standard);
    assert_eq!(task.routing_hints, b"ETH>SOL|PRIORITY_ROUTING|".to_vec());
    let expected_url = {
        let mut url = b"https://api.flash-bridge.com/callback/".to_vec();
        url.extend_from_slice(hex::encode(cid).as_bytes());
        url
    };
    assert_eq!(task.callback_url, expected_url);
    assert_eq!(task.timeout, 300);
}

#[test]
fn sealed_compliance_output_carries_only_bands() {
    let input = sample_bridge_amount(600_000);
    let outputs = encrypt_bridge_amount_sealed(&input, [1u8; 32], [2u8; 32]).unwrap();
    let audit = outputs.compliance_audit;
    assert_ne!(audit.user_hash, input.user_pubkey);
    assert_eq!(audit.user_hash, hash_user_id(&input.user_pubkey));
    assert_eq!(audit.amount_category, AmountCategory::Large);
    assert_eq!(audit.risk_level, RiskLevel::High);
    assert!(audit.compliance_flags.amount_verified);
    assert!(audit.compliance_flags.chain_validated);
    assert!(audit.compliance_flags.timestamp_recorded);
    assert_eq!(audit.blockchain, b"SOL".to_vec());
    assert_eq!(audit.timestamp, 1_700_000_000);
}

#[test]
fn sealed_rejects_zero_amount() {
    let input = sample_bridge_amount(0);
    assert!(matches!(
        encrypt_bridge_amount_sealed(&input, [1u8; 32], [2u8; 32]),
        Err(TransformError::InvalidAmount)
    ));
}

#[test]
fn verification_compares_against_ground_truth() {
    let input = BridgeVerification {
        tx_hash: b"deadbeef".to_vec(),
        expected_amount: 5000u64.to_le_bytes().to_vec(),
        blockchain: b"BTC".to_vec(),
        timestamp: 0,
    };
    assert_eq!(verify_bridge_transaction(&input, 5000), Ok(true));
    assert_eq!(verify_bridge_transaction(&input, 5001), Ok(false));
}

#[test]
fn verification_rejects_blank_hash_and_bad_payload() {
    let blank = BridgeVerification {
        tx_hash: b"   ".to_vec(),
        expected_amount: 5000u64.to_le_bytes().to_vec(),
        blockchain: b"BTC".to_vec(),
        timestamp: 0,
    };
    assert_eq!(verify_bridge_transaction(&blank, 5000), Err(TransformError::InvalidTxHash));
    let short = BridgeVerification {
        tx_hash: b"deadbeef".to_vec(),
        expected_amount: vec![0u8; 7],
        blockchain: b"BTC".to_vec(),
        timestamp: 0,
    };
    assert_eq!(
        verify_bridge_transaction(&short, 5000),
        Err(TransformError::InvalidEncryptedPayload)
    );
}

#[test]
fn relayer_random_reduced_into_range() {
    assert_eq!(generate_relayer_random(17, 5), 2);
    assert_eq!(generate_relayer_random(4, 5), 4);
    let r = generate_relayer_random(u64::MAX, 7);
    assert!(r < 7);
}

#[test]
fn balance_check_compares_exactly() {
    assert!(verify_sufficient_balance(100, 100));
    assert!(verify_sufficient_balance(101, 100));
    assert!(!verify_sufficient_balance(99, 100));
}

#[test]
fn bridge_proof_layout_is_canonical() {
    let input = sample_bridge_amount(42);
    let cid = [5u8; 32];
    let blob = generate_bridge_proof(&input, cid);
    let mut expected = Vec::new();
    expected.extend_from_slice(&42u64.to_le_bytes());
    expected.extend_from_slice(b"ETH");
    expected.extend_from_slice(b"SOL");
    expected.extend_from_slice(&1_700_000_000u64.to_le_bytes());
    expected.extend_from_slice(b"FLASH_BRIDGE_V1");
    expected.extend_from_slice(&cid);
    assert_eq!(blob, expected);
}

#[test]
fn routing_hints_hold_only_chain_tags() {
    let hints = generate_routing_hints(&b"ZEC".to_vec(), &b"SOL".to_vec());
    assert_eq!(hints, b"ZEC>SOL|PRIORITY_ROUTING|".to_vec());
}

#[test]
fn callback_url_is_prefix_plus_hex_id() {
    let mut id = [0u8; 32];
    for (i, b) in id.iter_mut().enumerate() {
        *b = i as u8;
    }
    let url = generate_callback_url(&id);
    let expected = format!(
        "https://api.flash-bridge.com/callback/{}",
        "000102030405060708090a0b0c0d0e0f101112131415161718191a1b1c1d1e1f"
    );
    assert_eq!(url, expected.as_bytes().to_vec());
}

#[test]
fn u64_extraction_reads_first_eight_bytes() {
    assert_eq!(extract_u64_from_bytes(&vec![1, 2, 3]), None);
    let mut bytes = 9_876_543_210u64.to_le_bytes().to_vec();
    bytes.extend_from_slice(&[0xffu8; 8]);
    assert_eq!(extract_u64_from_bytes(&bytes), Some(9_876_543_210));
}

#[test]
fn trimming_strips_blank_edges_only() {
    assert_eq!(trim_bytes(&b"  btc\t\n".to_vec()), b"btc".to_vec());
    assert_eq!(trim_bytes(&b"a b".to_vec()), b"a b".to_vec());
    assert_eq!(trim_bytes(&b" \t ".to_vec()), Vec::<u8>::new());
}

#[test]
fn address_validator_bounds() {
    assert!(is_valid_btc_address(&vec![b'x'; 26]));
    assert!(is_valid_btc_address(&vec![b'x'; 62]));
    assert!(!is_valid_btc_address(&vec![b'x'; 25]));
    assert!(!is_valid_btc_address(&vec![b'x'; 63]));
}

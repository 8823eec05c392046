//! Coarse classification of confidential amounts for the relayer and
//! compliance views: priority tiers, amount categories, and additive
//! risk scoring. Each view sees only the band an amount falls in,
//! never the amount itself.

use vstd::prelude::*;

verus! {

/// Relayer-visible priority tier, derived from the amount by
/// threshold banding.
#[derive(Clone, Copy, Debug, PartialEq, Eq, Structural)]
pub enum PriorityTier {
    Low,
    Standard,
    High,
}

/// Compliance-visible coarse amount band; audit records carry this
/// in place of the raw amount.
#[derive(Clone, Copy, Debug, PartialEq, Eq, Structural)]
pub enum AmountCategory {
    Small,
    Medium,
    Large,
    Xlarge,
}

/// Compliance-visible risk tier from the additive amount and chain
/// scores.
#[derive(Clone, Copy, Debug, PartialEq, Eq, Structural)]
pub enum RiskLevel {
    Low,
    Medium,
    High,
}

/// The designated low-risk source chain tag.
pub open spec fn btc_tag() -> Seq<u8> {
    seq![66u8, 84u8, 67u8]
}

/// Priority banding: above 1,000,000 is high, above 100,000 is
/// standard, the rest is low.
pub open spec fn spec_priority(amount: u64) -> PriorityTier {
    if amount > 1_000_000 {
        PriorityTier::High
    } else if amount > 100_000 {
        PriorityTier::Standard
    } else {
        PriorityTier::Low
    }
}

/// Amount banding with half-open boundaries, lower bound inclusive:
/// below 10,000 small, below 100,000 medium, below 1,000,000 large,
/// the rest xlarge.
pub open spec fn spec_category(amount: u64) -> AmountCategory {
    if amount < 10_000 {
        AmountCategory::Small
    } else if amount < 100_000 {
        AmountCategory::Medium
    } else if amount < 1_000_000 {
        AmountCategory::Large
    } else {
        AmountCategory::Xlarge
    }
}

/// Amount contribution to the risk score: 3 above 500,000, 2 above
/// 50,000, 1 otherwise.
pub open spec fn spec_amount_risk(amount: u64) -> int {
    if amount > 500_000 {
        3
    } else if amount > 50_000 {
        2
    } else {
        1
    }
}

/// Chain contribution to the risk score: 1 for the designated
/// low-risk chain, 2 for every other chain.
pub open spec fn spec_chain_risk(source_chain: Seq<u8>) -> int {
    if source_chain == btc_tag() {
        1
    } else {
        2
    }
}

/// Total risk banding: a score of 1 or 2 is low, 3 or 4 is medium,
/// 5 and above is high.
pub open spec fn spec_risk_level(amount: u64, source_chain: Seq<u8>) -> RiskLevel {
    let total = spec_amount_risk(amount) + spec_chain_risk(source_chain);
    if total <= 2 {
        RiskLevel::Low
    } else if total <= 4 {
        RiskLevel::Medium
    } else {
        RiskLevel::High
    }
}

/// Band an amount into its relayer priority tier.
pub fn determine_priority(amount: u64) -> (p: PriorityTier)
    ensures
        p == spec_priority(amount),
{
    if amount > 1_000_000 {
        PriorityTier::High
    } else if amount > 100_000 {
        PriorityTier::Standard
    } else {
        PriorityTier::Low
    }
}

/// Band an amount into its compliance category.
pub fn categorize_amount(amount: u64) -> (c: AmountCategory)
    ensures
        c == spec_category(amount),
{
    if amount < 10_000 {
        AmountCategory::Small
    } else if amount < 100_000 {
        AmountCategory::Medium
    } else if amount < 1_000_000 {
        AmountCategory::Large
    } else {
        AmountCategory::Xlarge
    }
}

/// Decide whether a chain tag is the designated low-risk chain.
fn is_btc_chain(source_chain: &Vec<u8>) -> (r: bool)
    ensures
        r == (source_chain@ == btc_tag()),
{
    let r = source_chain.len() == 3 && source_chain[0] == 66 && source_chain[1] == 84
        && source_chain[2] == 67;
    proof {
        if r {
            assert(source_chain@ =~= btc_tag());
        }
    }
    r
}

/// Score a request's risk from its amount band and its source chain,
/// and band the total.
pub fn assess_risk_level(amount: u64, source_chain: &Vec<u8>) -> (r: RiskLevel)
    ensures
        r == spec_risk_level(amount, source_chain@),
{
    let amount_risk: u64 = if amount > 500_000 {
        3
    } else if amount > 50_000 {
        2
    } else {
        1
    };
    let chain_risk: u64 = if is_btc_chain(source_chain) {
        1
    } else {
        2
    };
    let total = amount_risk + chain_risk;
    if total <= 2 {
        RiskLevel::Low
    } else if total <= 4 {
        RiskLevel::Medium
    } else {
        RiskLevel::High
    }
}

} // verus!

//! The values that the chain reports, and the text of each.

use vstd::prelude::*;
use crate::amount::Amount;
use crate::dec::Dec;

verus! {

/// A period of the chain by which validator and staking state is versioned.
#[derive(Clone, Copy, Debug, PartialEq, Eq)]
pub struct Epoch(pub u64);

/// The height of a block.
#[derive(Clone, Copy, Debug, PartialEq, Eq)]
pub struct BlockHeight(pub u64);

/// An account of the chain, held as its encoded text. The gateway reads
/// nothing inside it.
#[derive(Debug, PartialEq, Eq)]
pub struct Address(pub String);

impl View for Address {
    type V = Seq<char>;

    open spec fn view(&self) -> Seq<char> {
        self.0@
    }
}

/// The hexadecimal digit of `n`, in lower case.
pub open spec fn hex_char(n: u8) -> char {
    if n < 10 {
        (n + 48) as u8 as char
    } else {
        (n + 87) as u8 as char
    }
}

/// The hexadecimal text of `bytes`: two digits a byte, in lower case.
pub open spec fn hex_text(bytes: Seq<u8>) -> Seq<char> {
    Seq::new(
        2 * bytes.len(),
        |i: int|
            if i % 2 == 0 {
                hex_char(bytes[i / 2] / 16)
            } else {
                hex_char(bytes[i / 2] % 16)
            },
    )
}

fn hex_digit(n: u8) -> (c: char)
    requires
        n < 16,
    ensures
        c == hex_char(n),
{
    if n < 10 {
        (n + 48) as char
    } else {
        (n + 87) as char
    }
}

/// Writes `bytes` in hexadecimal.
pub fn hex_encode(bytes: &Vec<u8>) -> (text: String)
    ensures
        text@ == hex_text(bytes@),
{
    let mut text = String::new();
    let mut i: usize = 0;
    while i < bytes.len()
        invariant
            i <= bytes.len(),
            text@ == hex_text(bytes@.take(i as int)),
        decreases bytes.len() - i,
    {
        let b: u8 = bytes[i];
        text.push(hex_digit(b / 16));
        text.push(hex_digit(b % 16));
        proof {
            let before = bytes@.take(i as int);
            let after = bytes@.take(i + 1);
            assert(text@ =~= hex_text(after)) by {
                assert forall|k: int| 0 <= k < 2 * i implies hex_text(before)[k] == hex_text(
                    after,
                )[k] by {
                    assert(before[k / 2] == after[k / 2]);
                }
                assert(after[i as int] == b);
            }
        }
        i = i + 1;
    }
    assert(bytes@.take(i as int) =~= bytes@);
    text
}

/// A public key of one of the two schemes of the chain, as its bytes.
#[derive(Debug, PartialEq, Eq)]
pub enum PublicKey {
    Ed25519(Vec<u8>),
    Secp256k1(Vec<u8>),
}

impl PublicKey {
    /// The text of the key: its bytes in hexadecimal, whatever the scheme.
    pub open spec fn text(&self) -> Seq<char> {
        match self {
            PublicKey::Ed25519(bytes) => hex_text(bytes@),
            PublicKey::Secp256k1(bytes) => hex_text(bytes@),
        }
    }

    /// Writes the key as text.
    pub fn to_string(&self) -> (text: String)
        ensures
            text@ == self.text(),
    {
        match self {
            PublicKey::Ed25519(bytes) => hex_encode(bytes),
            PublicKey::Secp256k1(bytes) => hex_encode(bytes),
        }
    }
}

/// The standing of a validator in an epoch.
#[derive(Clone, Copy, Debug, PartialEq, Eq)]
pub enum ValidatorState {
    Consensus,
    BelowCapacity,
    BelowThreshold,
    Inactive,
    Jailed,
}

impl ValidatorState {
    /// The name of the state.
    pub open spec fn name(&self) -> Seq<char> {
        match self {
            ValidatorState::Consensus => "Consensus"@,
            ValidatorState::BelowCapacity => "BelowCapacity"@,
            ValidatorState::BelowThreshold => "BelowThreshold"@,
            ValidatorState::Inactive => "Inactive"@,
            ValidatorState::Jailed => "Jailed"@,
        }
    }

    /// Writes the name of the state.
    pub fn to_string(&self) -> (text: String)
        ensures
            text@ == self.name(),
    {
        match self {
            ValidatorState::Consensus => "Consensus".to_owned(),
            ValidatorState::BelowCapacity => "BelowCapacity".to_owned(),
            ValidatorState::BelowThreshold => "BelowThreshold".to_owned(),
            ValidatorState::Inactive => "Inactive".to_owned(),
            ValidatorState::Jailed => "Jailed".to_owned(),
        }
    }
}

/// What is reported in place of a state where none is stored.
pub const NO_VALIDATOR_STATE: &'static str =
    "Your validator is either not a validator, or an epoch before the current epoch has been queried (and the validator state information is no longer stored)";

/// The text that reports a validator's state, or that there is none.
pub open spec fn validator_state_text(state: Option<ValidatorState>) -> Seq<char> {
    match state {
        Some(s) => s.name(),
        None => NO_VALIDATOR_STATE@,
    }
}

/// The five states have five different names, and the text that reports a
/// missing state is none of them.
pub proof fn lemma_validator_state_texts_differ(
    a: Option<ValidatorState>,
    b: Option<ValidatorState>,
)
    requires
        a != b,
    ensures
        validator_state_text(a) != validator_state_text(b),
{
    reveal_strlit("Consensus");
    reveal_strlit("BelowCapacity");
    reveal_strlit("BelowThreshold");
    reveal_strlit("Inactive");
    reveal_strlit("Jailed");
    reveal_strlit(
        "Your validator is either not a validator, or an epoch before the current epoch has been queried (and the validator state information is no longer stored)",
    );
    assert(validator_state_text(a).len() != validator_state_text(b).len());
}

/// The rule by which the votes on a proposal are counted.
#[derive(Clone, Copy, Debug, PartialEq, Eq)]
pub enum TallyType {
    TwoThirds,
    OneHalfOverOneThird,
    LessOneHalfOverOneThirdNay,
}

/// How the vote on a proposal ended.
#[derive(Clone, Copy, Debug, PartialEq, Eq)]
pub enum TallyResult {
    Passed,
    Rejected,
}

impl TallyResult {
    /// The name of the outcome.
    pub open spec fn name(&self) -> Seq<char> {
        match self {
            TallyResult::Passed => "passed"@,
            TallyResult::Rejected => "rejected"@,
        }
    }

    /// Writes the name of the outcome.
    pub fn to_string(&self) -> (text: String)
        ensures
            text@ == self.name(),
    {
        match self {
            TallyResult::Passed => "passed".to_owned(),
            TallyResult::Rejected => "rejected".to_owned(),
        }
    }
}

/// The count of the votes on a proposal.
#[derive(Debug, PartialEq, Eq)]
pub struct ProposalResult {
    pub result: TallyResult,
    pub tally_type: TallyType,
    pub total_voting_power: Amount,
    pub total_yay_power: Amount,
    pub total_nay_power: Amount,
    pub total_abstain_power: Amount,
}

/// What a voter said of a proposal.
#[derive(Clone, Copy, Debug, PartialEq, Eq)]
pub enum ProposalVote {
    Yay,
    Nay,
    Abstain,
}

impl ProposalVote {
    /// The name of the vote.
    pub open spec fn name(&self) -> Seq<char> {
        match self {
            ProposalVote::Yay => "yay"@,
            ProposalVote::Nay => "nay"@,
            ProposalVote::Abstain => "abstain"@,
        }
    }

    /// Writes the name of the vote.
    pub fn to_string(&self) -> (text: String)
        ensures
            text@ == self.name(),
    {
        match self {
            ProposalVote::Yay => "yay".to_owned(),
            ProposalVote::Nay => "nay".to_owned(),
            ProposalVote::Abstain => "abstain".to_owned(),
        }
    }
}

/// One vote on a proposal.
#[derive(Debug, PartialEq, Eq)]
pub struct Vote {
    pub validator: Address,
    pub delegator: Address,
    pub data: ProposalVote,
}

/// What a validator charges its delegators, and by how much that may change
/// in an epoch.
#[derive(Debug, PartialEq, Eq)]
pub struct CommissionPair {
    pub commission_rate: Dec,
    pub max_commission_change_per_epoch: Dec,
}

/// What a validator says of itself.
#[derive(Debug, PartialEq, Eq)]
pub struct ValidatorMetaData {
    pub email: String,
    pub description: Option<String>,
    pub website: Option<String>,
    pub discord_handle: Option<String>,
    pub avatar: Option<String>,
}

/// The rules of governance.
#[derive(Debug, PartialEq, Eq)]
pub struct GovernanceParameters {
    pub min_proposal_fund: Amount,
    pub max_proposal_code_size: u64,
    pub min_proposal_voting_period: u64,
    pub max_proposal_period: u64,
    pub max_proposal_content_size: u64,
    pub min_proposal_grace_epochs: u64,
}

/// The rules of proof of stake that the chain itself holds.
#[derive(Debug, PartialEq, Eq)]
pub struct OwnedPosParams {
    pub max_validator_slots: u64,
    pub pipeline_len: u64,
    pub unbonding_len: u64,
    pub tm_votes_per_token: Dec,
    pub block_proposer_reward: Dec,
    pub block_vote_reward: Dec,
    pub max_inflation_rate: Dec,
    pub target_staked_ratio: Dec,
    pub duplicate_vote_min_slash_rate: Dec,
    pub light_client_attack_min_slash_rate: Dec,
    pub cubic_slashing_window_length: u64,
    pub validator_stake_threshold: Amount,
    pub liveness_window_check: u64,
    pub liveness_threshold: Dec,
    pub rewards_gain_p: Dec,
    pub rewards_gain_d: Dec,
}

/// The rules of proof of stake, with the one that governance adds.
#[derive(Debug, PartialEq, Eq)]
pub struct PosParams {
    pub owned: OwnedPosParams,
    pub max_proposal_period: u64,
}

/// The hash of a block.
#[derive(Debug, PartialEq, Eq)]
pub struct BlockHash(pub Vec<u8>);

/// The last block that was committed. The time is held as its text.
#[derive(Debug, PartialEq, Eq)]
pub struct LastBlock {
    pub height: BlockHeight,
    pub hash: BlockHash,
    pub time: String,
}

/// How rewards accrue to one asset of the shielded pool.
#[derive(Debug, PartialEq, Eq)]
pub struct MaspTokenRewardData {
    pub name: String,
    pub address: Address,
    pub max_reward_rate: Dec,
    pub kp_gain: Dec,
    pub kd_gain: Dec,
    pub locked_amount_target: Amount,
}

} // verus!

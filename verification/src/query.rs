//! The queries that the gateway answers, what the node replies to each, and
//! the JSON that each reply becomes.

use vstd::prelude::*;
use crate::amount::{decimal_text, Amount};
use crate::collections::{AddressSet, TextMap};
use crate::dec::{dec_text, Dec, UNIT};
use crate::error::{
    error_body, ErrorKind, MyErrorWrapper, QueryError, DECODE_FAILED, QUERY_ABORTED,
    QUERY_CANCELLED,
};
use crate::event::Event;
use crate::json::{
    items, members, members_of, no_members, no_values, push_item, put, values_of, Json, JsonValue,
};
use crate::types::{
    hex_encode, validator_state_text, Address, BlockHash, BlockHeight, CommissionPair, Epoch,
    GovernanceParameters, LastBlock, MaspTokenRewardData, OwnedPosParams, PosParams,
    ProposalResult, PublicKey, TallyType, ValidatorMetaData, ValidatorState, Vote,
    NO_VALIDATOR_STATE,
};

verus! {

/// The address of the native token, in which balances are asked for.
pub const NAAN_ADDRESS: &'static str = "tnam1qxvg64psvhwumv3mwrrjfcz0h3t3274hwggyzcee";

/// A query, with what it needs to be asked.
#[derive(Debug, PartialEq, Eq)]
pub enum RPCRequestType {
    QueryEpoch,
    QueryEpochAtHeight(BlockHeight),
    QueryProposalResult(u64),
    QueryProposalVotes(u64),
    QueryBalance(Address, Address),
    QueryValidatorState(Address, Option<Epoch>),
    QueryDelegatorDelegation(Address),
    QueryDelegatorDelegationAt(Address, Epoch),
    QueryMetaData(Address, Option<Epoch>),
    QueryGovernanceParameters,
    QueryPosParameters,
    QueryCheckIsSteward(Address),
    QueryValidatorConsensusKeys(Address),
    QueryTxEvents(String),
    QueryNativeToken,
    QueryLatestBlock,
    QueryCheckIsValidator(Address),
    QueryCheckIsDelegator(Address),
    QueryMaspReward,
    QueryTotalStakedTokens(Epoch),
    QueryValidatorStaked(Epoch, Address),
}

/// What the node replies to a query, as it came.
#[derive(Debug, PartialEq, Eq)]
pub enum RPCResult {
    Epoch(Epoch),
    EpochAtHeight(Option<Epoch>),
    ProposalResult(Option<ProposalResult>),
    ProposalVotes(Vec<Vote>),
    BalanceResult(Amount),
    ValidatorState(Option<ValidatorState>),
    DelegatorDelegation(AddressSet),
    DelegatorDelegationAt(TextMap<Amount>),
    MetaData((Option<ValidatorMetaData>, Option<CommissionPair>)),
    GovernanceParameters(GovernanceParameters),
    PosParameters(PosParams),
    IsSteward(bool),
    ValidatorConsensusKeys(Option<PublicKey>),
    TxEvents(Event),
    NativeToken(Address),
    LatestBlock(Option<LastBlock>),
    IsValidator(bool),
    IsDelegator(bool),
    MapsReward(Vec<MaspTokenRewardData>),
    TotalStakedTokens(Amount),
    ValidatorStake(Amount),
}

/// The query for the current epoch.
pub fn get_epoch() -> (request: RPCRequestType)
    ensures
        request == RPCRequestType::QueryEpoch,
{
    RPCRequestType::QueryEpoch
}

/// The query for the epoch of the block at `height`.
pub fn get_epoch_at_height(height: BlockHeight) -> (request: RPCRequestType)
    ensures
        request == RPCRequestType::QueryEpochAtHeight(height),
{
    RPCRequestType::QueryEpochAtHeight(height)
}

/// The query for the balance of `owner` in the native token. `token` is what
/// decoding [`NAAN_ADDRESS`] gave: where that failed there is no query, and
/// the failure is reported as a failure to decode.
pub fn get_balance(token: Option<Address>, owner: Address) -> (request: Result<
    RPCRequestType,
    MyErrorWrapper,
>)
    ensures
        match token {
            Some(t) => request == Ok::<RPCRequestType, MyErrorWrapper>(
                RPCRequestType::QueryBalance(t, owner),
            ),
            None => request matches Err(e) && e.0.kind == ErrorKind::Decode && e.0.message@
                == DECODE_FAILED@,
        },
{
    match token {
        Some(t) => Ok(RPCRequestType::QueryBalance(t, owner)),
        None => Err(MyErrorWrapper(QueryError::decode())),
    }
}

/// The query for the state of the validator `address` in `epoch`.
pub fn get_validator_state(address: Address, epoch: Epoch) -> (request: RPCRequestType)
    ensures
        request == RPCRequestType::QueryValidatorState(address, Some(epoch)),
{
    RPCRequestType::QueryValidatorState(address, Some(epoch))
}

/// The query for the validators that `delegator` has bonds with.
pub fn get_delegators_delegation(delegator: Address) -> (request: RPCRequestType)
    ensures
        request == RPCRequestType::QueryDelegatorDelegation(delegator),
{
    RPCRequestType::QueryDelegatorDelegation(delegator)
}

/// The query for the bonds of `address` in `epoch`, by validator.
pub fn get_delegators_delegation_at(address: Address, epoch: Epoch) -> (request: RPCRequestType)
    ensures
        request == RPCRequestType::QueryDelegatorDelegationAt(address, epoch),
{
    RPCRequestType::QueryDelegatorDelegationAt(address, epoch)
}

/// The query for what the validator `address` says of itself, and for its
/// commission in `epoch`.
pub fn get_meta_data(address: Address, epoch: Epoch) -> (request: RPCRequestType)
    ensures
        request == RPCRequestType::QueryMetaData(address, Some(epoch)),
{
    RPCRequestType::QueryMetaData(address, Some(epoch))
}

/// The query for the rules of governance.
pub fn get_governance_parameters() -> (request: RPCRequestType)
    ensures
        request == RPCRequestType::QueryGovernanceParameters,
{
    RPCRequestType::QueryGovernanceParameters
}

/// The query for the rules of proof of stake.
pub fn get_pos_parameters() -> (request: RPCRequestType)
    ensures
        request == RPCRequestType::QueryPosParameters,
{
    RPCRequestType::QueryPosParameters
}

/// The query whether `address` is a steward.
pub fn check_steward(address: Address) -> (request: RPCRequestType)
    ensures
        request == RPCRequestType::QueryCheckIsSteward(address),
{
    RPCRequestType::QueryCheckIsSteward(address)
}

/// The query for the count of the votes on proposal `id`.
pub fn get_proposals(id: u32) -> (request: RPCRequestType)
    ensures
        request == RPCRequestType::QueryProposalResult(id as u64),
{
    RPCRequestType::QueryProposalResult(id as u64)
}

/// The query for the votes on proposal `id`.
pub fn get_proposal_votes(id: u32) -> (request: RPCRequestType)
    ensures
        request == RPCRequestType::QueryProposalVotes(id as u64),
{
    RPCRequestType::QueryProposalVotes(id as u64)
}

/// The query for the consensus key of the validator `address`.
pub fn get_validator_consensus_keys(address: Address) -> (request: RPCRequestType)
    ensures
        request == RPCRequestType::QueryValidatorConsensusKeys(address),
{
    RPCRequestType::QueryValidatorConsensusKeys(address)
}

/// The query for the event of the transaction with hash `tx_hash`.
pub fn get_tx_events(tx_hash: String) -> (request: RPCRequestType)
    ensures
        request == RPCRequestType::QueryTxEvents(tx_hash),
{
    RPCRequestType::QueryTxEvents(tx_hash)
}

/// The query for the address of the native token.
pub fn get_native_token() -> (request: RPCRequestType)
    ensures
        request == RPCRequestType::QueryNativeToken,
{
    RPCRequestType::QueryNativeToken
}

/// The query for the last block that was committed.
pub fn get_latest_block() -> (request: RPCRequestType)
    ensures
        request == RPCRequestType::QueryLatestBlock,
{
    RPCRequestType::QueryLatestBlock
}

/// The query whether `address` is a validator.
pub fn check_is_validator(address: Address) -> (request: RPCRequestType)
    ensures
        request == RPCRequestType::QueryCheckIsValidator(address),
{
    RPCRequestType::QueryCheckIsValidator(address)
}

/// The query whether `address` is a delegator.
pub fn check_is_delegator(address: Address) -> (request: RPCRequestType)
    ensures
        request == RPCRequestType::QueryCheckIsDelegator(address),
{
    RPCRequestType::QueryCheckIsDelegator(address)
}

/// The query for the reward data of the assets of the shielded pool.
pub fn get_masp_reward() -> (request: RPCRequestType)
    ensures
        request == RPCRequestType::QueryMaspReward,
{
    RPCRequestType::QueryMaspReward
}

/// The query for all tokens staked in `epoch`.
pub fn get_total_staked_tokens(epoch: Epoch) -> (request: RPCRequestType)
    ensures
        request == RPCRequestType::QueryTotalStakedTokens(epoch),
{
    RPCRequestType::QueryTotalStakedTokens(epoch)
}

/// The query for the stake of the validator `address` in `epoch`.
pub fn get_validator_stake(address: Address, epoch: Epoch) -> (request: RPCRequestType)
    ensures
        request == RPCRequestType::QueryValidatorStaked(epoch, address),
{
    RPCRequestType::QueryValidatorStaked(epoch, address)
}


/// The decimal text of `n`.
fn number_text(n: u64) -> (text: String)
    ensures
        text@ == decimal_text(n as nat),
{
    Amount::from_u64(n).to_string()
}

/// A commission, each rate as text.
#[derive(Debug, PartialEq, Eq)]
pub struct CommissionPairWrapper {
    pub commission_rate: String,
    pub max_commission_change_per_epoch: String,
}

impl CommissionPairWrapper {
    /// The commission `pair`, each rate as its decimal text.
    pub fn new(pair: &CommissionPair) -> (wrapper: Self)
        ensures
            wrapper.commission_rate@ == pair.commission_rate.text(),
            wrapper.max_commission_change_per_epoch@
                == pair.max_commission_change_per_epoch.text(),
    {
        CommissionPairWrapper {
            commission_rate: pair.commission_rate.to_string(),
            max_commission_change_per_epoch: pair.max_commission_change_per_epoch.to_string(),
        }
    }

    /// The JSON of the commission.
    pub open spec fn value(&self) -> JsonValue {
        JsonValue::Object(
            no_members().push(("commission_rate"@, JsonValue::Text(self.commission_rate@))).push(
                (
                    "max_commission_change_per_epoch"@,
                    JsonValue::Text(self.max_commission_change_per_epoch@),
                ),
            ),
        )
    }

    /// Writes the commission as JSON.
    pub fn to_json(self) -> (json: Json)
        ensures
            json@ == self.value(),
    {
        let mut members = members();
        put(&mut members, "commission_rate", Json::text(self.commission_rate));
        put(
            &mut members,
            "max_commission_change_per_epoch",
            Json::text(self.max_commission_change_per_epoch),
        );
        Json::object(members)
    }
}

/// The rules of governance, each as text.
#[derive(Debug, PartialEq, Eq)]
pub struct GovernanceParametersWrapper {
    pub min_proposal_fund: String,
    pub max_proposal_code_size: String,
    pub min_proposal_voting_period: String,
    pub max_proposal_period: String,
    pub max_proposal_content_size: String,
    pub min_proposal_grace_epochs: String,
}

impl GovernanceParametersWrapper {
    /// The rules `governance`, each number as its decimal text.
    pub fn new(governance: &GovernanceParameters) -> (wrapper: Self)
        ensures
            wrapper.min_proposal_fund@ == decimal_text(governance.min_proposal_fund@),
            wrapper.max_proposal_code_size@ == decimal_text(
                governance.max_proposal_code_size as nat,
            ),
            wrapper.min_proposal_voting_period@ == decimal_text(
                governance.min_proposal_voting_period as nat,
            ),
            wrapper.max_proposal_period@ == decimal_text(governance.max_proposal_period as nat),
            wrapper.max_proposal_content_size@ == decimal_text(
                governance.max_proposal_content_size as nat,
            ),
            wrapper.min_proposal_grace_epochs@ == decimal_text(
                governance.min_proposal_grace_epochs as nat,
            ),
    {
        GovernanceParametersWrapper {
            min_proposal_fund: governance.min_proposal_fund.to_string(),
            max_proposal_code_size: number_text(governance.max_proposal_code_size),
            min_proposal_voting_period: number_text(governance.min_proposal_voting_period),
            max_proposal_period: number_text(governance.max_proposal_period),
            max_proposal_content_size: number_text(governance.max_proposal_content_size),
            min_proposal_grace_epochs: number_text(governance.min_proposal_grace_epochs),
        }
    }

    /// The JSON of the rules.
    pub open spec fn value(&self) -> JsonValue {
        JsonValue::Object(
            no_members().push(("min_proposal_fund"@, JsonValue::Text(self.min_proposal_fund@)))
                .push(("max_proposal_code_size"@, JsonValue::Text(self.max_proposal_code_size@)))
                .push(
                ("min_proposal_voting_period"@, JsonValue::Text(self.min_proposal_voting_period@)),
            ).push(("max_proposal_period"@, JsonValue::Text(self.max_proposal_period@))).push(
                ("max_proposal_content_size"@, JsonValue::Text(self.max_proposal_content_size@)),
            ).push(
                ("min_proposal_grace_epochs"@, JsonValue::Text(self.min_proposal_grace_epochs@)),
            ),
        )
    }

    /// Writes the rules as JSON.
    pub fn to_json(self) -> (json: Json)
        ensures
            json@ == self.value(),
    {
        let mut members = members();
        put(&mut members, "min_proposal_fund", Json::text(self.min_proposal_fund));
        put(&mut members, "max_proposal_code_size", Json::text(self.max_proposal_code_size));
        put(
            &mut members,
            "min_proposal_voting_period",
            Json::text(self.min_proposal_voting_period),
        );
        put(&mut members, "max_proposal_period", Json::text(self.max_proposal_period));
        put(&mut members, "max_proposal_content_size", Json::text(self.max_proposal_content_size));
        put(&mut members, "min_proposal_grace_epochs", Json::text(self.min_proposal_grace_epochs));
        Json::object(members)
    }
}


/// The rules of proof of stake that the chain itself holds: counts as
/// numbers, rates and amounts as text.
#[derive(Debug, PartialEq, Eq)]
pub struct SerializableOwnedPosParams {
    pub max_validator_slots: u64,
    pub pipeline_len: u64,
    pub unbonding_len: u64,
    pub tm_votes_per_token: String,
    pub block_proposer_reward: String,
    pub block_vote_reward: String,
    pub max_inflation_rate: String,
    pub target_staked_ratio: String,
    pub duplicate_vote_min_slash_rate: String,
    pub light_client_attack_min_slash_rate: String,
    pub cubic_slashing_window_length: u64,
    pub validator_stake_threshold: String,
    pub liveness_window_check: u64,
    pub liveness_threshold: String,
    pub rewards_gain_p: String,
    pub rewards_gain_d: String,
}

impl SerializableOwnedPosParams {
    /// The JSON of the rules.
    pub open spec fn value(&self) -> JsonValue {
        JsonValue::Object(
            no_members()
                .push(("max_validator_slots"@, JsonValue::Number(self.max_validator_slots)))
                .push(("pipeline_len"@, JsonValue::Number(self.pipeline_len)))
                .push(("unbonding_len"@, JsonValue::Number(self.unbonding_len)))
                .push(("tm_votes_per_token"@, JsonValue::Text(self.tm_votes_per_token@)))
                .push(("block_proposer_reward"@, JsonValue::Text(self.block_proposer_reward@)))
                .push(("block_vote_reward"@, JsonValue::Text(self.block_vote_reward@)))
                .push(("max_inflation_rate"@, JsonValue::Text(self.max_inflation_rate@)))
                .push(("target_staked_ratio"@, JsonValue::Text(self.target_staked_ratio@)))
                .push(
                    (
                        "duplicate_vote_min_slash_rate"@,
                        JsonValue::Text(self.duplicate_vote_min_slash_rate@),
                    ),
                )
                .push(
                    (
                        "light_client_attack_min_slash_rate"@,
                        JsonValue::Text(self.light_client_attack_min_slash_rate@),
                    ),
                )
                .push(
                    (
                        "cubic_slashing_window_length"@,
                        JsonValue::Number(self.cubic_slashing_window_length),
                    ),
                )
                .push(
                    (
                        "validator_stake_threshold"@,
                        JsonValue::Text(self.validator_stake_threshold@),
                    ),
                )
                .push(("liveness_window_check"@, JsonValue::Number(self.liveness_window_check)))
                .push(("liveness_threshold"@, JsonValue::Text(self.liveness_threshold@)))
                .push(("rewards_gain_p"@, JsonValue::Text(self.rewards_gain_p@)))
                .push(("rewards_gain_d"@, JsonValue::Text(self.rewards_gain_d@))),
        )
    }

    /// Writes the rules as JSON.
    pub fn to_json(self) -> (json: Json)
        ensures
            json@ == self.value(),
    {
        let mut members = members();
        put(&mut members, "max_validator_slots", Json::number(self.max_validator_slots));
        put(&mut members, "pipeline_len", Json::number(self.pipeline_len));
        put(&mut members, "unbonding_len", Json::number(self.unbonding_len));
        put(&mut members, "tm_votes_per_token", Json::text(self.tm_votes_per_token));
        put(&mut members, "block_proposer_reward", Json::text(self.block_proposer_reward));
        put(&mut members, "block_vote_reward", Json::text(self.block_vote_reward));
        put(&mut members, "max_inflation_rate", Json::text(self.max_inflation_rate));
        put(&mut members, "target_staked_ratio", Json::text(self.target_staked_ratio));
        put(
            &mut members,
            "duplicate_vote_min_slash_rate",
            Json::text(self.duplicate_vote_min_slash_rate),
        );
        put(
            &mut members,
            "light_client_attack_min_slash_rate",
            Json::text(self.light_client_attack_min_slash_rate),
        );
        put(
            &mut members,
            "cubic_slashing_window_length",
            Json::number(self.cubic_slashing_window_length),
        );
        put(&mut members, "validator_stake_threshold", Json::text(self.validator_stake_threshold));
        put(&mut members, "liveness_window_check", Json::number(self.liveness_window_check));
        put(&mut members, "liveness_threshold", Json::text(self.liveness_threshold));
        put(&mut members, "rewards_gain_p", Json::text(self.rewards_gain_p));
        put(&mut members, "rewards_gain_d", Json::text(self.rewards_gain_d));
        Json::object(members)
    }
}

/// The rules of proof of stake, with the one that governance adds.
#[derive(Debug, PartialEq, Eq)]
pub struct SerializablePosParams {
    pub owned: SerializableOwnedPosParams,
    pub max_proposal_period: u64,
}

impl SerializablePosParams {
    /// The JSON of the rules.
    pub open spec fn value(&self) -> JsonValue {
        JsonValue::Object(
            no_members()
                .push(("owned"@, self.owned.value()))
                .push(("max_proposal_period"@, JsonValue::Number(self.max_proposal_period))),
        )
    }

    /// Writes the rules as JSON.
    pub fn to_json(self) -> (json: Json)
        ensures
            json@ == self.value(),
    {
        let mut members = members();
        put(&mut members, "owned", self.owned.to_json());
        put(&mut members, "max_proposal_period", Json::number(self.max_proposal_period));
        Json::object(members)
    }
}

/// The rules of proof of stake made ready to be written: every count as it
/// is, every rate and amount as its decimal text.
pub fn convert_to_serializable_pos(pos_params: PosParams) -> (out: SerializablePosParams)
    ensures
        out.max_proposal_period == pos_params.max_proposal_period,
        out.owned.max_validator_slots == pos_params.owned.max_validator_slots,
        out.owned.pipeline_len == pos_params.owned.pipeline_len,
        out.owned.unbonding_len == pos_params.owned.unbonding_len,
        out.owned.tm_votes_per_token@ == pos_params.owned.tm_votes_per_token.text(),
        out.owned.block_proposer_reward@ == pos_params.owned.block_proposer_reward.text(),
        out.owned.block_vote_reward@ == pos_params.owned.block_vote_reward.text(),
        out.owned.max_inflation_rate@ == pos_params.owned.max_inflation_rate.text(),
        out.owned.target_staked_ratio@ == pos_params.owned.target_staked_ratio.text(),
        out.owned.duplicate_vote_min_slash_rate@
            == pos_params.owned.duplicate_vote_min_slash_rate.text(),
        out.owned.light_client_attack_min_slash_rate@
            == pos_params.owned.light_client_attack_min_slash_rate.text(),
        out.owned.cubic_slashing_window_length == pos_params.owned.cubic_slashing_window_length,
        out.owned.validator_stake_threshold@
            == decimal_text(pos_params.owned.validator_stake_threshold@),
        out.owned.liveness_window_check == pos_params.owned.liveness_window_check,
        out.owned.liveness_threshold@ == pos_params.owned.liveness_threshold.text(),
        out.owned.rewards_gain_p@ == pos_params.owned.rewards_gain_p.text(),
        out.owned.rewards_gain_d@ == pos_params.owned.rewards_gain_d.text(),
{
    let owned_params = pos_params.owned;
    let serializable_owned_pos_params = SerializableOwnedPosParams {
        max_validator_slots: owned_params.max_validator_slots,
        pipeline_len: owned_params.pipeline_len,
        unbonding_len: owned_params.unbonding_len,
        tm_votes_per_token: owned_params.tm_votes_per_token.to_string(),
        block_proposer_reward: owned_params.block_proposer_reward.to_string(),
        block_vote_reward: owned_params.block_vote_reward.to_string(),
        max_inflation_rate: owned_params.max_inflation_rate.to_string(),
        target_staked_ratio: owned_params.target_staked_ratio.to_string(),
        duplicate_vote_min_slash_rate: owned_params.duplicate_vote_min_slash_rate.to_string(),
        light_client_attack_min_slash_rate: owned_params
            .light_client_attack_min_slash_rate
            .to_string(),
        cubic_slashing_window_length: owned_params.cubic_slashing_window_length,
        validator_stake_threshold: owned_params.validator_stake_threshold.to_string(),
        liveness_window_check: owned_params.liveness_window_check,
        liveness_threshold: owned_params.liveness_threshold.to_string(),
        rewards_gain_p: owned_params.rewards_gain_p.to_string(),
        rewards_gain_d: owned_params.rewards_gain_d.to_string(),
    };
    SerializablePosParams {
        owned: serializable_owned_pos_params,
        max_proposal_period: pos_params.max_proposal_period,
    }
}

/// One vote on a proposal, as text.
#[derive(Debug, PartialEq, Eq)]
pub struct VoteWrapper {
    pub validator: String,
    pub delegator: String,
    pub data: String,
}

impl VoteWrapper {
    /// The vote `vote`: the two addresses as they are written, and the name
    /// of what was voted.
    pub fn new(vote: &Vote) -> (wrapper: Self)
        ensures
            wrapper.validator@ == vote.validator@,
            wrapper.delegator@ == vote.delegator@,
            wrapper.data@ == vote.data.name(),
    {
        VoteWrapper {
            validator: vote.validator.0.clone(),
            delegator: vote.delegator.0.clone(),
            data: vote.data.to_string(),
        }
    }

    /// The JSON of the vote.
    pub open spec fn value(&self) -> JsonValue {
        JsonValue::Object(
            no_members()
                .push(("validator"@, JsonValue::Text(self.validator@)))
                .push(("delegator"@, JsonValue::Text(self.delegator@)))
                .push(("data"@, JsonValue::Text(self.data@))),
        )
    }

    /// Writes the vote as JSON.
    pub fn to_json(self) -> (json: Json)
        ensures
            json@ == self.value(),
    {
        let mut members = members();
        put(&mut members, "validator", Json::text(self.validator));
        put(&mut members, "delegator", Json::text(self.delegator));
        put(&mut members, "data", Json::text(self.data));
        Json::object(members)
    }
}


/// The members of the JSON object of `attributes`: each key with its value
/// as a string, in order.
pub open spec fn attribute_members(attributes: Seq<(String, String)>) -> Seq<
    (Seq<char>, JsonValue),
> {
    Seq::new(attributes.len(), |i: int| (attributes[i].0@, JsonValue::Text(attributes[i].1@)))
}

/// An event, its kind and level as text.
#[derive(Debug, PartialEq, Eq)]
pub struct EventSerializable {
    pub event_type: String,
    pub level: String,
    pub attributes: TextMap<String>,
}

impl EventSerializable {
    /// The JSON of the event.
    pub open spec fn value(&self) -> JsonValue {
        JsonValue::Object(
            no_members()
                .push(("event_type"@, JsonValue::Text(self.event_type@)))
                .push(("level"@, JsonValue::Text(self.level@)))
                .push(("attributes"@, JsonValue::Object(attribute_members(self.attributes@)))),
        )
    }

    /// Writes the event as JSON.
    pub fn to_json(self) -> (json: Json)
        ensures
            json@ == self.value(),
    {
        let mut attributes = members();
        let n: usize = self.attributes.len();
        let mut i: usize = 0;
        assert(no_members() =~= attribute_members(self.attributes@.take(0)));
        while i < n
            invariant
                i <= n,
                n == self.attributes@.len(),
                members_of(attributes@) == attribute_members(self.attributes@.take(i as int)),
            decreases n - i,
        {
            let entry = self.attributes.entry(i);
            put(&mut attributes, entry.0.as_str(), Json::text(entry.1.clone()));
            assert(members_of(attributes@) =~= attribute_members(self.attributes@.take(i + 1)));
            i = i + 1;
        }
        assert(self.attributes@.take(n as int) =~= self.attributes@);
        let mut members = members();
        put(&mut members, "event_type", Json::text(self.event_type));
        put(&mut members, "level", Json::text(self.level));
        put(&mut members, "attributes", Json::object(attributes));
        Json::object(members)
    }
}

/// The event made ready to be written: its kind and its level as text, its
/// attributes as they are.
pub fn to_serializable(event: Event) -> (out: EventSerializable)
    ensures
        out.event_type@ == event.event_type.text(),
        out.level@ == event.level.name(),
        out.attributes == event.attributes,
{
    EventSerializable {
        event_type: event.event_type.to_string(),
        level: event.level.to_string(),
        attributes: event.attributes,
    }
}

/// The items of the JSON array of `bytes`: each byte as a number.
pub open spec fn byte_values(bytes: Seq<u8>) -> Seq<JsonValue> {
    Seq::new(bytes.len(), |i: int| JsonValue::Number(bytes[i] as u64))
}

/// The last block, ready to be written.
#[derive(Debug, PartialEq, Eq)]
pub struct SerializableLastBlock {
    pub height: BlockHeight,
    pub hash: BlockHash,
    pub time: String,
}

impl SerializableLastBlock {
    /// The JSON of the block: the height as a number, the hash as the array
    /// of its bytes, the time as text.
    pub open spec fn value(&self) -> JsonValue {
        JsonValue::Object(
            no_members()
                .push(("height"@, JsonValue::Number(self.height.0)))
                .push(("hash"@, JsonValue::Array(byte_values(self.hash.0@))))
                .push(("time"@, JsonValue::Text(self.time@))),
        )
    }

    /// Writes the block as JSON.
    pub fn to_json(self) -> (json: Json)
        ensures
            json@ == self.value(),
    {
        let mut bytes = items();
        let n: usize = self.hash.0.len();
        let mut i: usize = 0;
        assert(no_values() =~= byte_values(self.hash.0@.take(0)));
        while i < n
            invariant
                i <= n,
                n == self.hash.0@.len(),
                values_of(bytes@) == byte_values(self.hash.0@.take(i as int)),
            decreases n - i,
        {
            push_item(&mut bytes, Json::number(self.hash.0[i] as u64));
            assert(values_of(bytes@) =~= byte_values(self.hash.0@.take(i + 1)));
            i = i + 1;
        }
        assert(self.hash.0@.take(n as int) =~= self.hash.0@);
        let mut members = members();
        put(&mut members, "height", Json::number(self.height.0));
        put(&mut members, "hash", Json::array(bytes));
        put(&mut members, "time", Json::text(self.time));
        Json::object(members)
    }
}

/// The last block made ready to be written: a copy of its height, its hash
/// and its time.
pub fn block_to_serializable(last_block: &LastBlock) -> (out: SerializableLastBlock)
    ensures
        out.height == last_block.height,
        out.hash.0@ == last_block.hash.0@,
        out.time@ == last_block.time@,
{
    let hash = last_block.hash.0.clone();
    assert(hash@ =~= last_block.hash.0@);
    SerializableLastBlock {
        height: last_block.height,
        hash: BlockHash(hash),
        time: last_block.time.clone(),
    }
}

/// The JSON of the reward data of one asset of the shielded pool: the name
/// and the address as they are written, every rate and the amount as decimal
/// text.
pub open spec fn reward_value(reward: MaspTokenRewardData) -> JsonValue {
    JsonValue::Object(
        no_members()
            .push(("name"@, JsonValue::Text(reward.name@)))
            .push(("address"@, JsonValue::Text(reward.address@)))
            .push(("max_reward_rate"@, JsonValue::Text(reward.max_reward_rate.text())))
            .push(("kp_gain"@, JsonValue::Text(reward.kp_gain.text())))
            .push(("kd_gain"@, JsonValue::Text(reward.kd_gain.text())))
            .push(
            ("locked_amount_target"@, JsonValue::Text(decimal_text(reward.locked_amount_target@))),
        ),
    )
}

/// Writes the reward data of one asset as JSON.
pub fn reward_json(reward: &MaspTokenRewardData) -> (json: Json)
    ensures
        json@ == reward_value(*reward),
{
    let mut members = members();
    put(&mut members, "name", Json::text(reward.name.clone()));
    put(&mut members, "address", Json::text(reward.address.0.clone()));
    put(&mut members, "max_reward_rate", Json::text(reward.max_reward_rate.to_string()));
    put(&mut members, "kp_gain", Json::text(reward.kp_gain.to_string()));
    put(&mut members, "kd_gain", Json::text(reward.kd_gain.to_string()));
    put(&mut members, "locked_amount_target", Json::text(reward.locked_amount_target.to_string()));
    Json::object(members)
}

/// The JSON of a public key that may be missing: the text of the key,
/// whatever its scheme, or `null`.
pub open spec fn public_key_value(public_key: Option<PublicKey>) -> JsonValue {
    match public_key {
        Some(key) => JsonValue::Text(key.text()),
        None => JsonValue::Null,
    }
}

/// Writes a public key that may be missing as JSON.
pub fn serialize(public_key: &Option<PublicKey>) -> (json: Json)
    ensures
        json@ == public_key_value(*public_key),
{
    match public_key {
        Some(PublicKey::Ed25519(bytes)) => Json::text(hex_encode(bytes)),
        Some(PublicKey::Secp256k1(bytes)) => Json::text(hex_encode(bytes)),
        None => Json::null(),
    }
}


/// The JSON of a string that may be missing: the string, or `null`.
pub open spec fn optional_text_value(text: Option<String>) -> JsonValue {
    match text {
        Some(t) => JsonValue::Text(t@),
        None => JsonValue::Null,
    }
}

fn optional_text_json(text: &Option<String>) -> (json: Json)
    ensures
        json@ == optional_text_value(*text),
{
    match text {
        Some(t) => Json::text(t.clone()),
        None => Json::null(),
    }
}

/// The JSON of what a validator says of itself: every field under its name,
/// `null` where the validator left one out.
pub open spec fn metadata_value(metadata: ValidatorMetaData) -> JsonValue {
    JsonValue::Object(
        no_members()
            .push(("email"@, JsonValue::Text(metadata.email@)))
            .push(("description"@, optional_text_value(metadata.description)))
            .push(("website"@, optional_text_value(metadata.website)))
            .push(("discord_handle"@, optional_text_value(metadata.discord_handle)))
            .push(("avatar"@, optional_text_value(metadata.avatar))),
    )
}

/// Writes what a validator says of itself as JSON.
pub fn metadata_json(metadata: &ValidatorMetaData) -> (json: Json)
    ensures
        json@ == metadata_value(*metadata),
{
    let mut members = members();
    put(&mut members, "email", Json::text(metadata.email.clone()));
    put(&mut members, "description", optional_text_json(&metadata.description));
    put(&mut members, "website", optional_text_json(&metadata.website));
    put(&mut members, "discord_handle", optional_text_json(&metadata.discord_handle));
    put(&mut members, "avatar", optional_text_json(&metadata.avatar));
    Json::object(members)
}

/// The JSON of a commission: each rate as its decimal text.
pub open spec fn commission_value(pair: CommissionPair) -> JsonValue {
    JsonValue::Object(
        no_members()
            .push(("commission_rate"@, JsonValue::Text(pair.commission_rate.text())))
            .push(
            (
                "max_commission_change_per_epoch"@,
                JsonValue::Text(pair.max_commission_change_per_epoch.text()),
            ),
        ),
    )
}

/// How many thirds of the voting power a proposal needs under `tally_type`:
/// two under the rule of two thirds, one under every other rule.
pub open spec fn thirds_needed(tally_type: TallyType) -> nat {
    match tally_type {
        TallyType::TwoThirds => 2,
        _ => 1,
    }
}

/// The voting power that a proposal needs: two thirds or one third of
/// `total`, rounded up.
pub open spec fn threshold_of(tally_type: TallyType, total: nat) -> nat {
    (total * thirds_needed(tally_type) + 2) / 3
}

/// The share that `part` is of `whole`, in units of the last decimal place,
/// rounded down.
pub open spec fn share_of(part: nat, whole: nat) -> nat {
    (part * (UNIT as nat)) / whole
}

/// The voting power that a proposal needs to pass.
pub fn threshold(tally_type: TallyType, total_voting_power: &Amount) -> (out: Amount)
    ensures
        out@ == threshold_of(tally_type, total_voting_power@),
{
    let thirds: u64 = match tally_type {
        TallyType::TwoThirds => 2,
        _ => 1,
    };
    total_voting_power.mul_add_small(thirds, 2).div_small(3).0
}

/// The threshold is never more than the voting power that there is.
pub proof fn lemma_threshold_within_total(tally_type: TallyType, total: nat)
    requires
        total > 0,
    ensures
        threshold_of(tally_type, total) <= total,
{
    let n = thirds_needed(tally_type);
    assert((total * n + 2) / 3 <= total) by (nonlinear_arith)
        requires
            total > 0,
            n <= 2,
    ;
}

/// The JSON of the count of the votes on a proposal: how it ended, the four
/// totals, the voting power that it needed, and the share of all voting power
/// that this is.
pub open spec fn proposal_value(proposal: ProposalResult) -> JsonValue {
    let total = proposal.total_voting_power@;
    let needed = threshold_of(proposal.tally_type, total);
    JsonValue::Object(
        no_members()
            .push(("result"@, JsonValue::Text(proposal.result.name())))
            .push(("total_voting_power"@, JsonValue::Text(decimal_text(total))))
            .push(
            ("total_yay_power"@, JsonValue::Text(decimal_text(proposal.total_yay_power@))),
        ).push(("total_nay_power"@, JsonValue::Text(decimal_text(proposal.total_nay_power@)))).push(
            ("total_abstain_power"@, JsonValue::Text(decimal_text(proposal.total_abstain_power@))),
        ).push(("threshold"@, JsonValue::Text(decimal_text(needed)))).push(
            ("thresh_frac"@, JsonValue::Text(dec_text(false, share_of(needed, total)))),
        ),
    )
}

/// Writes the count of the votes on a proposal as JSON. There must be some
/// voting power: a share of nothing is no number.
pub fn proposal_json(proposal: &ProposalResult) -> (json: Json)
    requires
        proposal.total_voting_power@ > 0,
    ensures
        json@ == proposal_value(*proposal),
{
    let needed = threshold(proposal.tally_type, &proposal.total_voting_power);
    proof {
        lemma_threshold_within_total(proposal.tally_type, proposal.total_voting_power@);
    }
    let share = Dec::share(&needed, &proposal.total_voting_power);
    let mut members = members();
    put(&mut members, "result", Json::text(proposal.result.to_string()));
    put(&mut members, "total_voting_power", Json::text(proposal.total_voting_power.to_string()));
    put(&mut members, "total_yay_power", Json::text(proposal.total_yay_power.to_string()));
    put(&mut members, "total_nay_power", Json::text(proposal.total_nay_power.to_string()));
    put(&mut members, "total_abstain_power", Json::text(proposal.total_abstain_power.to_string()));
    put(&mut members, "threshold", Json::text(needed.to_string()));
    put(&mut members, "thresh_frac", Json::text(share.to_string()));
    Json::object(members)
}


/// The JSON of the rules of proof of stake that the chain itself holds:
/// counts as numbers, rates and amounts as decimal text.
pub open spec fn owned_pos_value(owned: OwnedPosParams) -> JsonValue {
    JsonValue::Object(
        no_members()
            .push(("max_validator_slots"@, JsonValue::Number(owned.max_validator_slots)))
            .push(("pipeline_len"@, JsonValue::Number(owned.pipeline_len)))
            .push(("unbonding_len"@, JsonValue::Number(owned.unbonding_len)))
            .push(("tm_votes_per_token"@, JsonValue::Text(owned.tm_votes_per_token.text())))
            .push(("block_proposer_reward"@, JsonValue::Text(owned.block_proposer_reward.text())))
            .push(("block_vote_reward"@, JsonValue::Text(owned.block_vote_reward.text())))
            .push(("max_inflation_rate"@, JsonValue::Text(owned.max_inflation_rate.text())))
            .push(("target_staked_ratio"@, JsonValue::Text(owned.target_staked_ratio.text())))
            .push(
                (
                    "duplicate_vote_min_slash_rate"@,
                    JsonValue::Text(owned.duplicate_vote_min_slash_rate.text()),
                ),
            )
            .push(
                (
                    "light_client_attack_min_slash_rate"@,
                    JsonValue::Text(owned.light_client_attack_min_slash_rate.text()),
                ),
            )
            .push(
                (
                    "cubic_slashing_window_length"@,
                    JsonValue::Number(owned.cubic_slashing_window_length),
                ),
            )
            .push(
                (
                    "validator_stake_threshold"@,
                    JsonValue::Text(decimal_text(owned.validator_stake_threshold@)),
                ),
            )
            .push(("liveness_window_check"@, JsonValue::Number(owned.liveness_window_check)))
            .push(("liveness_threshold"@, JsonValue::Text(owned.liveness_threshold.text())))
            .push(("rewards_gain_p"@, JsonValue::Text(owned.rewards_gain_p.text())))
            .push(("rewards_gain_d"@, JsonValue::Text(owned.rewards_gain_d.text()))),
    )
}

/// The JSON of the rules of proof of stake.
pub open spec fn pos_value(pos_params: PosParams) -> JsonValue {
    JsonValue::Object(
        no_members()
            .push(("owned"@, owned_pos_value(pos_params.owned)))
            .push(("max_proposal_period"@, JsonValue::Number(pos_params.max_proposal_period))),
    )
}

/// The JSON of the rules of governance: every one as decimal text.
pub open spec fn governance_value(governance: GovernanceParameters) -> JsonValue {
    JsonValue::Object(
        no_members()
            .push(
            ("min_proposal_fund"@, JsonValue::Text(decimal_text(governance.min_proposal_fund@))),
        ).push(
            (
                "max_proposal_code_size"@,
                JsonValue::Text(decimal_text(governance.max_proposal_code_size as nat)),
            ),
        ).push(
            (
                "min_proposal_voting_period"@,
                JsonValue::Text(decimal_text(governance.min_proposal_voting_period as nat)),
            ),
        ).push(
            (
                "max_proposal_period"@,
                JsonValue::Text(decimal_text(governance.max_proposal_period as nat)),
            ),
        ).push(
            (
                "max_proposal_content_size"@,
                JsonValue::Text(decimal_text(governance.max_proposal_content_size as nat)),
            ),
        ).push(
            (
                "min_proposal_grace_epochs"@,
                JsonValue::Text(decimal_text(governance.min_proposal_grace_epochs as nat)),
            ),
        ),
    )
}

/// The JSON of one vote: the two addresses as they are written, and the name
/// of what was voted.
pub open spec fn vote_value(vote: Vote) -> JsonValue {
    JsonValue::Object(
        no_members()
            .push(("validator"@, JsonValue::Text(vote.validator@)))
            .push(("delegator"@, JsonValue::Text(vote.delegator@)))
            .push(("data"@, JsonValue::Text(vote.data.name()))),
    )
}

/// The JSON of each vote of `votes`, in order.
pub open spec fn vote_values(votes: Seq<Vote>) -> Seq<JsonValue> {
    Seq::new(votes.len(), |i: int| vote_value(votes[i]))
}

/// The JSON of the reward data of each asset of `rewards`, in order.
pub open spec fn reward_values(rewards: Seq<MaspTokenRewardData>) -> Seq<JsonValue> {
    Seq::new(rewards.len(), |i: int| reward_value(rewards[i]))
}

/// Each address of `addresses` as a JSON string, in order.
pub open spec fn address_values(addresses: Seq<Seq<char>>) -> Seq<JsonValue> {
    Seq::new(addresses.len(), |i: int| JsonValue::Text(addresses[i]))
}

/// The members of the JSON object of `bonds`: each validator with the
/// decimal text of what is bonded with it, in order.
pub open spec fn bond_members(bonds: Seq<(String, Amount)>) -> Seq<(Seq<char>, JsonValue)> {
    Seq::new(bonds.len(), |i: int| (bonds[i].0@, JsonValue::Text(decimal_text(bonds[i].1@))))
}

/// The JSON of an event: its kind and its level as text, and its attributes
/// as an object of strings.
pub open spec fn event_value(event: Event) -> JsonValue {
    JsonValue::Object(
        no_members()
            .push(("event_type"@, JsonValue::Text(event.event_type.text())))
            .push(("level"@, JsonValue::Text(event.level.name())))
            .push(("attributes"@, JsonValue::Object(attribute_members(event.attributes@)))),
    )
}

/// The JSON of a block: the height as a number, the hash as the array of its
/// bytes, the time as text.
pub open spec fn block_value(block: LastBlock) -> JsonValue {
    JsonValue::Object(
        no_members()
            .push(("height"@, JsonValue::Number(block.height.0)))
            .push(("hash"@, JsonValue::Array(byte_values(block.hash.0@))))
            .push(("time"@, JsonValue::Text(block.time@))),
    )
}

/// The JSON object with the one member `key`.
pub open spec fn keyed(key: Seq<char>, value: JsonValue) -> JsonValue {
    JsonValue::Object(seq![(key, value)])
}

/// What is written in place of an epoch where the node knows none.
pub const NO_EPOCH: &'static str = "None";

/// What is reported of a proposal that does not exist.
pub const NO_PROPOSAL: &'static str = "proposal not found";

/// What is written in place of the last block where the node knows none.
pub const NO_BLOCK: &'static str = "Error to query latest block";

/// The JSON that a reply of the node becomes: one object with the key of the
/// query, amounts and rates as decimal text, and what is missing said in
/// words or as `null`, never left out.
pub open spec fn normalized(result: RPCResult) -> JsonValue {
    match result {
        RPCResult::Epoch(epoch) => keyed("epoch"@, JsonValue::Number(epoch.0)),
        RPCResult::EpochAtHeight(maybe_epoch) => keyed(
            "epoch"@,
            match maybe_epoch {
                Some(epoch) => JsonValue::Number(epoch.0),
                None => JsonValue::Text(NO_EPOCH@),
            },
        ),
        RPCResult::ProposalResult(maybe_proposal) => match maybe_proposal {
            Some(proposal) => proposal_value(proposal),
            None => keyed("error"@, JsonValue::Text(NO_PROPOSAL@)),
        },
        RPCResult::ProposalVotes(votes) => keyed("data"@, JsonValue::Array(vote_values(votes@))),
        RPCResult::BalanceResult(amount) => keyed(
            "balance"@,
            JsonValue::Text(decimal_text(amount@)),
        ),
        RPCResult::ValidatorState(state) => keyed(
            "state"@,
            JsonValue::Text(validator_state_text(state)),
        ),
        RPCResult::DelegatorDelegation(validators) => keyed(
            "data"@,
            JsonValue::Array(address_values(validators@)),
        ),
        RPCResult::DelegatorDelegationAt(bonds) => keyed(
            "data"@,
            JsonValue::Object(bond_members(bonds@)),
        ),
        RPCResult::MetaData((metadata, commission)) => JsonValue::Object(
            no_members()
                .push(
                (
                    "metadata"@,
                    match metadata {
                        Some(data) => metadata_value(data),
                        None => JsonValue::Null,
                    },
                ),
            ).push(
                (
                    "commission"@,
                    match commission {
                        Some(pair) => commission_value(pair),
                        None => JsonValue::Null,
                    },
                ),
            ),
        ),
        RPCResult::GovernanceParameters(governance) => keyed(
            "data"@,
            governance_value(governance),
        ),
        RPCResult::PosParameters(pos_params) => keyed("data"@, pos_value(pos_params)),
        RPCResult::IsSteward(is_steward) => keyed("data"@, JsonValue::Bool(is_steward)),
        RPCResult::ValidatorConsensusKeys(key) => keyed("data"@, public_key_value(key)),
        RPCResult::TxEvents(event) => keyed("data"@, event_value(event)),
        RPCResult::NativeToken(token) => keyed("address"@, JsonValue::Text(token@)),
        RPCResult::LatestBlock(maybe_block) => keyed(
            "data"@,
            match maybe_block {
                Some(block) => block_value(block),
                None => JsonValue::Text(NO_BLOCK@),
            },
        ),
        RPCResult::IsValidator(is_validator) => keyed("data"@, JsonValue::Bool(is_validator)),
        RPCResult::IsDelegator(is_delegator) => keyed("data"@, JsonValue::Bool(is_delegator)),
        RPCResult::MapsReward(rewards) => keyed(
            "data"@,
            JsonValue::Array(reward_values(rewards@)),
        ),
        RPCResult::TotalStakedTokens(amount) => keyed(
            "total"@,
            JsonValue::Text(decimal_text(amount@)),
        ),
        RPCResult::ValidatorStake(amount) => keyed(
            "total"@,
            JsonValue::Text(decimal_text(amount@)),
        ),
    }
}

/// Whether a reply can be written as JSON: the count of the votes on a
/// proposal needs some voting power to take a share of; every other reply
/// can.
pub open spec fn writable(result: RPCResult) -> bool {
    result matches RPCResult::ProposalResult(Some(proposal))
        ==> proposal.total_voting_power@ > 0
}

fn votes_json(votes: &Vec<Vote>) -> (json: Json)
    ensures
        json@ == JsonValue::Array(vote_values(votes@)),
{
    let mut out = items();
    let n: usize = votes.len();
    let mut i: usize = 0;
    assert(no_values() =~= vote_values(votes@.take(0)));
    while i < n
        invariant
            i <= n,
            n == votes@.len(),
            values_of(out@) == vote_values(votes@.take(i as int)),
        decreases n - i,
    {
        push_item(&mut out, VoteWrapper::new(&votes[i]).to_json());
        assert(values_of(out@) =~= vote_values(votes@.take(i + 1)));
        i = i + 1;
    }
    assert(votes@.take(n as int) =~= votes@);
    Json::array(out)
}

fn rewards_json(rewards: &Vec<MaspTokenRewardData>) -> (json: Json)
    ensures
        json@ == JsonValue::Array(reward_values(rewards@)),
{
    let mut out = items();
    let n: usize = rewards.len();
    let mut i: usize = 0;
    assert(no_values() =~= reward_values(rewards@.take(0)));
    while i < n
        invariant
            i <= n,
            n == rewards@.len(),
            values_of(out@) == reward_values(rewards@.take(i as int)),
        decreases n - i,
    {
        push_item(&mut out, reward_json(&rewards[i]));
        assert(values_of(out@) =~= reward_values(rewards@.take(i + 1)));
        i = i + 1;
    }
    assert(rewards@.take(n as int) =~= rewards@);
    Json::array(out)
}

fn addresses_json(validators: &AddressSet) -> (json: Json)
    ensures
        json@ == JsonValue::Array(address_values(validators@)),
{
    let mut out = items();
    let n: usize = validators.len();
    let mut i: usize = 0;
    assert(no_values() =~= address_values(validators@.take(0)));
    while i < n
        invariant
            i <= n,
            n == validators@.len(),
            values_of(out@) == address_values(validators@.take(i as int)),
        decreases n - i,
    {
        push_item(&mut out, Json::text(validators.get(i).clone()));
        assert(values_of(out@) =~= address_values(validators@.take(i + 1)));
        i = i + 1;
    }
    assert(validators@.take(n as int) =~= validators@);
    Json::array(out)
}

fn bonds_json(bonds: &TextMap<Amount>) -> (json: Json)
    ensures
        json@ == JsonValue::Object(bond_members(bonds@)),
{
    let mut out = members();
    let n: usize = bonds.len();
    let mut i: usize = 0;
    assert(no_members() =~= bond_members(bonds@.take(0)));
    while i < n
        invariant
            i <= n,
            n == bonds@.len(),
            members_of(out@) == bond_members(bonds@.take(i as int)),
        decreases n - i,
    {
        let entry = bonds.entry(i);
        put(&mut out, entry.0.as_str(), Json::text(entry.1.to_string()));
        assert(members_of(out@) =~= bond_members(bonds@.take(i + 1)));
        i = i + 1;
    }
    assert(bonds@.take(n as int) =~= bonds@);
    Json::object(out)
}

/// Writes a reply of the node as JSON.
pub fn normalize(result: RPCResult) -> (json: Json)
    requires
        writable(result),
    ensures
        json@ == normalized(result),
{
    match result {
        RPCResult::Epoch(epoch_data) => Json::object1("epoch", Json::number(epoch_data.0)),
        RPCResult::EpochAtHeight(maybe_epoch) => match maybe_epoch {
            Some(epoch_data) => Json::object1("epoch", Json::number(epoch_data.0)),
            None => Json::object1("epoch", Json::literal(NO_EPOCH)),
        },
        RPCResult::ProposalResult(proposal_result) => match proposal_result {
            Some(proposal_result) => proposal_json(&proposal_result),
            None => Json::object1("error", Json::literal(NO_PROPOSAL)),
        },
        RPCResult::ProposalVotes(votes) => Json::object1("data", votes_json(&votes)),
        RPCResult::BalanceResult(amount) => Json::object1(
            "balance",
            Json::text(amount.to_string()),
        ),
        RPCResult::ValidatorState(maybe_validator_state) => match maybe_validator_state {
            Some(validator_state) => Json::object1(
                "state",
                Json::text(validator_state.to_string()),
            ),
            None => Json::object1("state", Json::literal(NO_VALIDATOR_STATE)),
        },
        RPCResult::DelegatorDelegation(delegating) => Json::object1(
            "data",
            addresses_json(&delegating),
        ),
        RPCResult::DelegatorDelegationAt(delegating) => Json::object1(
            "data",
            bonds_json(&delegating),
        ),
        RPCResult::MetaData((meta_data, commission)) => {
            let meta_data = match meta_data {
                Some(data) => metadata_json(&data),
                None => Json::null(),
            };
            let commission = match commission {
                Some(comm) => CommissionPairWrapper::new(&comm).to_json(),
                None => Json::null(),
            };
            let mut members = members();
            put(&mut members, "metadata", meta_data);
            put(&mut members, "commission", commission);
            Json::object(members)
        },
        RPCResult::GovernanceParameters(governance) => {
            let wrapped = GovernanceParametersWrapper::new(&governance);
            Json::object1("data", wrapped.to_json())
        },
        RPCResult::PosParameters(pos) => {
            let serialized_pos_params = convert_to_serializable_pos(pos);
            Json::object1("data", serialized_pos_params.to_json())
        },
        RPCResult::IsSteward(result) => Json::object1("data", Json::boolean(result)),
        RPCResult::ValidatorConsensusKeys(result) => Json::object1("data", serialize(&result)),
        RPCResult::TxEvents(event) => {
            let serializable_event = to_serializable(event);
            Json::object1("data", serializable_event.to_json())
        },
        RPCResult::NativeToken(token) => Json::object1("address", Json::text(token.0)),
        RPCResult::LatestBlock(last_block) => match last_block {
            Some(last_block) => {
                let serializable_block = block_to_serializable(&last_block);
                Json::object1("data", serializable_block.to_json())
            },
            None => Json::object1("data", Json::literal(NO_BLOCK)),
        },
        RPCResult::IsValidator(is_validator) => Json::object1("data", Json::boolean(is_validator)),
        RPCResult::IsDelegator(is_delegator) => Json::object1("data", Json::boolean(is_delegator)),
        RPCResult::MapsReward(rewards) => Json::object1("data", rewards_json(&rewards)),
        RPCResult::TotalStakedTokens(amount) => Json::object1(
            "total",
            Json::text(amount.to_string()),
        ),
        RPCResult::ValidatorStake(amount) => Json::object1(
            "total",
            Json::text(amount.to_string()),
        ),
    }
}


/// Whether a reply can be written as JSON.
pub fn is_writable(result: &RPCResult) -> (yes: bool)
    ensures
        yes == writable(*result),
{
    match result {
        RPCResult::ProposalResult(Some(proposal)) => !proposal.total_voting_power.is_zero(),
        _ => true,
    }
}

/// How the run of a query, apart from the handling of requests, ended.
#[derive(Debug, PartialEq, Eq)]
pub enum BridgeOutcome {
    /// The query ran to its end: with a reply, or with a failure of its own.
    Completed(Result<RPCResult, QueryError>),
    /// The run was cancelled before its end.
    Cancelled,
    /// The run broke off before its end.
    Aborted,
}

/// What the client gets when the run of a query ended with `outcome`: the
/// JSON of the reply; for a proposal that does not exist, the failure to find
/// it, as for everything else that is not found; the failure of the query as
/// it is; or, where the run did not reach its end, a failure of execution,
/// which is never taken for one of the node.
pub fn get_rpc_data(outcome: BridgeOutcome) -> (response: Result<Json, MyErrorWrapper>)
    requires
        outcome matches BridgeOutcome::Completed(Ok(result)) ==> writable(result),
    ensures
        match outcome {
            BridgeOutcome::Completed(Ok(RPCResult::ProposalResult(None))) => response matches Err(
                e,
            ) && e.0.kind == ErrorKind::NotFound && e.0.message@ == NO_PROPOSAL@,
            BridgeOutcome::Completed(Ok(result)) => response matches Ok(json) && json@
                == normalized(result),
            BridgeOutcome::Completed(Err(error)) => response == Err::<Json, MyErrorWrapper>(
                MyErrorWrapper(error),
            ),
            BridgeOutcome::Cancelled => response matches Err(e) && e.0.kind
                == ErrorKind::Execution && e.0.message@ == QUERY_CANCELLED@,
            BridgeOutcome::Aborted => response matches Err(e) && e.0.kind == ErrorKind::Execution
                && e.0.message@ == QUERY_ABORTED@,
        },
{
    match outcome {
        BridgeOutcome::Completed(result) => match result {
            Ok(RPCResult::ProposalResult(None)) => Err(
                MyErrorWrapper(QueryError::not_found(NO_PROPOSAL.to_owned())),
            ),
            Ok(rpc_result) => Ok(normalize(rpc_result)),
            Err(error) => Err(MyErrorWrapper(error)),
        },
        BridgeOutcome::Cancelled => Err(MyErrorWrapper(QueryError::execution(true))),
        BridgeOutcome::Aborted => Err(MyErrorWrapper(QueryError::execution(false))),
    }
}

/// [`get_rpc_data`] for every outcome: nothing where the reply cannot be
/// written as JSON, and what [`get_rpc_data`] gives everywhere else.
pub fn checked_rpc_data(outcome: BridgeOutcome) -> (response: Option<Result<Json, MyErrorWrapper>>)
    ensures
        response is None <==> (outcome matches BridgeOutcome::Completed(Ok(result)) && !writable(
            result,
        )),
        response matches Some(given) ==> match outcome {
            BridgeOutcome::Completed(Ok(RPCResult::ProposalResult(None))) => given matches Err(e)
                && e.0.kind == ErrorKind::NotFound && e.0.message@ == NO_PROPOSAL@,
            BridgeOutcome::Completed(Ok(result)) => given matches Ok(json) && json@ == normalized(
                result,
            ),
            BridgeOutcome::Completed(Err(error)) => given == Err::<Json, MyErrorWrapper>(
                MyErrorWrapper(error),
            ),
            BridgeOutcome::Cancelled => given matches Err(e) && e.0.kind == ErrorKind::Execution
                && e.0.message@ == QUERY_CANCELLED@,
            BridgeOutcome::Aborted => given matches Err(e) && e.0.kind == ErrorKind::Execution
                && e.0.message@ == QUERY_ABORTED@,
        },
{
    let answerable = match &outcome {
        BridgeOutcome::Completed(Ok(result)) => is_writable(result),
        _ => true,
    };
    if answerable {
        Some(get_rpc_data(outcome))
    } else {
        None
    }
}

/// A proposal that does not exist is reported to the client with the body
/// that its reply is written as.
pub proof fn lemma_missing_proposal_body()
    ensures
        error_body(NO_PROPOSAL@) == normalized(RPCResult::ProposalResult(None)),
{
}

/// The kinds of reply, one for each kind of query.
#[derive(Clone, Copy, Debug, PartialEq, Eq)]
pub enum ResultKind {
    Epoch,
    EpochAtHeight,
    ProposalResult,
    ProposalVotes,
    BalanceResult,
    ValidatorState,
    DelegatorDelegation,
    DelegatorDelegationAt,
    MetaData,
    GovernanceParameters,
    PosParameters,
    IsSteward,
    ValidatorConsensusKeys,
    TxEvents,
    NativeToken,
    LatestBlock,
    IsValidator,
    IsDelegator,
    MapsReward,
    TotalStakedTokens,
    ValidatorStake,
}

/// The kind of reply that answers `request`: each query has one.
pub open spec fn reply_kind(request: RPCRequestType) -> ResultKind {
    match request {
        RPCRequestType::QueryEpoch => ResultKind::Epoch,
        RPCRequestType::QueryEpochAtHeight(_) => ResultKind::EpochAtHeight,
        RPCRequestType::QueryProposalResult(_) => ResultKind::ProposalResult,
        RPCRequestType::QueryProposalVotes(_) => ResultKind::ProposalVotes,
        RPCRequestType::QueryBalance(_, _) => ResultKind::BalanceResult,
        RPCRequestType::QueryValidatorState(_, _) => ResultKind::ValidatorState,
        RPCRequestType::QueryDelegatorDelegation(_) => ResultKind::DelegatorDelegation,
        RPCRequestType::QueryDelegatorDelegationAt(_, _) => ResultKind::DelegatorDelegationAt,
        RPCRequestType::QueryMetaData(_, _) => ResultKind::MetaData,
        RPCRequestType::QueryGovernanceParameters => ResultKind::GovernanceParameters,
        RPCRequestType::QueryPosParameters => ResultKind::PosParameters,
        RPCRequestType::QueryCheckIsSteward(_) => ResultKind::IsSteward,
        RPCRequestType::QueryValidatorConsensusKeys(_) => ResultKind::ValidatorConsensusKeys,
        RPCRequestType::QueryTxEvents(_) => ResultKind::TxEvents,
        RPCRequestType::QueryNativeToken => ResultKind::NativeToken,
        RPCRequestType::QueryLatestBlock => ResultKind::LatestBlock,
        RPCRequestType::QueryCheckIsValidator(_) => ResultKind::IsValidator,
        RPCRequestType::QueryCheckIsDelegator(_) => ResultKind::IsDelegator,
        RPCRequestType::QueryMaspReward => ResultKind::MapsReward,
        RPCRequestType::QueryTotalStakedTokens(_) => ResultKind::TotalStakedTokens,
        RPCRequestType::QueryValidatorStaked(_, _) => ResultKind::ValidatorStake,
    }
}

/// The kind of the reply `result`.
pub open spec fn kind_of(result: RPCResult) -> ResultKind {
    match result {
        RPCResult::Epoch(_) => ResultKind::Epoch,
        RPCResult::EpochAtHeight(_) => ResultKind::EpochAtHeight,
        RPCResult::ProposalResult(_) => ResultKind::ProposalResult,
        RPCResult::ProposalVotes(_) => ResultKind::ProposalVotes,
        RPCResult::BalanceResult(_) => ResultKind::BalanceResult,
        RPCResult::ValidatorState(_) => ResultKind::ValidatorState,
        RPCResult::DelegatorDelegation(_) => ResultKind::DelegatorDelegation,
        RPCResult::DelegatorDelegationAt(_) => ResultKind::DelegatorDelegationAt,
        RPCResult::MetaData(_) => ResultKind::MetaData,
        RPCResult::GovernanceParameters(_) => ResultKind::GovernanceParameters,
        RPCResult::PosParameters(_) => ResultKind::PosParameters,
        RPCResult::IsSteward(_) => ResultKind::IsSteward,
        RPCResult::ValidatorConsensusKeys(_) => ResultKind::ValidatorConsensusKeys,
        RPCResult::TxEvents(_) => ResultKind::TxEvents,
        RPCResult::NativeToken(_) => ResultKind::NativeToken,
        RPCResult::LatestBlock(_) => ResultKind::LatestBlock,
        RPCResult::IsValidator(_) => ResultKind::IsValidator,
        RPCResult::IsDelegator(_) => ResultKind::IsDelegator,
        RPCResult::MapsReward(_) => ResultKind::MapsReward,
        RPCResult::TotalStakedTokens(_) => ResultKind::TotalStakedTokens,
        RPCResult::ValidatorStake(_) => ResultKind::ValidatorStake,
    }
}

/// The key under which a reply of `kind` stands in its JSON object: the
/// first key, where there are several.
pub open spec fn top_key(kind: ResultKind) -> Seq<char> {
    match kind {
        ResultKind::Epoch => "epoch"@,
        ResultKind::EpochAtHeight => "epoch"@,
        ResultKind::ProposalResult => "result"@,
        ResultKind::ProposalVotes => "data"@,
        ResultKind::BalanceResult => "balance"@,
        ResultKind::ValidatorState => "state"@,
        ResultKind::DelegatorDelegation => "data"@,
        ResultKind::DelegatorDelegationAt => "data"@,
        ResultKind::MetaData => "metadata"@,
        ResultKind::GovernanceParameters => "data"@,
        ResultKind::PosParameters => "data"@,
        ResultKind::IsSteward => "data"@,
        ResultKind::ValidatorConsensusKeys => "data"@,
        ResultKind::TxEvents => "data"@,
        ResultKind::NativeToken => "address"@,
        ResultKind::LatestBlock => "data"@,
        ResultKind::IsValidator => "data"@,
        ResultKind::IsDelegator => "data"@,
        ResultKind::MapsReward => "data"@,
        ResultKind::TotalStakedTokens => "total"@,
        ResultKind::ValidatorStake => "total"@,
    }
}

impl RPCRequestType {
    /// The kind of reply that answers this query.
    pub fn reply_kind(&self) -> (kind: ResultKind)
        ensures
            kind == reply_kind(*self),
    {
        match self {
            RPCRequestType::QueryEpoch => ResultKind::Epoch,
            RPCRequestType::QueryEpochAtHeight(_) => ResultKind::EpochAtHeight,
            RPCRequestType::QueryProposalResult(_) => ResultKind::ProposalResult,
            RPCRequestType::QueryProposalVotes(_) => ResultKind::ProposalVotes,
            RPCRequestType::QueryBalance(_, _) => ResultKind::BalanceResult,
            RPCRequestType::QueryValidatorState(_, _) => ResultKind::ValidatorState,
            RPCRequestType::QueryDelegatorDelegation(_) => ResultKind::DelegatorDelegation,
            RPCRequestType::QueryDelegatorDelegationAt(_, _) => ResultKind::DelegatorDelegationAt,
            RPCRequestType::QueryMetaData(_, _) => ResultKind::MetaData,
            RPCRequestType::QueryGovernanceParameters => ResultKind::GovernanceParameters,
            RPCRequestType::QueryPosParameters => ResultKind::PosParameters,
            RPCRequestType::QueryCheckIsSteward(_) => ResultKind::IsSteward,
            RPCRequestType::QueryValidatorConsensusKeys(_) => ResultKind::ValidatorConsensusKeys,
            RPCRequestType::QueryTxEvents(_) => ResultKind::TxEvents,
            RPCRequestType::QueryNativeToken => ResultKind::NativeToken,
            RPCRequestType::QueryLatestBlock => ResultKind::LatestBlock,
            RPCRequestType::QueryCheckIsValidator(_) => ResultKind::IsValidator,
            RPCRequestType::QueryCheckIsDelegator(_) => ResultKind::IsDelegator,
            RPCRequestType::QueryMaspReward => ResultKind::MapsReward,
            RPCRequestType::QueryTotalStakedTokens(_) => ResultKind::TotalStakedTokens,
            RPCRequestType::QueryValidatorStaked(_, _) => ResultKind::ValidatorStake,
        }
    }

    /// Whether `result` is of the kind that answers this query.
    pub fn is_answered_by(&self, result: &RPCResult) -> (yes: bool)
        ensures
            yes == (kind_of(*result) == reply_kind(*self)),
    {
        result.kind().same(self.reply_kind())
    }
}

impl RPCResult {
    /// The kind of this reply.
    pub fn kind(&self) -> (kind: ResultKind)
        ensures
            kind == kind_of(*self),
    {
        match self {
            RPCResult::Epoch(_) => ResultKind::Epoch,
            RPCResult::EpochAtHeight(_) => ResultKind::EpochAtHeight,
            RPCResult::ProposalResult(_) => ResultKind::ProposalResult,
            RPCResult::ProposalVotes(_) => ResultKind::ProposalVotes,
            RPCResult::BalanceResult(_) => ResultKind::BalanceResult,
            RPCResult::ValidatorState(_) => ResultKind::ValidatorState,
            RPCResult::DelegatorDelegation(_) => ResultKind::DelegatorDelegation,
            RPCResult::DelegatorDelegationAt(_) => ResultKind::DelegatorDelegationAt,
            RPCResult::MetaData(_) => ResultKind::MetaData,
            RPCResult::GovernanceParameters(_) => ResultKind::GovernanceParameters,
            RPCResult::PosParameters(_) => ResultKind::PosParameters,
            RPCResult::IsSteward(_) => ResultKind::IsSteward,
            RPCResult::ValidatorConsensusKeys(_) => ResultKind::ValidatorConsensusKeys,
            RPCResult::TxEvents(_) => ResultKind::TxEvents,
            RPCResult::NativeToken(_) => ResultKind::NativeToken,
            RPCResult::LatestBlock(_) => ResultKind::LatestBlock,
            RPCResult::IsValidator(_) => ResultKind::IsValidator,
            RPCResult::IsDelegator(_) => ResultKind::IsDelegator,
            RPCResult::MapsReward(_) => ResultKind::MapsReward,
            RPCResult::TotalStakedTokens(_) => ResultKind::TotalStakedTokens,
            RPCResult::ValidatorStake(_) => ResultKind::ValidatorStake,
        }
    }
}

impl ResultKind {
    /// The key under which a reply of this kind stands.
    pub fn key(&self) -> (key: &'static str)
        ensures
            key@ == top_key(*self),
    {
        match self {
            ResultKind::Epoch => "epoch",
            ResultKind::EpochAtHeight => "epoch",
            ResultKind::ProposalResult => "result",
            ResultKind::ProposalVotes => "data",
            ResultKind::BalanceResult => "balance",
            ResultKind::ValidatorState => "state",
            ResultKind::DelegatorDelegation => "data",
            ResultKind::DelegatorDelegationAt => "data",
            ResultKind::MetaData => "metadata",
            ResultKind::GovernanceParameters => "data",
            ResultKind::PosParameters => "data",
            ResultKind::IsSteward => "data",
            ResultKind::ValidatorConsensusKeys => "data",
            ResultKind::TxEvents => "data",
            ResultKind::NativeToken => "address",
            ResultKind::LatestBlock => "data",
            ResultKind::IsValidator => "data",
            ResultKind::IsDelegator => "data",
            ResultKind::MapsReward => "data",
            ResultKind::TotalStakedTokens => "total",
            ResultKind::ValidatorStake => "total",
        }
    }

    /// Whether this kind and `other` are one kind.
    pub fn same(self, other: ResultKind) -> (yes: bool)
        ensures
            yes == (self == other),
    {
        match (self, other) {
            (ResultKind::Epoch, ResultKind::Epoch) => true,
            (ResultKind::EpochAtHeight, ResultKind::EpochAtHeight) => true,
            (ResultKind::ProposalResult, ResultKind::ProposalResult) => true,
            (ResultKind::ProposalVotes, ResultKind::ProposalVotes) => true,
            (ResultKind::BalanceResult, ResultKind::BalanceResult) => true,
            (ResultKind::ValidatorState, ResultKind::ValidatorState) => true,
            (ResultKind::DelegatorDelegation, ResultKind::DelegatorDelegation) => true,
            (ResultKind::DelegatorDelegationAt, ResultKind::DelegatorDelegationAt) => true,
            (ResultKind::MetaData, ResultKind::MetaData) => true,
            (ResultKind::GovernanceParameters, ResultKind::GovernanceParameters) => true,
            (ResultKind::PosParameters, ResultKind::PosParameters) => true,
            (ResultKind::IsSteward, ResultKind::IsSteward) => true,
            (ResultKind::ValidatorConsensusKeys, ResultKind::ValidatorConsensusKeys) => true,
            (ResultKind::TxEvents, ResultKind::TxEvents) => true,
            (ResultKind::NativeToken, ResultKind::NativeToken) => true,
            (ResultKind::LatestBlock, ResultKind::LatestBlock) => true,
            (ResultKind::IsValidator, ResultKind::IsValidator) => true,
            (ResultKind::IsDelegator, ResultKind::IsDelegator) => true,
            (ResultKind::MapsReward, ResultKind::MapsReward) => true,
            (ResultKind::TotalStakedTokens, ResultKind::TotalStakedTokens) => true,
            (ResultKind::ValidatorStake, ResultKind::ValidatorStake) => true,
            _ => false,
        }
    }
}

/// Every reply becomes one JSON object. Its first key is the key of its
/// kind, but for a proposal that does not exist, which is reported under
/// `error`. The count of the votes on a proposal and the metadata of a
/// validator have further keys; every other reply has this one key alone.
pub proof fn lemma_one_object_per_reply(result: RPCResult)
    ensures
        normalized(result) is Object,
        normalized(result)->Object_0.len() >= 1,
        !(result matches RPCResult::ProposalResult(None)) ==> normalized(result)->Object_0[0].0
            == top_key(kind_of(result)),
        result matches RPCResult::ProposalResult(None) ==> normalized(result)->Object_0[0].0
            == "error"@,
        !(result is ProposalResult) && !(result is MetaData) ==> normalized(
            result,
        )->Object_0.len() == 1,
{
}

/// The JSON of a reply depends on the reply alone: the same reply is written
/// the same way every time.
pub proof fn lemma_same_reply_same_json(first: RPCResult, second: RPCResult)
    requires
        first == second,
    ensures
        normalized(first) == normalized(second),
{
}

} // verus!

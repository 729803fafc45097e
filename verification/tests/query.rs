use namada_rest::amount::Amount;
use namada_rest::collections::{AddressSet, TextMap};
use namada_rest::dec::Dec;
use namada_rest::error::{ErrorKind, MyErrorWrapper, QueryError, FAILURE_STATUS};
use namada_rest::event::{Event, EventLevel, EventType};
use namada_rest::json::Json;
use namada_rest::query::{
    block_to_serializable, check_is_delegator, check_is_validator, check_steward,
    convert_to_serializable_pos, get_balance, get_delegators_delegation,
    get_delegators_delegation_at, get_epoch, get_epoch_at_height, get_governance_parameters,
    get_latest_block, get_masp_reward, get_meta_data, get_native_token, get_pos_parameters,
    checked_rpc_data, get_proposal_votes, get_proposals, get_rpc_data, get_total_staked_tokens, get_tx_events,
    get_validator_consensus_keys, get_validator_stake, get_validator_state, is_writable,
    normalize, serialize, threshold, to_serializable, BridgeOutcome, CommissionPairWrapper,
    RPCRequestType, RPCResult, VoteWrapper, NAAN_ADDRESS,
};
use namada_rest::types::{
    Address, BlockHash, BlockHeight, CommissionPair, Epoch, GovernanceParameters, LastBlock,
    MaspTokenRewardData, OwnedPosParams, PosParams, ProposalResult, ProposalVote, PublicKey,
    TallyResult, TallyType, ValidatorMetaData, ValidatorState, Vote,
};

fn text(s: &str) -> Json {
    Json::Text(s.to_string())
}

fn object(members: Vec<(&str, Json)>) -> Json {
    Json::Object(members.into_iter().map(|(key, value)| (key.to_string(), value)).collect())
}

fn address(s: &str) -> Address {
    Address(s.to_string())
}

fn dec(raw: u64) -> Dec {
    Dec::new(false, Amount::from_u64(raw))
}

fn proposal(tally_type: TallyType, total: u64) -> ProposalResult {
    ProposalResult {
        result: TallyResult::Passed,
        tally_type,
        total_voting_power: Amount::from_u64(total),
        total_yay_power: Amount::from_u64(250),
        total_nay_power: Amount::from_u64(30),
        total_abstain_power: Amount::from_u64(20),
    }
}

#[test]
fn requests_carry_their_parameters() {
    assert_eq!(get_epoch(), RPCRequestType::QueryEpoch);
    assert_eq!(
        get_epoch_at_height(BlockHeight(9)),
        RPCRequestType::QueryEpochAtHeight(BlockHeight(9))
    );
    assert_eq!(get_proposals(7), RPCRequestType::QueryProposalResult(7));
    assert_eq!(get_proposals(u32::MAX), RPCRequestType::QueryProposalResult(4_294_967_295));
    assert_eq!(get_proposal_votes(7), RPCRequestType::QueryProposalVotes(7));
    assert_eq!(
        get_validator_state(address("tnam1v"), Epoch(3)),
        RPCRequestType::QueryValidatorState(address("tnam1v"), Some(Epoch(3)))
    );
    assert_eq!(
        get_delegators_delegation(address("tnam1d")),
        RPCRequestType::QueryDelegatorDelegation(address("tnam1d"))
    );
    assert_eq!(
        get_delegators_delegation_at(address("tnam1d"), Epoch(4)),
        RPCRequestType::QueryDelegatorDelegationAt(address("tnam1d"), Epoch(4))
    );
    assert_eq!(
        get_meta_data(address("tnam1v"), Epoch(5)),
        RPCRequestType::QueryMetaData(address("tnam1v"), Some(Epoch(5)))
    );
    assert_eq!(get_governance_parameters(), RPCRequestType::QueryGovernanceParameters);
    assert_eq!(get_pos_parameters(), RPCRequestType::QueryPosParameters);
    assert_eq!(
        check_steward(address("tnam1s")),
        RPCRequestType::QueryCheckIsSteward(address("tnam1s"))
    );
    assert_eq!(
        get_validator_consensus_keys(address("tnam1v")),
        RPCRequestType::QueryValidatorConsensusKeys(address("tnam1v"))
    );
    assert_eq!(
        get_tx_events("ABCD".to_string()),
        RPCRequestType::QueryTxEvents("ABCD".to_string())
    );
    assert_eq!(get_native_token(), RPCRequestType::QueryNativeToken);
    assert_eq!(get_latest_block(), RPCRequestType::QueryLatestBlock);
    assert_eq!(
        check_is_validator(address("tnam1v")),
        RPCRequestType::QueryCheckIsValidator(address("tnam1v"))
    );
    assert_eq!(
        check_is_delegator(address("tnam1d")),
        RPCRequestType::QueryCheckIsDelegator(address("tnam1d"))
    );
    assert_eq!(get_masp_reward(), RPCRequestType::QueryMaspReward);
    assert_eq!(
        get_total_staked_tokens(Epoch(6)),
        RPCRequestType::QueryTotalStakedTokens(Epoch(6))
    );
    assert_eq!(
        get_validator_stake(address("tnam1v"), Epoch(6)),
        RPCRequestType::QueryValidatorStaked(Epoch(6), address("tnam1v"))
    );
}

#[test]
fn balance_request_names_the_native_token() {
    let request = get_balance(Some(address(NAAN_ADDRESS)), address("tnam1owner"));
    assert_eq!(
        request,
        Ok(RPCRequestType::QueryBalance(
            address("tnam1qxvg64psvhwumv3mwrrjfcz0h3t3274hwggyzcee"),
            address("tnam1owner")
        ))
    );
}

#[test]
fn balance_request_without_token_is_a_decode_error() {
    let request = get_balance(None, address("tnam1owner"));
    match request {
        Err(MyErrorWrapper(error)) => {
            assert_eq!(error.kind, ErrorKind::Decode);
            assert_eq!(error.message, "Error decoding address.");
            assert_eq!(error.to_string(), "Error decoding address.");
        }
        Ok(_) => panic!("a request was built without a token"),
    }
}

#[test]
fn threshold_of_two_thirds() {
    assert_eq!(threshold(TallyType::TwoThirds, &Amount::from_u64(300)), Amount::from_u64(200));
    assert_eq!(threshold(TallyType::TwoThirds, &Amount::from_u64(301)), Amount::from_u64(201));
    assert_eq!(threshold(TallyType::TwoThirds, &Amount::from_u64(1)), Amount::from_u64(1));
    assert_eq!(threshold(TallyType::TwoThirds, &Amount::zero()), Amount::zero());
}

#[test]
fn threshold_of_one_third() {
    assert_eq!(
        threshold(TallyType::OneHalfOverOneThird, &Amount::from_u64(300)),
        Amount::from_u64(100)
    );
    assert_eq!(
        threshold(TallyType::LessOneHalfOverOneThirdNay, &Amount::from_u64(300)),
        Amount::from_u64(100)
    );
    assert_eq!(
        threshold(TallyType::OneHalfOverOneThird, &Amount::from_u64(100)),
        Amount::from_u64(34)
    );
}

#[test]
fn proposal_result_two_thirds() {
    let json = normalize(RPCResult::ProposalResult(Some(proposal(TallyType::TwoThirds, 300))));
    assert_eq!(
        json,
        object(vec![
            ("result", text("passed")),
            ("total_voting_power", text("300")),
            ("total_yay_power", text("250")),
            ("total_nay_power", text("30")),
            ("total_abstain_power", text("20")),
            ("threshold", text("200")),
            ("thresh_frac", text("0.666666666666")),
        ])
    );
}

#[test]
fn proposal_result_other_tally_types() {
    for tally_type in [TallyType::OneHalfOverOneThird, TallyType::LessOneHalfOverOneThirdNay] {
        let mut result = proposal(tally_type, 300);
        result.result = TallyResult::Rejected;
        let json = normalize(RPCResult::ProposalResult(Some(result)));
        assert_eq!(
            json,
            object(vec![
                ("result", text("rejected")),
                ("total_voting_power", text("300")),
                ("total_yay_power", text("250")),
                ("total_nay_power", text("30")),
                ("total_abstain_power", text("20")),
                ("threshold", text("100")),
                ("thresh_frac", text("0.333333333333")),
            ])
        );
    }
}

#[test]
fn proposal_result_missing() {
    let json = normalize(RPCResult::ProposalResult(None));
    assert_eq!(json, object(vec![("error", text("proposal not found"))]));
}

#[test]
fn proposal_without_voting_power_is_not_writable() {
    assert!(!is_writable(&RPCResult::ProposalResult(Some(proposal(TallyType::TwoThirds, 0)))));
    assert!(is_writable(&RPCResult::ProposalResult(Some(proposal(TallyType::TwoThirds, 1)))));
    assert!(is_writable(&RPCResult::ProposalResult(None)));
    assert!(is_writable(&RPCResult::Epoch(Epoch(1))));
}

#[test]
fn epoch_replies() {
    assert_eq!(normalize(RPCResult::Epoch(Epoch(42))), object(vec![("epoch", Json::Number(42))]));
    assert_eq!(
        normalize(RPCResult::EpochAtHeight(Some(Epoch(7)))),
        object(vec![("epoch", Json::Number(7))])
    );
    assert_eq!(
        normalize(RPCResult::EpochAtHeight(None)),
        object(vec![("epoch", text("None"))])
    );
}

#[test]
fn validator_state_names() {
    let names = [
        (ValidatorState::Consensus, "Consensus"),
        (ValidatorState::BelowCapacity, "BelowCapacity"),
        (ValidatorState::BelowThreshold, "BelowThreshold"),
        (ValidatorState::Inactive, "Inactive"),
        (ValidatorState::Jailed, "Jailed"),
    ];
    for (state, name) in names {
        assert_eq!(state.to_string(), name);
        assert_eq!(
            normalize(RPCResult::ValidatorState(Some(state))),
            object(vec![("state", text(name))])
        );
    }
    let missing = normalize(RPCResult::ValidatorState(None));
    for (_, name) in names {
        assert_ne!(missing, object(vec![("state", text(name))]));
    }
}

#[test]
fn votes_keep_their_order() {
    let votes = vec![
        Vote {
            validator: address("tnam1v1"),
            delegator: address("tnam1d1"),
            data: ProposalVote::Yay,
        },
        Vote {
            validator: address("tnam1v2"),
            delegator: address("tnam1d2"),
            data: ProposalVote::Nay,
        },
        Vote {
            validator: address("tnam1v3"),
            delegator: address("tnam1d3"),
            data: ProposalVote::Abstain,
        },
    ];
    let wrapper = VoteWrapper::new(&votes[0]);
    assert_eq!(wrapper.validator, "tnam1v1");
    assert_eq!(wrapper.delegator, "tnam1d1");
    assert_eq!(wrapper.data, "yay");
    let vote = |v: &str, d: &str, data: &str| {
        object(vec![("validator", text(v)), ("delegator", text(d)), ("data", text(data))])
    };
    assert_eq!(
        normalize(RPCResult::ProposalVotes(votes)),
        object(vec![(
            "data",
            Json::Array(vec![
                vote("tnam1v1", "tnam1d1", "yay"),
                vote("tnam1v2", "tnam1d2", "nay"),
                vote("tnam1v3", "tnam1d3", "abstain"),
            ])
        )])
    );
    assert_eq!(
        normalize(RPCResult::ProposalVotes(Vec::new())),
        object(vec![("data", Json::Array(Vec::new()))])
    );
}

#[test]
fn delegations_as_set_and_as_map() {
    let set = AddressSet::new()
        .insert(address("tnam1v1"))
        .insert(address("tnam1v2"))
        .insert(address("tnam1v1"));
    assert_eq!(set.len(), 2);
    assert_eq!(
        normalize(RPCResult::DelegatorDelegation(set)),
        object(vec![("data", Json::Array(vec![text("tnam1v1"), text("tnam1v2")]))])
    );
    let bonds = TextMap::new()
        .insert("tnam1v1".to_string(), Amount::from_u64(5))
        .insert("tnam1v2".to_string(), Amount::from_u64(6))
        .insert("tnam1v1".to_string(), Amount::from_u64(7));
    assert_eq!(bonds.len(), 2);
    assert_eq!(
        normalize(RPCResult::DelegatorDelegationAt(bonds)),
        object(vec![("data", object(vec![("tnam1v1", text("7")), ("tnam1v2", text("6"))]))])
    );
}

#[test]
fn metadata_and_commission() {
    let metadata = ValidatorMetaData {
        email: "v@example.org".to_string(),
        description: Some("a validator".to_string()),
        website: None,
        discord_handle: None,
        avatar: Some("https://example.org/a.png".to_string()),
    };
    let commission = CommissionPair {
        commission_rate: dec(50_000_000_000),
        max_commission_change_per_epoch: dec(10_000_000_000),
    };
    let wrapper = CommissionPairWrapper::new(&commission);
    assert_eq!(wrapper.commission_rate, "0.05");
    assert_eq!(wrapper.max_commission_change_per_epoch, "0.01");
    assert_eq!(
        normalize(RPCResult::MetaData((Some(metadata), Some(commission)))),
        object(vec![
            (
                "metadata",
                object(vec![
                    ("email", text("v@example.org")),
                    ("description", text("a validator")),
                    ("website", Json::Null),
                    ("discord_handle", Json::Null),
                    ("avatar", text("https://example.org/a.png")),
                ])
            ),
            (
                "commission",
                object(vec![
                    ("commission_rate", text("0.05")),
                    ("max_commission_change_per_epoch", text("0.01")),
                ])
            ),
        ])
    );
    assert_eq!(
        normalize(RPCResult::MetaData((None, None))),
        object(vec![("metadata", Json::Null), ("commission", Json::Null)])
    );
}

#[test]
fn governance_parameters_are_all_text() {
    let governance = GovernanceParameters {
        min_proposal_fund: Amount::from_u64(500_000_000),
        max_proposal_code_size: 600_000,
        min_proposal_voting_period: 3,
        max_proposal_period: 27,
        max_proposal_content_size: 10_000,
        min_proposal_grace_epochs: 6,
    };
    assert_eq!(
        normalize(RPCResult::GovernanceParameters(governance)),
        object(vec![(
            "data",
            object(vec![
                ("min_proposal_fund", text("500000000")),
                ("max_proposal_code_size", text("600000")),
                ("min_proposal_voting_period", text("3")),
                ("max_proposal_period", text("27")),
                ("max_proposal_content_size", text("10000")),
                ("min_proposal_grace_epochs", text("6")),
            ])
        )])
    );
}

fn pos_params() -> PosParams {
    PosParams {
        owned: OwnedPosParams {
            max_validator_slots: 100,
            pipeline_len: 2,
            unbonding_len: 21,
            tm_votes_per_token: dec(1_000_000_000_000),
            block_proposer_reward: dec(125_000_000_000),
            block_vote_reward: dec(100_000_000_000),
            max_inflation_rate: dec(100_000_000_000),
            target_staked_ratio: dec(666_700_000_000),
            duplicate_vote_min_slash_rate: dec(1_000_000_000),
            light_client_attack_min_slash_rate: dec(1_000_000_000),
            cubic_slashing_window_length: 1,
            validator_stake_threshold: Amount::from_u64(1_000_000),
            liveness_window_check: 10_000,
            liveness_threshold: dec(900_000_000_000),
            rewards_gain_p: dec(250_000_000_000),
            rewards_gain_d: dec(250_000_000_000),
        },
        max_proposal_period: 27,
    }
}

#[test]
fn pos_parameters_made_serializable() {
    let out = convert_to_serializable_pos(pos_params());
    assert_eq!(out.max_proposal_period, 27);
    assert_eq!(out.owned.max_validator_slots, 100);
    assert_eq!(out.owned.pipeline_len, 2);
    assert_eq!(out.owned.unbonding_len, 21);
    assert_eq!(out.owned.tm_votes_per_token, "1");
    assert_eq!(out.owned.block_proposer_reward, "0.125");
    assert_eq!(out.owned.block_vote_reward, "0.1");
    assert_eq!(out.owned.max_inflation_rate, "0.1");
    assert_eq!(out.owned.target_staked_ratio, "0.6667");
    assert_eq!(out.owned.duplicate_vote_min_slash_rate, "0.001");
    assert_eq!(out.owned.light_client_attack_min_slash_rate, "0.001");
    assert_eq!(out.owned.cubic_slashing_window_length, 1);
    assert_eq!(out.owned.validator_stake_threshold, "1000000");
    assert_eq!(out.owned.liveness_window_check, 10_000);
    assert_eq!(out.owned.liveness_threshold, "0.9");
    assert_eq!(out.owned.rewards_gain_p, "0.25");
    assert_eq!(out.owned.rewards_gain_d, "0.25");
}

#[test]
fn pos_parameters_reply() {
    assert_eq!(
        normalize(RPCResult::PosParameters(pos_params())),
        object(vec![(
            "data",
            object(vec![
                (
                    "owned",
                    object(vec![
                        ("max_validator_slots", Json::Number(100)),
                        ("pipeline_len", Json::Number(2)),
                        ("unbonding_len", Json::Number(21)),
                        ("tm_votes_per_token", text("1")),
                        ("block_proposer_reward", text("0.125")),
                        ("block_vote_reward", text("0.1")),
                        ("max_inflation_rate", text("0.1")),
                        ("target_staked_ratio", text("0.6667")),
                        ("duplicate_vote_min_slash_rate", text("0.001")),
                        ("light_client_attack_min_slash_rate", text("0.001")),
                        ("cubic_slashing_window_length", Json::Number(1)),
                        ("validator_stake_threshold", text("1000000")),
                        ("liveness_window_check", Json::Number(10_000)),
                        ("liveness_threshold", text("0.9")),
                        ("rewards_gain_p", text("0.25")),
                        ("rewards_gain_d", text("0.25")),
                    ])
                ),
                ("max_proposal_period", Json::Number(27)),
            ])
        )])
    );
}

#[test]
fn yes_and_no_replies() {
    assert_eq!(normalize(RPCResult::IsSteward(true)), object(vec![("data", Json::Bool(true))]));
    assert_eq!(normalize(RPCResult::IsValidator(false)), object(vec![("data", Json::Bool(false))]));
    assert_eq!(normalize(RPCResult::IsDelegator(true)), object(vec![("data", Json::Bool(true))]));
}

#[test]
fn public_keys_as_text() {
    let ed = Some(PublicKey::Ed25519(vec![0x00, 0xab, 0xff, 0x10]));
    let secp = Some(PublicKey::Secp256k1(vec![0x02, 0x9f]));
    assert_eq!(serialize(&ed), text("00abff10"));
    assert_eq!(serialize(&secp), text("029f"));
    assert_eq!(serialize(&None), Json::Null);
    assert_eq!(
        normalize(RPCResult::ValidatorConsensusKeys(ed)),
        object(vec![("data", text("00abff10"))])
    );
    assert_eq!(
        normalize(RPCResult::ValidatorConsensusKeys(None)),
        object(vec![("data", Json::Null)])
    );
}

#[test]
fn event_made_serializable() {
    let attributes = TextMap::new()
        .insert("hash".to_string(), "ABCD".to_string())
        .insert("code".to_string(), "0".to_string());
    let event = Event { event_type: EventType::Applied, level: EventLevel::Tx, attributes };
    let out = to_serializable(event);
    assert_eq!(out.event_type, "Applied");
    assert_eq!(out.level, "Tx");
    assert_eq!(out.attributes.len(), 2);
    assert_eq!(
        out.to_json(),
        object(vec![
            ("event_type", text("Applied")),
            ("level", text("Tx")),
            ("attributes", object(vec![("hash", text("ABCD")), ("code", text("0"))])),
        ])
    );
}

#[test]
fn event_kinds_as_text() {
    assert_eq!(EventType::Accepted.to_string(), "Accepted");
    assert_eq!(EventType::Applied.to_string(), "Applied");
    assert_eq!(EventType::Proposal.to_string(), "Proposal");
    assert_eq!(EventType::PgfPayment.to_string(), "PgfPayment");
    assert_eq!(EventType::EthereumBridge.to_string(), "EthereumBridge");
    assert_eq!(EventType::Ibc("send_packet".to_string()).to_string(), "Ibc(\"send_packet\")");
    assert_eq!(EventType::Ibc("a\"b\n".to_string()).to_string(), "Ibc(\"a\\\"b\\n\")");
    assert_eq!(EventLevel::Block.to_string(), "Block");
    assert_eq!(EventLevel::Tx.to_string(), "Tx");
}

#[test]
fn tx_event_reply() {
    let event = Event {
        event_type: EventType::Accepted,
        level: EventLevel::Tx,
        attributes: TextMap::new(),
    };
    assert_eq!(
        normalize(RPCResult::TxEvents(event)),
        object(vec![(
            "data",
            object(vec![
                ("event_type", text("Accepted")),
                ("level", text("Tx")),
                ("attributes", object(vec![])),
            ])
        )])
    );
}

#[test]
fn native_token_reply() {
    assert_eq!(
        normalize(RPCResult::NativeToken(address(NAAN_ADDRESS))),
        object(vec![("address", text("tnam1qxvg64psvhwumv3mwrrjfcz0h3t3274hwggyzcee"))])
    );
}

#[test]
fn last_block_reply() {
    let block = LastBlock {
        height: BlockHeight(1234),
        hash: BlockHash(vec![0, 1, 255]),
        time: "2024-02-01T10:00:00+00:00".to_string(),
    };
    let out = block_to_serializable(&block);
    assert_eq!(out.height, BlockHeight(1234));
    assert_eq!(out.hash, BlockHash(vec![0, 1, 255]));
    assert_eq!(out.time, "2024-02-01T10:00:00+00:00");
    assert_eq!(
        normalize(RPCResult::LatestBlock(Some(block))),
        object(vec![(
            "data",
            object(vec![
                ("height", Json::Number(1234)),
                ("hash", Json::Array(vec![Json::Number(0), Json::Number(1), Json::Number(255)])),
                ("time", text("2024-02-01T10:00:00+00:00")),
            ])
        )])
    );
    assert_eq!(
        normalize(RPCResult::LatestBlock(None)),
        object(vec![("data", text("Error to query latest block"))])
    );
}

#[test]
fn masp_reward_reply() {
    let rewards = vec![
        MaspTokenRewardData {
            name: "NAM".to_string(),
            address: address("tnam1nam"),
            max_reward_rate: dec(10_000_000_000),
            kp_gain: dec(120_000_000_000),
            kd_gain: dec(1_000_000_000_000),
            locked_amount_target: Amount::from_u64(840_000),
        },
        MaspTokenRewardData {
            name: "BTC".to_string(),
            address: address("tnam1btc"),
            max_reward_rate: dec(0),
            kp_gain: dec(0),
            kd_gain: dec(0),
            locked_amount_target: Amount::zero(),
        },
    ];
    assert_eq!(
        normalize(RPCResult::MapsReward(rewards)),
        object(vec![(
            "data",
            Json::Array(vec![
                object(vec![
                    ("name", text("NAM")),
                    ("address", text("tnam1nam")),
                    ("max_reward_rate", text("0.01")),
                    ("kp_gain", text("0.12")),
                    ("kd_gain", text("1")),
                    ("locked_amount_target", text("840000")),
                ]),
                object(vec![
                    ("name", text("BTC")),
                    ("address", text("tnam1btc")),
                    ("max_reward_rate", text("0")),
                    ("kp_gain", text("0")),
                    ("kd_gain", text("0")),
                    ("locked_amount_target", text("0")),
                ]),
            ])
        )])
    );
}

#[test]
fn staked_totals() {
    assert_eq!(
        normalize(RPCResult::TotalStakedTokens(Amount::from_u64(77))),
        object(vec![("total", text("77"))])
    );
    assert_eq!(
        normalize(RPCResult::ValidatorStake(Amount::from_u64(78))),
        object(vec![("total", text("78"))])
    );
    assert_eq!(
        normalize(RPCResult::BalanceResult(Amount::from_u64(1_000_000))),
        object(vec![("balance", text("1000000"))])
    );
}

#[test]
fn completed_query_gives_its_json() {
    let response = get_rpc_data(BridgeOutcome::Completed(Ok(RPCResult::Epoch(Epoch(42)))));
    assert_eq!(response, Ok(object(vec![("epoch", Json::Number(42))])));
}

#[test]
fn failed_query_keeps_its_error() {
    let error = QueryError::upstream("connection refused".to_string());
    let response = get_rpc_data(BridgeOutcome::Completed(Err(error)));
    assert_eq!(
        response,
        Err(MyErrorWrapper(QueryError {
            kind: ErrorKind::Upstream,
            message: "connection refused".to_string()
        }))
    );
}

#[test]
fn broken_run_is_an_execution_error() {
    for (outcome, message) in [
        (BridgeOutcome::Cancelled, "The query was cancelled before it completed."),
        (BridgeOutcome::Aborted, "The query failed to run to completion."),
    ] {
        match get_rpc_data(outcome) {
            Err(MyErrorWrapper(error)) => {
                assert_eq!(error.kind, ErrorKind::Execution);
                assert_eq!(error.message, message);
            }
            Ok(_) => panic!("a broken run gave a reply"),
        }
    }
}

#[test]
fn every_error_has_the_same_envelope() {
    let errors = vec![
        QueryError::decode(),
        QueryError::upstream("node down".to_string()),
        QueryError::not_found("nothing there".to_string()),
        QueryError::execution(true),
        QueryError::execution(false),
    ];
    for error in errors {
        let message = error.to_string();
        let response = MyErrorWrapper(error).into_response();
        assert_eq!(response.status, FAILURE_STATUS);
        assert_eq!(response.status, 500);
        assert_eq!(response.body, object(vec![("error", Json::Text(message))]));
    }
}

#[test]
fn missing_proposal_is_not_found() {
    match get_rpc_data(BridgeOutcome::Completed(Ok(RPCResult::ProposalResult(None)))) {
        Err(error) => {
            assert_eq!(error.0.kind, ErrorKind::NotFound);
            assert_eq!(error.0.message, "proposal not found");
            let response = error.into_response();
            assert_eq!(response.status, 500);
            assert_eq!(response.body, normalize(RPCResult::ProposalResult(None)));
        }
        Ok(json) => panic!("a missing proposal gave {:?}", json),
    }
}

#[test]
fn present_proposal_is_a_reply() {
    let response = get_rpc_data(BridgeOutcome::Completed(Ok(RPCResult::ProposalResult(Some(
        proposal(TallyType::TwoThirds, 300),
    )))));
    assert_eq!(
        response,
        Ok(normalize(RPCResult::ProposalResult(Some(proposal(TallyType::TwoThirds, 300)))))
    );
}

#[test]
fn checked_reply_is_missing_only_without_voting_power() {
    let unwritable = RPCResult::ProposalResult(Some(proposal(TallyType::TwoThirds, 0)));
    assert_eq!(checked_rpc_data(BridgeOutcome::Completed(Ok(unwritable))), None);
    assert_eq!(
        checked_rpc_data(BridgeOutcome::Completed(Ok(RPCResult::Epoch(Epoch(42))))),
        Some(Ok(object(vec![("epoch", Json::Number(42))])))
    );
    assert_eq!(
        checked_rpc_data(BridgeOutcome::Cancelled),
        Some(Err(MyErrorWrapper(QueryError::execution(true))))
    );
    assert_eq!(
        checked_rpc_data(BridgeOutcome::Completed(Err(QueryError::decode()))),
        Some(Err(MyErrorWrapper(QueryError::decode())))
    );
}

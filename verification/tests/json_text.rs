use namada_rest::amount::Amount;
use namada_rest::json::Json;
use namada_rest::query::{get_rpc_data, normalize, BridgeOutcome, RPCResult};
use namada_rest::types::Epoch;

fn to_value(json: &Json) -> serde_json::Value {
    match json {
        Json::Null => serde_json::Value::Null,
        Json::Bool(b) => serde_json::Value::Bool(*b),
        Json::Number(n) => serde_json::Value::from(*n),
        Json::Text(s) => serde_json::Value::String(s.clone()),
        Json::Array(items) => serde_json::Value::Array(items.iter().map(to_value).collect()),
        Json::Object(members) => serde_json::Value::Object(
            members.iter().map(|(key, value)| (key.clone(), to_value(value))).collect(),
        ),
    }
}

fn text_of(json: &Json) -> String {
    serde_json::to_string(&to_value(json)).expect("a JSON value")
}

#[test]
fn epoch_as_json_text() {
    let json = normalize(RPCResult::Epoch(Epoch(42)));
    assert_eq!(text_of(&json), "{\"epoch\":42}");
}

#[test]
fn balance_as_json_text() {
    let json = normalize(RPCResult::BalanceResult(Amount::from_u64(1_000_000)));
    assert_eq!(text_of(&json), "{\"balance\":\"1000000\"}");
}

#[test]
fn missing_validator_state_as_json_text() {
    let json = normalize(RPCResult::ValidatorState(None));
    assert_eq!(
        text_of(&json),
        "{\"state\":\"Your validator is either not a validator, or an epoch before the current epoch has been queried (and the validator state information is no longer stored)\"}"
    );
}

#[test]
fn same_reply_gives_same_json_text() {
    let first = get_rpc_data(BridgeOutcome::Completed(Ok(RPCResult::BalanceResult(
        Amount::from_u64(1_000_000),
    ))))
    .expect("a reply");
    let second = get_rpc_data(BridgeOutcome::Completed(Ok(RPCResult::BalanceResult(
        Amount::from_u64(1_000_000),
    ))))
    .expect("a reply");
    assert_eq!(first, second);
    assert_eq!(text_of(&first).into_bytes(), text_of(&second).into_bytes());
}

use ats_smart_contract::common::{BlockInfo, Coin};
use ats_smart_contract::contract::{execute, instantiate, Env, MessageInfo};
use ats_smart_contract::contract_info::{migrate_contract_info, ContractInfoV3};
use ats_smart_contract::error::{ContractError, StdError};
use ats_smart_contract::msg::{ExecuteMsg, InstantiateMsg, MigrateMsg};
use ats_smart_contract::response::Response;
use ats_smart_contract::store::{Api, ContractStore, Querier, StoredContractInfo};
use ats_smart_contract::version_info::{set_version_info, VersionInfoV1};

const ASK_ID: &str = "02ee2ed1-939d-40ed-9e1b-bb96f76f0fca";
const BID_ID: &str = "6a25ffc2-181e-4187-9ac6-572c17038277";
const OTHER_ID: &str = "c9e6a2a2-21a5-4f24-8d7c-6a8b6f3e0b11";

fn env() -> Env {
    Env { contract_address: "contract".to_string(), block: BlockInfo { height: 1, time: 2 } }
}

fn coin(amount: u128, denom: &str) -> Coin {
    Coin { denom: denom.to_string(), amount }
}

fn msg(precision: u128, convertible: Vec<String>, approvers: Vec<String>) -> InstantiateMsg {
    InstantiateMsg {
        name: "ats-ex".into(),
        bind_name: "ats-ex.sc.pb".into(),
        base_denom: "gme.local".into(),
        convertible_base_denoms: convertible,
        supported_quote_denoms: vec!["usd.local".into()],
        approvers,
        executors: vec!["node0".into()],
        ask_fee_rate: None,
        ask_fee_account: None,
        bid_fee_rate: None,
        bid_fee_account: None,
        ask_required_attributes: vec![],
        bid_required_attributes: vec![],
        price_precision: precision,
        size_increment: 10u128.pow(precision as u32),
    }
}

fn set_up(m: InstantiateMsg) -> ContractStore {
    let mut store = ContractStore::new();
    instantiate(&mut store, &Api { invalid_addresses: vec![] }, &env(), &MessageInfo { sender: "node0".into(), funds: vec![] }, m)
        .unwrap();
    store
}

fn run(store: &mut ContractStore, sender: &str, funds: Vec<Coin>, m: ExecuteMsg) -> Result<Response, ContractError> {
    let querier = Querier { restricted_markers: vec![], attributes: vec![] };
    execute(store, &Api { invalid_addresses: vec![] }, &querier, &env(), &MessageInfo { sender: sender.into(), funds }, m)
        .expect("the contract does not abort")
}

fn ask(id: &str, base: &str, price: &str, size: u128) -> ExecuteMsg {
    ExecuteMsg::CreateAsk { id: id.into(), base: base.into(), quote: "usd.local".into(), price: price.into(), size }
}

fn bid(price: &str, size: u128, quote_size: u128) -> ExecuteMsg {
    ExecuteMsg::CreateBid {
        id: BID_ID.into(),
        base: "gme.local".into(),
        fee: None,
        price: price.into(),
        quote: "usd.local".into(),
        quote_size,
        size,
    }
}

fn matched(ask_id: &str, price: &str, size: u128) -> ExecuteMsg {
    ExecuteMsg::ExecuteMatch { ask_id: ask_id.into(), bid_id: BID_ID.into(), price: price.into(), size }
}

#[test]
fn ask_in_an_unknown_base_is_inconvertible() {
    let mut store = set_up(msg(0, vec![], vec![]));
    let result = run(&mut store, "seller", vec![coin(5, "xyz.local")], ask(ASK_ID, "xyz.local", "2", 5));
    assert!(matches!(result, Err(ContractError::InconvertibleBaseDenom)));
}

#[test]
fn match_of_a_convertible_ask_waiting_for_approval_is_refused() {
    let mut store = set_up(msg(0, vec!["con.local".into()], vec!["issuer".into()]));
    run(&mut store, "seller", vec![coin(5, "con.local")], ask(ASK_ID, "con.local", "2", 5)).unwrap();
    run(&mut store, "buyer", vec![coin(10, "usd.local")], bid("2", 5, 10)).unwrap();
    let result = run(&mut store, "node0", vec![], matched(ASK_ID, "2", 5));
    match result {
        Err(ContractError::AskOrderNotReady { current_status }) => assert_eq!(current_status, "PendingIssuerApproval"),
        other => panic!("unexpected result: {:?}", other),
    }
}

#[test]
fn approving_an_approved_ask_is_refused() {
    let mut store = set_up(msg(0, vec!["con.local".into()], vec!["issuer".into()]));
    run(&mut store, "seller", vec![coin(5, "con.local")], ask(ASK_ID, "con.local", "2", 5)).unwrap();
    let approve = ExecuteMsg::ApproveAsk { id: ASK_ID.into(), base: "gme.local".into(), size: 5 };
    run(&mut store, "issuer", vec![coin(5, "gme.local")], approve.clone()).unwrap();
    let result = run(&mut store, "issuer", vec![coin(5, "gme.local")], approve);
    match result {
        Err(ContractError::AskOrderReady { approver }) => assert_eq!(approver, "issuer"),
        other => panic!("unexpected result: {:?}", other),
    }
}

#[test]
fn match_with_funds_is_refused() {
    let mut store = set_up(msg(0, vec![], vec![]));
    let result = run(&mut store, "node0", vec![coin(1, "usd.local")], matched(ASK_ID, "2", 5));
    assert!(matches!(result, Err(ContractError::ExecuteWithFunds)));
}

#[test]
fn expire_with_funds_is_refused() {
    let mut store = set_up(msg(0, vec![], vec![]));
    let result = run(&mut store, "node0", vec![coin(1, "usd.local")], ExecuteMsg::ExpireAsk { id: ASK_ID.into() });
    assert!(matches!(result, Err(ContractError::ExpireWithFunds)));
}

#[test]
fn match_of_an_unknown_ask_fails_to_load_it() {
    let mut store = set_up(msg(0, vec![], vec![]));
    let result = run(&mut store, "node0", vec![], matched(OTHER_ID, "2", 5));
    match result {
        Err(ContractError::LoadOrderFailed { error: StdError::NotFound { kind } }) => {
            assert_eq!(kind, missing_ask_kind(OTHER_ID))
        }
        other => panic!("unexpected result: {:?}", other),
    }
}

#[test]
fn match_at_a_price_of_neither_order_is_refused() {
    let mut store = set_up(msg(0, vec![], vec![]));
    run(&mut store, "seller", vec![coin(5, "gme.local")], ask(ASK_ID, "gme.local", "2", 5)).unwrap();
    run(&mut store, "buyer", vec![coin(20, "usd.local")], bid("4", 5, 20)).unwrap();
    let result = run(&mut store, "node0", vec![], matched(ASK_ID, "3", 5));
    assert!(matches!(result, Err(ContractError::InvalidExecutePrice)));
}

#[test]
fn bid_size_not_a_multiple_of_the_increment_is_refused() {
    let mut store = set_up(msg(1, vec![], vec![]));
    let result = run(&mut store, "buyer", vec![coin(11, "usd.local")], ExecuteMsg::CreateBid {
        id: BID_ID.into(),
        base: "gme.local".into(),
        fee: None,
        price: "1".into(),
        quote: "usd.local".into(),
        quote_size: 11,
        size: 11,
    });
    match result {
        Err(ContractError::InvalidFields { fields }) => assert_eq!(fields, vec!["size"]),
        other => panic!("unexpected result: {:?}", other),
    }
}

#[test]
fn match_of_a_part_keeps_the_whole_totals() {
    let mut store = set_up(msg(1, vec![], vec![]));
    run(&mut store, "seller", vec![coin(30, "gme.local")], ask(ASK_ID, "gme.local", "2.5", 30)).unwrap();
    run(&mut store, "buyer", vec![coin(75, "usd.local")], bid("2.5", 30, 75)).unwrap();
    let response = run(&mut store, "node0", vec![], matched(ASK_ID, "2.5", 10)).unwrap();
    assert_eq!(response.messages.len(), 2);
    let stored = store.load_bid(&BID_ID.to_string()).unwrap();
    assert_eq!((stored.accumulated_base, stored.accumulated_quote), (10, 25));
}

#[test]
fn migration_of_an_unreadable_version_reports_it() {
    let mut store = ContractStore::new();
    set_version_info(&mut store, &VersionInfoV1 { definition: "def".into(), version: "not a version".into() }).unwrap();
    store.contract_info = Some(StoredContractInfo::V3(ContractInfoV3 {
        name: "n".into(),
        bind_name: "b".into(),
        base_denom: "gme.local".into(),
        convertible_base_denoms: vec![],
        supported_quote_denoms: vec!["usd.local".into()],
        approvers: vec![],
        executors: vec!["node0".into()],
        ask_fee_info: None,
        bid_fee_info: None,
        ask_required_attributes: vec![],
        bid_required_attributes: vec![],
        price_precision: 0,
        size_increment: 1,
    }));
    let empty = MigrateMsg {
        approvers: None,
        ask_fee_rate: None,
        ask_fee_account: None,
        bid_fee_rate: None,
        bid_fee_account: None,
        ask_required_attributes: None,
        bid_required_attributes: None,
    };
    let result = migrate_contract_info(&mut store, &Api { invalid_addresses: vec![] }, &empty);
    assert!(matches!(result, Err(ContractError::SemverError { .. })));
}

#[test]
fn settings_missing_are_not_found() {
    let mut store = ContractStore::new();
    let result = run(&mut store, "seller", vec![coin(5, "gme.local")], ask(ASK_ID, "gme.local", "2", 5));
    match result {
        Err(ContractError::Std(StdError::NotFound { kind })) => {
            assert_eq!(kind, "type: ats_smart_contract::contract_info::ContractInfoV3; key: [63, 6F, 6E, 74, 72, 61, 63, 74, 5F, 69, 6E, 66, 6F]")
        }
        other => panic!("unexpected result: {:?}", other),
    }
}

fn missing_ask_kind(id: &str) -> String {
    let key: String = id.bytes().map(|b| format!(", {:02X}", b)).collect();
    format!("type: ats_smart_contract::ask_order::AskOrderV1; key: [00, 03, 61, 73, 6B{}]", key)
}

#[test]
fn cancel_of_an_unknown_bid_fails_to_load_it() {
    let mut store = set_up(msg(0, vec![], vec![]));
    let result = run(&mut store, "buyer", vec![], ExecuteMsg::CancelBid { id: OTHER_ID.into() });
    match result {
        Err(ContractError::LoadOrderFailed { error: StdError::NotFound { kind } }) => {
            let key: String = OTHER_ID.bytes().map(|b| format!(", {:02X}", b)).collect();
            assert_eq!(kind, format!("type: ats_smart_contract::bid_order::BidOrderV3; key: [00, 03, 62, 69, 64{}]", key));
        }
        other => panic!("unexpected result: {:?}", other),
    }
}

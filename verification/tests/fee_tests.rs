use ats_smart_contract::bid_order::BidOrderV3;
use ats_smart_contract::common::{BlockInfo, Coin};
use ats_smart_contract::contract::{execute, instantiate, is_invalid_price_precision, Env, MessageInfo};
use ats_smart_contract::decimal::Dec;
use ats_smart_contract::error::ContractError;
use ats_smart_contract::msg::{ExecuteMsg, InstantiateMsg};
use ats_smart_contract::response::{Response, ContractMessage};
use ats_smart_contract::store::{Api, ContractStore, Querier};

const ASK_ID: &str = "02ee2ed1-939d-40ed-9e1b-bb96f76f0fca";
const BID_ID: &str = "6a25ffc2-181e-4187-9ac6-572c17038277";

fn env() -> Env {
    Env { contract_address: "contract".to_string(), block: BlockInfo { height: 1, time: 2 } }
}

fn coin(amount: u128, denom: &str) -> Coin {
    Coin { denom: denom.to_string(), amount }
}

fn bank(to: &str, amount: u128, denom: &str) -> ContractMessage {
    ContractMessage::Bank { to: to.to_string(), amount, denom: denom.to_string() }
}

fn set_up_with_fees(ask_fee: Option<&str>, bid_fee: Option<&str>) -> ContractStore {
    let mut store = ContractStore::new();
    let msg = InstantiateMsg {
        name: "ats-ex".into(),
        bind_name: "ats-ex.sc.pb".into(),
        base_denom: "gme.local".into(),
        convertible_base_denoms: vec![],
        supported_quote_denoms: vec!["usd.local".into()],
        approvers: vec![],
        executors: vec!["node0".into()],
        ask_fee_rate: ask_fee.map(|r| r.to_string()),
        ask_fee_account: ask_fee.map(|_| "ask_fees".to_string()),
        bid_fee_rate: bid_fee.map(|r| r.to_string()),
        bid_fee_account: bid_fee.map(|_| "bid_fees".to_string()),
        ask_required_attributes: vec![],
        bid_required_attributes: vec![],
        price_precision: 0,
        size_increment: 1,
    };
    instantiate(&mut store, &Api { invalid_addresses: vec![] }, &env(), &MessageInfo { sender: "node0".into(), funds: vec![] }, msg)
        .unwrap();
    store
}

fn run(store: &mut ContractStore, sender: &str, funds: Vec<Coin>, msg: ExecuteMsg) -> Result<Response, ContractError> {
    let querier = Querier { restricted_markers: vec![], attributes: vec![] };
    execute(store, &Api { invalid_addresses: vec![] }, &querier, &env(), &MessageInfo { sender: sender.into(), funds }, msg)
        .expect("the contract does not abort")
}

fn ask(size: u128) -> ExecuteMsg {
    ExecuteMsg::CreateAsk { id: ASK_ID.into(), base: "gme.local".into(), quote: "usd.local".into(), price: "2".into(), size }
}

fn bid(size: u128, quote_size: u128, fee: Option<Coin>) -> ExecuteMsg {
    ExecuteMsg::CreateBid {
        id: BID_ID.into(),
        base: "gme.local".into(),
        fee,
        price: "2".into(),
        quote: "usd.local".into(),
        quote_size,
        size,
    }
}

fn matched(size: u128) -> ExecuteMsg {
    ExecuteMsg::ExecuteMatch { ask_id: ASK_ID.into(), bid_id: BID_ID.into(), price: "2".into(), size }
}

#[test]
fn ask_fee_is_taken_from_the_proceeds() {
    let mut store = set_up_with_fees(Some("0.1"), None);
    run(&mut store, "seller", vec![coin(500, "gme.local")], ask(500)).unwrap();
    run(&mut store, "buyer", vec![coin(1000, "usd.local")], bid(500, 1000, None)).unwrap();
    let response = run(&mut store, "node0", vec![], matched(500)).unwrap();
    assert_eq!(
        response.messages,
        vec![bank("ask_fees", 100, "usd.local"), bank("seller", 900, "usd.local"), bank("buyer", 500, "gme.local")]
    );
}

#[test]
fn bid_fee_is_charged_in_proportion_and_the_last_fill_pays_the_rest() {
    let mut store = set_up_with_fees(None, Some("0.01"));
    run(&mut store, "seller", vec![coin(500, "gme.local")], ask(500)).unwrap();
    run(&mut store, "buyer", vec![coin(1010, "usd.local")], bid(500, 1000, Some(coin(10, "usd.local")))).unwrap();
    let first = run(&mut store, "node0", vec![], matched(250)).unwrap();
    assert_eq!(
        first.messages,
        vec![bank("bid_fees", 5, "usd.local"), bank("seller", 500, "usd.local"), bank("buyer", 250, "gme.local")]
    );
    let stored = store.load_bid(&BID_ID.to_string()).unwrap();
    assert_eq!(stored.accumulated_fee, 5);
    let second = run(&mut store, "node0", vec![], matched(250)).unwrap();
    assert_eq!(
        second.messages,
        vec![bank("bid_fees", 5, "usd.local"), bank("seller", 500, "usd.local"), bank("buyer", 250, "gme.local")]
    );
    assert!(store.bids.is_empty());
    assert!(store.asks.is_empty());
}

#[test]
fn bid_with_wrong_fee_is_refused() {
    let mut store = set_up_with_fees(None, Some("0.01"));
    let result = run(&mut store, "buyer", vec![coin(1009, "usd.local")], bid(500, 1000, Some(coin(9, "usd.local"))));
    match result {
        Err(ContractError::InvalidFeeSize { fee_rate }) => assert_eq!(fee_rate, "0.01"),
        other => panic!("unexpected result: {:?}", other),
    }
}

#[test]
fn calculate_fee_for_the_whole_remaining_quote_is_the_fee_left() {
    let bid_order = BidOrderV3 {
        base: coin(100, "base_1"),
        accumulated_base: 40,
        accumulated_quote: 400,
        accumulated_fee: 3,
        fee: Some(coin(10, "quote_1")),
        id: "id".to_string(),
        owner: "bidder".to_string(),
        price: "10".to_string(),
        quote: coin(1000, "quote_1"),
    };
    assert_eq!(bid_order.calculate_fee(600).unwrap(), Some(coin(7, "quote_1")));
    assert_eq!(bid_order.calculate_fee(300).unwrap(), Some(coin(4, "quote_1")));
}

#[test]
fn price_precision_limits_decimal_places() {
    let price = Dec { mantissa: 125, scale: 2 };
    assert!(!is_invalid_price_precision(price, 2));
    assert!(is_invalid_price_precision(price, 1));
    let trailing_zero = Dec { mantissa: 1250, scale: 3 };
    assert!(!is_invalid_price_precision(trailing_zero, 2));
}

#[test]
fn fee_left_for_the_remaining_quote_rounds_half_away_from_zero() {
    let bid_order = BidOrderV3 {
        base: coin(100, "base_1"),
        accumulated_base: 0,
        accumulated_quote: 0,
        accumulated_fee: 0,
        fee: Some(coin(10, "quote_1")),
        id: "id".to_string(),
        owner: "bidder".to_string(),
        price: "10".to_string(),
        quote: coin(1000, "quote_1"),
    };
    // 350 of 1000 stays: 3.5 of the fee stays, rounded to 4, so 6 is due.
    assert_eq!(bid_order.calculate_fee(650).unwrap(), Some(coin(6, "quote_1")));
    // 340 of 1000 stays: 3.4 rounds to 3, so 7 is due.
    assert_eq!(bid_order.calculate_fee(660).unwrap(), Some(coin(7, "quote_1")));
}

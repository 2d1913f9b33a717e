use ats_smart_contract::ask_order::{AskOrderClass, AskOrderStatus, AskOrderV1};
use ats_smart_contract::bid_order::BidOrderV3;
use ats_smart_contract::common::{BlockInfo, Coin, FeeInfo};
use ats_smart_contract::contract::{
    execute, instantiate, migrate, query, Env, MessageInfo, QueryAnswer,
};
use ats_smart_contract::contract_info::get_contract_info;
use ats_smart_contract::error::{ContractError, StdError};
use ats_smart_contract::msg::{ExecuteMsg, InstantiateMsg, MigrateMsg, QueryMsg};
use ats_smart_contract::response::{split_name, AttrValue, ContractMessage, Response};
use ats_smart_contract::store::{AccountAttributes, Api, ContractStore, Querier, StoredBid};
use ats_smart_contract::version_info::{get_version_info, set_version_info, VersionInfoV1};

const ASK_ID: &str = "02ee2ed1-939d-40ed-9e1b-bb96f76f0fca";
const BID_ID: &str = "6a25ffc2-181e-4187-9ac6-572c17038277";
const NODE0: &str = "node0";
const SELLER: &str = "seller";
const BUYER: &str = "buyer";

fn env() -> Env {
    Env { contract_address: "contract".to_string(), block: BlockInfo { height: 1, time: 2 } }
}

fn api() -> Api {
    Api { invalid_addresses: vec!["bad_address".to_string()] }
}

fn querier() -> Querier {
    Querier { restricted_markers: vec![], attributes: vec![] }
}

fn sent(sender: &str, funds: Vec<Coin>) -> MessageInfo {
    MessageInfo { sender: sender.to_string(), funds }
}

fn coin(amount: u128, denom: &str) -> Coin {
    Coin { denom: denom.to_string(), amount }
}

fn instantiate_msg() -> InstantiateMsg {
    InstantiateMsg {
        name: "ats-ex".into(),
        bind_name: "ats-ex.sc.pb".into(),
        base_denom: "gme.local".into(),
        convertible_base_denoms: vec![],
        supported_quote_denoms: vec!["usd.local".into()],
        approvers: vec![],
        executors: vec![NODE0.into()],
        ask_fee_rate: None,
        ask_fee_account: None,
        bid_fee_rate: None,
        bid_fee_account: None,
        ask_required_attributes: vec![],
        bid_required_attributes: vec![],
        price_precision: 0,
        size_increment: 1,
    }
}

fn set_up() -> ContractStore {
    let mut store = ContractStore::new();
    instantiate(&mut store, &api(), &env(), &sent(NODE0, vec![]), instantiate_msg()).unwrap();
    store
}

fn create_ask_msg(price: &str, size: u128) -> ExecuteMsg {
    ExecuteMsg::CreateAsk {
        id: ASK_ID.into(),
        base: "gme.local".into(),
        quote: "usd.local".into(),
        price: price.into(),
        size,
    }
}

fn create_bid_msg(price: &str, size: u128, quote_size: u128) -> ExecuteMsg {
    ExecuteMsg::CreateBid {
        id: BID_ID.into(),
        base: "gme.local".into(),
        fee: None,
        price: price.into(),
        quote: "usd.local".into(),
        quote_size,
        size,
    }
}

fn run(store: &mut ContractStore, sender: &str, funds: Vec<Coin>, msg: ExecuteMsg) -> Result<Response, ContractError> {
    execute(store, &api(), &querier(), &env(), &sent(sender, funds), msg).expect("the contract does not abort")
}

fn bank(to: &str, amount: u128, denom: &str) -> ContractMessage {
    ContractMessage::Bank { to: to.to_string(), amount, denom: denom.to_string() }
}

#[test]
fn instantiate_stores_settings_and_version() {
    let mut store = ContractStore::new();
    let response = instantiate(&mut store, &api(), &env(), &sent(NODE0, vec![]), instantiate_msg()).unwrap();
    let settings = get_contract_info(&store).unwrap();
    assert_eq!(settings.name, "ats-ex");
    assert_eq!(settings.bind_name, "ats-ex.sc.pb");
    assert_eq!(settings.executors, vec![NODE0.to_string()]);
    assert_eq!(settings.ask_fee_info, None);
    let version = get_version_info(&store).unwrap();
    assert_eq!(version.definition, "ats-smart-contract");
    assert_eq!(version.version, "0.18.2");
    assert_eq!(
        response.messages,
        vec![ContractMessage::BindName {
            name: "ats-ex".to_string(),
            parent: "sc.pb".to_string(),
            address: "contract".to_string(),
            restricted: true,
        }]
    );
    assert_eq!(response.attributes.len(), 2);
    assert_eq!(response.attributes[0].key, "contract_info");
    assert_eq!(response.attributes[0].value, AttrValue::Info(settings));
    assert_eq!(response.attributes[1].key, "action");
    assert_eq!(response.attributes[1].value, AttrValue::Text("init".to_string()));
}

#[test]
fn instantiate_refuses_invalid_fields() {
    let mut store = ContractStore::new();
    let msg = InstantiateMsg { name: "".into(), executors: vec![], price_precision: 19, ..instantiate_msg() };
    let result = instantiate(&mut store, &api(), &env(), &sent(NODE0, vec![]), msg);
    match result {
        Err(ContractError::InvalidFields { fields }) => {
            assert_eq!(fields, vec!["name", "executors", "price_precision"]);
        }
        other => panic!("unexpected result: {:?}", other),
    }
    assert_eq!(store, ContractStore::new());
}

#[test]
fn instantiate_refuses_size_increment_not_a_multiple_of_precision() {
    let mut store = ContractStore::new();
    let msg = InstantiateMsg { price_precision: 2, size_increment: 150, ..instantiate_msg() };
    let result = instantiate(&mut store, &api(), &env(), &sent(NODE0, vec![]), msg);
    assert!(matches!(result, Err(ContractError::InvalidPricePrecisionSizePair)));
}

#[test]
fn instantiate_refuses_rejected_executor_address() {
    let mut store = ContractStore::new();
    let msg = InstantiateMsg { executors: vec!["bad_address".into()], ..instantiate_msg() };
    let result = instantiate(&mut store, &api(), &env(), &sent(NODE0, vec![]), msg);
    match result {
        Err(ContractError::Std(StdError::InvalidAddress { address })) => assert_eq!(address, "bad_address"),
        other => panic!("unexpected result: {:?}", other),
    }
}

#[test]
fn instantiate_refuses_fee_rate_that_is_not_a_decimal() {
    let mut store = ContractStore::new();
    let msg = InstantiateMsg {
        bid_fee_rate: Some("one percent".into()),
        bid_fee_account: Some("fee_account".into()),
        ..instantiate_msg()
    };
    let result = instantiate(&mut store, &api(), &env(), &sent(NODE0, vec![]), msg);
    match result {
        Err(ContractError::InvalidFields { fields }) => assert_eq!(fields, vec!["bid_fee_rate"]),
        other => panic!("unexpected result: {:?}", other),
    }
}

#[test]
fn instantiate_with_empty_fee_has_no_fee() {
    let mut store = ContractStore::new();
    let msg = InstantiateMsg {
        ask_fee_rate: Some("".into()),
        ask_fee_account: Some("".into()),
        bid_fee_rate: Some("0.01".into()),
        bid_fee_account: Some("fee_account".into()),
        ..instantiate_msg()
    };
    instantiate(&mut store, &api(), &env(), &sent(NODE0, vec![]), msg).unwrap();
    let settings = get_contract_info(&store).unwrap();
    assert_eq!(settings.ask_fee_info, None);
    assert_eq!(settings.bid_fee_info, Some(FeeInfo { account: "fee_account".into(), rate: "0.01".into() }));
}

#[test]
fn created_ask_is_read_back() {
    let mut store = set_up();
    run(&mut store, SELLER, vec![coin(500, "gme.local")], create_ask_msg("2", 500)).unwrap();
    let answer = query(&store, &env(), QueryMsg::GetAsk { id: ASK_ID.into() }).unwrap();
    assert_eq!(
        answer,
        QueryAnswer::Ask(AskOrderV1 {
            id: ASK_ID.into(),
            owner: SELLER.into(),
            class: AskOrderClass::Basic,
            base: "gme.local".into(),
            quote: "usd.local".into(),
            price: "2".into(),
            size: 500,
        })
    );
}

#[test]
fn created_bid_is_read_back() {
    let mut store = set_up();
    run(&mut store, BUYER, vec![coin(1000, "usd.local")], create_bid_msg("2", 500, 1000)).unwrap();
    let answer = query(&store, &env(), QueryMsg::GetBid { id: BID_ID.into() }).unwrap();
    assert_eq!(
        answer,
        QueryAnswer::Bid(BidOrderV3 {
            base: coin(500, "gme.local"),
            accumulated_base: 0,
            accumulated_quote: 0,
            accumulated_fee: 0,
            fee: None,
            id: BID_ID.into(),
            owner: BUYER.into(),
            price: "2".into(),
            quote: coin(1000, "usd.local"),
        })
    );
}

#[test]
fn create_ask_with_wrong_funds_is_refused_and_stores_nothing() {
    let mut store = set_up();
    let before = store.clone();
    let result = run(&mut store, SELLER, vec![coin(499, "gme.local")], create_ask_msg("2", 500));
    assert!(matches!(result, Err(ContractError::SentFundsOrderMismatch)));
    assert_eq!(store, before);
}

#[test]
fn create_ask_with_unsupported_quote_is_refused() {
    let mut store = set_up();
    let msg = ExecuteMsg::CreateAsk {
        id: ASK_ID.into(),
        base: "gme.local".into(),
        quote: "eur.local".into(),
        price: "2".into(),
        size: 500,
    };
    let result = run(&mut store, SELLER, vec![coin(500, "gme.local")], msg);
    assert!(matches!(result, Err(ContractError::UnsupportedQuoteDenom)));
}

#[test]
fn create_ask_with_too_many_decimal_places_is_refused() {
    let mut store = set_up();
    let result = run(&mut store, SELLER, vec![coin(500, "gme.local")], create_ask_msg("2.5", 500));
    match result {
        Err(ContractError::InvalidFields { fields }) => assert_eq!(fields, vec!["price"]),
        other => panic!("unexpected result: {:?}", other),
    }
}

#[test]
fn create_ask_twice_under_one_id_is_refused() {
    let mut store = set_up();
    run(&mut store, SELLER, vec![coin(500, "gme.local")], create_ask_msg("2", 500)).unwrap();
    let result = run(&mut store, SELLER, vec![coin(500, "gme.local")], create_ask_msg("2", 500));
    match result {
        Err(ContractError::InvalidFields { fields }) => assert_eq!(fields, vec!["id"]),
        other => panic!("unexpected result: {:?}", other),
    }
}

#[test]
fn create_ask_without_required_attributes_is_unauthorized() {
    let mut store = ContractStore::new();
    let msg = InstantiateMsg { ask_required_attributes: vec!["kyc.pb".into()], ..instantiate_msg() };
    instantiate(&mut store, &api(), &env(), &sent(NODE0, vec![]), msg).unwrap();
    let result = run(&mut store, SELLER, vec![coin(500, "gme.local")], create_ask_msg("2", 500));
    assert!(matches!(result, Err(ContractError::Unauthorized)));
    let holder = Querier {
        restricted_markers: vec![],
        attributes: vec![AccountAttributes { address: SELLER.into(), names: vec!["kyc.pb".into()] }],
    };
    let done = execute(&mut store, &api(), &holder, &env(), &sent(SELLER, vec![coin(500, "gme.local")]), create_ask_msg("2", 500));
    assert!(matches!(done, Some(Ok(_))));
}

#[test]
fn create_bid_with_quote_not_price_times_size_is_refused() {
    let mut store = set_up();
    let result = run(&mut store, BUYER, vec![coin(999, "usd.local")], create_bid_msg("2", 500, 999));
    assert!(matches!(result, Err(ContractError::SentFundsOrderMismatch)));
}

#[test]
fn match_at_one_price_fills_both_orders() {
    let mut store = set_up();
    run(&mut store, SELLER, vec![coin(500, "gme.local")], create_ask_msg("2", 500)).unwrap();
    run(&mut store, BUYER, vec![coin(1000, "usd.local")], create_bid_msg("2", 500, 1000)).unwrap();
    let response = run(
        &mut store,
        NODE0,
        vec![],
        ExecuteMsg::ExecuteMatch { ask_id: ASK_ID.into(), bid_id: BID_ID.into(), price: "2".into(), size: 500 },
    )
    .unwrap();
    assert_eq!(response.messages, vec![bank(SELLER, 1000, "usd.local"), bank(BUYER, 500, "gme.local")]);
    assert!(store.asks.is_empty());
    assert!(store.bids.is_empty());
}

#[test]
fn partial_match_keeps_the_rest_of_both_orders() {
    let mut store = set_up();
    run(&mut store, SELLER, vec![coin(500, "gme.local")], create_ask_msg("2", 500)).unwrap();
    run(&mut store, BUYER, vec![coin(1000, "usd.local")], create_bid_msg("2", 500, 1000)).unwrap();
    let response = run(
        &mut store,
        NODE0,
        vec![],
        ExecuteMsg::ExecuteMatch { ask_id: ASK_ID.into(), bid_id: BID_ID.into(), price: "2".into(), size: 200 },
    )
    .unwrap();
    assert_eq!(response.messages, vec![bank(SELLER, 400, "usd.local"), bank(BUYER, 200, "gme.local")]);
    match query(&store, &env(), QueryMsg::GetAsk { id: ASK_ID.into() }).unwrap() {
        QueryAnswer::Ask(a) => assert_eq!(a.size, 300),
        other => panic!("unexpected answer: {:?}", other),
    }
    match query(&store, &env(), QueryMsg::GetBid { id: BID_ID.into() }).unwrap() {
        QueryAnswer::Bid(b) => {
            assert_eq!(b.accumulated_base, 200);
            assert_eq!(b.accumulated_quote, 400);
            assert_eq!(b.get_remaining_base(), 300);
        }
        other => panic!("unexpected answer: {:?}", other),
    }
}

#[test]
fn match_at_ask_price_below_bid_refunds_the_difference() {
    let mut store = set_up();
    run(&mut store, SELLER, vec![coin(100, "gme.local")], create_ask_msg("2", 100)).unwrap();
    run(&mut store, BUYER, vec![coin(300, "usd.local")], create_bid_msg("3", 100, 300)).unwrap();
    let response = run(
        &mut store,
        NODE0,
        vec![],
        ExecuteMsg::ExecuteMatch { ask_id: ASK_ID.into(), bid_id: BID_ID.into(), price: "2".into(), size: 100 },
    )
    .unwrap();
    assert_eq!(
        response.messages,
        vec![bank(SELLER, 200, "usd.local"), bank(BUYER, 100, "gme.local"), bank(BUYER, 100, "usd.local")]
    );
    assert!(store.asks.is_empty());
    assert!(store.bids.is_empty());
}

#[test]
fn match_by_non_executor_is_unauthorized() {
    let mut store = set_up();
    run(&mut store, SELLER, vec![coin(500, "gme.local")], create_ask_msg("2", 500)).unwrap();
    run(&mut store, BUYER, vec![coin(1000, "usd.local")], create_bid_msg("2", 500, 1000)).unwrap();
    let result = run(
        &mut store,
        SELLER,
        vec![],
        ExecuteMsg::ExecuteMatch { ask_id: ASK_ID.into(), bid_id: BID_ID.into(), price: "2".into(), size: 500 },
    );
    assert!(matches!(result, Err(ContractError::Unauthorized)));
}

#[test]
fn match_with_ask_above_bid_is_refused() {
    let mut store = set_up();
    run(&mut store, SELLER, vec![coin(500, "gme.local")], create_ask_msg("3", 500)).unwrap();
    run(&mut store, BUYER, vec![coin(1000, "usd.local")], create_bid_msg("2", 500, 1000)).unwrap();
    let result = run(
        &mut store,
        NODE0,
        vec![],
        ExecuteMsg::ExecuteMatch { ask_id: ASK_ID.into(), bid_id: BID_ID.into(), price: "2".into(), size: 500 },
    );
    assert!(matches!(result, Err(ContractError::AskBidPriceMismatch)));
}

#[test]
fn match_larger_than_the_ask_is_refused() {
    let mut store = set_up();
    run(&mut store, SELLER, vec![coin(100, "gme.local")], create_ask_msg("2", 100)).unwrap();
    run(&mut store, BUYER, vec![coin(1000, "usd.local")], create_bid_msg("2", 500, 1000)).unwrap();
    let result = run(
        &mut store,
        NODE0,
        vec![],
        ExecuteMsg::ExecuteMatch { ask_id: ASK_ID.into(), bid_id: BID_ID.into(), price: "2".into(), size: 200 },
    );
    assert!(matches!(result, Err(ContractError::InvalidExecuteSize)));
}

#[test]
fn cancelled_ask_is_gone_and_given_back() {
    let mut store = set_up();
    run(&mut store, SELLER, vec![coin(500, "gme.local")], create_ask_msg("2", 500)).unwrap();
    let response = run(&mut store, SELLER, vec![], ExecuteMsg::CancelAsk { id: ASK_ID.into() }).unwrap();
    assert_eq!(response.messages, vec![bank(SELLER, 500, "gme.local")]);
    let answer = query(&store, &env(), QueryMsg::GetAsk { id: ASK_ID.into() });
    match answer {
        Err(StdError::NotFound { kind }) => assert_eq!(kind, missing_ask_kind(ASK_ID)),
        other => panic!("unexpected answer: {:?}", other),
    }
}

#[test]
fn cancel_ask_by_another_sender_is_unauthorized() {
    let mut store = set_up();
    run(&mut store, SELLER, vec![coin(500, "gme.local")], create_ask_msg("2", 500)).unwrap();
    let result = run(&mut store, BUYER, vec![], ExecuteMsg::CancelAsk { id: ASK_ID.into() });
    assert!(matches!(result, Err(ContractError::Unauthorized)));
}

#[test]
fn cancel_ask_with_funds_is_refused() {
    let mut store = set_up();
    run(&mut store, SELLER, vec![coin(500, "gme.local")], create_ask_msg("2", 500)).unwrap();
    let result = run(&mut store, SELLER, vec![coin(1, "gme.local")], ExecuteMsg::CancelAsk { id: ASK_ID.into() });
    assert!(matches!(result, Err(ContractError::CancelWithFunds)));
}

#[test]
fn cancelled_bid_is_gone_and_given_back() {
    let mut store = set_up();
    run(&mut store, BUYER, vec![coin(1000, "usd.local")], create_bid_msg("2", 500, 1000)).unwrap();
    let response = run(&mut store, BUYER, vec![], ExecuteMsg::CancelBid { id: BID_ID.into() }).unwrap();
    assert_eq!(response.messages, vec![bank(BUYER, 1000, "usd.local")]);
    assert!(store.bids.is_empty());
}

#[test]
fn rejected_part_of_an_ask_keeps_the_rest() {
    let mut store = set_up();
    run(&mut store, SELLER, vec![coin(500, "gme.local")], create_ask_msg("2", 500)).unwrap();
    let response = run(&mut store, NODE0, vec![], ExecuteMsg::RejectAsk { id: ASK_ID.into(), size: Some(100) }).unwrap();
    assert_eq!(response.messages, vec![bank(SELLER, 100, "gme.local")]);
    match query(&store, &env(), QueryMsg::GetAsk { id: ASK_ID.into() }).unwrap() {
        QueryAnswer::Ask(a) => assert_eq!(a.size, 400),
        other => panic!("unexpected answer: {:?}", other),
    }
}

#[test]
fn rejected_part_of_a_bid_keeps_the_rest() {
    let mut store = set_up();
    run(&mut store, BUYER, vec![coin(1000, "usd.local")], create_bid_msg("2", 500, 1000)).unwrap();
    let response = run(&mut store, NODE0, vec![], ExecuteMsg::RejectBid { id: BID_ID.into(), size: Some(100) }).unwrap();
    assert_eq!(response.messages, vec![bank(BUYER, 200, "usd.local")]);
    match query(&store, &env(), QueryMsg::GetBid { id: BID_ID.into() }).unwrap() {
        QueryAnswer::Bid(b) => {
            assert_eq!(b.accumulated_base, 100);
            assert_eq!(b.accumulated_quote, 200);
        }
        other => panic!("unexpected answer: {:?}", other),
    }
}

#[test]
fn expire_ask_by_non_executor_is_unauthorized() {
    let mut store = set_up();
    run(&mut store, SELLER, vec![coin(500, "gme.local")], create_ask_msg("2", 500)).unwrap();
    let result = run(&mut store, SELLER, vec![], ExecuteMsg::ExpireAsk { id: ASK_ID.into() });
    assert!(matches!(result, Err(ContractError::Unauthorized)));
}

#[test]
fn expired_bid_is_gone() {
    let mut store = set_up();
    run(&mut store, BUYER, vec![coin(1000, "usd.local")], create_bid_msg("2", 500, 1000)).unwrap();
    run(&mut store, NODE0, vec![], ExecuteMsg::ExpireBid { id: BID_ID.into() }).unwrap();
    assert!(store.bids.is_empty());
}

#[test]
fn execute_refuses_invalid_id() {
    let mut store = set_up();
    let result = run(&mut store, SELLER, vec![], ExecuteMsg::CancelAsk { id: "not-a-uuid".into() });
    match result {
        Err(ContractError::InvalidFields { fields }) => assert_eq!(fields, vec!["id"]),
        other => panic!("unexpected result: {:?}", other),
    }
}

#[test]
fn query_with_invalid_id_is_refused() {
    let store = set_up();
    let result = query(&store, &env(), QueryMsg::GetBid { id: "nope".into() });
    match result {
        Err(StdError::GenericErr { msg }) => assert_eq!(msg, "Invalid fields: [\"id\"]"),
        other => panic!("unexpected answer: {:?}", other),
    }
}

#[test]
fn query_version_info_after_instantiate() {
    let store = set_up();
    let answer = query(&store, &env(), QueryMsg::GetVersionInfo {}).unwrap();
    assert_eq!(
        answer,
        QueryAnswer::VersionInfo(VersionInfoV1 { definition: "ats-smart-contract".into(), version: "0.18.2".into() })
    );
}

fn modify_msg() -> ExecuteMsg {
    ExecuteMsg::ModifyContract {
        approvers: Some(vec!["approver_1".into()]),
        executors: None,
        ask_fee_rate: None,
        ask_fee_account: None,
        bid_fee_rate: None,
        bid_fee_account: None,
        ask_required_attributes: None,
        bid_required_attributes: None,
    }
}

#[test]
fn modify_contract_changes_settings() {
    let mut store = set_up();
    let response = run(&mut store, NODE0, vec![], modify_msg()).unwrap();
    assert_eq!(response.attributes[0].value, AttrValue::Text("modify_contract".into()));
    assert_eq!(get_contract_info(&store).unwrap().approvers, vec!["approver_1".to_string()]);
}

#[test]
fn modify_contract_by_non_executor_is_unauthorized() {
    let mut store = set_up();
    let result = run(&mut store, SELLER, vec![], modify_msg());
    assert!(matches!(result, Err(ContractError::Unauthorized)));
}

#[test]
fn modify_contract_keeps_attributes_while_asks_exist() {
    let mut store = set_up();
    run(&mut store, SELLER, vec![coin(500, "gme.local")], create_ask_msg("2", 500)).unwrap();
    let msg = ExecuteMsg::ModifyContract {
        approvers: None,
        executors: None,
        ask_fee_rate: None,
        ask_fee_account: None,
        bid_fee_rate: None,
        bid_fee_account: None,
        ask_required_attributes: Some(vec!["kyc.pb".into()]),
        bid_required_attributes: None,
    };
    let result = run(&mut store, NODE0, vec![], msg);
    match result {
        Err(ContractError::InvalidFields { fields }) => assert_eq!(fields, vec!["ask_required_attributes"]),
        other => panic!("unexpected result: {:?}", other),
    }
}

#[test]
fn modify_contract_keeps_approvers_while_orders_exist() {
    let mut store = ContractStore::new();
    let msg = InstantiateMsg { approvers: vec!["approver_0".into()], ..instantiate_msg() };
    instantiate(&mut store, &api(), &env(), &sent(NODE0, vec![]), msg).unwrap();
    run(&mut store, BUYER, vec![coin(1000, "usd.local")], create_bid_msg("2", 500, 1000)).unwrap();
    let result = run(&mut store, NODE0, vec![], modify_msg());
    match result {
        Err(ContractError::InvalidFields { fields }) => assert_eq!(fields, vec!["approvers"]),
        other => panic!("unexpected result: {:?}", other),
    }
}

fn empty_migrate_msg() -> MigrateMsg {
    MigrateMsg {
        approvers: None,
        ask_fee_rate: None,
        ask_fee_account: None,
        bid_fee_rate: None,
        bid_fee_account: None,
        ask_required_attributes: None,
        bid_required_attributes: None,
    }
}

#[test]
fn migrate_records_this_version() {
    let mut store = set_up();
    set_version_info(&mut store, &VersionInfoV1 { definition: "ats-smart-contract".into(), version: "0.17.0".into() })
        .unwrap();
    let response = migrate(&mut store, &api(), &env(), empty_migrate_msg()).unwrap().unwrap();
    assert_eq!(response, Response::new());
    assert_eq!(get_version_info(&store).unwrap().version, "0.18.2");
}

#[test]
fn failed_migration_changes_nothing() {
    let mut store = set_up();
    set_version_info(&mut store, &VersionInfoV1 { definition: "ats-smart-contract".into(), version: "0.16.1".into() })
        .unwrap();
    let before = store.clone();
    let msg = MigrateMsg { approvers: Some(vec!["approver_9".into()]), ..empty_migrate_msg() };
    let result = migrate(&mut store, &api(), &env(), msg).unwrap();
    match result {
        Err(ContractError::UnsupportedUpgrade { source_version, target_version }) => {
            assert_eq!(source_version, "0.16.1");
            assert_eq!(target_version, ">=0.16.2");
        }
        other => panic!("unexpected result: {:?}", other),
    }
    assert_eq!(store, before);
}

#[test]
fn migrate_refuses_fee_rate_without_account() {
    let mut store = set_up();
    let msg = MigrateMsg { ask_fee_rate: Some("0.01".into()), ..empty_migrate_msg() };
    let result = migrate(&mut store, &api(), &env(), msg).unwrap();
    match result {
        Err(ContractError::InvalidFields { fields }) => assert_eq!(fields, vec!["ask_fee_account"]),
        other => panic!("unexpected result: {:?}", other),
    }
}

#[test]
fn migrated_bids_are_readable_after_migration() {
    let mut store = set_up();
    run(&mut store, BUYER, vec![coin(1000, "usd.local")], create_bid_msg("2", 500, 1000)).unwrap();
    migrate(&mut store, &api(), &env(), empty_migrate_msg()).unwrap().unwrap();
    assert!(matches!(store.bids[0], StoredBid::V3(_)));
    assert!(matches!(query(&store, &env(), QueryMsg::GetBid { id: BID_ID.into() }), Ok(QueryAnswer::Bid(_))));
}

#[test]
fn approve_ask_readies_a_convertible_ask() {
    let mut store = ContractStore::new();
    let msg = InstantiateMsg {
        convertible_base_denoms: vec!["con.local".into()],
        approvers: vec!["issuer".into()],
        ..instantiate_msg()
    };
    instantiate(&mut store, &api(), &env(), &sent(NODE0, vec![]), msg).unwrap();
    let ask = ExecuteMsg::CreateAsk {
        id: ASK_ID.into(),
        base: "con.local".into(),
        quote: "usd.local".into(),
        price: "2".into(),
        size: 500,
    };
    run(&mut store, SELLER, vec![coin(500, "con.local")], ask).unwrap();
    match query(&store, &env(), QueryMsg::GetAsk { id: ASK_ID.into() }).unwrap() {
        QueryAnswer::Ask(a) => assert_eq!(a.class, AskOrderClass::Convertible { status: AskOrderStatus::PendingIssuerApproval }),
        other => panic!("unexpected answer: {:?}", other),
    }
    run(
        &mut store,
        "issuer",
        vec![coin(500, "gme.local")],
        ExecuteMsg::ApproveAsk { id: ASK_ID.into(), base: "gme.local".into(), size: 500 },
    )
    .unwrap();
    match query(&store, &env(), QueryMsg::GetAsk { id: ASK_ID.into() }).unwrap() {
        QueryAnswer::Ask(a) => assert_eq!(
            a.class,
            AskOrderClass::Convertible {
                status: AskOrderStatus::Ready { approver: "issuer".into(), converted_base: coin(500, "gme.local") }
            }
        ),
        other => panic!("unexpected answer: {:?}", other),
    }
}

#[test]
fn migration_aborts_on_a_bid_that_cannot_be_read_in_the_older_shape() {
    let mut store = set_up();
    run(&mut store, BUYER, vec![coin(1000, "usd.local")], create_bid_msg("2", 500, 1000)).unwrap();
    set_version_info(&mut store, &VersionInfoV1 { definition: "ats-smart-contract".into(), version: "0.17.0".into() })
        .unwrap();
    let before = store.clone();
    assert!(migrate(&mut store, &api(), &env(), empty_migrate_msg()).is_none());
    assert_eq!(store, before);
}

fn missing_ask_kind(id: &str) -> String {
    let key: String = id.bytes().map(|b| format!(", {:02X}", b)).collect();
    format!("type: ats_smart_contract::ask_order::AskOrderV1; key: [00, 03, 61, 73, 6B{}]", key)
}

#[test]
fn instantiate_binds_a_name_without_a_parent() {
    let mut store = ContractStore::new();
    let msg = InstantiateMsg { bind_name: "solo".into(), ..instantiate_msg() };
    let response = instantiate(&mut store, &api(), &env(), &sent(NODE0, vec![]), msg).unwrap();
    assert_eq!(get_contract_info(&store).unwrap().bind_name, "solo");
    assert_eq!(
        response.messages,
        vec![ContractMessage::BindName {
            name: "solo".to_string(),
            parent: "".to_string(),
            address: "contract".to_string(),
            restricted: true,
        }]
    );
}

#[test]
fn names_split_at_their_first_dot() {
    assert_eq!(split_name(&"ats-ex.sc.pb".to_string()), ("ats-ex".to_string(), "sc.pb".to_string()));
    assert_eq!(split_name(&"a.b".to_string()), ("a".to_string(), "b".to_string()));
    assert_eq!(split_name(&".pb".to_string()), ("".to_string(), "pb".to_string()));
    assert_eq!(split_name(&"trailing.".to_string()), ("trailing".to_string(), "".to_string()));
    assert_eq!(split_name(&"nodot".to_string()), ("nodot".to_string(), "".to_string()));
}

#[test]
fn partial_match_below_bid_price_accumulates_the_bid_price_total() {
    let mut store = set_up();
    run(&mut store, SELLER, vec![coin(100, "gme.local")], create_ask_msg("2", 100)).unwrap();
    run(&mut store, BUYER, vec![coin(900, "usd.local")], create_bid_msg("3", 300, 900)).unwrap();
    run(
        &mut store,
        NODE0,
        vec![],
        ExecuteMsg::ExecuteMatch { ask_id: ASK_ID.into(), bid_id: BID_ID.into(), price: "2".into(), size: 100 },
    )
    .unwrap();
    let bid = store.load_bid(&BID_ID.to_string()).unwrap();
    assert_eq!(bid.accumulated_base, 100);
    assert_eq!(bid.accumulated_quote, 300);
    assert_eq!(bid.quote.amount - bid.accumulated_quote, 3 * (bid.base.amount - bid.accumulated_base));
}

#[test]
fn query_contract_info_on_empty_store_answers_with_the_error_text() {
    let store = ContractStore::new();
    match query(&store, &env(), QueryMsg::GetContractInfo {}) {
        Err(StdError::GenericErr { msg }) => assert_eq!(
            msg,
            "type: ats_smart_contract::contract_info::ContractInfoV3; key: [63, 6F, 6E, 74, 72, 61, 63, 74, 5F, 69, 6E, 66, 6F] not found"
        ),
        other => panic!("unexpected answer: {:?}", other),
    }
}

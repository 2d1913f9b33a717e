use ats_smart_contract::ask_order::migrate_ask_orders;
use ats_smart_contract::bid_order::{migrate_bid_orders, BidOrderV2, BidOrderV3};
use ats_smart_contract::common::{Action, BlockInfo, Coin, Event, FeeInfo};
use ats_smart_contract::contract::Env;
use ats_smart_contract::contract_info::{
    get_contract_info, migrate_contract_info, set_contract_info, set_legacy_contract_info, ContractInfo,
    ContractInfoV1, ContractInfoV2, ContractInfoV3,
};
use ats_smart_contract::error::ContractError;
use ats_smart_contract::msg::MigrateMsg;
use ats_smart_contract::response::Response;
use ats_smart_contract::store::{Api, ContractStore, StoredBid, StoredContractInfo};
use ats_smart_contract::version_info::{set_version_info, VersionInfoV1, CRATE_NAME};

fn empty_migrate_msg() -> MigrateMsg {
    MigrateMsg {
        approvers: None,
        ask_fee_rate: None,
        ask_fee_account: None,
        bid_fee_rate: None,
        bid_fee_account: None,
        ask_required_attributes: None,
        bid_required_attributes: None,
    }
}

fn mock_env() -> Env {
    Env {
        contract_address: "cosmos2contract".to_string(),
        block: BlockInfo { height: 12_345, time: 1_571_797_419_879_305_533 },
    }
}

fn any_address() -> Api {
    Api { invalid_addresses: vec![] }
}

fn strings(items: &[&str]) -> Vec<String> {
    items.iter().map(|s| s.to_string()).collect()
}

fn store_at_version(version: &str) -> ContractStore {
    let mut store = ContractStore::new();
    set_version_info(
        &mut store,
        &VersionInfoV1 { definition: CRATE_NAME.to_string(), version: version.to_string() },
    )
    .unwrap();
    store
}

#[test]
fn ask_migration_fails_if_contract_is_too_old() {
    let store = store_at_version("0.14.9");
    let result = migrate_ask_orders(&store, &empty_migrate_msg());
    match result {
        Ok(_) => panic!("expected error, but ok"),
        Err(error) => match error {
            ContractError::UnsupportedUpgrade { source_version, target_version } => {
                assert_eq!(source_version, "0.14.9");
                assert_eq!(target_version, ">=0.15.0");
            }
            _ => panic!("unexpected error: {:?}", error),
        },
    }
}

#[test]
fn ask_migration_minimum_version_check() {
    let store = store_at_version("0.15.0");
    let result = migrate_ask_orders(&store, &empty_migrate_msg());
    assert!(result.is_ok());
}

#[test]
fn bid_migration_fails_if_contract_is_too_old() {
    let mut store = store_at_version("0.16.1");
    let result = migrate_bid_orders(&mut store, &mock_env(), &empty_migrate_msg(), Response::new());
    match result {
        Some(Ok(_)) => panic!("expected error, but ok"),
        Some(Err(error)) => match error {
            ContractError::UnsupportedUpgrade { source_version, target_version } => {
                assert_eq!(source_version, "0.16.1");
                assert_eq!(target_version, ">=0.16.2");
            }
            _ => panic!("unexpected error: {:?}", error),
        },
        None => panic!("unexpected abort"),
    }
}

#[test]
fn bid_migration_minimum_version_check() {
    let mut store = store_at_version("0.16.2");
    let result = migrate_bid_orders(&mut store, &mock_env(), &empty_migrate_msg(), Response::new());
    assert!(matches!(result, Some(Ok(_))));
    assert_eq!(result.unwrap().unwrap(), Response::new());
}

fn coin(amount: u128, denom: &str) -> Coin {
    Coin { denom: denom.to_string(), amount }
}

fn event(action: Action) -> Event {
    Event { action, block_info: BlockInfo::default() }
}

#[test]
fn migrate_bid_order_v2_to_bid_order_v3() {
    let mut store = store_at_version("0.16.3");

    let bid1 = BidOrderV2 {
        base: coin(8, "base_1"),
        events: vec![
            event(Action::Fill {
                base: coin(10, "base_1"),
                fee: Some(coin(2, "quote_1")),
                price: "2".to_string(),
                quote: coin(20, "quote_1"),
            }),
            event(Action::Refund { fee: Some(coin(8, "quote_1")), quote: coin(80, "quote_1") }),
            event(Action::Reject { base: coin(10, "base_1"), fee: Default::default(), quote: coin(100, "quote_1") }),
        ],
        fee: None,
        id: "bid-1".to_string(),
        owner: "bidder".to_string(),
        price: "10".to_string(),
        quote: coin(100, "quote_1"),
    };

    let bid2 = BidOrderV2 {
        base: coin(16, "base_2"),
        events: vec![
            event(Action::Fill {
                base: coin(10, "base_2"),
                fee: Some(coin(2, "quote_2")),
                price: "2".to_string(),
                quote: coin(15, "quote_2"),
            }),
            event(Action::Fill {
                base: coin(50, "base_2"),
                fee: Some(coin(4, "quote_2")),
                price: "2".to_string(),
                quote: coin(60, "quote_2"),
            }),
            event(Action::Refund { fee: Some(coin(7, "quote_2")), quote: coin(300, "quote_2") }),
            event(Action::Refund { fee: Some(coin(15, "quote_2")), quote: coin(1000, "quote_1") }),
            event(Action::Reject { base: coin(10, "base_2"), fee: Default::default(), quote: coin(600, "quote_2") }),
            event(Action::Reject { base: coin(13, "base_2"), fee: Default::default(), quote: coin(198, "quote_2") }),
        ],
        fee: Some(coin(5, "base_2")),
        id: "bid-2".to_string(),
        owner: "bidder".to_string(),
        price: "15".to_string(),
        quote: coin(200, "quote_2"),
    };

    store.bids.push(StoredBid::V2(bid1));
    store.bids.push(StoredBid::V2(bid2));

    let response = migrate_bid_orders(&mut store, &mock_env(), &empty_migrate_msg(), Response::new())
        .expect("no abort")
        .expect("no error");
    assert_eq!(response, Response::new());

    let bid_1_v3 = store.load_bid(&"bid-1".to_string()).unwrap();
    let bid_2_v3 = store.load_bid(&"bid-2".to_string()).unwrap();

    assert_eq!(
        BidOrderV3 {
            base: coin(8, "base_1"),
            accumulated_base: 10 + 10,
            accumulated_quote: 20 + 80 + 100,
            accumulated_fee: 2 + 8,
            fee: None,
            id: "bid-1".to_owned(),
            owner: "bidder".to_owned(),
            price: "10".to_owned(),
            quote: coin(100, "quote_1"),
        },
        bid_1_v3
    );
    assert_eq!(
        BidOrderV3 {
            base: coin(16, "base_2"),
            accumulated_base: 10 + 50 + 10 + 13,
            accumulated_quote: 15 + 60 + 300 + 1000 + 600 + 198,
            accumulated_fee: 2 + 4 + 7 + 15,
            fee: Some(coin(5, "base_2")),
            id: "bid-2".to_owned(),
            owner: "bidder".to_owned(),
            price: "15".to_owned(),
            quote: coin(200, "quote_2"),
        },
        bid_2_v3
    );
}

fn settings_v3(
    approvers: &[&str],
    ask_fee: Option<(&str, &str)>,
    bid_fee: Option<(&str, &str)>,
    ask_tags: &[&str],
    bid_tags: &[&str],
) -> ContractInfoV3 {
    ContractInfoV3 {
        name: "contract_name".into(),
        bind_name: "contract_bind_name".into(),
        base_denom: "base_denom".into(),
        convertible_base_denoms: strings(&["con_base_1", "con_base_2"]),
        supported_quote_denoms: strings(&["quote_1", "quote_2"]),
        approvers: strings(approvers),
        executors: strings(&["exec_1", "exec_2"]),
        ask_fee_info: ask_fee.map(|(account, rate)| FeeInfo { account: account.into(), rate: rate.into() }),
        bid_fee_info: bid_fee.map(|(account, rate)| FeeInfo { account: account.into(), rate: rate.into() }),
        ask_required_attributes: strings(ask_tags),
        bid_required_attributes: strings(bid_tags),
        price_precision: 2,
        size_increment: 100,
    }
}

fn migrate_msg_with_fees() -> MigrateMsg {
    MigrateMsg {
        approvers: None,
        ask_fee_rate: Some("0.01".into()),
        ask_fee_account: Some("ask_fee_account".into()),
        bid_fee_rate: Some("0.02".into()),
        bid_fee_account: Some("bid_fee_account".into()),
        ask_required_attributes: None,
        bid_required_attributes: None,
    }
}

#[test]
fn set_contract_info_with_valid_data() {
    let mut store = ContractStore::new();
    set_contract_info(
        &mut store,
        &ContractInfoV3 {
            name: "contract_name".into(),
            bind_name: "contract_bind_name".into(),
            base_denom: "base_denom".into(),
            convertible_base_denoms: strings(&["con_base_1", "con_base_2"]),
            supported_quote_denoms: strings(&["quo_base_1", "quo_base_2"]),
            approvers: strings(&["approver_1", "approver_2"]),
            executors: strings(&["exec_1", "exec_2"]),
            ask_fee_info: Some(FeeInfo { account: "ask_fee_acct".into(), rate: "0.00".to_string() }),
            bid_fee_info: Some(FeeInfo { account: "bid_fee_acct".into(), rate: "0.02".to_string() }),
            ask_required_attributes: strings(&["ask_tag_1", "ask_tag_2"]),
            bid_required_attributes: strings(&["ask_tag_1", "ask_tag_2"]),
            price_precision: 3,
            size_increment: 1000,
        },
    )
    .unwrap();

    let contract_info = get_contract_info(&store).unwrap();

    assert_eq!(contract_info.name, "contract_name");
    assert_eq!(contract_info.bind_name, "contract_bind_name");
    assert_eq!(contract_info.base_denom, "base_denom");
    assert_eq!(contract_info.convertible_base_denoms, vec!["con_base_1", "con_base_2"]);
    assert_eq!(contract_info.supported_quote_denoms, vec!["quo_base_1", "quo_base_2"]);
    assert_eq!(contract_info.approvers, vec!["approver_1", "approver_2"]);
    assert_eq!(contract_info.executors, vec!["exec_1", "exec_2"]);
    assert_eq!(
        contract_info.ask_fee_info,
        Some(FeeInfo { account: "ask_fee_acct".into(), rate: "0.00".to_string() })
    );
    assert_eq!(
        contract_info.bid_fee_info,
        Some(FeeInfo { account: "bid_fee_acct".into(), rate: "0.02".to_string() })
    );
    assert_eq!(contract_info.ask_required_attributes, vec!["ask_tag_1", "ask_tag_2"]);
    assert_eq!(contract_info.bid_required_attributes, vec!["ask_tag_1", "ask_tag_2"]);
    assert_eq!(contract_info.price_precision, 3);
    assert_eq!(contract_info.size_increment, 1000);
}

fn legacy_settings(definition: &str, version: &str) -> ContractInfo {
    ContractInfo {
        name: "contract_name".into(),
        definition: definition.to_string(),
        version: version.to_string(),
        bind_name: "contract_bind_name".into(),
        base_denom: "base_denom".into(),
        convertible_base_denoms: strings(&["con_base_1", "con_base_2"]),
        supported_quote_denoms: strings(&["quote_1", "quote_2"]),
        executors: strings(&["exec_1", "exec_2"]),
        issuers: strings(&["issuer_1", "issuer_2"]),
        ask_required_attributes: strings(&["ask_tag_1", "ask_tag_2"]),
        bid_required_attributes: strings(&["bid_tag_1", "bid_tag_2"]),
        price_precision: 2,
        size_increment: 100,
    }
}

#[test]
fn migrate_legacy_contractinfo_with_existing_issuers() {
    let mut store = ContractStore::new();
    set_legacy_contract_info(&mut store, &legacy_settings("contract_def", "0.0.1")).unwrap();

    migrate_contract_info(&mut store, &any_address(), &empty_migrate_msg()).unwrap();

    let contract_info = get_contract_info(&store).unwrap();
    let expected = settings_v3(&[], None, None, &["ask_tag_1", "ask_tag_2"], &["bid_tag_1", "bid_tag_2"]);
    assert_eq!(contract_info, expected);
}

#[test]
fn migrate_legacy_contractinfo_with_approvers_and_fees() {
    let mut store = ContractStore::new();
    set_legacy_contract_info(&mut store, &legacy_settings("contract_definition", "0.14.1")).unwrap();

    migrate_contract_info(
        &mut store,
        &any_address(),
        &MigrateMsg { approvers: Some(strings(&["approver_1", "approver_2"])), ..migrate_msg_with_fees() },
    )
    .unwrap();

    let contract_info = get_contract_info(&store).unwrap();
    let expected = settings_v3(
        &["approver_1", "approver_2"],
        Some(("ask_fee_account", "0.01")),
        Some(("bid_fee_account", "0.02")),
        &["ask_tag_1", "ask_tag_2"],
        &["bid_tag_1", "bid_tag_2"],
    );
    assert_eq!(contract_info, expected);
}

fn settings_v1() -> ContractInfoV1 {
    ContractInfoV1 {
        name: "contract_name".into(),
        bind_name: "contract_bind_name".into(),
        base_denom: "base_denom".into(),
        convertible_base_denoms: strings(&["con_base_1", "con_base_2"]),
        supported_quote_denoms: strings(&["quote_1", "quote_2"]),
        approvers: strings(&["approver_1", "approver_2"]),
        executors: strings(&["exec_1", "exec_2"]),
        ask_required_attributes: strings(&["ask_tag_1", "ask_tag_2"]),
        bid_required_attributes: strings(&["bid_tag_1", "bid_tag_2"]),
        price_precision: 2,
        size_increment: 100,
    }
}

fn settings_v2() -> ContractInfoV2 {
    ContractInfoV2 {
        name: "contract_name".into(),
        bind_name: "contract_bind_name".into(),
        base_denom: "base_denom".into(),
        convertible_base_denoms: strings(&["con_base_1", "con_base_2"]),
        supported_quote_denoms: strings(&["quote_1", "quote_2"]),
        approvers: strings(&["approver_1", "approver_2"]),
        executors: strings(&["exec_1", "exec_2"]),
        fee_rate: None,
        fee_account: None,
        ask_required_attributes: strings(&["ask_tag_1", "ask_tag_2"]),
        bid_required_attributes: strings(&["bid_tag_1", "bid_tag_2"]),
        price_precision: 2,
        size_increment: 100,
    }
}

fn store_with(version: &str, settings: StoredContractInfo) -> ContractStore {
    let mut store = ContractStore::new();
    set_version_info(&mut store, &VersionInfoV1 { definition: "def".to_string(), version: version.to_string() })
        .unwrap();
    store.contract_info = Some(settings);
    store
}

#[test]
fn migrate_contractinfo_v1_with_fees() {
    let mut store = store_with("0.15.0", StoredContractInfo::V1(settings_v1()));
    migrate_contract_info(&mut store, &any_address(), &migrate_msg_with_fees()).unwrap();
    let contract_info = get_contract_info(&store).unwrap();
    let expected = settings_v3(
        &["approver_1", "approver_2"],
        Some(("ask_fee_account", "0.01")),
        Some(("bid_fee_account", "0.02")),
        &["ask_tag_1", "ask_tag_2"],
        &["bid_tag_1", "bid_tag_2"],
    );
    assert_eq!(contract_info, expected);
}

#[test]
fn migrate_contractinfo_v1_without_fees() {
    let mut store = store_with("0.15.0", StoredContractInfo::V1(settings_v1()));
    migrate_contract_info(&mut store, &any_address(), &empty_migrate_msg()).unwrap();
    let contract_info = get_contract_info(&store).unwrap();
    let expected = settings_v3(&["approver_1", "approver_2"], None, None, &["ask_tag_1", "ask_tag_2"], &["bid_tag_1", "bid_tag_2"]);
    assert_eq!(contract_info, expected);
}

#[test]
fn migrate_contractinfo_v2_with_fees() {
    let mut store = store_with("0.16.0", StoredContractInfo::V2(settings_v2()));
    migrate_contract_info(&mut store, &any_address(), &migrate_msg_with_fees()).unwrap();
    let contract_info = get_contract_info(&store).unwrap();
    let expected = settings_v3(
        &["approver_1", "approver_2"],
        Some(("ask_fee_account", "0.01")),
        Some(("bid_fee_account", "0.02")),
        &["ask_tag_1", "ask_tag_2"],
        &["bid_tag_1", "bid_tag_2"],
    );
    assert_eq!(contract_info, expected);
}

#[test]
fn migrate_contractinfo_v2_without_fees() {
    let mut store = store_with("0.16.0", StoredContractInfo::V2(settings_v2()));
    migrate_contract_info(&mut store, &any_address(), &empty_migrate_msg()).unwrap();
    let contract_info = get_contract_info(&store).unwrap();
    let expected = settings_v3(&["approver_1", "approver_2"], None, None, &["ask_tag_1", "ask_tag_2"], &["bid_tag_1", "bid_tag_2"]);
    assert_eq!(contract_info, expected);
}

fn current_settings() -> ContractInfoV3 {
    settings_v3(
        &["approver_1", "approver_2"],
        Some(("ask_fee_account", "0.01")),
        Some(("bid_fee_account", "0.02")),
        &["ask_tag_1", "ask_tag_2"],
        &["bid_tag_1", "bid_tag_2"],
    )
}

#[test]
fn migrate_without_data_is_unchanged() {
    let mut store = store_with("0.16.2", StoredContractInfo::V3(current_settings()));
    migrate_contract_info(&mut store, &any_address(), &empty_migrate_msg()).unwrap();
    let contract_info = get_contract_info(&store).unwrap();
    assert_eq!(contract_info, current_settings());
}

#[test]
fn migrate_with_data_is_changed() {
    let mut store = store_with("0.16.2", StoredContractInfo::V3(current_settings()));
    migrate_contract_info(
        &mut store,
        &any_address(),
        &MigrateMsg {
            approvers: Some(strings(&["approver_3", "approver_4"])),
            ask_fee_rate: Some("0.03".into()),
            ask_fee_account: Some("new_ask_fee_account".into()),
            bid_fee_rate: Some("0.04".into()),
            bid_fee_account: Some("new_bid_fee_account".into()),
            ask_required_attributes: Some(strings(&["ask_tag_3", "ask_tag_4"])),
            bid_required_attributes: Some(strings(&["bid_tag_3", "bid_tag_4"])),
        },
    )
    .unwrap();
    let contract_info = get_contract_info(&store).unwrap();
    let expected = settings_v3(
        &["approver_3", "approver_4"],
        Some(("new_ask_fee_account", "0.03")),
        Some(("new_bid_fee_account", "0.04")),
        &["ask_tag_3", "ask_tag_4"],
        &["bid_tag_3", "bid_tag_4"],
    );
    assert_eq!(contract_info, expected);
}

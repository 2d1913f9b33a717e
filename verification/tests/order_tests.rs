use ats_smart_contract::bid_order::BidOrderV3;
use ats_smart_contract::common::{BlockInfo, Coin, FeeInfo};
use ats_smart_contract::contract::{query, Env, QueryAnswer};
use ats_smart_contract::contract_info::{get_contract_info, set_contract_info, ContractInfoV3};
use ats_smart_contract::error::ContractError;
use ats_smart_contract::execute::modify_contract::check_fee_rate;
use ats_smart_contract::msg::QueryMsg;
use ats_smart_contract::store::ContractStore;
use rust_decimal::Decimal;
use std::str::FromStr;

fn mock_env() -> Env {
    Env {
        contract_address: "cosmos2contract".to_string(),
        block: BlockInfo { height: 12_345, time: 1_571_797_419_879_305_533 },
    }
}

fn decimal(d: ats_smart_contract::decimal::Dec) -> Decimal {
    Decimal::from_i128_with_scale(d.mantissa, d.scale)
}

#[test]
fn get_functions() {
    let bid_order = BidOrderV3 {
        base: Coin { amount: 100, denom: "base_1".to_string() },
        accumulated_base: 10 + 10,
        accumulated_quote: 20 + 80 + 100,
        accumulated_fee: 2 + 8,
        fee: None,
        id: "id".to_string(),
        owner: "bidder".to_string(),
        price: "10".to_string(),
        quote: Coin { amount: 1000, denom: "quote_1".to_string() },
    };

    assert_eq!(bid_order.get_remaining_base(), 80);
    assert_eq!(decimal(bid_order.get_base_ratio(bid_order.get_remaining_base())), Decimal::from_str("0.8").unwrap());
    assert_eq!(bid_order.get_remaining_quote(), 800);
    assert_eq!(decimal(bid_order.get_quote_ratio(bid_order.get_remaining_quote())), Decimal::from_str("0.8").unwrap());
}

#[test]
fn query_contract_info() {
    let mut store = ContractStore::new();
    set_contract_info(
        &mut store,
        &ContractInfoV3 {
            name: "contract_name".into(),
            bind_name: "".into(),
            base_denom: "base_denom".into(),
            convertible_base_denoms: vec!["con_base_1".into(), "con_base_2".into()],
            supported_quote_denoms: vec!["quote_1".into(), "quote_2".into()],
            approvers: vec!["exec_1".into(), "exec_2".into()],
            executors: vec!["exec_1".into(), "exec_2".into()],
            ask_fee_info: None,
            bid_fee_info: None,
            ask_required_attributes: vec!["ask_tag_1".into(), "ask_tag_2".into()],
            bid_required_attributes: vec!["bid_tag_1".into(), "bid_tag_2".into()],
            price_precision: 2,
            size_increment: 100,
        },
    )
    .unwrap();

    let query_contract_info_response = query(&store, &mock_env(), QueryMsg::GetContractInfo {});

    match query_contract_info_response {
        Ok(contract_info) => {
            assert_eq!(contract_info, QueryAnswer::ContractInfo(get_contract_info(&store).unwrap()))
        }
        Err(error) => panic!("unexpected error: {:?}", error),
    }
}

#[test]
fn check_fee_rate_contains_order_and_only_account_change_return_ok() {
    let result = check_fee_rate(
        true,
        Some(FeeInfo { rate: "0.010".to_string(), account: "old_account".to_string() }),
        Some("0.01".to_string()),
        Some("new_account".to_string()),
        "test_fee".to_string(),
    );
    match result {
        Ok(_) => {}
        Err(error) => panic!("unexpected error: {:?}", error),
    }
}

#[test]
fn check_fee_rate_contains_order_and_rate_change_return_err() {
    let result = check_fee_rate(
        true,
        Some(FeeInfo { rate: "0.02".to_string(), account: "old_account".to_string() }),
        Some("0.01".to_string()),
        Some("new_account".to_string()),
        "test_fee".to_string(),
    );
    match result {
        Ok(_) => panic!("unexpected because invalid version"),
        Err(error) => match error {
            ContractError::InvalidFields { fields } => assert_eq!(fields, vec!["test_fee"]),
            _ => panic!("unexpected error: {:?}", error),
        },
    }
}

#[test]
fn check_fee_rate_contains_order_and_rate_change_from_none_return_err() {
    let result = check_fee_rate(true, None, Some("0.01".to_string()), Some("new_account".to_string()), "test_fee".to_string());
    match result {
        Ok(_) => panic!("unexpected because invalid version"),
        Err(error) => match error {
            ContractError::InvalidFields { fields } => assert_eq!(fields, vec!["test_fee"]),
            _ => panic!("unexpected error: {:?}", error),
        },
    }
}

#[test]
fn check_fee_rate_contains_order_and_only_rate_change_return_err() {
    let result = check_fee_rate(
        true,
        Some(FeeInfo { rate: "0.02".to_string(), account: "old_account".to_string() }),
        Some("0.01".to_string()),
        None,
        "test_fee".to_string(),
    );
    match result {
        Ok(_) => panic!("unexpected because invalid version"),
        Err(error) => match error {
            ContractError::InvalidFields { fields } => assert_eq!(fields, vec!["test_fee"]),
            _ => panic!("unexpected error: {:?}", error),
        },
    }
}

#[test]
fn check_fee_rate_contains_order_and_only_account_set_return_ok() {
    let result = check_fee_rate(true, None, None, Some("new_account".to_string()), "test_fee".to_string());
    match result {
        Ok(_) => {}
        Err(error) => panic!("unexpected error: {:?}", error),
    }
}

#[test]
fn check_fee_rate_no_order_return_ok() {
    let result = check_fee_rate(false, None, Some("0.01".to_string()), Some("new_account".to_string()), "test_fee".to_string());
    match result {
        Ok(_) => {}
        Err(error) => panic!("unexpected error: {:?}", error),
    }
}

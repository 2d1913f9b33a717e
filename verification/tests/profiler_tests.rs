use ats_smart_contract::msg::QueryMsg;
use ats_smart_contract::profiler::{
    code_id_to_use, create_ask, create_bid, execute_match, get_ask, get_bid, get_contract_info, get_contract_version,
    provenance_error, to_utf8_string, ExecuteRequest, InstantiateMsg, OrderbookName, ProfilerError,
};
use uuid::Uuid;

#[test]
fn query_builders_name_the_question() {
    assert_eq!(get_ask("a".to_string()), QueryMsg::GetAsk { id: "a".to_string() });
    assert_eq!(get_bid("b".to_string()), QueryMsg::GetBid { id: "b".to_string() });
    assert_eq!(get_contract_info(), QueryMsg::GetContractInfo {});
    assert_eq!(get_contract_version(), QueryMsg::GetVersionInfo {});
}

#[test]
fn provenance_error_carries_the_message() {
    let result: Result<u8, ProfilerError> = provenance_error("no localnet");
    assert_eq!(result, Err(ProfilerError::ProvenanceError("no localnet".to_string())));
}

#[test]
fn random_orderbook_names_have_eight_letters_or_digits() {
    let name: String = OrderbookName::new_random().into();
    assert!(name.starts_with("orderbook-"));
    assert!(name.ends_with(".sc.pb"));
    let suffix = &name["orderbook-".len()..name.len() - ".sc.pb".len()];
    assert_eq!(suffix.len(), 8);
    assert!(suffix.chars().all(|c| c.is_ascii_alphanumeric()));
    let other: String = OrderbookName::new_random().into();
    assert_eq!(other.len(), name.len());
}

#[test]
fn orderbook_name_converts_from_and_to_text() {
    let name = OrderbookName::from("orderbook-x.sc.pb".to_string());
    assert_eq!(String::from(name), "orderbook-x.sc.pb");
}

#[test]
fn instantiate_message_for_the_profiler() {
    let msg = InstantiateMsg::build("tp1node", "orderbook-abc.sc.pb".to_string());
    assert_eq!(msg.name, "orderbook-abc.sc.pb");
    assert_eq!(msg.bind_name, "orderbook-abc.sc.pb");
    assert_eq!(msg.base_denom, "gme.local");
    assert_eq!(msg.supported_quote_denoms, vec!["usd.local".to_string()]);
    assert_eq!(msg.executors, vec!["tp1node".to_string()]);
    assert!(msg.approvers.is_empty());
    assert_eq!(msg.price_precision, "0");
    assert_eq!(msg.size_increment, "1");
}

#[test]
fn order_requests_carry_uuid_text() {
    let id: u128 = 0x02ee2ed1_939d_40ed_9e1b_bb96f76f0fca;
    let text = Uuid::from_u128(id).to_string();
    assert_eq!(text, "02ee2ed1-939d-40ed-9e1b-bb96f76f0fca");
    match create_bid(id, "gme.local", "2", "500", "usd.local", "1000") {
        ExecuteRequest::CreateBid { id, base, price, size, quote, quote_size, fee } => {
            assert_eq!(id, text);
            assert_eq!((base.as_str(), price.as_str(), size.as_str()), ("gme.local", "2", "500"));
            assert_eq!((quote.as_str(), quote_size.as_str()), ("usd.local", "1000"));
            assert_eq!(fee, None);
        }
        other => panic!("unexpected request: {:?}", other),
    }
    match create_ask(id, "usd.local", "2", "gme.local", "500") {
        ExecuteRequest::CreateAsk { id, quote, price, base, size } => {
            assert_eq!(id, text);
            assert_eq!((quote.as_str(), price.as_str(), base.as_str(), size.as_str()), ("usd.local", "2", "gme.local", "500"));
        }
        other => panic!("unexpected request: {:?}", other),
    }
    match execute_match(1, 2, "2", "500") {
        ExecuteRequest::ExecuteMatch { bid_id, ask_id, price, size } => {
            assert_eq!(bid_id, "00000000-0000-0000-0000-000000000001");
            assert_eq!(ask_id, "00000000-0000-0000-0000-000000000002");
            assert_eq!((price.as_str(), size.as_str()), ("2", "500"));
        }
        other => panic!("unexpected request: {:?}", other),
    }
}

#[test]
fn code_id_given_wins_over_configured() {
    assert_eq!(code_id_to_use(Some(3), Some(7)), Some(3));
    assert_eq!(code_id_to_use(None, Some(7)), Some(7));
    assert_eq!(code_id_to_use(None, None), None);
}

#[test]
fn response_data_reads_as_text() {
    assert_eq!(to_utf8_string(&None).unwrap(), "");
    assert_eq!(to_utf8_string(&Some(b"{\"a\":1}".to_vec())).unwrap(), "{\"a\":1}");
    assert!(to_utf8_string(&Some(vec![0xff, 0xfe])).is_err());
}

#[test]
fn uuid_text_is_lower_case_hex_in_hyphenated_groups() {
    match create_ask(0xa1a2a3a4b1b2c1c2d1d2d3d4d5d6d7d8, "usd", "1", "gme", "5") {
        ExecuteRequest::CreateAsk { id, .. } => assert_eq!(id, "a1a2a3a4-b1b2-c1c2-d1d2-d3d4d5d6d7d8"),
        _ => panic!("not an ask"),
    }
}

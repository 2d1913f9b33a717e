//! Changing the contract's settings while it runs, by an executor; settings
//! that orders already depend on are protected while such orders exist.

use crate::common::{clone_opt_fee, clone_strings, contains_string, fee_view, lemma_has_text_views, views, ContractAction, FeeInfo};
use crate::contract::MessageInfo;
use crate::contract::Env;
use crate::contract_info::{load_v3, modify_contract_info, modify_info_spec, InfoModel, get_contract_info};
use crate::decimal::{dec_eq, dec_from_str, decimal_from_str, parts_eq};
use crate::error::{field_error, invalid_field, ContractError, ErrorView};
use crate::msg::ModifyContractMsg;
use crate::response::{empty_response, with_attr, AttrView, Response, ResponseView};
use crate::store::{Api, ContractStore, StoredContractInfo};
use vstd::prelude::*;

verus! {

/// Required attributes may not change while orders of that side exist.
pub open spec fn attributes_check(contains: bool, new_required_attributes: Option<Vec<String>>, field: Seq<char>) -> Result<(), ErrorView> {
    if contains && new_required_attributes is Some {
        Err(field_error(field))
    } else {
        Ok(())
    }
}

/// Refuses a change of the required attributes, reported under
/// `error_field_name`, while orders of that side exist.
pub fn check_required_attributes(
    contains_attribute_side_order: bool,
    new_required_attributes: Option<Vec<String>>,
    error_field_name: String,
) -> (r: Result<(), ContractError>)
    ensures
        match attributes_check(contains_attribute_side_order, new_required_attributes, error_field_name@) {
            Ok(()) => r is Ok,
            Err(e) => r matches Err(err) && err@ == e,
        },
{
    if contains_attribute_side_order {
        match &new_required_attributes {
            None => {},
            Some(_) => {
                let mut fields: Vec<String> = Vec::new();
                fields.push(error_field_name);
                assert(views(fields@) =~= seq![error_field_name@]);
                return Err(ContractError::InvalidFields { fields });
            },
        }
    }
    Ok(())
}

/// Checking a fee rate reads both the current and the new rate as decimals.
pub open spec fn fee_check_reads_rates(contains: bool, current: Option<(Seq<char>, Seq<char>)>, new_rate: Option<String>) -> bool {
    contains && new_rate is Some && current is Some
}

/// Both rates that a fee check reads are decimals.
pub open spec fn fee_rates_parse(contains: bool, current: Option<(Seq<char>, Seq<char>)>, new_rate: Option<String>) -> bool {
    fee_check_reads_rates(contains, current, new_rate) ==> (decimal_from_str((current->0).1) is Some
        && decimal_from_str(new_rate->0@) is Some)
}

/// While orders of that side exist, a new fee rate must equal the current
/// one as a decimal (a new account alone is allowed); a fee may not be set
/// where there was none.
pub open spec fn fee_rate_check(contains: bool, current: Option<(Seq<char>, Seq<char>)>, new_rate: Option<String>, field: Seq<char>) -> Result<(), ErrorView> {
    if contains && new_rate is Some {
        match current {
            Some(cur) => if parts_eq(decimal_from_str(cur.1)->0, decimal_from_str(new_rate->0@)->0) {
                Ok(())
            } else {
                Err(field_error(field))
            },
            None => Err(field_error(field)),
        }
    } else {
        Ok(())
    }
}

/// Refuses a change of a fee rate, reported under `error_field_name`, while
/// orders of that side exist.
pub fn check_fee_rate(
    contains_fee_side_order: bool,
    current_fee_info: Option<FeeInfo>,
    new_fee_rate: Option<String>,
    new_fee_account: Option<String>,
    error_field_name: String,
) -> (r: Result<(), ContractError>)
    requires
        fee_rates_parse(contains_fee_side_order, fee_view(current_fee_info), new_fee_rate),
    ensures
        match fee_rate_check(contains_fee_side_order, fee_view(current_fee_info), new_fee_rate, error_field_name@) {
            Ok(()) => r is Ok,
            Err(e) => r matches Err(err) && err@ == e,
        },
{
    if contains_fee_side_order {
        match &new_fee_rate {
            None => {},
            Some(new_rate) => {
                let invalid_change = match &current_fee_info {
                    Some(current_fee) => {
                        let current_rate = dec_from_str(current_fee.rate.as_str());
                        let new_rate = dec_from_str(new_rate.as_str());
                        match (current_rate, new_rate) {
                            (Some(c), Some(n)) => !dec_eq(c, n),
                            _ => true,
                        }
                    },
                    None => true,
                };
                if invalid_change {
                    let mut fields: Vec<String> = Vec::new();
                    fields.push(error_field_name);
                    assert(views(fields@) =~= seq![error_field_name@]);
                    return Err(ContractError::InvalidFields { fields });
                }
            },
        }
    }
    Ok(())
}

/// Checks whether the rates that a fee check reads are decimals.
fn fee_rates_are_decimals(contains: bool, current: &Option<FeeInfo>, new_rate: &Option<String>) -> (r: bool)
    ensures
        r == fee_rates_parse(contains, fee_view(*current), *new_rate),
{
    match (current, new_rate) {
        (Some(c), Some(n)) => if contains {
            dec_from_str(c.rate.as_str()).is_some() && dec_from_str(n.as_str()).is_some()
        } else {
            true
        },
        _ => true,
    }
}

/// Every current approver stays among the new ones.
pub open spec fn approvers_kept(current: Seq<Seq<char>>, new: Seq<Seq<char>>) -> bool {
    forall|i: int| 0 <= i < current.len() ==> new.contains(#[trigger] current[i])
}

fn keeps_all(current: &Vec<String>, new: &Vec<String>) -> (r: bool)
    ensures
        r == approvers_kept(views(current@), views(new@)),
{
    let mut i: usize = 0;
    while i < current.len()
        invariant
            i <= current@.len(),
            forall|j: int| 0 <= j < i ==> views(new@).contains(#[trigger] views(current@)[j]),
        decreases current@.len() - i,
    {
        proof {
            lemma_has_text_views(new@, current@[i as int]@);
        }
        if !contains_string(new, &current[i]) {
            assert(!views(new@).contains(views(current@)[i as int]));
            return false;
        }
        i = i + 1;
    }
    true
}

/// The answer to a change of the settings.
pub open spec fn modify_response() -> ResponseView {
    with_attr(empty_response(), "action"@, AttrView::Text(ContractAction::ModifyContract.spec_name()))
}

/// A change of the settings: by an executor; while asks exist, the ask
/// attributes and the ask fee rate may not change, and likewise for bids;
/// while any order exists, no current approver may be dropped; then the
/// settings are migrated and changed as the message says. `None` where the
/// contract aborts (a fee rate it reads is not a decimal).
pub open spec fn modify_contract_spec(store: ContractStore, api: Api, info: MessageInfo, msg: ModifyContractMsg) -> Option<Result<InfoModel, ErrorView>> {
    match load_v3(store.contract_info) {
        Err(e) => Some(Err(ErrorView::Std(e))),
        Ok(ci) => if !ci.executors.contains(info.sender@) {
            Some(Err(ErrorView::Unauthorized))
        } else {
            let has_asks = store.asks@.len() > 0;
            let has_bids = store.bids@.len() > 0;
            modify_checks(store, api, ci, has_asks, has_bids, msg)
        },
    }
}

/// The checks of a change after the sender is known to be an executor.
pub open spec fn modify_checks(
    store: ContractStore,
    api: Api,
    ci: InfoModel,
    has_asks: bool,
    has_bids: bool,
    msg: ModifyContractMsg,
) -> Option<Result<InfoModel, ErrorView>> {
    let ask_fee = ci.ask_fee_info;
    let bid_fee = ci.bid_fee_info;
    if attributes_check(has_asks, msg.ask_required_attributes, "ask_required_attributes"@) is Err {
        Some(Err(field_error("ask_required_attributes"@)))
    } else if !fee_rates_parse(has_asks, ask_fee, msg.ask_fee_rate) {
        None
    } else if fee_rate_check(has_asks, ask_fee, msg.ask_fee_rate, "ask_fee"@) is Err {
        Some(Err(field_error("ask_fee"@)))
    } else if attributes_check(has_bids, msg.bid_required_attributes, "bid_required_attributes"@) is Err {
        Some(Err(field_error("bid_required_attributes"@)))
    } else if !fee_rates_parse(has_bids, bid_fee, msg.bid_fee_rate) {
        None
    } else if fee_rate_check(has_bids, bid_fee, msg.bid_fee_rate, "bid_fee"@) is Err {
        Some(Err(field_error("bid_fee"@)))
    } else if (has_asks || has_bids) && (msg.approvers matches Some(l) && !approvers_kept(ci.approvers, views(l@))) {
        Some(Err(field_error("approvers"@)))
    } else {
        match modify_info_spec(store, api, msg) {
            Ok(m) => Some(Ok(m)),
            Err(e) => Some(Err(e)),
        }
    }
}

/// The result of a change of the settings and the storage after it are as
/// `o` says: an abort or an error leave the storage as it was; on success
/// the new settings are stored and nothing else changes.
pub open spec fn modify_outcome_holds(
    o: Option<Result<InfoModel, ErrorView>>,
    r: Option<Result<Response, ContractError>>,
    before: ContractStore,
    after: ContractStore,
) -> bool {
    match o {
        None => r is None && after == before,
        Some(Err(e)) => (r matches Some(Err(err)) && err@ == e) && after == before,
        Some(Ok(m)) => (r matches Some(Ok(resp)) && resp@ == modify_response())
            && (after.contract_info matches Some(StoredContractInfo::V3(c)) && c@ == m)
            && after.asks == before.asks
            && after.bids == before.bids
            && after.version_info == before.version_info,
    }
}

fn clone_opt_string(o: &Option<String>) -> (r: Option<String>)
    ensures
        r == *o,
{
    match o {
        Some(t) => Some(t.clone()),
        None => None,
    }
}

fn clone_opt_strings(o: &Option<Vec<String>>) -> (r: Option<Vec<String>>)
    ensures
        r is Some <==> o is Some,
        r matches Some(l) ==> l@ == o->0@,
{
    match o {
        Some(l) => Some(clone_strings(l)),
        None => None,
    }
}

/// Changes the settings, as `modify_contract_spec` says; the storage
/// changes only on success.
pub fn modify_contract(
    store: &mut ContractStore,
    api: &Api,
    env: &Env,
    info: &MessageInfo,
    approvers: Option<Vec<String>>,
    executors: Option<Vec<String>>,
    ask_fee_rate: Option<String>,
    ask_fee_account: Option<String>,
    bid_fee_rate: Option<String>,
    bid_fee_account: Option<String>,
    ask_required_attributes: Option<Vec<String>>,
    bid_required_attributes: Option<Vec<String>>,
) -> (r: Option<Result<Response, ContractError>>)
    requires
        old(store).wf(),
    ensures
        modify_outcome_holds(
            modify_contract_spec(
                *old(store),
                *api,
                *info,
                (ModifyContractMsg {
                    approvers,
                    executors,
                    ask_fee_rate,
                    ask_fee_account,
                    bid_fee_rate,
                    bid_fee_account,
                    ask_required_attributes,
                    bid_required_attributes,
                }),
            ),
            r,
            *old(store),
            *final(store),
        ),
{
    let contract_info = match get_contract_info(store) {
        Ok(c) => c,
        Err(e) => {
            return Some(Err(e));
        },
    };
    proof {
        lemma_has_text_views(contract_info.executors@, info.sender@);
    }
    if !contains_string(&contract_info.executors, &info.sender) {
        return Some(Err(ContractError::Unauthorized));
    }
    let contains_ask = store.asks.len() != 0;
    if let Err(e) = check_required_attributes(
        contains_ask,
        clone_opt_strings(&ask_required_attributes),
        "ask_required_attributes".to_owned(),
    ) {
        return Some(Err(e));
    }
    if !fee_rates_are_decimals(contains_ask, &contract_info.ask_fee_info, &ask_fee_rate) {
        return None;
    }
    if let Err(e) = check_fee_rate(
        contains_ask,
        clone_opt_fee(&contract_info.ask_fee_info),
        clone_opt_string(&ask_fee_rate),
        clone_opt_string(&ask_fee_account),
        "ask_fee".to_owned(),
    ) {
        return Some(Err(e));
    }
    let contains_bid = store.bids.len() != 0;
    if let Err(e) = check_required_attributes(
        contains_bid,
        clone_opt_strings(&bid_required_attributes),
        "bid_required_attributes".to_owned(),
    ) {
        return Some(Err(e));
    }
    if !fee_rates_are_decimals(contains_bid, &contract_info.bid_fee_info, &bid_fee_rate) {
        return None;
    }
    if let Err(e) = check_fee_rate(
        contains_bid,
        clone_opt_fee(&contract_info.bid_fee_info),
        clone_opt_string(&bid_fee_rate),
        clone_opt_string(&bid_fee_account),
        "bid_fee".to_owned(),
    ) {
        return Some(Err(e));
    }
    if contains_ask || contains_bid {
        match &approvers {
            None => {},
            Some(new_approvers) => {
                if !keeps_all(&contract_info.approvers, new_approvers) {
                    return Some(Err(invalid_field("approvers")));
                }
            },
        }
    }
    let msg = ModifyContractMsg {
        approvers,
        executors,
        ask_fee_rate,
        ask_fee_account,
        bid_fee_rate,
        bid_fee_account,
        ask_required_attributes,
        bid_required_attributes,
    };
    if let Err(e) = modify_contract_info(store, api, &msg) {
        return Some(Err(e));
    }
    let mut response = Response::new();
    response.add_text("action", &ContractAction::ModifyContract.name());
    Some(Ok(response))
}

} // verus!

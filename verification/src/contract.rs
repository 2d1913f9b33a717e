//! The operations of the order book: setting it up, creating, approving,
//! cancelling, expiring and rejecting orders, matching an ask with a bid,
//! changing the settings, migrating, and answering questions.

use crate::ask_order::{AskOrderClass, AskOrderStatus, AskOrderV1};
use crate::bid_order::BidOrderV3;
use crate::common::{clone_opt_coin, coin, contains_string, Action, lemma_has_text_views, views, BlockInfo, Coin, ContractAction};
use crate::contract_info::{get_contract_info, load_v3, InfoModel};
use crate::match_totals::{
    lemma_accounting_stored, lemma_eq_eq, lemma_eq_lt, lemma_gross_at_bid_price, lemma_refund_makes_up_bid_total,
    match_accounting, match_totals_fit, times_whole,
};
use crate::decimal::{
    dec_checked_mul, dec_eq, dec_from_str, dec_from_u128, dec_is_integral, dec_round_whole, dec_to_string, dec_to_u128,
    dec_checked_sub, dec_lt, decimal_checked_mul, decimal_checked_sub, decimal_from_str, decimal_to_string, max_mantissa,
    parts_eq, parts_integral, parts_lt, parts_round_u128,
    parts_to_u128, pow10, pow10_u128, Dec,
};
use crate::error::{field_error, generic_of, invalid_field, to_generic, ContractError, ErrorView};
use crate::response::{bind_name_view, empty_response, transfer_view, with_attr, with_message, AttrValue, AttrView, Response, ResponseView, ContractMessageView};
use crate::store::{
    asks_with, asks_without, bids_with, bids_without, load_ask_spec, load_bid_spec, lookup_ask, lookup_bid, ContractStore,
    Querier, StoredBid,
};
use crate::error::{OverflowOperation, StdError, StdErrorView};
use crate::contract_info::{fee_update, update_fee, validate_addresses, validate_all, set_contract_info, ContractInfoV3};
use crate::execute::modify_contract::{modify_contract, modify_contract_spec, modify_outcome_holds};
use crate::msg::{ExecuteMsg, InstantiateMsg, MigrateMsg, ModifyContractMsg, QueryMsg, Validate};
use crate::ask_order::{ask_migration_spec, migrate_ask_orders};
use crate::bid_order::{bid_migration_spec, migrate_bid_orders};
use crate::contract_info::{migrate_info_spec, migrated_contract_info};
use crate::version_info::{clone_version_info, get_version_info, migrate_version_info, version_of};
use crate::store::{Api, StoredContractInfo};
use crate::version_info::{set_version_info, VersionInfoV1, CRATE_NAME, PACKAGE_VERSION};
use vstd::prelude::*;

verus! {

/// The contract's own address and the block being executed.
#[derive(Clone, Debug, PartialEq, Eq)]
pub struct Env {
    pub contract_address: String,
    pub block: BlockInfo,
}

/// The sender of a message and the funds sent with it.
#[derive(Clone, Debug, PartialEq, Eq)]
pub struct MessageInfo {
    pub sender: String,
    pub funds: Vec<Coin>,
}

/// How an operation ends: the contract aborts (a panic of the contract
/// code), it refuses with an error (the storage does not change), or it
/// succeeds with the orders it leaves stored and its answer.
pub ghost enum Outcome {
    Abort,
    Fail(ErrorView),
    Done { asks: Seq<AskOrderV1>, bids: Seq<StoredBid>, response: ResponseView },
}

/// The result of an operation and the storage after it are as the outcome
/// says; on success the settings and the recorded version do not change.
pub open spec fn outcome_holds(
    o: Outcome,
    r: Option<Result<Response, ContractError>>,
    before: ContractStore,
    after: ContractStore,
) -> bool {
    match o {
        Outcome::Abort => r is None && after == before,
        Outcome::Fail(e) => (r matches Some(Err(err)) && err@ == e) && after == before,
        Outcome::Done { asks, bids, response } => {
            &&& r matches Some(Ok(resp)) && resp@ == response
            &&& after.asks@ == asks
            &&& after.bids@ == bids
            &&& after.contract_info == before.contract_info
            &&& after.version_info == before.version_info
            &&& after.wf()
        },
    }
}

/// The funds sent are exactly one coin of `amount` in `denom`.
pub open spec fn funds_are(funds: Seq<Coin>, amount: u128, denom: Seq<char>) -> bool {
    funds.len() == 1 && funds[0].amount == amount && funds[0].denom@ == denom
}

/// The funds sent are exactly one coin of `amount` in `denom`.
pub fn funds_match(funds: &Vec<Coin>, amount: u128, denom: &String) -> (r: bool)
    ensures
        r == funds_are(funds@, amount, denom@),
{
    funds.len() == 1 && funds[0].amount == amount && funds[0].denom == *denom
}

/// The funds sent fit what a restricted marker or a plain coin calls for:
/// nothing for a restricted marker (the contract moves it itself), else
/// exactly the order's coin.
pub open spec fn funds_fit(funds: Seq<Coin>, restricted: bool, amount: u128, denom: Seq<char>) -> bool {
    if restricted {
        funds.len() == 0
    } else {
        funds_are(funds, amount, denom)
    }
}

/// A price with more decimal places than the precision allows: not a whole
/// multiple of 10^-precision.
pub open spec fn excess_precision(price: (int, int), precision: u128) -> bool {
    price.1 > precision && price.0 % pow10((price.1 - precision) as nat) != 0
}

/// A price with more decimal places than the precision allows.
pub fn is_invalid_price_precision(price: Dec, precision: u128) -> (r: bool)
    requires
        price.wf(),
    ensures
        r == excess_precision(price.parts(), precision),
{
    if (price.scale as u128) > precision {
        let k: u32 = price.scale - (precision as u32);
        let p = pow10_u128(k);
        let abs: u128 = if price.mantissa < 0 { (-price.mantissa) as u128 } else { price.mantissa as u128 };
        proof {
            crate::decimal::lemma_pow10_positive(k as nat);
            lemma_mod_abs(price.mantissa as int, p as int);
        }
        abs % p != 0
    } else {
        false
    }
}

proof fn lemma_mod_abs(m: int, p: int)
    requires
        p > 0,
    ensures
        ((if m < 0 { -m } else { m }) % p == 0) == (m % p == 0),
{
    if m < 0 {
        vstd::arithmetic::div_mod::lemma_fundamental_div_mod(m, p);
        vstd::arithmetic::div_mod::lemma_fundamental_div_mod(-m, p);
        if m % p == 0 {
            vstd::arithmetic::div_mod::lemma_mod_multiples_basic(-(m / p), p);
            assert(-m == (-(m / p)) * p) by (nonlinear_arith)
                requires
                    m == p * (m / p),
            ;
        }
        if (-m) % p == 0 {
            vstd::arithmetic::div_mod::lemma_mod_multiples_basic(-((-m) / p), p);
            assert(m == (-((-m) / p)) * p) by (nonlinear_arith)
                requires
                    -m == p * ((-m) / p),
            ;
        }
    }
}

/// The sender holds the attributes the settings require (none required
/// means anyone does).
pub open spec fn has_required(querier: Querier, sender: Seq<char>, required: Seq<Seq<char>>) -> bool {
    required.len() == 0 || querier.holds_all(sender, required)
}

/// The ask as stored: an ask in a convertible base waits for the issuer's
/// approval.
pub open spec fn ask_as_stored(ci: InfoModel, ask: AskOrderV1) -> AskOrderV1 {
    if ask.base@ != ci.base_denom {
        AskOrderV1 { class: AskOrderClass::Convertible { status: AskOrderStatus::PendingIssuerApproval }, ..ask }
    } else {
        ask
    }
}

/// The answer to a created ask.
pub open spec fn create_ask_response(ci: InfoModel, a: AskOrderV1, restricted: bool, contract: Seq<char>) -> ResponseView {
    let r = with_attr(empty_response(), "action"@, AttrView::Text(ContractAction::CreateAsk.spec_name()));
    let r = with_attr(r, "id"@, AttrView::Text(a.id@));
    let r = with_attr(r, "class"@, AttrView::Class(a.class));
    let r = with_attr(r, "target_base"@, AttrView::Text(ci.base_denom));
    let r = with_attr(r, "base"@, AttrView::Text(a.base@));
    let r = with_attr(r, "quote"@, AttrView::Text(a.quote@));
    let r = with_attr(r, "price"@, AttrView::Text(a.price@));
    let r = with_attr(r, "size"@, AttrView::Amount(a.size));
    if restricted {
        with_message(r, ContractMessageView::Marker { amount: a.size, denom: a.base@, to: contract, from: a.owner@ })
    } else {
        r
    }
}

/// Creating an ask: in the base or a convertible base, with funds that fit
/// the order, in a supported quote, a size that is a multiple of the size
/// increment, a positive price with no more decimal places than the
/// precision allows, from a sender holding the required attributes, under
/// an id not yet used.
pub open spec fn create_ask_spec(store: ContractStore, querier: Querier, env: Env, info: MessageInfo, ask: AskOrderV1) -> Outcome {
    match load_v3(store.contract_info) {
        Err(e) => Outcome::Fail(ErrorView::Std(e)),
        Ok(ci) => {
            let restricted = querier.is_restricted(ask.base@);
            if ask.base@ != ci.base_denom && !ci.convertible_base_denoms.contains(ask.base@) {
                Outcome::Fail(ErrorView::InconvertibleBaseDenom)
            } else if !funds_fit(info.funds@, restricted, ask.size, ask.base@) {
                Outcome::Fail(ErrorView::SentFundsOrderMismatch)
            } else if !ci.supported_quote_denoms.contains(ask.quote@) {
                Outcome::Fail(ErrorView::UnsupportedQuoteDenom)
            } else if ci.size_increment == 0 {
                Outcome::Abort
            } else if ask.size % ci.size_increment != 0 {
                Outcome::Fail(field_error("size"@))
            } else {
                match decimal_from_str(ask.price@) {
                    None => Outcome::Fail(field_error("price"@)),
                    Some(p) => if p.0 <= 0 || excess_precision(p, ci.price_precision) {
                        Outcome::Fail(field_error("price"@))
                    } else if !has_required(querier, info.sender@, ci.ask_required_attributes) {
                        Outcome::Fail(ErrorView::Unauthorized)
                    } else if lookup_ask(store.asks@, ask.id@) is Some {
                        Outcome::Fail(field_error("id"@))
                    } else {
                        let stored = ask_as_stored(ci, ask);
                        Outcome::Done {
                            asks: asks_with(store.asks@, stored),
                            bids: store.bids@,
                            response: create_ask_response(ci, stored, restricted, env.contract_address@),
                        }
                    },
                }
            }
        },
    }
}

/// Creates an ask.
pub fn create_ask(
    store: &mut ContractStore,
    querier: &Querier,
    env: &Env,
    info: &MessageInfo,
    ask_order: AskOrderV1,
) -> (r: Option<Result<Response, ContractError>>)
    requires
        old(store).wf(),
    ensures
        outcome_holds(create_ask_spec(*old(store), *querier, *env, *info, ask_order), r, *old(store), *final(store)),
{
    let mut ask_order = ask_order;
    let contract_info = match get_contract_info(store) {
        Ok(c) => c,
        Err(e) => {
            return Some(Err(e));
        },
    };
    proof {
        lemma_has_text_views(contract_info.convertible_base_denoms@, ask_order.base@);
        lemma_has_text_views(contract_info.supported_quote_denoms@, ask_order.quote@);
    }
    if ask_order.base != contract_info.base_denom && !contains_string(&contract_info.convertible_base_denoms, &ask_order.base) {
        return Some(Err(ContractError::InconvertibleBaseDenom));
    }
    let restricted = querier.is_restricted_marker(&ask_order.base);
    if restricted {
        if info.funds.len() != 0 {
            return Some(Err(ContractError::SentFundsOrderMismatch));
        }
    } else {
        if !funds_match(&info.funds, ask_order.size, &ask_order.base) {
            return Some(Err(ContractError::SentFundsOrderMismatch));
        }
    }
    if !contains_string(&contract_info.supported_quote_denoms, &ask_order.quote) {
        return Some(Err(ContractError::UnsupportedQuoteDenom));
    }
    if contract_info.size_increment == 0 {
        return None;
    }
    if ask_order.size % contract_info.size_increment != 0 {
        return Some(Err(invalid_field("size")));
    }
    let ask_price = match dec_from_str(ask_order.price.as_str()) {
        Some(p) => p,
        None => {
            return Some(Err(invalid_field("price")));
        },
    };
    if ask_price.mantissa <= 0 {
        return Some(Err(invalid_field("price")));
    }
    if is_invalid_price_precision(ask_price, contract_info.price_precision) {
        return Some(Err(invalid_field("price")));
    }
    if contract_info.ask_required_attributes.len() != 0 {
        if !querier.has_all_attributes(&info.sender, &contract_info.ask_required_attributes) {
            return Some(Err(ContractError::Unauthorized));
        }
    }
    if ask_order.base != contract_info.base_denom {
        ask_order.class = AskOrderClass::Convertible { status: AskOrderStatus::PendingIssuerApproval };
    }
    if store.find_ask(&ask_order.id).is_some() {
        return Some(Err(invalid_field("id")));
    }
    let mut response = Response::new();
    response.add_text("action", &ContractAction::CreateAsk.name());
    response.add_text("id", &ask_order.id);
    response.add_attr("class", AttrValue::Class(ask_order.class.clone()));
    response.add_text("target_base", &contract_info.base_denom);
    response.add_text("base", &ask_order.base);
    response.add_text("quote", &ask_order.quote);
    response.add_text("price", &ask_order.price);
    response.add_attr("size", AttrValue::Amount(ask_order.size));
    if restricted {
        response.add_message(crate::response::ContractMessage::Marker {
            amount: ask_order.size,
            denom: ask_order.base.clone(),
            to: env.contract_address.clone(),
            from: ask_order.owner.clone(),
        });
    }
    store.save_ask(ask_order);
    Some(Ok(response))
}

/// The answer to a created bid.
pub open spec fn create_bid_response(b: BidOrderV3, restricted: bool, contract: Seq<char>) -> ResponseView {
    let r = with_attr(empty_response(), "action"@, AttrView::Text(ContractAction::CreateBid.spec_name()));
    let r = with_attr(r, "base"@, AttrView::Text(b.base.denom@));
    let r = with_attr(r, "id"@, AttrView::Text(b.id@));
    let r = with_attr(r, "fee"@, AttrView::Fee(b.fee));
    let r = with_attr(r, "price"@, AttrView::Text(b.price@));
    let r = with_attr(r, "quote"@, AttrView::Text(b.quote.denom@));
    let r = with_attr(r, "quote_size"@, AttrView::Amount(b.quote.amount));
    let r = with_attr(r, "size"@, AttrView::Amount(b.base.amount));
    if restricted {
        let amount = match b.fee {
            Some(f) => (b.quote.amount + f.amount) as u128,
            None => b.quote.amount,
        };
        with_message(r, ContractMessageView::Marker { amount, denom: b.quote.denom@, to: contract, from: b.owner@ })
    } else {
        r
    }
}

/// The bid fee rate of the settings: zero without a bid fee; `None` when
/// the rate is not a decimal.
pub open spec fn bid_fee_rate_of(ci: InfoModel) -> Option<(int, int)> {
    match ci.bid_fee_info {
        Some(f) => decimal_from_str(f.1),
        None => Some((0, 0)),
    }
}

/// What the bidder sends: the quote total and the fee.
pub open spec fn bid_funds(total: int, fee: Option<Coin>) -> int {
    match fee {
        Some(f) => total + f.amount,
        None => total,
    }
}

/// The checks of a bid after its fee: the rest of the checks of a created
/// bid, and the bid stored.
pub open spec fn create_bid_rest(
    store: ContractStore,
    querier: Querier,
    env: Env,
    info: MessageInfo,
    ci: InfoModel,
    bid: BidOrderV3,
    total: int,
) -> Outcome {
    let restricted = querier.is_restricted(bid.quote.denom@);
    if !ci.supported_quote_denoms.contains(bid.quote.denom@) {
        Outcome::Fail(ErrorView::UnsupportedQuoteDenom)
    } else if bid.base.denom@ != ci.base_denom {
        Outcome::Fail(ErrorView::InconvertibleBaseDenom)
    } else if !has_required(querier, info.sender@, ci.bid_required_attributes) {
        Outcome::Fail(ErrorView::Unauthorized)
    } else if restricted && info.funds@.len() != 0 {
        Outcome::Fail(ErrorView::SentFundsOrderMismatch)
    } else if !restricted && !funds_are(info.funds@, bid_funds(total, bid.fee) as u128, bid.quote.denom@) {
        Outcome::Fail(ErrorView::SentFundsOrderMismatch)
    } else {
        match lookup_bid(store.bids@, bid.id@) {
            Some(StoredBid::V3(_)) => Outcome::Fail(field_error("id"@)),
            Some(StoredBid::V2(_)) => Outcome::Fail(ErrorView::Std(StdErrorView::ParseErr { target_type: crate::store::bid_kind() })),
            None => Outcome::Done {
                asks: store.asks@,
                bids: bids_with(store.bids@, bid),
                response: create_bid_response(bid, restricted, env.contract_address@),
            },
        }
    }
}

/// Creating a bid: a positive price with no more decimal places than the
/// precision allows, a size that is a multiple of the size increment, a
/// quote total (price times size) that is a whole number equal to the quote
/// size, a fee equal to the bid fee rate times the total (rounded half away
/// from zero) in the quote denomination, a supported quote, the base of the
/// settings, a sender holding the required attributes, funds that fit the
/// order (total and fee), an id not yet used.
pub open spec fn create_bid_spec(store: ContractStore, querier: Querier, env: Env, info: MessageInfo, bid: BidOrderV3) -> Outcome {
    match load_v3(store.contract_info) {
        Err(e) => Outcome::Fail(ErrorView::Std(e)),
        Ok(ci) => match decimal_from_str(bid.price@) {
            None => Outcome::Fail(field_error("price"@)),
            Some(p) => if p.0 <= 0 || excess_precision(p, ci.price_precision) {
                Outcome::Fail(field_error("price"@))
            } else if ci.size_increment == 0 {
                Outcome::Abort
            } else if bid.base.amount % ci.size_increment != 0 {
                Outcome::Fail(field_error("size"@))
            } else if bid.base.amount > max_mantissa() {
                Outcome::Abort
            } else {
                match decimal_checked_mul(p.0, p.1, bid.base.amount as int, 0) {
                    None => Outcome::Fail(ErrorView::TotalOverflow),
                    Some(t) => if !parts_integral(t) {
                        Outcome::Fail(ErrorView::NonIntegerTotal)
                    } else if bid.quote.amount > max_mantissa() {
                        Outcome::Abort
                    } else if !parts_eq(t, (bid.quote.amount as int, 0)) {
                        Outcome::Fail(ErrorView::SentFundsOrderMismatch)
                    } else {
                        match bid_fee_rate_of(ci) {
                            None => Outcome::Fail(field_error("ContractInfo.bid_fee_info.rate"@)),
                            Some(rate) => match decimal_checked_mul(rate.0, rate.1, t.0, t.1) {
                                None => Outcome::Fail(ErrorView::TotalOverflow),
                                Some(f) => match parts_round_u128(f) {
                                    None => Outcome::Fail(ErrorView::TotalOverflow),
                                    Some(fee_size) => {
                                        let rate_text = decimal_to_string(rate.0, rate.1);
                                        match bid.fee {
                                            Some(fee) => if fee.amount != fee_size {
                                                Outcome::Fail(ErrorView::InvalidFeeSize { fee_rate: rate_text })
                                            } else if fee.denom@ != bid.quote.denom@ {
                                                Outcome::Fail(ErrorView::SentFundsOrderMismatch)
                                            } else {
                                                create_bid_rest(store, querier, env, info, ci, bid, parts_to_u128(t)->0)
                                            },
                                            None => if fee_size != 0 {
                                                Outcome::Fail(ErrorView::InvalidFeeSize { fee_rate: rate_text })
                                            } else {
                                                create_bid_rest(store, querier, env, info, ci, bid, parts_to_u128(t)->0)
                                            },
                                        }
                                    },
                                },
                            },
                        }
                    },
                }
            },
        },
    }
}

proof fn lemma_whole_part_bound(m: int, s: nat)
    requires
        0 <= m <= max_mantissa(),
    ensures
        0 <= m / pow10(s) <= max_mantissa(),
{
    crate::decimal::lemma_pow10_positive(s);
    vstd::arithmetic::div_mod::lemma_div_is_ordered_by_denominator(m, 1, pow10(s));
    vstd::arithmetic::div_mod::lemma_div_pos_is_pos(m, pow10(s));
}

/// Creates a bid.
pub fn create_bid(
    store: &mut ContractStore,
    querier: &Querier,
    env: &Env,
    info: &MessageInfo,
    bid_order: BidOrderV3,
) -> (r: Option<Result<Response, ContractError>>)
    requires
        old(store).wf(),
    ensures
        outcome_holds(create_bid_spec(*old(store), *querier, *env, *info, bid_order), r, *old(store), *final(store)),
{
    let contract_info = match get_contract_info(store) {
        Ok(c) => c,
        Err(e) => {
            return Some(Err(e));
        },
    };
    let bid_price = match dec_from_str(bid_order.price.as_str()) {
        Some(p) => p,
        None => {
            return Some(Err(invalid_field("price")));
        },
    };
    if bid_price.mantissa <= 0 {
        return Some(Err(invalid_field("price")));
    }
    if is_invalid_price_precision(bid_price, contract_info.price_precision) {
        return Some(Err(invalid_field("price")));
    }
    if contract_info.size_increment == 0 {
        return None;
    }
    if bid_order.base.amount % contract_info.size_increment != 0 {
        return Some(Err(invalid_field("size")));
    }
    let size = match dec_from_u128(bid_order.base.amount) {
        Some(s) => s,
        None => {
            return None;
        },
    };
    let total = match dec_checked_mul(bid_price, size) {
        Some(t) => t,
        None => {
            return Some(Err(ContractError::TotalOverflow));
        },
    };
    if !dec_is_integral(total) {
        return Some(Err(ContractError::NonIntegerTotal));
    }
    let quote_size = match dec_from_u128(bid_order.quote.amount) {
        Some(q) => q,
        None => {
            return None;
        },
    };
    if !dec_eq(total, quote_size) {
        return Some(Err(ContractError::SentFundsOrderMismatch));
    }
    let bid_fee_rate = match &contract_info.bid_fee_info {
        Some(bid_fee_info) => match dec_from_str(bid_fee_info.rate.as_str()) {
            Some(r) => r,
            None => {
                return Some(Err(invalid_field("ContractInfo.bid_fee_info.rate")));
            },
        },
        None => Dec { mantissa: 0, scale: 0 },
    };
    let fee_product = match dec_checked_mul(bid_fee_rate, total) {
        Some(f) => f,
        None => {
            return Some(Err(ContractError::TotalOverflow));
        },
    };
    let calculated_fee_size = match dec_to_u128(dec_round_whole(fee_product)) {
        Some(f) => f,
        None => {
            return Some(Err(ContractError::TotalOverflow));
        },
    };
    match &bid_order.fee {
        Some(fee) => {
            if fee.amount != calculated_fee_size {
                return Some(Err(ContractError::InvalidFeeSize { fee_rate: dec_to_string(bid_fee_rate) }));
            }
            if fee.denom != bid_order.quote.denom {
                return Some(Err(ContractError::SentFundsOrderMismatch));
            }
        },
        None => {
            if calculated_fee_size != 0 {
                return Some(Err(ContractError::InvalidFeeSize { fee_rate: dec_to_string(bid_fee_rate) }));
            }
        },
    }
    proof {
        lemma_has_text_views(contract_info.supported_quote_denoms@, bid_order.quote.denom@);
    }
    if !contains_string(&contract_info.supported_quote_denoms, &bid_order.quote.denom) {
        return Some(Err(ContractError::UnsupportedQuoteDenom));
    }
    if bid_order.base.denom != contract_info.base_denom {
        return Some(Err(ContractError::InconvertibleBaseDenom));
    }
    if contract_info.bid_required_attributes.len() != 0 {
        if !querier.has_all_attributes(&info.sender, &contract_info.bid_required_attributes) {
            return Some(Err(ContractError::Unauthorized));
        }
    }
    let restricted = querier.is_restricted_marker(&bid_order.quote.denom);
    if restricted && info.funds.len() != 0 {
        return Some(Err(ContractError::SentFundsOrderMismatch));
    }
    let total_u128 = dec_to_u128(total).unwrap();
    proof {
        lemma_whole_part_bound(total.mantissa as int, total.scale as nat);
    }
    if !restricted {
        let sent = match &bid_order.fee {
            Some(fee) => total_u128 + fee.amount,
            None => total_u128,
        };
        if !funds_match(&info.funds, sent, &bid_order.quote.denom) {
            return Some(Err(ContractError::SentFundsOrderMismatch));
        }
    }
    match store.find_bid(&bid_order.id) {
        Some(i) => {
            match &store.bids[i] {
                StoredBid::V3(_) => {
                    return Some(Err(invalid_field("id")));
                },
                StoredBid::V2(_) => {
                    return Some(Err(ContractError::Std(crate::error::StdError::ParseErr {
                        target_type: "ats_smart_contract::bid_order::BidOrderV3".to_owned(),
                    })));
                },
            }
        },
        None => {},
    }
    let mut response = Response::new();
    response.add_text("action", &ContractAction::CreateBid.name());
    response.add_text("base", &bid_order.base.denom);
    response.add_text("id", &bid_order.id);
    response.add_attr("fee", AttrValue::Fee(crate::common::clone_opt_coin(&bid_order.fee)));
    response.add_text("price", &bid_order.price);
    response.add_text("quote", &bid_order.quote.denom);
    response.add_attr("quote_size", AttrValue::Amount(bid_order.quote.amount));
    response.add_attr("size", AttrValue::Amount(bid_order.base.amount));
    if restricted {
        let amount = match &bid_order.fee {
            Some(fee) => bid_order.quote.amount + fee.amount,
            None => bid_order.quote.amount,
        };
        response.add_message(crate::response::ContractMessage::Marker {
            amount,
            denom: bid_order.quote.denom.clone(),
            to: env.contract_address.clone(),
            from: bid_order.owner.clone(),
        });
    }
    store.save_bid(bid_order);
    Some(Ok(response))
}

/// The answer to an approved ask.
pub open spec fn approve_ask_response(a: AskOrderV1, restricted: bool, size: u128, base: Seq<char>, sender: Seq<char>, contract: Seq<char>) -> ResponseView {
    let r = with_attr(empty_response(), "action"@, AttrView::Text(ContractAction::ApproveAsk.spec_name()));
    let r = with_attr(r, "id"@, AttrView::Text(a.id@));
    let r = with_attr(r, "class"@, AttrView::Class(a.class));
    let r = with_attr(r, "quote"@, AttrView::Text(a.quote@));
    let r = with_attr(r, "price"@, AttrView::Text(a.price@));
    let r = with_attr(r, "size"@, AttrView::Amount(a.size));
    if restricted {
        with_message(r, ContractMessageView::Marker { amount: size, denom: base, to: contract, from: sender })
    } else {
        r
    }
}

/// Approving a convertible ask: by an approver, with funds that fit the
/// base sent, for an ask that waits for approval, with the ask's size and
/// the settings' base; the ask becomes ready, with the approver and the
/// base the approver converted.
pub open spec fn approve_ask_spec(
    store: ContractStore,
    querier: Querier,
    env: Env,
    info: MessageInfo,
    id: String,
    base: String,
    size: u128,
) -> Outcome {
    match load_v3(store.contract_info) {
        Err(e) => Outcome::Fail(ErrorView::Std(e)),
        Ok(ci) => {
            let restricted = querier.is_restricted(base@);
            if !ci.approvers.contains(info.sender@) {
                Outcome::Fail(ErrorView::Unauthorized)
            } else if !funds_fit(info.funds@, restricted, size, base@) {
                Outcome::Fail(ErrorView::SentFundsOrderMismatch)
            } else {
                match lookup_ask(store.asks@, id@) {
                    None => Outcome::Fail(field_error("id"@)),
                    Some(a) => match a.class {
                        AskOrderClass::Basic => Outcome::Fail(ErrorView::InconvertibleBaseDenom),
                        AskOrderClass::Convertible { status: AskOrderStatus::Ready { approver, .. } } =>
                            Outcome::Fail(ErrorView::AskOrderReady { approver: approver@ }),
                        AskOrderClass::Convertible { status: AskOrderStatus::PendingIssuerApproval } =>
                            if size != a.size || base@ != ci.base_denom {
                                Outcome::Fail(ErrorView::SentFundsOrderMismatch)
                            } else {
                                let updated = AskOrderV1 {
                                    class: AskOrderClass::Convertible {
                                        status: AskOrderStatus::Ready { approver: info.sender, converted_base: Coin { denom: base, amount: size } },
                                    },
                                    ..a
                                };
                                Outcome::Done {
                                    asks: asks_with(store.asks@, updated),
                                    bids: store.bids@,
                                    response: approve_ask_response(updated, restricted, size, base@, info.sender@, env.contract_address@),
                                }
                            },
                    },
                }
            }
        },
    }
}

/// Approves a convertible ask.
pub fn approve_ask(
    store: &mut ContractStore,
    querier: &Querier,
    env: &Env,
    info: &MessageInfo,
    id: String,
    base: String,
    size: u128,
) -> (r: Option<Result<Response, ContractError>>)
    requires
        old(store).wf(),
    ensures
        outcome_holds(approve_ask_spec(*old(store), *querier, *env, *info, id, base, size), r, *old(store), *final(store)),
{
    let contract_info = match get_contract_info(store) {
        Ok(c) => c,
        Err(e) => {
            return Some(Err(e));
        },
    };
    proof {
        lemma_has_text_views(contract_info.approvers@, info.sender@);
    }
    if !contains_string(&contract_info.approvers, &info.sender) {
        return Some(Err(ContractError::Unauthorized));
    }
    let restricted = querier.is_restricted_marker(&base);
    if restricted {
        if info.funds.len() != 0 {
            return Some(Err(ContractError::SentFundsOrderMismatch));
        }
    } else {
        if !funds_match(&info.funds, size, &base) {
            return Some(Err(ContractError::SentFundsOrderMismatch));
        }
    }
    let mut stored = match store.find_ask(&id) {
        None => {
            return Some(Err(invalid_field("id")));
        },
        Some(i) => store.asks[i].clone(),
    };
    match &stored.class {
        AskOrderClass::Convertible { status } => match status {
            AskOrderStatus::Ready { approver, converted_base: _ } => {
                return Some(Err(ContractError::AskOrderReady { approver: approver.clone() }));
            },
            AskOrderStatus::PendingIssuerApproval => {},
        },
        AskOrderClass::Basic => {
            return Some(Err(ContractError::InconvertibleBaseDenom));
        },
    }
    if size != stored.size || base != contract_info.base_denom {
        return Some(Err(ContractError::SentFundsOrderMismatch));
    }
    stored.class = AskOrderClass::Convertible {
        status: AskOrderStatus::Ready { approver: info.sender.clone(), converted_base: coin(size, &base) },
    };
    let mut response = Response::new();
    response.add_text("action", &ContractAction::ApproveAsk.name());
    response.add_text("id", &stored.id);
    response.add_attr("class", AttrValue::Class(stored.class.clone()));
    response.add_text("quote", &stored.quote);
    response.add_text("price", &stored.price);
    response.add_attr("size", AttrValue::Amount(stored.size));
    if restricted {
        response.add_message(crate::response::ContractMessage::Marker {
            amount: size,
            denom: base.clone(),
            to: env.contract_address.clone(),
            from: info.sender.clone(),
        });
    }
    store.save_ask(stored);
    Some(Ok(response))
}

/// The transfer that gives the converted base back to the approver of a
/// ready convertible ask.
pub open spec fn give_back_converted(r: ResponseView, querier: Querier, class: AskOrderClass, amount: Option<u128>, contract: Seq<char>) -> ResponseView {
    match class {
        AskOrderClass::Convertible { status: AskOrderStatus::Ready { approver, converted_base } } => {
            let amt = match amount {
                Some(x) => x,
                None => converted_base.amount,
            };
            with_message(r, transfer_view(querier.is_restricted(converted_base.denom@), amt, converted_base.denom@, approver@, contract))
        },
        _ => r,
    }
}

/// Cancelling an ask: by its owner, without funds; the ask is removed, its
/// base given back to the owner and the converted base to its approver.
pub open spec fn cancel_ask_spec(store: ContractStore, querier: Querier, env: Env, info: MessageInfo, id: String) -> Outcome {
    if info.funds@.len() != 0 {
        Outcome::Fail(ErrorView::CancelWithFunds)
    } else {
        match load_ask_spec(store.asks@, id@) {
            Err(e) => Outcome::Fail(ErrorView::LoadOrderFailed { error: e }),
            Ok(a) => if info.sender@ != a.owner@ {
                Outcome::Fail(ErrorView::Unauthorized)
            } else {
                let r = with_message(empty_response(), transfer_view(querier.is_restricted(a.base@), a.size, a.base@, a.owner@, env.contract_address@));
                let r = with_attr(r, "action"@, AttrView::Text(ContractAction::CancelAsk.spec_name()));
                let r = with_attr(r, "id"@, AttrView::Text(a.id@));
                Outcome::Done {
                    asks: asks_without(store.asks@, id@),
                    bids: store.bids@,
                    response: give_back_converted(r, querier, a.class, None, env.contract_address@),
                }
            },
        }
    }
}

fn add_converted_give_back(response: &mut Response, querier: &Querier, class: &AskOrderClass, amount: Option<u128>, contract: &String)
    ensures
        final(response)@ == give_back_converted(old(response)@, *querier, *class, amount, contract@),
{
    match class {
        AskOrderClass::Convertible { status: AskOrderStatus::Ready { approver, converted_base } } => {
            let amt = match amount {
                Some(x) => x,
                None => converted_base.amount,
            };
            let restricted = querier.is_restricted_marker(&converted_base.denom);
            response.add_transfer(restricted, amt, &converted_base.denom, approver, contract);
        },
        _ => {},
    }
}

/// Cancels an ask.
pub fn cancel_ask(
    store: &mut ContractStore,
    querier: &Querier,
    env: &Env,
    info: &MessageInfo,
    id: String,
) -> (r: Option<Result<Response, ContractError>>)
    requires
        old(store).wf(),
    ensures
        outcome_holds(cancel_ask_spec(*old(store), *querier, *env, *info, id), r, *old(store), *final(store)),
{
    if info.funds.len() != 0 {
        return Some(Err(ContractError::CancelWithFunds));
    }
    let ask = match store.load_ask(&id) {
        Ok(a) => a,
        Err(error) => {
            return Some(Err(ContractError::LoadOrderFailed { error }));
        },
    };
    if info.sender != ask.owner {
        return Some(Err(ContractError::Unauthorized));
    }
    store.remove_ask(&id);
    let restricted = querier.is_restricted_marker(&ask.base);
    let mut response = Response::new();
    response.add_transfer(restricted, ask.size, &ask.base, &ask.owner, &env.contract_address);
    response.add_text("action", &ContractAction::CancelAsk.name());
    response.add_text("id", &ask.id);
    add_converted_give_back(&mut response, querier, &ask.class, None, &env.contract_address);
    Some(Ok(response))
}

/// The answer's "order_open" attribute.
pub open spec fn open_text(open: bool) -> Seq<char> {
    if open { "true"@ } else { "false"@ }
}

/// Expiring or rejecting (part of) an ask: by an executor, without funds,
/// for a size (the whole ask when none is given) that is a multiple of the
/// size increment and at most the ask's size; that base goes back to the
/// owner (and as much converted base to the approver), and the ask is
/// removed when nothing is left.
pub open spec fn reverse_ask_spec(
    store: ContractStore,
    querier: Querier,
    env: Env,
    info: MessageInfo,
    id: String,
    action: ContractAction,
    cancel_size: Option<u128>,
) -> Outcome {
    if id@.len() == 0 {
        Outcome::Fail(ErrorView::Unauthorized)
    } else if info.funds@.len() != 0 {
        Outcome::Fail(ErrorView::ExpireWithFunds)
    } else {
        match load_v3(store.contract_info) {
            Err(e) => Outcome::Fail(ErrorView::Std(e)),
            Ok(ci) => if !ci.executors.contains(info.sender@) {
                Outcome::Fail(ErrorView::Unauthorized)
            } else {
                match load_ask_spec(store.asks@, id@) {
                    Err(e) => Outcome::Fail(ErrorView::LoadOrderFailed { error: e }),
                    Ok(a) => {
                        let effective = match cancel_size {
                            Some(c) => c,
                            None => a.size,
                        };
                        if ci.size_increment == 0 {
                            Outcome::Abort
                        } else if effective % ci.size_increment != 0 || a.size < effective {
                            Outcome::Fail(field_error("size"@))
                        } else {
                            let left = (a.size - effective) as u128;
                            let r = with_message(empty_response(), transfer_view(querier.is_restricted(a.base@), effective, a.base@, a.owner@, env.contract_address@));
                            let r = with_attr(r, "action"@, AttrView::Text(action.spec_name()));
                            let r = with_attr(r, "id"@, AttrView::Text(id@));
                            let r = with_attr(r, "reverse_size"@, AttrView::Amount(effective));
                            let r = give_back_converted(r, querier, a.class, Some(effective), env.contract_address@);
                            let r = with_attr(r, "order_open"@, AttrView::Text(open_text(left != 0)));
                            Outcome::Done {
                                asks: if left == 0 { asks_without(store.asks@, id@) } else { asks_with(store.asks@, AskOrderV1 { size: left, ..a }) },
                                bids: store.bids@,
                                response: r,
                            }
                        }
                    },
                }
            },
        }
    }
}

/// Expires or rejects (part of) an ask.
pub fn reverse_ask(
    store: &mut ContractStore,
    querier: &Querier,
    env: &Env,
    info: &MessageInfo,
    id: String,
    action: ContractAction,
    cancel_size: Option<u128>,
) -> (r: Option<Result<Response, ContractError>>)
    requires
        old(store).wf(),
    ensures
        outcome_holds(reverse_ask_spec(*old(store), *querier, *env, *info, id, action, cancel_size), r, *old(store), *final(store)),
{
    if id.as_str().is_empty() {
        return Some(Err(ContractError::Unauthorized));
    }
    if info.funds.len() != 0 {
        return Some(Err(ContractError::ExpireWithFunds));
    }
    let contract_info = match get_contract_info(store) {
        Ok(c) => c,
        Err(e) => {
            return Some(Err(e));
        },
    };
    proof {
        lemma_has_text_views(contract_info.executors@, info.sender@);
    }
    if !contains_string(&contract_info.executors, &info.sender) {
        return Some(Err(ContractError::Unauthorized));
    }
    let mut ask = match store.load_ask(&id) {
        Ok(a) => a,
        Err(error) => {
            return Some(Err(ContractError::LoadOrderFailed { error }));
        },
    };
    let effective = match cancel_size {
        Some(c) => c,
        None => ask.size,
    };
    if contract_info.size_increment == 0 {
        return None;
    }
    if effective % contract_info.size_increment != 0 {
        return Some(Err(invalid_field("size")));
    }
    if ask.size < effective {
        return Some(Err(invalid_field("size")));
    }
    ask.size = ask.size - effective;
    let restricted = querier.is_restricted_marker(&ask.base);
    let mut response = Response::new();
    response.add_transfer(restricted, effective, &ask.base, &ask.owner, &env.contract_address);
    response.add_text("action", &action.name());
    response.add_text("id", &id);
    response.add_attr("reverse_size", AttrValue::Amount(effective));
    add_converted_give_back(&mut response, querier, &ask.class, Some(effective), &env.contract_address);
    if ask.size == 0 {
        store.remove_ask(&ask.id);
        response.add_text("order_open", &"false".to_owned());
    } else {
        store.save_ask(ask);
        response.add_text("order_open", &"true".to_owned());
    }
    Some(Ok(response))
}

/// The fee given back when `cancel_quote` of a bid's quote is cancelled:
/// the fee left minus the fee that the quote that stays calls for (`None`
/// for a bid without a fee); the inner `None` where the contract aborts.
pub open spec fn cancel_fee_spec(b: BidOrderV3, cancel_quote: int) -> Option<Result<Option<Coin>, ErrorView>> {
    match b.fee {
        None => Some(Ok(None)),
        Some(bf) => if b.accumulated_quote > b.quote.amount || b.spec_remaining_quote() < cancel_quote
            || b.quote.amount > max_mantissa() || b.quote.amount == 0 || bf.amount > max_mantissa() {
            None
        } else {
            let ratio = BidOrderV3::spec_ratio(b.spec_remaining_quote() - cancel_quote, b.quote.amount as int);
            match decimal_checked_mul(bf.amount as int, 0, ratio.0, ratio.1) {
                None => Some(Err(ErrorView::TotalOverflow)),
                Some(p) => {
                    let required = crate::decimal::round_half_away(p.0, p.1 as nat);
                    if required < 0 || b.accumulated_fee > bf.amount {
                        None
                    } else if b.spec_remaining_fee() < required {
                        Some(Err(field_error("size"@)))
                    } else {
                        Some(Ok(Some(Coin { amount: (b.spec_remaining_fee() - required) as u128, denom: b.quote.denom })))
                    }
                },
            }
        },
    }
}

fn cancel_fee(b: &BidOrderV3, cancel_quote: u128) -> (r: Option<Result<Option<Coin>, ContractError>>)
    ensures
        match cancel_fee_spec(*b, cancel_quote as int) {
            None => r is None,
            Some(Ok(f)) => r == Some(Ok::<Option<Coin>, ContractError>(f)),
            Some(Err(e)) => r matches Some(Err(err)) && err@ == e,
        },
{
    match &b.fee {
        None => Some(Ok(None)),
        Some(bf) => {
            if b.accumulated_quote > b.quote.amount || b.quote.amount - b.accumulated_quote < cancel_quote
                || b.quote.amount > 0xFFFF_FFFF_FFFF_FFFF_FFFF_FFFFu128 || b.quote.amount == 0
                || bf.amount > 0xFFFF_FFFF_FFFF_FFFF_FFFF_FFFFu128 {
                return None;
            }
            let ratio = b.get_quote_ratio(b.get_remaining_quote() - cancel_quote);
            let fee_dec = dec_from_u128(bf.amount).unwrap();
            let product = match dec_checked_mul(fee_dec, ratio) {
                Some(p) => p,
                None => {
                    return Some(Err(ContractError::TotalOverflow));
                },
            };
            let required = match dec_to_u128(dec_round_whole(product)) {
                Some(x) => x,
                None => {
                    return None;
                },
            };
            if b.accumulated_fee > bf.amount {
                return None;
            }
            let remaining_fee = b.get_remaining_fee();
            if remaining_fee < required {
                return Some(Err(invalid_field("size")));
            }
            Some(Ok(Some(Coin { amount: remaining_fee - required, denom: b.quote.denom.clone() })))
        },
    }
}

/// Cancelling, expiring or rejecting (part of) a bid: cancelled by its
/// owner, expired or rejected by an executor, without funds, for a size
/// (what is left when none is given) that is a multiple of the size
/// increment and at most what is left; that size times the price in quote,
/// and the fee no longer called for, go back to the owner, the amounts are
/// accumulated as a rejection, and the bid is removed when no base is left.
pub open spec fn reverse_bid_spec(
    store: ContractStore,
    querier: Querier,
    env: Env,
    info: MessageInfo,
    id: String,
    action: ContractAction,
    cancel_size: Option<u128>,
) -> Outcome {
    if id@.len() == 0 {
        Outcome::Fail(ErrorView::Unauthorized)
    } else if info.funds@.len() != 0 {
        Outcome::Fail(ErrorView::ExpireWithFunds)
    } else {
        match load_v3(store.contract_info) {
            Err(e) => Outcome::Fail(ErrorView::Std(e)),
            Ok(ci) => match load_bid_spec(store.bids@, id@) {
                Err(e) => Outcome::Fail(ErrorView::LoadOrderFailed { error: e }),
                Ok(b) => if (action == ContractAction::CancelBid && info.sender@ != b.owner@)
                    || (action != ContractAction::CancelBid && !ci.executors.contains(info.sender@)) {
                    Outcome::Fail(ErrorView::Unauthorized)
                } else if cancel_size is None && b.accumulated_base > b.base.amount {
                    Outcome::Abort
                } else {
                    let effective: u128 = match cancel_size {
                        Some(c) => c,
                        None => b.spec_remaining_base() as u128,
                    };
                    if ci.size_increment == 0 {
                        Outcome::Abort
                    } else if effective % ci.size_increment != 0 {
                        Outcome::Fail(field_error("size"@))
                    } else if b.accumulated_base > b.base.amount {
                        Outcome::Abort
                    } else if b.spec_remaining_base() < effective {
                        Outcome::Fail(field_error("size"@))
                    } else {
                        match decimal_from_str(b.price@) {
                            None => Outcome::Abort,
                            Some(p) => if effective > max_mantissa() {
                                Outcome::Abort
                            } else {
                                match decimal_checked_mul(p.0, p.1, effective as int, 0) {
                                    None => Outcome::Fail(ErrorView::TotalOverflow),
                                    Some(q) => if !parts_integral(q) {
                                        Outcome::Fail(ErrorView::NonIntegerTotal)
                                    } else {
                                        match parts_to_u128(q) {
                                            None => Outcome::Abort,
                                            Some(cq) => match cancel_fee_spec(b, cq) {
                                                None => Outcome::Abort,
                                                Some(Err(e)) => Outcome::Fail(e),
                                                Some(Ok(fee)) => reverse_bid_finish(store, querier, env, id, action, b, effective, cq as u128, fee),
                                            },
                                        }
                                    },
                                }
                            },
                        }
                    }
                },
            },
        }
    }
}

/// The end of a reversed bid: the amounts accumulated as a rejection, the
/// quote and fee given back, the bid stored or removed.
pub open spec fn reverse_bid_finish(
    store: ContractStore,
    querier: Querier,
    env: Env,
    id: String,
    action: ContractAction,
    b: BidOrderV3,
    effective: u128,
    cancel_quote: u128,
    fee: Option<Coin>,
) -> Outcome {
    let rejection = Action::Reject {
        base: Coin { denom: b.base.denom, amount: effective },
        fee: fee,
        quote: Coin { denom: b.quote.denom, amount: cancel_quote },
    };
    let (nb, res) = b.spec_update(rejection);
    match res {
        Err(e) => Outcome::Fail(e@),
        Ok(_) => {
            let restricted = querier.is_restricted(b.quote.denom@);
            let r = with_message(empty_response(), transfer_view(restricted, cancel_quote, b.quote.denom@, b.owner@, env.contract_address@));
            let r = with_attr(r, "action"@, AttrView::Text(action.spec_name()));
            let r = with_attr(r, "id"@, AttrView::Text(id@));
            let r = with_attr(r, "reverse_size"@, AttrView::Amount(effective));
            let r = match fee {
                Some(f) => if f.amount > 0 {
                    with_message(r, transfer_view(restricted, f.amount, b.quote.denom@, b.owner@, env.contract_address@))
                } else {
                    r
                },
                None => r,
            };
            let open = nb.spec_remaining_base() != 0;
            let r = with_attr(r, "order_open"@, AttrView::Text(open_text(open)));
            Outcome::Done {
                asks: store.asks@,
                bids: if open { bids_with(store.bids@, nb) } else { bids_without(store.bids@, id@) },
                response: r,
            }
        },
    }
}

/// Cancels, expires or rejects (part of) a bid.
pub fn reverse_bid(
    store: &mut ContractStore,
    querier: &Querier,
    env: &Env,
    info: &MessageInfo,
    id: String,
    action: ContractAction,
    cancel_size: Option<u128>,
) -> (r: Option<Result<Response, ContractError>>)
    requires
        old(store).wf(),
    ensures
        outcome_holds(reverse_bid_spec(*old(store), *querier, *env, *info, id, action, cancel_size), r, *old(store), *final(store)),
{
    if id.as_str().is_empty() {
        return Some(Err(ContractError::Unauthorized));
    }
    if info.funds.len() != 0 {
        return Some(Err(ContractError::ExpireWithFunds));
    }
    let contract_info = match get_contract_info(store) {
        Ok(c) => c,
        Err(e) => {
            return Some(Err(e));
        },
    };
    let mut bid = match store.load_bid(&id) {
        Ok(b) => b,
        Err(error) => {
            return Some(Err(ContractError::LoadOrderFailed { error }));
        },
    };
    proof {
        lemma_has_text_views(contract_info.executors@, info.sender@);
    }
    let is_cancel = match action {
        ContractAction::CancelBid => true,
        _ => false,
    };
    if is_cancel {
        if info.sender != bid.owner {
            return Some(Err(ContractError::Unauthorized));
        }
    } else if !contains_string(&contract_info.executors, &info.sender) {
        return Some(Err(ContractError::Unauthorized));
    }
    if cancel_size.is_none() && bid.accumulated_base > bid.base.amount {
        return None;
    }
    let effective = match cancel_size {
        Some(c) => c,
        None => bid.get_remaining_base(),
    };
    if contract_info.size_increment == 0 {
        return None;
    }
    if effective % contract_info.size_increment != 0 {
        return Some(Err(invalid_field("size")));
    }
    if bid.accumulated_base > bid.base.amount {
        return None;
    }
    if bid.get_remaining_base() < effective {
        return Some(Err(invalid_field("size")));
    }
    let price = match dec_from_str(bid.price.as_str()) {
        Some(p) => p,
        None => {
            return None;
        },
    };
    let size = match dec_from_u128(effective) {
        Some(s) => s,
        None => {
            return None;
        },
    };
    let quote_dec = match dec_checked_mul(price, size) {
        Some(q) => q,
        None => {
            return Some(Err(ContractError::TotalOverflow));
        },
    };
    if !dec_is_integral(quote_dec) {
        return Some(Err(ContractError::NonIntegerTotal));
    }
    let cancel_quote = match dec_to_u128(quote_dec) {
        Some(c) => c,
        None => {
            return None;
        },
    };
    proof {
        lemma_whole_part_bound(quote_dec.mantissa as int, quote_dec.scale as nat);
    }
    let fee = match cancel_fee(&bid, cancel_quote) {
        None => {
            return None;
        },
        Some(Err(e)) => {
            return Some(Err(e));
        },
        Some(Ok(f)) => f,
    };
    let restricted = querier.is_restricted_marker(&bid.quote.denom);
    let rejection = Action::Reject {
        base: Coin { denom: bid.base.denom.clone(), amount: effective },
        fee: clone_opt_coin(&fee),
        quote: Coin { denom: bid.quote.denom.clone(), amount: cancel_quote },
    };
    match bid.update_remaining_amounts(&rejection) {
        Ok(()) => {},
        Err(e) => {
            return Some(Err(e));
        },
    }
    let mut response = Response::new();
    response.add_transfer(restricted, cancel_quote, &bid.quote.denom, &bid.owner, &env.contract_address);
    response.add_text("action", &action.name());
    response.add_text("id", &id);
    response.add_attr("reverse_size", AttrValue::Amount(effective));
    match &fee {
        Some(f) => {
            if f.amount > 0 {
                response.add_transfer(restricted, f.amount, &bid.quote.denom, &bid.owner, &env.contract_address);
            }
        },
        None => {},
    }
    if bid.base.amount - bid.accumulated_base == 0 {
        store.remove_bid(&bid.id);
        response.add_text("order_open", &"false".to_owned());
    } else {
        store.save_bid(bid);
        response.add_text("order_open", &"true".to_owned());
    }
    Some(Ok(response))
}

/// The execute price fits the two orders: for overlapping prices it is
/// either the ask's or the bid's, for equal prices it is that price; an ask
/// above the bid does not match.
pub open spec fn price_check(ap: (int, int), bp: (int, int), ep: (int, int)) -> Option<ErrorView> {
    if parts_lt(ap, bp) {
        if !parts_eq(ep, ap) && !parts_eq(ep, bp) { Some(ErrorView::InvalidExecutePrice) } else { None }
    } else if parts_eq(ap, bp) {
        if !parts_eq(ep, ap) { Some(ErrorView::InvalidExecutePrice) } else { None }
    } else {
        Some(ErrorView::AskBidPriceMismatch)
    }
}

/// The ask fee on gross proceeds: the ask fee rate times the proceeds,
/// rounded half away from zero; zero without an ask fee.
pub open spec fn ask_fee_spec(ci: InfoModel, g: (int, int)) -> Result<int, ErrorView> {
    match ci.ask_fee_info {
        None => Ok(0),
        Some(f) => match decimal_from_str(f.1) {
            None => Err(field_error("ContractInfo.ask_fee_info.rate"@)),
            Some(rate) => match decimal_checked_mul(rate.0, rate.1, g.0, g.1) {
                None => Err(ErrorView::TotalOverflow),
                Some(p) => match parts_round_u128(p) {
                    None => Err(ErrorView::TotalOverflow),
                    Some(t) => Ok(t),
                },
            },
        },
    }
}

/// The class of an ask after a fill: an approved convertible ask keeps as
/// much converted base as the ask has left.
pub open spec fn class_after_fill(c: AskOrderClass, left: u128) -> AskOrderClass {
    match c {
        AskOrderClass::Convertible { status: AskOrderStatus::Ready { approver, converted_base } } =>
            AskOrderClass::Convertible { status: AskOrderStatus::Ready { approver, converted_base: Coin { amount: left, ..converted_base } } },
        _ => c,
    }
}

/// The transfers of a fill: proceeds to the seller (the approver of a
/// convertible ask) and base to the buyer (and, for a convertible ask, its
/// base to the approver); an ask that waits for approval cannot be filled.
pub open spec fn fill_transfers(
    r: ResponseView,
    class: AskOrderClass,
    a: AskOrderV1,
    b: BidOrderV3,
    rb: bool,
    rq: bool,
    net: u128,
    size: u128,
    contract: Seq<char>,
) -> Result<ResponseView, ErrorView> {
    match class {
        AskOrderClass::Basic => {
            let r = with_message(r, transfer_view(rq, net, b.quote.denom@, a.owner@, contract));
            Ok(with_message(r, transfer_view(rb, size, a.base@, b.owner@, contract)))
        },
        AskOrderClass::Convertible { status: AskOrderStatus::Ready { approver, converted_base } } => {
            let r = with_message(r, transfer_view(rb, size, converted_base.denom@, b.owner@, contract));
            let r = with_message(r, transfer_view(rb, size, a.base@, approver@, contract));
            Ok(with_message(r, transfer_view(rq, net, b.quote.denom@, approver@, contract)))
        },
        AskOrderClass::Convertible { status: AskOrderStatus::PendingIssuerApproval } =>
            Err(ErrorView::AskOrderNotReady { current_status: "PendingIssuerApproval"@ }),
    }
}

/// The fee given back when a fill is at a price below the bid's: the fee
/// for the fill at the bid's price less the fee charged (`None` when
/// nothing comes back); the outer `None` where the contract aborts.
pub open spec fn fee_refund_spec(actual: Option<Coin>, at_bid_price: Option<Coin>) -> Option<Option<Coin>> {
    match (actual, at_bid_price) {
        (Some(af), Some(of)) => if of.amount < af.amount {
            None
        } else if of.amount - af.amount > 0 {
            Some(Some(Coin { amount: (of.amount - af.amount) as u128, ..of }))
        } else {
            Some(None)
        },
        _ => Some(None),
    }
}

/// The orders stored after a match.
pub open spec fn match_finish(
    store: ContractStore,
    ask_id: String,
    bid_id: String,
    new_ask: AskOrderV1,
    nb: BidOrderV3,
    response: ResponseView,
) -> Outcome {
    Outcome::Done {
        asks: if new_ask.size == 0 { asks_without(store.asks@, ask_id@) } else { asks_with(store.asks@, new_ask) },
        bids: if nb.spec_remaining_base() == 0 { bids_without(store.bids@, bid_id@) } else { bids_with(store.bids@, nb) },
        response,
    }
}

/// The end of a match at a price below the bid's: the difference in quote,
/// and the fee no longer called for, go back to the buyer, and the bid
/// accumulates the fill and the refund.
pub open spec fn match_refund(
    store: ContractStore,
    querier: Querier,
    env: Env,
    ask_id: String,
    bid_id: String,
    new_ask: AskOrderV1,
    b: BidOrderV3,
    bp: (int, int),
    g: (int, int),
    gross: u128,
    actual: Option<Coin>,
    fill: Action,
    size: u128,
    r: ResponseView,
) -> Outcome {
    let rq = querier.is_restricted(b.quote.denom@);
    match decimal_checked_mul(bp.0, bp.1, size as int, 0) {
        None => Outcome::Fail(ErrorView::TotalOverflow),
        Some(og) => if !parts_integral(og) {
            Outcome::Fail(ErrorView::NonIntegerTotal)
        } else {
            match decimal_checked_sub(og.0, og.1, g.0, g.1) {
                None => Outcome::Fail(ErrorView::TotalOverflow),
                Some(d) => match parts_to_u128(d) {
                    None => Outcome::Fail(ErrorView::NonIntegerTotal),
                    Some(refund) => match parts_to_u128(og) {
                        None => Outcome::Fail(ErrorView::TotalOverflow),
                        Some(ogross) => match b.spec_calculate_fee_checked(ogross as u128) {
                            None => Outcome::Abort,
                            Some(Err(e)) => Outcome::Fail(e@),
                            Some(Ok(at_bid_price)) => match fee_refund_spec(actual, at_bid_price) {
                                None => Outcome::Abort,
                                Some(fee_refund) => {
                                    let r = if refund > 0 {
                                        let r = with_message(r, transfer_view(rq, refund as u128, b.quote.denom@, b.owner@, env.contract_address@));
                                        match fee_refund {
                                            Some(f) => with_message(r, transfer_view(rq, f.amount, f.denom@, b.owner@, env.contract_address@)),
                                            None => r,
                                        }
                                    } else {
                                        r
                                    };
                                    let (b1, res1) = b.spec_update(fill);
                                    match res1 {
                                        Err(e) => Outcome::Fail(e@),
                                        Ok(_) => {
                                            let refund_action = Action::Refund {
                                                fee: fee_refund,
                                                quote: Coin { denom: b.quote.denom, amount: refund as u128 },
                                            };
                                            let (b2, res2) = b1.spec_update(refund_action);
                                            match res2 {
                                                Err(e) => Outcome::Fail(e@),
                                                Ok(_) => match_finish(store, ask_id, bid_id, new_ask, b2, r),
                                            }
                                        },
                                    }
                                },
                            },
                        },
                    },
                },
            }
        },
    }
}

/// A match once the gross proceeds are known: the ask fee, the bid fee,
/// the transfers of the fill, the refund for a price below the bid's, and
/// the orders updated.
pub open spec fn match_after_gross(
    store: ContractStore,
    querier: Querier,
    env: Env,
    ci: InfoModel,
    ask_id: String,
    bid_id: String,
    a: AskOrderV1,
    b: BidOrderV3,
    bp: (int, int),
    ep: (int, int),
    price: String,
    size: u128,
    g: (int, int),
    gross: u128,
) -> Outcome {
    let left = (a.size - size) as u128;
    let new_ask = AskOrderV1 { size: left, class: class_after_fill(a.class, left), ..a };
    let rb = querier.is_restricted(a.base@);
    let rq = querier.is_restricted(b.quote.denom@);
    let contract = env.contract_address@;
    let r = with_attr(empty_response(), "action"@, AttrView::Text(ContractAction::Execute.spec_name()));
    let r = with_attr(r, "ask_id"@, AttrView::Text(ask_id@));
    let r = with_attr(r, "bid_id"@, AttrView::Text(bid_id@));
    let r = with_attr(r, "base"@, AttrView::Text(b.base.denom@));
    let r = with_attr(r, "quote"@, AttrView::Text(a.quote@));
    let r = with_attr(r, "price"@, AttrView::Text(decimal_to_string(ep.0, ep.1)));
    let r = with_attr(r, "size"@, AttrView::Amount(size));
    match ask_fee_spec(ci, g) {
        Err(e) => Outcome::Fail(e),
        Ok(fee_total) => if fee_total > 0 && gross < fee_total {
            Outcome::Fail(ErrorView::Std(StdErrorView::Overflow { operation: OverflowOperation::Sub, operand1: gross, operand2: fee_total as u128 }))
        } else {
            let r = if fee_total > 0 {
                with_message(r, transfer_view(rq, fee_total as u128, b.quote.denom@, (ci.ask_fee_info->0).0, contract))
            } else {
                r
            };
            let net = (gross - fee_total) as u128;
            let r = with_attr(r, "ask_fee"@, AttrView::Amount(fee_total as u128));
            match b.spec_calculate_fee_checked(gross) {
                None => Outcome::Abort,
                Some(Err(e)) => Outcome::Fail(e@),
                Some(Ok(actual)) => if actual is Some && ci.bid_fee_info is None {
                    Outcome::Fail(ErrorView::BidFeeAccountMissing)
                } else {
                    let r = match actual {
                        Some(f) => with_message(r, transfer_view(rq, f.amount, f.denom@, (ci.bid_fee_info->0).0, contract)),
                        None => r,
                    };
                    let r = with_attr(r, "bid_fee"@, AttrView::Amount(match actual { Some(f) => f.amount, None => 0 }));
                    match fill_transfers(r, new_ask.class, a, b, rb, rq, net, size, contract) {
                        Err(e) => Outcome::Fail(e),
                        Ok(r) => {
                            let fill = Action::Fill {
                                base: Coin { denom: b.base.denom, amount: size },
                                fee: actual,
                                price,
                                quote: Coin { denom: b.quote.denom, amount: gross },
                            };
                            if parts_lt(ep, bp) {
                                match_refund(store, querier, env, ask_id, bid_id, new_ask, b, bp, g, gross, actual, fill, size, r)
                            } else {
                                let (b1, res1) = b.spec_update(fill);
                                match res1 {
                                    Err(e) => Outcome::Fail(e@),
                                    Ok(_) => match_finish(store, ask_id, bid_id, new_ask, b1, r),
                                }
                            }
                        },
                    }
                },
            }
        },
    }
}

/// Matching an ask with a bid: by an executor, without funds, in the same
/// quote, at a price that fits both orders, for a size that neither order
/// lacks; the gross proceeds (price times size) must be a whole number.
pub open spec fn execute_match_spec(
    store: ContractStore,
    querier: Querier,
    env: Env,
    info: MessageInfo,
    ask_id: String,
    bid_id: String,
    price: String,
    size: u128,
) -> Outcome {
    match load_v3(store.contract_info) {
        Err(e) => Outcome::Fail(ErrorView::Std(e)),
        Ok(ci) => if !ci.executors.contains(info.sender@) {
            Outcome::Fail(ErrorView::Unauthorized)
        } else if info.funds@.len() != 0 {
            Outcome::Fail(ErrorView::ExecuteWithFunds)
        } else {
            match load_ask_spec(store.asks@, ask_id@) {
                Err(e) => Outcome::Fail(ErrorView::LoadOrderFailed { error: e }),
                Ok(a) => match load_bid_spec(store.bids@, bid_id@) {
                    Err(e) => Outcome::Fail(ErrorView::LoadOrderFailed { error: e }),
                    Ok(b) => if a.quote@ != b.quote.denom@ {
                        Outcome::Fail(ErrorView::UnsupportedQuoteDenom)
                    } else {
                        match (decimal_from_str(a.price@), decimal_from_str(b.price@), decimal_from_str(price@)) {
                            (None, _, _) => Outcome::Fail(field_error("AskOrder.price"@)),
                            (Some(_), None, _) => Outcome::Fail(field_error("BidOrder.price"@)),
                            (Some(_), Some(_), None) => Outcome::Fail(field_error("ExecuteMsg.price"@)),
                            (Some(ap), Some(bp), Some(ep)) => match price_check(ap, bp, ep) {
                                Some(e) => Outcome::Fail(e),
                                None => if size > a.size {
                                    Outcome::Fail(ErrorView::InvalidExecuteSize)
                                } else if b.accumulated_base > b.base.amount {
                                    Outcome::Abort
                                } else if size > b.spec_remaining_base() {
                                    Outcome::Fail(ErrorView::InvalidExecuteSize)
                                } else if size > max_mantissa() {
                                    Outcome::Abort
                                } else {
                                    match decimal_checked_mul(ep.0, ep.1, size as int, 0) {
                                        None => Outcome::Fail(ErrorView::TotalOverflow),
                                        Some(g) => if !parts_integral(g) {
                                            Outcome::Fail(ErrorView::NonIntegerTotal)
                                        } else {
                                            match parts_to_u128(g) {
                                                None => Outcome::Fail(ErrorView::TotalOverflow),
                                                Some(gross) => match_after_gross(store, querier, env, ci, ask_id, bid_id, a, b, bp, ep, price, size, g, gross as u128),
                                            }
                                        },
                                    }
                                },
                            },
                        }
                    },
                },
            }
        },
    }
}

fn ask_fee_total(contract_info: &crate::contract_info::ContractInfoV3, g: Dec) -> (r: Result<u128, ContractError>)
    requires
        g.wf(),
    ensures
        match ask_fee_spec(contract_info@, g.parts()) {
            Ok(t) => r == Ok::<u128, ContractError>(t as u128) && 0 <= t <= max_mantissa(),
            Err(e) => r matches Err(err) && err@ == e,
        },
{
    match &contract_info.ask_fee_info {
        None => Ok(0),
        Some(f) => {
            let rate = match dec_from_str(f.rate.as_str()) {
                Some(r) => r,
                None => {
                    return Err(invalid_field("ContractInfo.ask_fee_info.rate"));
                },
            };
            let product = match dec_checked_mul(rate, g) {
                Some(p) => p,
                None => {
                    return Err(ContractError::TotalOverflow);
                },
            };
            match dec_to_u128(dec_round_whole(product)) {
                Some(t) => Ok(t),
                None => Err(ContractError::TotalOverflow),
            }
        },
    }
}

fn add_fill_transfers(
    response: &mut Response,
    class: &AskOrderClass,
    a: &AskOrderV1,
    b: &BidOrderV3,
    rb: bool,
    rq: bool,
    net: u128,
    size: u128,
    contract: &String,
) -> (r: Result<(), ContractError>)
    ensures
        match fill_transfers(old(response)@, *class, *a, *b, rb, rq, net, size, contract@) {
            Ok(v) => r is Ok && final(response)@ == v,
            Err(e) => r matches Err(err) && err@ == e,
        },
{
    match class {
        AskOrderClass::Basic => {
            response.add_transfer(rq, net, &b.quote.denom, &a.owner, contract);
            response.add_transfer(rb, size, &a.base, &b.owner, contract);
            Ok(())
        },
        AskOrderClass::Convertible { status: AskOrderStatus::Ready { approver, converted_base } } => {
            response.add_transfer(rb, size, &converted_base.denom, &b.owner, contract);
            response.add_transfer(rb, size, &a.base, approver, contract);
            response.add_transfer(rq, net, &b.quote.denom, approver, contract);
            Ok(())
        },
        AskOrderClass::Convertible { status: AskOrderStatus::PendingIssuerApproval } => {
            Err(ContractError::AskOrderNotReady { current_status: "PendingIssuerApproval".to_owned() })
        },
    }
}

fn fee_refund(actual: &Option<Coin>, at_bid_price: Option<Coin>) -> (r: Option<Option<Coin>>)
    ensures
        r == fee_refund_spec(*actual, at_bid_price),
{
    match (actual, at_bid_price) {
        (Some(af), Some(of)) => {
            if of.amount < af.amount {
                return None;
            }
            let refund_amount = of.amount - af.amount;
            if refund_amount > 0 {
                Some(Some(Coin { amount: refund_amount, denom: of.denom }))
            } else {
                Some(None)
            }
        },
        (_, _) => Some(None),
    }
}

/// Matches an ask with a bid.
#[verifier::rlimit(50)]
pub fn execute_match(
    store: &mut ContractStore,
    querier: &Querier,
    env: &Env,
    info: &MessageInfo,
    ask_id: String,
    bid_id: String,
    price: String,
    execute_size: u128,
) -> (r: Option<Result<Response, ContractError>>)
    requires
        old(store).wf(),
    ensures
        outcome_holds(execute_match_spec(*old(store), *querier, *env, *info, ask_id, bid_id, price, execute_size), r, *old(store), *final(store)),
        r matches Some(Ok(_)) ==> match_accounting(old(store).bids@, final(store).bids@, bid_id@, price@, execute_size as int),
{
    let contract_info = match get_contract_info(store) {
        Ok(c) => c,
        Err(e) => {
            return Some(Err(e));
        },
    };
    proof {
        lemma_has_text_views(contract_info.executors@, info.sender@);
    }
    if !contains_string(&contract_info.executors, &info.sender) {
        return Some(Err(ContractError::Unauthorized));
    }
    if info.funds.len() != 0 {
        return Some(Err(ContractError::ExecuteWithFunds));
    }
    let ask = match store.load_ask(&ask_id) {
        Ok(a) => a,
        Err(error) => {
            return Some(Err(ContractError::LoadOrderFailed { error }));
        },
    };
    let mut bid = match store.load_bid(&bid_id) {
        Ok(b) => b,
        Err(error) => {
            return Some(Err(ContractError::LoadOrderFailed { error }));
        },
    };
    let ghost loaded_bid = bid;
    if ask.quote != bid.quote.denom {
        return Some(Err(ContractError::UnsupportedQuoteDenom));
    }
    let ask_price = match dec_from_str(ask.price.as_str()) {
        Some(p) => p,
        None => {
            return Some(Err(invalid_field("AskOrder.price")));
        },
    };
    let bid_price = match dec_from_str(bid.price.as_str()) {
        Some(p) => p,
        None => {
            return Some(Err(invalid_field("BidOrder.price")));
        },
    };
    let execute_price = match dec_from_str(price.as_str()) {
        Some(p) => p,
        None => {
            return Some(Err(invalid_field("ExecuteMsg.price")));
        },
    };
    if dec_lt(ask_price, bid_price) {
        if !dec_eq(execute_price, ask_price) && !dec_eq(execute_price, bid_price) {
            return Some(Err(ContractError::InvalidExecutePrice));
        }
    } else if dec_eq(ask_price, bid_price) {
        if !dec_eq(execute_price, ask_price) {
            return Some(Err(ContractError::InvalidExecutePrice));
        }
    } else {
        return Some(Err(ContractError::AskBidPriceMismatch));
    }
    if execute_size > ask.size {
        return Some(Err(ContractError::InvalidExecuteSize));
    }
    if bid.accumulated_base > bid.base.amount {
        return None;
    }
    if execute_size > bid.get_remaining_base() {
        return Some(Err(ContractError::InvalidExecuteSize));
    }
    let size_dec = match dec_from_u128(execute_size) {
        Some(s) => s,
        None => {
            return None;
        },
    };
    let gross_dec = match dec_checked_mul(execute_price, size_dec) {
        Some(g) => g,
        None => {
            return Some(Err(ContractError::TotalOverflow));
        },
    };
    if !dec_is_integral(gross_dec) {
        return Some(Err(ContractError::NonIntegerTotal));
    }
    let gross = match dec_to_u128(gross_dec) {
        Some(g) => g,
        None => {
            return Some(Err(ContractError::TotalOverflow));
        },
    };
    proof {
        lemma_whole_part_bound(gross_dec.mantissa as int, gross_dec.scale as nat);
    }
    let ghost totals_fit = match_totals_fit(bid_price.parts(), execute_price.parts(), execute_size as int);
    proof {
        if totals_fit {
            assert(gross_dec.parts() == times_whole(execute_price.parts(), execute_size as int));
        }
    }
    let mut new_ask = ask.clone();
    new_ask.size = ask.size - execute_size;
    let left = new_ask.size;
    match &mut new_ask.class {
        AskOrderClass::Convertible { status: AskOrderStatus::Ready { converted_base, .. } } => {
            converted_base.amount = left;
        },
        _ => {},
    }
    let rb = querier.is_restricted_marker(&ask.base);
    let rq = querier.is_restricted_marker(&bid.quote.denom);
    let mut response = Response::new();
    response.add_text("action", &ContractAction::Execute.name());
    response.add_text("ask_id", &ask_id);
    response.add_text("bid_id", &bid_id);
    response.add_text("base", &bid.base.denom);
    response.add_text("quote", &ask.quote);
    response.add_text("price", &dec_to_string(execute_price));
    response.add_attr("size", AttrValue::Amount(execute_size));
    let fee_total = match ask_fee_total(&contract_info, gross_dec) {
        Ok(t) => t,
        Err(e) => {
            return Some(Err(e));
        },
    };
    let mut net = gross;
    if fee_total > 0 {
        if gross < fee_total {
            return Some(Err(ContractError::Std(StdError::Overflow { operation: OverflowOperation::Sub, operand1: gross, operand2: fee_total })));
        }
        match &contract_info.ask_fee_info {
            Some(f) => {
                response.add_transfer(rq, fee_total, &bid.quote.denom, &f.account, &env.contract_address);
            },
            None => {},
        }
        net = gross - fee_total;
    }
    response.add_attr("ask_fee", AttrValue::Amount(fee_total));
    let actual_bid_fee = match bid.calculate_fee_checked(gross) {
        None => {
            return None;
        },
        Some(Err(e)) => {
            return Some(Err(e));
        },
        Some(Ok(f)) => f,
    };
    match &actual_bid_fee {
        Some(f) => match &contract_info.bid_fee_info {
            Some(bid_fee_info) => {
                response.add_transfer(rq, f.amount, &f.denom, &bid_fee_info.account, &env.contract_address);
            },
            None => {
                return Some(Err(ContractError::BidFeeAccountMissing));
            },
        },
        None => {},
    }
    let bid_fee_amount = match &actual_bid_fee {
        Some(f) => f.amount,
        None => 0,
    };
    response.add_attr("bid_fee", AttrValue::Amount(bid_fee_amount));
    match add_fill_transfers(&mut response, &new_ask.class, &ask, &bid, rb, rq, net, execute_size, &env.contract_address) {
        Ok(()) => {},
        Err(e) => {
            return Some(Err(e));
        },
    }
    let fill = Action::Fill {
        base: Coin { denom: bid.base.denom.clone(), amount: execute_size },
        fee: clone_opt_coin(&actual_bid_fee),
        price: price.clone(),
        quote: Coin { denom: bid.quote.denom.clone(), amount: gross },
    };
    if dec_lt(execute_price, bid_price) {
        let bid_gross_dec = match dec_checked_mul(bid_price, size_dec) {
            Some(o) => o,
            None => {
                return Some(Err(ContractError::TotalOverflow));
            },
        };
        if !dec_is_integral(bid_gross_dec) {
            return Some(Err(ContractError::NonIntegerTotal));
        }
        let diff = match dec_checked_sub(bid_gross_dec, gross_dec) {
            Some(d) => d,
            None => {
                return Some(Err(ContractError::TotalOverflow));
            },
        };
        let refund = match dec_to_u128(diff) {
            Some(x) => x,
            None => {
                return Some(Err(ContractError::NonIntegerTotal));
            },
        };
        proof {
            lemma_whole_part_bound(diff.mantissa as int, diff.scale as nat);
        }
        let bid_gross = match dec_to_u128(bid_gross_dec) {
            Some(x) => x,
            None => {
                return Some(Err(ContractError::TotalOverflow));
            },
        };
        proof {
            lemma_whole_part_bound(bid_gross_dec.mantissa as int, bid_gross_dec.scale as nat);
            if totals_fit {
                assert(bid_gross_dec.parts() == times_whole(bid_price.parts(), execute_size as int));
                lemma_refund_makes_up_bid_total(
                    bid_price.parts(),
                    execute_price.parts(),
                    execute_size as int,
                    bid_gross_dec.parts(),
                    gross_dec.parts(),
                    diff.parts(),
                    gross as int,
                    refund as int,
                );
            }
        }
        let bid_price_fee = match bid.calculate_fee_checked(bid_gross) {
            None => {
                return None;
            },
            Some(Err(e)) => {
                return Some(Err(e));
            },
            Some(Ok(f)) => f,
        };
        let refund_fee = match fee_refund(&actual_bid_fee, bid_price_fee) {
            None => {
                return None;
            },
            Some(f) => f,
        };
        if refund > 0 {
            response.add_transfer(rq, refund, &bid.quote.denom, &bid.owner, &env.contract_address);
            match &refund_fee {
                Some(f) => {
                    response.add_transfer(rq, f.amount, &f.denom, &bid.owner, &env.contract_address);
                },
                None => {},
            }
        }
        match bid.update_remaining_amounts(&fill) {
            Ok(()) => {},
            Err(e) => {
                return Some(Err(e));
            },
        }
        let refund_action = Action::Refund { fee: refund_fee, quote: Coin { denom: bid.quote.denom.clone(), amount: refund } };
        match bid.update_remaining_amounts(&refund_action) {
            Ok(()) => {},
            Err(e) => {
                return Some(Err(e));
            },
        }
    } else {
        proof {
            if totals_fit {
                let (ap, bp, ep) = (ask_price.parts(), bid_price.parts(), execute_price.parts());
                if parts_lt(ap, bp) && parts_eq(ep, ap) {
                    lemma_eq_lt(ep, ap, bp);
                }
                if parts_eq(ap, bp) {
                    lemma_eq_eq(ep, ap, bp);
                }
                lemma_gross_at_bid_price(bp, ep, execute_size as int, gross_dec.parts(), gross as int);
            }
        }
        match bid.update_remaining_amounts(&fill) {
            Ok(()) => {},
            Err(e) => {
                return Some(Err(e));
            },
        }
    }
    if new_ask.size == 0 {
        store.remove_ask(&ask_id);
    } else {
        store.save_ask(new_ask);
    }
    let ghost left_bid = bid;
    if bid.base.amount - bid.accumulated_base == 0 {
        store.remove_bid(&bid_id);
    } else {
        store.save_bid(bid);
    }
    proof {
        lemma_accounting_stored(old(store).bids@, store.bids@, bid_id@, price@, execute_size as int, loaded_bid, left_bid);
    }
    Some(Ok(response))
}

/// The settings that setting up an order book stores: the message's,
/// once its fields are valid, its approvers and executors are accepted by
/// the chain, its fees are valid (a fee whose account and rate are both
/// empty is no fee), and its size increment is a multiple of 10 to the
/// price precision.
pub open spec fn instantiate_spec(api: Api, msg: InstantiateMsg) -> Result<InfoModel, ErrorView> {
    if msg.invalid_fields().len() > 0 {
        Err(ErrorView::InvalidFields { fields: msg.invalid_fields() })
    } else {
        match validate_all(api, msg.approvers@) {
            Err(e) => Err(e),
            Ok(approvers) => match validate_all(api, msg.executors@) {
                Err(e) => Err(e),
                Ok(executors) => match fee_update(api, None, msg.ask_fee_account, msg.ask_fee_rate, "ask_fee_rate"@) {
                    Err(e) => Err(e),
                    Ok(ask_fee) => match fee_update(api, None, msg.bid_fee_account, msg.bid_fee_rate, "bid_fee_rate"@) {
                        Err(e) => Err(e),
                        Ok(bid_fee) => if (msg.size_increment as int) % pow10(msg.price_precision as nat) != 0 {
                            Err(ErrorView::InvalidPricePrecisionSizePair)
                        } else {
                            Ok(
                                InfoModel {
                                    name: msg.name@,
                                    bind_name: msg.bind_name@,
                                    base_denom: msg.base_denom@,
                                    convertible_base_denoms: views(msg.convertible_base_denoms@),
                                    supported_quote_denoms: views(msg.supported_quote_denoms@),
                                    approvers,
                                    executors,
                                    ask_fee_info: ask_fee,
                                    bid_fee_info: bid_fee,
                                    ask_required_attributes: views(msg.ask_required_attributes@),
                                    bid_required_attributes: views(msg.bid_required_attributes@),
                                    price_precision: msg.price_precision,
                                    size_increment: msg.size_increment,
                                },
                            )
                        },
                    },
                },
            },
        }
    }
}

/// The answer to setting up an order book: the restricted binding of its
/// bind name to the contract, the settings stored, and the action.
pub open spec fn instantiate_response(m: InfoModel, contract: Seq<char>) -> ResponseView {
    let r = with_message(empty_response(), bind_name_view(m.bind_name, contract));
    let r = with_attr(r, "contract_info"@, AttrView::Info(m));
    with_attr(r, "action"@, AttrView::Text(ContractAction::Init.spec_name()))
}

/// Sets up an order book: stores its settings and this contract's name and
/// version, and binds its bind name to the contract. The storage changes
/// only on success.
pub fn instantiate(
    store: &mut ContractStore,
    api: &Api,
    env: &Env,
    info: &MessageInfo,
    msg: InstantiateMsg,
) -> (r: Result<Response, ContractError>)
    ensures
        match instantiate_spec(*api, msg) {
            Err(e) => (r matches Err(err) && err@ == e) && *final(store) == *old(store),
            Ok(m) => (r matches Ok(resp) && resp@ == instantiate_response(m, env.contract_address@))
                && (final(store).contract_info matches Some(StoredContractInfo::V3(c)) && c@ == m)
                && (final(store).version_info matches Some(v) && v.definition@ == CRATE_NAME@ && v.version@ == PACKAGE_VERSION@)
                && final(store).asks == old(store).asks
                && final(store).bids == old(store).bids,
        },
{
    msg.validate()?;
    assert(msg.price_precision <= 18) by {
        if msg.price_precision > 18 {
            assert(msg.invalid_fields().len() > 0);
        }
    }
    let approvers = validate_addresses(api, &msg.approvers)?;
    let executors = validate_addresses(api, &msg.executors)?;
    let ask_fee = update_fee(api, None, &msg.ask_fee_account, &msg.ask_fee_rate, "ask_fee_rate")?;
    let bid_fee = update_fee(api, None, &msg.bid_fee_account, &msg.bid_fee_rate, "bid_fee_rate")?;
    let contract_info = ContractInfoV3 {
        name: msg.name,
        bind_name: msg.bind_name,
        base_denom: msg.base_denom,
        convertible_base_denoms: msg.convertible_base_denoms,
        supported_quote_denoms: msg.supported_quote_denoms,
        approvers,
        executors,
        ask_fee_info: ask_fee,
        bid_fee_info: bid_fee,
        ask_required_attributes: msg.ask_required_attributes,
        bid_required_attributes: msg.bid_required_attributes,
        price_precision: msg.price_precision,
        size_increment: msg.size_increment,
    };
    proof {
        crate::decimal::lemma_pow10_positive(contract_info.price_precision as nat);
    }
    let step = pow10_u128(contract_info.price_precision as u32);
    if contract_info.size_increment % step != 0 {
        return Err(ContractError::InvalidPricePrecisionSizePair);
    }
    let _ = set_contract_info(store, &contract_info);
    let _ = set_version_info(
        store,
        &VersionInfoV1 { version: PACKAGE_VERSION.to_owned(), definition: CRATE_NAME.to_owned() },
    );
    let mut response = Response::new();
    response.add_bind_name(&contract_info.bind_name, &env.contract_address);
    response.add_attr("contract_info", AttrValue::Info(contract_info));
    response.add_text("action", &ContractAction::Init.name());
    Ok(response)
}

/// The bid that a `CreateBid` message asks for: nothing accumulated yet,
/// owned by the sender.
pub open spec fn requested_bid(
    info: MessageInfo,
    id: String,
    base: String,
    fee: Option<Coin>,
    price: String,
    quote: String,
    quote_size: u128,
    size: u128,
) -> BidOrderV3 {
    BidOrderV3 {
        base: Coin { amount: size, denom: base },
        accumulated_base: 0,
        accumulated_quote: 0,
        accumulated_fee: 0,
        fee,
        id,
        owner: info.sender,
        price,
        quote: Coin { amount: quote_size, denom: quote },
    }
}

/// The result of an operation and the storage after it: a message with
/// invalid fields is refused with them; any other is handled by the
/// operation it names (a cancelled bid, and an expired or rejected ask or
/// bid, by giving the order back; a new ask is a basic ask of the sender).
pub open spec fn execute_holds(
    store: ContractStore,
    api: Api,
    querier: Querier,
    env: Env,
    info: MessageInfo,
    msg: ExecuteMsg,
    r: Option<Result<Response, ContractError>>,
    after: ContractStore,
) -> bool {
    if msg.invalid_fields().len() > 0 {
        (r matches Some(Err(err)) && err@ == ErrorView::InvalidFields { fields: msg.invalid_fields() }) && after == store
    } else {
        match msg {
            ExecuteMsg::ApproveAsk { id, base, size } => outcome_holds(
                approve_ask_spec(store, querier, env, info, id, base, size), r, store, after),
            ExecuteMsg::CreateAsk { id, base, quote, price, size } => outcome_holds(
                create_ask_spec(store, querier, env, info,
                    AskOrderV1 { id, owner: info.sender, class: AskOrderClass::Basic, base, quote, price, size }),
                r, store, after),
            ExecuteMsg::CreateBid { id, base, fee, price, quote, quote_size, size } => outcome_holds(
                create_bid_spec(store, querier, env, info, requested_bid(info, id, base, fee, price, quote, quote_size, size)),
                r, store, after),
            ExecuteMsg::CancelAsk { id } => outcome_holds(cancel_ask_spec(store, querier, env, info, id), r, store, after),
            ExecuteMsg::CancelBid { id } => outcome_holds(
                reverse_bid_spec(store, querier, env, info, id, ContractAction::CancelBid, None), r, store, after),
            ExecuteMsg::ExecuteMatch { ask_id, bid_id, price, size } => outcome_holds(
                execute_match_spec(store, querier, env, info, ask_id, bid_id, price, size), r, store, after),
            ExecuteMsg::ExpireAsk { id } => outcome_holds(
                reverse_ask_spec(store, querier, env, info, id, ContractAction::ExpireAsk, None), r, store, after),
            ExecuteMsg::ExpireBid { id } => outcome_holds(
                reverse_bid_spec(store, querier, env, info, id, ContractAction::ExpireBid, None), r, store, after),
            ExecuteMsg::RejectAsk { id, size } => outcome_holds(
                reverse_ask_spec(store, querier, env, info, id, ContractAction::RejectAsk, size), r, store, after),
            ExecuteMsg::RejectBid { id, size } => outcome_holds(
                reverse_bid_spec(store, querier, env, info, id, ContractAction::RejectBid, size), r, store, after),
            ExecuteMsg::ModifyContract {
                approvers,
                executors,
                ask_fee_rate,
                ask_fee_account,
                bid_fee_rate,
                bid_fee_account,
                ask_required_attributes,
                bid_required_attributes,
            } => modify_outcome_holds(
                modify_contract_spec(store, api, info, ModifyContractMsg {
                    approvers,
                    executors,
                    ask_fee_rate,
                    ask_fee_account,
                    bid_fee_rate,
                    bid_fee_account,
                    ask_required_attributes,
                    bid_required_attributes,
                }),
                r, store, after),
        }
    }
}

/// Checks an operation's message and carries the operation out.
pub fn execute(
    store: &mut ContractStore,
    api: &Api,
    querier: &Querier,
    env: &Env,
    info: &MessageInfo,
    msg: ExecuteMsg,
) -> (r: Option<Result<Response, ContractError>>)
    requires
        old(store).wf(),
    ensures
        execute_holds(*old(store), *api, *querier, *env, *info, msg, r, *final(store)),
{
    if let Err(e) = msg.validate() {
        return Some(Err(e));
    }
    match msg {
        ExecuteMsg::ApproveAsk { id, base, size } => approve_ask(store, querier, env, info, id, base, size),
        ExecuteMsg::CreateAsk { id, base, quote, price, size } => create_ask(
            store,
            querier,
            env,
            info,
            AskOrderV1 { base, class: AskOrderClass::Basic, id, owner: info.sender.clone(), quote, price, size },
        ),
        ExecuteMsg::CreateBid { id, base, fee, price, quote, quote_size, size } => create_bid(
            store,
            querier,
            env,
            info,
            BidOrderV3 {
                base: Coin { amount: size, denom: base },
                accumulated_base: 0,
                accumulated_quote: 0,
                accumulated_fee: 0,
                fee,
                id,
                owner: info.sender.clone(),
                price,
                quote: Coin { amount: quote_size, denom: quote },
            },
        ),
        ExecuteMsg::CancelAsk { id } => cancel_ask(store, querier, env, info, id),
        ExecuteMsg::CancelBid { id } => reverse_bid(store, querier, env, info, id, ContractAction::CancelBid, None),
        ExecuteMsg::ExecuteMatch { ask_id, bid_id, price, size } => execute_match(
            store,
            querier,
            env,
            info,
            ask_id,
            bid_id,
            price,
            size,
        ),
        ExecuteMsg::ExpireAsk { id } => reverse_ask(store, querier, env, info, id, ContractAction::ExpireAsk, None),
        ExecuteMsg::ExpireBid { id } => reverse_bid(store, querier, env, info, id, ContractAction::ExpireBid, None),
        ExecuteMsg::RejectAsk { id, size } => reverse_ask(store, querier, env, info, id, ContractAction::RejectAsk, size),
        ExecuteMsg::RejectBid { id, size } => reverse_bid(store, querier, env, info, id, ContractAction::RejectBid, size),
        ExecuteMsg::ModifyContract {
            approvers,
            executors,
            ask_fee_rate,
            ask_fee_account,
            bid_fee_rate,
            bid_fee_account,
            ask_required_attributes,
            bid_required_attributes,
        } => modify_contract(
            store,
            api,
            env,
            info,
            approvers,
            executors,
            ask_fee_rate,
            ask_fee_account,
            bid_fee_rate,
            bid_fee_account,
            ask_required_attributes,
            bid_required_attributes,
        ),
    }
}

/// The storage as the steps of a migration after the settings see it: the
/// settings are then in the current shape (which settings does not matter
/// to those steps: they read only the recorded version and the bids).
pub open spec fn with_settings_replaced(store: ContractStore) -> ContractStore {
    ContractStore { contract_info: Some(StoredContractInfo::V3(vstd::pervasive::arbitrary())), ..store }
}

/// A migration: once the message's fields are valid, the settings are
/// migrated and changed as the message says, the asks are checked to be in
/// the current shape, and the bids are migrated; it ends by recording this
/// contract's name and version. On success, the new settings and bids;
/// `None` where the contract aborts.
pub open spec fn migrate_spec(store: ContractStore, api: Api, msg: MigrateMsg) -> Option<Result<(InfoModel, Seq<StoredBid>), ErrorView>> {
    if msg.invalid_fields().len() > 0 {
        Some(Err(ErrorView::InvalidFields { fields: msg.invalid_fields() }))
    } else {
        match migrate_info_spec(store, api, msg) {
            Err(e) => Some(Err(e)),
            Ok(m) => {
                let later = with_settings_replaced(store);
                match ask_migration_spec(later) {
                    Err(e) => Some(Err(e)),
                    Ok(()) => match bid_migration_spec(later) {
                        None => None,
                        Some(Err(e)) => Some(Err(e)),
                        Some(Ok(bids)) => Some(Ok((m, bids))),
                    },
                }
            },
        }
    }
}

/// Migrates the contract's storage to this version. The storage changes
/// only on success.
pub fn migrate(store: &mut ContractStore, api: &Api, env: &Env, msg: MigrateMsg) -> (r: Option<Result<Response, ContractError>>)
    requires
        old(store).wf(),
    ensures
        match migrate_spec(*old(store), *api, msg) {
            None => r is None && *final(store) == *old(store),
            Some(Err(e)) => (r matches Some(Err(err)) && err@ == e) && *final(store) == *old(store),
            Some(Ok((m, bids))) => (r matches Some(Ok(resp)) && resp@ == empty_response())
                && (final(store).contract_info matches Some(StoredContractInfo::V3(c)) && c@ == m)
                && final(store).bids@ == bids
                && final(store).asks == old(store).asks
                && (final(store).version_info matches Some(v) && v.definition@ == CRATE_NAME@ && v.version@ == PACKAGE_VERSION@)
                && final(store).wf(),
        },
{
    if let Err(e) = msg.validate() {
        return Some(Err(e));
    }
    let contract_info = match migrated_contract_info(store, api, &msg) {
        Ok(c) => c,
        Err(e) => {
            return Some(Err(e));
        },
    };
    let mut later = ContractStore {
        contract_info: Some(StoredContractInfo::V3(contract_info.duplicate())),
        version_info: clone_version_info(&store.version_info),
        asks: Vec::new(),
        bids: Vec::new(),
    };
    std::mem::swap(&mut later.bids, &mut store.bids);
    assert(version_of(later) == version_of(with_settings_replaced(*old(store))));
    assert(later.bids@ == with_settings_replaced(*old(store)).bids@);
    if let Err(e) = migrate_ask_orders(&later, &msg) {
        std::mem::swap(&mut later.bids, &mut store.bids);
        return Some(Err(e));
    }
    let response = match migrate_bid_orders(&mut later, env, &msg, Response::new()) {
        None => {
            std::mem::swap(&mut later.bids, &mut store.bids);
            return None;
        },
        Some(Err(e)) => {
            std::mem::swap(&mut later.bids, &mut store.bids);
            return Some(Err(e));
        },
        Some(Ok(response)) => response,
    };
    std::mem::swap(&mut later.bids, &mut store.bids);
    let _ = set_contract_info(store, &contract_info);
    let _ = migrate_version_info(store);
    Some(Ok(response))
}

/// What the contract answers to a question.
#[derive(Clone, Debug, PartialEq, Eq)]
pub enum QueryAnswer {
    Ask(AskOrderV1),
    Bid(BidOrderV3),
    ContractInfo(ContractInfoV3),
    VersionInfo(VersionInfoV1),
}

/// The message of the error that a question with an id that is not a UUID
/// is refused with.
pub open spec fn invalid_id_message() -> Seq<char> {
    "Invalid fields: [\"id\"]"@
}

/// The answer to a question and its errors: a question about an order whose
/// id is not a UUID is refused; else the ask or the bid stored under the id
/// (in the current shape), the settings in the current shape, or the
/// recorded definition and version.
pub open spec fn query_holds(store: ContractStore, msg: QueryMsg, r: Result<QueryAnswer, StdError>) -> bool {
    if msg.invalid_fields().len() > 0 {
        r matches Err(e) && e@ == StdErrorView::GenericErr { msg: invalid_id_message() }
    } else {
        match msg {
            QueryMsg::GetAsk { id } => match load_ask_spec(store.asks@, id@) {
                Ok(a) => r == Ok::<QueryAnswer, StdError>(QueryAnswer::Ask(a)),
                Err(e) => r matches Err(err) && err@ == e,
            },
            QueryMsg::GetBid { id } => match load_bid_spec(store.bids@, id@) {
                Ok(b) => r == Ok::<QueryAnswer, StdError>(QueryAnswer::Bid(b)),
                Err(e) => r matches Err(err) && err@ == e,
            },
            QueryMsg::GetContractInfo {} => match load_v3(store.contract_info) {
                Ok(m) => r matches Ok(QueryAnswer::ContractInfo(c)) && c@ == m,
                Err(e) => r matches Err(err) && err@ == generic_of(e),
            },
            QueryMsg::GetVersionInfo {} => match version_of(store) {
                Ok(v) => r matches Ok(QueryAnswer::VersionInfo(vi)) && vi.definition@ == v.0 && vi.version@ == v.1,
                Err(e) => r matches Err(err) && err@ == e,
            },
        }
    }
}

/// A storage error out of a contract error (the errors that reading the
/// storage gives).
fn std_error(e: ContractError) -> (r: StdError)
    requires
        e matches ContractError::Std(_),
    ensures
        e matches ContractError::Std(inner) && r == inner,
{
    match e {
        ContractError::Std(inner) => inner,
        _ => StdError::GenericErr { msg: String::new() },
    }
}

/// Answers a question about the stored orders, settings or version.
pub fn query(store: &ContractStore, env: &Env, msg: QueryMsg) -> (r: Result<QueryAnswer, StdError>)
    requires
        store.wf(),
    ensures
        query_holds(*store, msg, r),
{
    if msg.validate().is_err() {
        return Err(StdError::GenericErr { msg: "Invalid fields: [\"id\"]".to_owned() });
    }
    match msg {
        QueryMsg::GetAsk { id } => Ok(QueryAnswer::Ask(store.load_ask(&id)?)),
        QueryMsg::GetBid { id } => Ok(QueryAnswer::Bid(store.load_bid(&id)?)),
        QueryMsg::GetContractInfo {} => match get_contract_info(store) {
            Ok(c) => Ok(QueryAnswer::ContractInfo(c)),
            Err(e) => Err(to_generic(std_error(e))),
        },
        QueryMsg::GetVersionInfo {} => match get_version_info(store) {
            Ok(v) => Ok(QueryAnswer::VersionInfo(v)),
            Err(e) => Err(std_error(e)),
        },
    }
}

} // verus!

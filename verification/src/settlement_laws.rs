//! Who is paid what when the order book settles: the fee a bid must carry,
//! the fee a reversed bid gets back, where the proceeds of a match go, the
//! fee a match below the bid's price gives back, and the lists a change of
//! the settings installs.

use crate::ask_order::{AskOrderClass, AskOrderStatus, AskOrderV1};
use crate::bid_order::BidOrderV3;
use crate::common::{Action, Coin, ContractAction};
use crate::contract::{
    ask_fee_spec, bid_fee_rate_of, cancel_fee_spec, reverse_bid_finish, class_after_fill, create_bid_spec, execute_match_spec, fee_refund_spec,
    fill_transfers, match_after_gross, match_refund, reverse_bid_spec, Env, MessageInfo, Outcome,
};
use crate::contract_info::{all_accepted, load_v3, InfoModel};
use crate::decimal::{
    decimal_checked_div, decimal_checked_mul, decimal_checked_sub, decimal_from_str, decimal_to_string, parts_lt,
    parts_round_u128,
    parts_to_u128, round_half_away,
};
use crate::common::views;
use crate::execute::modify_contract::modify_contract_spec;
use crate::msg::ModifyContractMsg;
use crate::response::{empty_response, transfer_view, with_attr, with_message, AttrView};
use crate::laws::law_update_adds_what_the_action_moves;
use crate::store::{
    bid_has_id, bid_index, lemma_bid_removed, lemma_bid_saved, load_ask_spec, load_bid_spec, lookup_bid, Api,
    ContractStore, Querier, StoredBid,
};
use vstd::prelude::*;

verus! {

/// The amount of an optional fee: nothing without a fee.
pub open spec fn fee_amount(fee: Option<Coin>) -> int {
    match fee {
        Some(c) => c.amount as int,
        None => 0,
    }
}

/// The bid fee a bid must carry under the settings: the bid fee rate times
/// the bid's total (its price times its size), rounded half away from
/// zero; zero without a bid fee.
pub open spec fn required_bid_fee(ci: InfoModel, bid: BidOrderV3) -> int {
    let p = decimal_from_str(bid.price@)->0;
    let t = decimal_checked_mul(p.0, p.1, bid.base.amount as int, 0)->0;
    let rate = bid_fee_rate_of(ci)->0;
    parts_round_u128(decimal_checked_mul(rate.0, rate.1, t.0, t.1)->0)->0
}

/// A bid is stored only with the fee the settings call for: its fee (none
/// counting as zero) is the bid fee rate times its total, rounded half away
/// from zero, in the bid's quote. A bid without a fee under a rate that
/// calls for one is never stored.
pub proof fn law_created_bid_carries_the_required_fee(
    store: ContractStore,
    querier: Querier,
    env: Env,
    info: MessageInfo,
    bid: BidOrderV3,
)
    requires
        create_bid_spec(store, querier, env, info, bid) is Done,
    ensures
        fee_amount(bid.fee) == required_bid_fee(load_v3(store.contract_info)->Ok_0, bid),
        bid.fee matches Some(f) ==> f.denom@ == bid.quote.denom@,
{
}

/// The fee that the quote a bid has left calls for: the bid's fee times
/// that quote over the bid's whole quote, rounded half away from zero.
pub open spec fn fee_required_for(b: BidOrderV3, quote_left: int) -> int {
    let ratio = decimal_checked_div(quote_left, 0, b.quote.amount as int, 0)->0;
    let p = decimal_checked_mul(b.fee->0.amount as int, 0, ratio.0, ratio.1)->0;
    round_half_away(p.0, p.1 as nat)
}

/// The size a reversal gives back: the size asked for, or all the base the
/// bid has left.
pub open spec fn reversed_size(b: BidOrderV3, size: Option<u128>) -> int {
    match size {
        Some(s) => s as int,
        None => b.base.amount - b.accumulated_base,
    }
}

/// The quote a reversal gives back: the size given back at the bid's
/// price.
pub open spec fn reversed_quote(b: BidOrderV3, size: Option<u128>) -> int {
    let p = decimal_from_str(b.price@)->0;
    parts_to_u128(decimal_checked_mul(p.0, p.1, reversed_size(b, size), 0)->0)->0
}

/// Cancelling, expiring or rejecting (part of) a bid gives its owner the
/// quote of the size at the bid's price and, for a bid with a fee, the fee
/// left less the fee that the quote staying calls for: the fee given back
/// and the fee kept for the quote left make up the fee left, and what
/// stays stored has accumulated all of its fee but that kept fee.
pub proof fn law_reversed_bid_returns_the_fee_no_longer_needed(
    store: ContractStore,
    querier: Querier,
    env: Env,
    info: MessageInfo,
    id: String,
    action: ContractAction,
    size: Option<u128>,
)
    requires
        reverse_bid_spec(store, querier, env, info, id, action, size) is Done,
    ensures
        match (reverse_bid_spec(store, querier, env, info, id, action, size), load_bid_spec(store.bids@, id@)) {
            (Outcome::Done { response, .. }, Ok(b)) => {
                let cq = reversed_quote(b, size);
                let rq = querier.is_restricted(b.quote.denom@);
                let quote_back = transfer_view(rq, cq as u128, b.quote.denom@, b.owner@, env.contract_address@);
                match b.fee {
                    None => response.messages == seq![quote_back],
                    Some(bf) => {
                        let kept = fee_required_for(b, b.quote.amount - b.accumulated_quote - cq);
                        let back = bf.amount - b.accumulated_fee - kept;
                        &&& 0 <= kept
                        &&& 0 <= back
                        &&& back > 0 ==> response.messages == seq![
                            quote_back,
                            transfer_view(rq, back as u128, b.quote.denom@, b.owner@, env.contract_address@),
                        ]
                        &&& back == 0 ==> response.messages == seq![quote_back]
                    },
                }
            },
            _ => false,
        },
{
}

/// A change of the settings installs the lists its message carries: where
/// it names approvers or executors, the settings stored afterwards hold
/// exactly those addresses, in that order, each accepted by the chain; and
/// where it names required attributes, exactly those.
pub proof fn law_modification_installs_the_lists_it_names(
    store: ContractStore,
    api: Api,
    info: MessageInfo,
    msg: ModifyContractMsg,
)
    requires
        modify_contract_spec(store, api, info, msg) matches Some(Ok(_)),
    ensures
        match modify_contract_spec(store, api, info, msg) {
            Some(Ok(m)) => {
                &&& msg.executors matches Some(l) ==> m.executors == views(l@) && all_accepted(api, l@)
                &&& msg.approvers matches Some(l) ==> m.approvers == views(l@) && all_accepted(api, l@)
                &&& msg.ask_required_attributes matches Some(l) ==> m.ask_required_attributes == views(l@)
                &&& msg.bid_required_attributes matches Some(l) ==> m.bid_required_attributes == views(l@)
            },
            _ => false,
        },
{
}

/// The fee a bid owes for a fill of `gross` of its quote, as the bid's
/// fee terms give it.
pub open spec fn fee_due(b: BidOrderV3, gross: int) -> Option<Coin> {
    b.spec_calculate_fee_checked(gross as u128)->0->Ok_0
}

/// A match pays the proceeds, net of the ask fee, to the seller and the
/// base to the buyer, right after the fee transfers: for a basic ask the
/// ask's owner gets the proceeds; for an approved convertible ask the
/// buyer gets the converted base, and the approver recorded in the ask
/// gets the ask's base and the proceeds.
#[verifier::rlimit(50)]
pub proof fn law_match_pays_the_seller_and_the_buyer(
    store: ContractStore,
    querier: Querier,
    env: Env,
    info: MessageInfo,
    ask_id: String,
    bid_id: String,
    price: String,
    size: u128,
)
    requires
        execute_match_spec(store, querier, env, info, ask_id, bid_id, price, size) is Done,
    ensures
        match (
            execute_match_spec(store, querier, env, info, ask_id, bid_id, price, size),
            load_ask_spec(store.asks@, ask_id@),
            load_bid_spec(store.bids@, bid_id@),
        ) {
            (Outcome::Done { response, .. }, Ok(a), Ok(b)) => {
                let ci = load_v3(store.contract_info)->Ok_0;
                let ep = decimal_from_str(price@)->0;
                let g = decimal_checked_mul(ep.0, ep.1, size as int, 0)->0;
                let gross = (parts_to_u128(g)->0) as u128;
                let ask_fee = ask_fee_spec(ci, g)->Ok_0;
                let net = (gross - ask_fee) as u128;
                let k = (if ask_fee > 0 { 1int } else { 0int }) + (if fee_due(b, gross as int) is Some { 1int } else { 0int });
                let rq = querier.is_restricted(b.quote.denom@);
                let rb = querier.is_restricted(a.base@);
                let c = env.contract_address@;
                let m = response.messages;
                match a.class {
                    AskOrderClass::Basic => {
                        &&& m.len() >= k + 2
                        &&& m[k] == transfer_view(rq, net, b.quote.denom@, a.owner@, c)
                        &&& m[k + 1] == transfer_view(rb, size, a.base@, b.owner@, c)
                    },
                    AskOrderClass::Convertible { status: AskOrderStatus::Ready { approver, converted_base } } => {
                        &&& m.len() >= k + 3
                        &&& m[k] == transfer_view(rb, size, converted_base.denom@, b.owner@, c)
                        &&& m[k + 1] == transfer_view(rb, size, a.base@, approver@, c)
                        &&& m[k + 2] == transfer_view(rq, net, b.quote.denom@, approver@, c)
                    },
                    _ => false,
                }
            },
            _ => false,
        },
{
    let a = load_ask_spec(store.asks@, ask_id@)->Ok_0;
    let b = load_bid_spec(store.bids@, bid_id@)->Ok_0;
    let ci = load_v3(store.contract_info)->Ok_0;
    let bp = decimal_from_str(b.price@)->0;
    let ep = decimal_from_str(price@)->0;
    let g = decimal_checked_mul(ep.0, ep.1, size as int, 0)->0;
    let gross = (parts_to_u128(g)->0) as u128;
    let fee_total = ask_fee_spec(ci, g)->Ok_0;
    let actual = fee_due(b, gross as int);
    let left = (a.size - size) as u128;
    let new_ask = AskOrderV1 { size: left, class: class_after_fill(a.class, left), ..a };
    let rb = querier.is_restricted(a.base@);
    let rq = querier.is_restricted(b.quote.denom@);
    let c = env.contract_address@;
    let r0 = with_attr(empty_response(), "action"@, AttrView::Text(ContractAction::Execute.spec_name()));
    let r0 = with_attr(r0, "ask_id"@, AttrView::Text(ask_id@));
    let r0 = with_attr(r0, "bid_id"@, AttrView::Text(bid_id@));
    let r0 = with_attr(r0, "base"@, AttrView::Text(b.base.denom@));
    let r0 = with_attr(r0, "quote"@, AttrView::Text(a.quote@));
    let r0 = with_attr(r0, "price"@, AttrView::Text(decimal_to_string(ep.0, ep.1)));
    let r0 = with_attr(r0, "size"@, AttrView::Amount(size));
    assert(r0.messages.len() == 0);
    let r1 = if fee_total > 0 {
        with_message(r0, transfer_view(rq, fee_total as u128, b.quote.denom@, (ci.ask_fee_info->0).0, c))
    } else {
        r0
    };
    let net = (gross - fee_total) as u128;
    let r1 = with_attr(r1, "ask_fee"@, AttrView::Amount(fee_total as u128));
    let r2 = match actual {
        Some(f) => with_message(r1, transfer_view(rq, f.amount, f.denom@, (ci.bid_fee_info->0).0, c)),
        None => r1,
    };
    let r2 = with_attr(r2, "bid_fee"@, AttrView::Amount(match actual { Some(f) => f.amount, None => 0 }));
    let k = (if fee_total > 0 { 1int } else { 0int }) + (if actual is Some { 1int } else { 0int });
    assert(r2.messages.len() == k);
    let r3 = fill_transfers(r2, new_ask.class, a, b, rb, rq, net, size, c)->Ok_0;
    let fill = Action::Fill {
        base: Coin { denom: b.base.denom, amount: size },
        fee: actual,
        price,
        quote: Coin { denom: b.quote.denom, amount: gross },
    };
    let response = execute_match_spec(store, querier, env, info, ask_id, bid_id, price, size)->response;
    let outcome = match_after_gross(store, querier, env, ci, ask_id, bid_id, a, b, bp, ep, price, size, g, gross);
    assert(execute_match_spec(store, querier, env, info, ask_id, bid_id, price, size) == outcome);
    assert(ask_fee_spec(ci, g) is Ok);
    assert(!(fee_total > 0 && gross < fee_total));
    assert(b.spec_calculate_fee_checked(gross) matches Some(Ok(_)));
    assert(fill_transfers(r2, new_ask.class, a, b, rb, rq, net, size, c) is Ok);
    if parts_lt(ep, bp) {
        let og = decimal_checked_mul(bp.0, bp.1, size as int, 0)->0;
        let d = decimal_checked_sub(og.0, og.1, g.0, g.1)->0;
        let refund = parts_to_u128(d)->0;
        let ogross = parts_to_u128(og)->0;
        let at_bid = b.spec_calculate_fee_checked(ogross as u128)->0->Ok_0;
        let fr = fee_refund_spec(actual, at_bid)->0;
        let r4 = if refund > 0 {
            let r = with_message(r3, transfer_view(rq, refund as u128, b.quote.denom@, b.owner@, c));
            match fr {
                Some(f) => with_message(r, transfer_view(rq, f.amount, f.denom@, b.owner@, c)),
                None => r,
            }
        } else {
            r3
        };
        assert(outcome == match_refund(store, querier, env, ask_id, bid_id, new_ask, b, bp, g, gross, actual, fill, size, r3));
        assert(response == r4);
        assert(r4.messages.subrange(0, r3.messages.len() as int) =~= r3.messages);
    } else {
        assert(response == r3);
    }
    assert(r3.messages.len() <= response.messages.len());
    assert(response.messages.subrange(0, r3.messages.len() as int) =~= r3.messages);
}

/// A match below the bid's price gives the buyer back, after the fill, the
/// difference in quote (the size at the bid's price less the gross
/// proceeds) and, where the bid pays a fee, the fee due on the size at the
/// bid's price less the fee charged on the gross proceeds.
#[verifier::rlimit(50)]
pub proof fn law_match_below_bid_price_gives_back_quote_and_fee(
    store: ContractStore,
    querier: Querier,
    env: Env,
    info: MessageInfo,
    ask_id: String,
    bid_id: String,
    price: String,
    size: u128,
)
    requires
        execute_match_spec(store, querier, env, info, ask_id, bid_id, price, size) is Done,
    ensures
        match (execute_match_spec(store, querier, env, info, ask_id, bid_id, price, size), load_bid_spec(store.bids@, bid_id@)) {
            (Outcome::Done { response, .. }, Ok(b)) => {
                let bp = decimal_from_str(b.price@)->0;
                let ep = decimal_from_str(price@)->0;
                let g = decimal_checked_mul(ep.0, ep.1, size as int, 0)->0;
                let gross = parts_to_u128(g)->0;
                let og = decimal_checked_mul(bp.0, bp.1, size as int, 0)->0;
                let refund = parts_to_u128(decimal_checked_sub(og.0, og.1, g.0, g.1)->0)->0;
                let charged = fee_due(b, gross);
                let due = fee_due(b, parts_to_u128(og)->0);
                let rq = querier.is_restricted(b.quote.denom@);
                let c = env.contract_address@;
                let m = response.messages;
                let n = m.len() as int;
                let quote_back = transfer_view(rq, refund as u128, b.quote.denom@, b.owner@, c);
                (parts_lt(ep, bp) && refund > 0) ==> if charged is Some && due is Some && fee_amount(due) > fee_amount(charged) {
                    &&& n >= 2
                    &&& m[n - 2] == quote_back
                    &&& m[n - 1] == transfer_view(rq, (fee_amount(due) - fee_amount(charged)) as u128, due->0.denom@, b.owner@, c)
                } else {
                    n >= 1 && m[n - 1] == quote_back
                }
            },
            _ => false,
        },
{
}

/// The fee given back for a fill below the bid's price: the fee due on the
/// size at the bid's price less the fee charged, where both are owed and
/// the first is larger; nothing otherwise.
pub open spec fn fee_back(charged: Option<Coin>, due: Option<Coin>) -> int {
    if charged is Some && due is Some && fee_amount(due) > fee_amount(charged) {
        fee_amount(due) - fee_amount(charged)
    } else {
        0
    }
}

/// A bid that stays after a match has accumulated as fee the fee charged
/// on the gross proceeds and, for a match below its price, the fee given
/// back with the difference: all in all, the fee due on the size at its
/// own price.
#[verifier::rlimit(50)]
pub proof fn law_match_accumulates_the_bid_fee(
    store: ContractStore,
    querier: Querier,
    env: Env,
    info: MessageInfo,
    ask_id: String,
    bid_id: String,
    price: String,
    size: u128,
)
    requires
        store.wf(),
        execute_match_spec(store, querier, env, info, ask_id, bid_id, price, size) is Done,
    ensures
        match (execute_match_spec(store, querier, env, info, ask_id, bid_id, price, size), load_bid_spec(store.bids@, bid_id@)) {
            (Outcome::Done { bids, .. }, Ok(b)) => {
                let bp = decimal_from_str(b.price@)->0;
                let ep = decimal_from_str(price@)->0;
                let g = decimal_checked_mul(ep.0, ep.1, size as int, 0)->0;
                let og = decimal_checked_mul(bp.0, bp.1, size as int, 0)->0;
                let charged = fee_due(b, parts_to_u128(g)->0);
                let due = fee_due(b, parts_to_u128(og)->0);
                lookup_bid(bids, bid_id@) matches Some(StoredBid::V3(nb)) ==> nb.accumulated_fee == b.accumulated_fee
                    + fee_amount(charged) + if parts_lt(ep, bp) { fee_back(charged, due) } else { 0 }
            },
            _ => false,
        },
{
    let b = load_bid_spec(store.bids@, bid_id@)->Ok_0;
    let bp = decimal_from_str(b.price@)->0;
    let ep = decimal_from_str(price@)->0;
    let g = decimal_checked_mul(ep.0, ep.1, size as int, 0)->0;
    let gross = (parts_to_u128(g)->0) as u128;
    let actual = fee_due(b, gross as int);
    let fill = Action::Fill {
        base: Coin { denom: b.base.denom, amount: size },
        fee: actual,
        price,
        quote: Coin { denom: b.quote.denom, amount: gross },
    };
    let b1 = b.spec_update(fill).0;
    law_update_adds_what_the_action_moves(b, fill);
    let nb = if parts_lt(ep, bp) {
        let og = decimal_checked_mul(bp.0, bp.1, size as int, 0)->0;
        let d = decimal_checked_sub(og.0, og.1, g.0, g.1)->0;
        let refund = parts_to_u128(d)->0;
        let ogross = parts_to_u128(og)->0;
        let at_bid = b.spec_calculate_fee_checked(ogross as u128)->0->Ok_0;
        let fr = fee_refund_spec(actual, at_bid)->0;
        let refund_action = Action::Refund { fee: fr, quote: Coin { denom: b.quote.denom, amount: refund as u128 } };
        law_update_adds_what_the_action_moves(b1, refund_action);
        b1.spec_update(refund_action).0
    } else {
        b1
    };
    let ib = bid_index(store.bids@, bid_id@);
    assert(bid_has_id(store.bids@, ib, bid_id@));
    if nb.spec_remaining_base() == 0 {
        lemma_bid_removed(store.bids@, bid_id@);
    } else {
        lemma_bid_saved(store.bids@, nb);
    }
}

/// A bid with a fee that stays after part of it is cancelled, expired or
/// rejected has accumulated all of its fee but the fee that its quote left
/// calls for, and the quote given back.
pub proof fn law_reversed_bid_keeps_the_fee_its_quote_needs(
    store: ContractStore,
    querier: Querier,
    env: Env,
    info: MessageInfo,
    id: String,
    action: ContractAction,
    size: Option<u128>,
)
    requires
        store.wf(),
        reverse_bid_spec(store, querier, env, info, id, action, size) is Done,
    ensures
        match (reverse_bid_spec(store, querier, env, info, id, action, size), load_bid_spec(store.bids@, id@)) {
            (Outcome::Done { bids, .. }, Ok(b)) => {
                let cq = reversed_quote(b, size);
                lookup_bid(bids, id@) matches Some(StoredBid::V3(nb)) ==> {
                    &&& nb.accumulated_quote == b.accumulated_quote + (cq as u128)
                    &&& nb.accumulated_base == b.accumulated_base + (reversed_size(b, size) as u128)
                    &&& (b.fee matches Some(bf) ==> nb.accumulated_fee == bf.amount
                        - fee_required_for(b, b.quote.amount - b.accumulated_quote - cq))
                }
            },
            _ => false,
        },
{
    let b = load_bid_spec(store.bids@, id@)->Ok_0;
    let effective = reversed_size(b, size) as u128;
    let cqi = reversed_quote(b, size);
    let cq = cqi as u128;
    let fee = cancel_fee_spec(b, cqi)->0->Ok_0;
    assert(reverse_bid_spec(store, querier, env, info, id, action, size)
        == reverse_bid_finish(store, querier, env, id, action, b, effective, cq, fee));
    let rejection = Action::Reject {
        base: Coin { denom: b.base.denom, amount: effective },
        fee: fee,
        quote: Coin { denom: b.quote.denom, amount: cq },
    };
    law_update_adds_what_the_action_moves(b, rejection);
    let nb = b.spec_update(rejection).0;
    let ib = bid_index(store.bids@, id@);
    assert(bid_has_id(store.bids@, ib, id@));
    if nb.spec_remaining_base() == 0 {
        lemma_bid_removed(store.bids@, id@);
    } else {
        lemma_bid_saved(store.bids@, nb);
    }
}

} // verus!

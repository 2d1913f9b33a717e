//! Properties of the order book that span its operations: what a read
//! gives back after a write, what cancelling, rejecting and matching leave,
//! how a bid's amounts add up, and what a migration keeps.

use crate::ask_order::{AskOrderClass, AskOrderStatus, AskOrderV1};
use crate::bid_order::{
    action_base, action_fee, action_quote, converted_bid, sum_base, sum_fee, sum_quote, sums_fit, BidOrderV2,
    BidOrderV3,
};
use crate::common::{Action, Coin, ContractAction, Event};
use crate::contract::{
    approve_ask_spec, ask_as_stored, cancel_ask_spec, cancel_fee_spec, class_after_fill, create_ask_spec,
    create_bid_spec, execute_match_spec, fee_refund_spec, reverse_ask_spec, reverse_bid_spec, Env, MessageInfo,
    Outcome,
};
use crate::contract_info::{apply_migration, load_v3, migrate_info_spec, ContractInfoV3, InfoModel};
use crate::decimal::{decimal_checked_mul, decimal_checked_sub, decimal_from_str, parts_lt, parts_to_u128};
use crate::error::{ContractError, ErrorView, StdErrorView};
use crate::msg::MigrateMsg;
use crate::store::{
    ask_has_id, ask_index, ask_kind, bid_has_id, bid_index, lemma_ask_removed, lemma_ask_saved, lemma_bid_removed,
    lemma_bid_saved, load_ask_spec, load_bid_spec, lookup_ask, lookup_bid, Api, ContractStore, Querier, StoredBid,
    StoredContractInfo,
};
use crate::version_info::{
    parts_at_least, parts_below, parts_in_range, semver_version_parse, version_of, VersionInfoV1,
};
use crate::match_totals::{bid_price_total, match_accounting, match_totals_fit};
use crate::decimal::{lemma_pow10_positive, pow10};
use vstd::arithmetic::div_mod::{lemma_div_multiples_vanish, lemma_fundamental_div_mod};
use vstd::prelude::*;

verus! {

/// A created ask is what a read of its id gives back afterwards, in the
/// shape it was stored in; every other ask reads as before.
pub proof fn law_created_ask_is_read_back(store: ContractStore, querier: Querier, env: Env, info: MessageInfo, ask: AskOrderV1)
    requires
        store.wf(),
        create_ask_spec(store, querier, env, info, ask) is Done,
    ensures
        match (create_ask_spec(store, querier, env, info, ask), load_v3(store.contract_info)) {
            (Outcome::Done { asks, .. }, Ok(ci)) => load_ask_spec(asks, ask.id@) == Ok::<AskOrderV1, StdErrorView>(ask_as_stored(ci, ask))
                && forall|id: Seq<char>| id != ask.id@ ==> load_ask_spec(asks, id) == load_ask_spec(store.asks@, id),
            _ => false,
        },
{
    let ci = load_v3(store.contract_info)->Ok_0;
    let stored = ask_as_stored(ci, ask);
    lemma_ask_saved(store.asks@, stored);
}

/// A created bid is what a read of its id gives back afterwards; every
/// other bid reads as before.
pub proof fn law_created_bid_is_read_back(store: ContractStore, querier: Querier, env: Env, info: MessageInfo, bid: BidOrderV3)
    requires
        store.wf(),
        create_bid_spec(store, querier, env, info, bid) is Done,
    ensures
        match create_bid_spec(store, querier, env, info, bid) {
            Outcome::Done { bids, .. } => load_bid_spec(bids, bid.id@) == Ok::<BidOrderV3, StdErrorView>(bid)
                && forall|id: Seq<char>| id != bid.id@ ==> load_bid_spec(bids, id) == load_bid_spec(store.bids@, id),
            _ => false,
        },
{
    lemma_bid_saved(store.bids@, bid);
}

/// A cancelled ask is gone: a read of its id finds nothing afterwards, and
/// every other ask reads as before.
pub proof fn law_cancelled_ask_is_gone(store: ContractStore, querier: Querier, env: Env, info: MessageInfo, id: String)
    requires
        store.wf(),
        cancel_ask_spec(store, querier, env, info, id) is Done,
    ensures
        match cancel_ask_spec(store, querier, env, info, id) {
            Outcome::Done { asks, .. } => load_ask_spec(asks, id@) == Err::<AskOrderV1, StdErrorView>(StdErrorView::NotFound { kind: ask_kind(id@) })
                && forall|other: Seq<char>| other != id@ ==> load_ask_spec(asks, other) == load_ask_spec(store.asks@, other),
            _ => false,
        },
{
    lemma_ask_removed(store.asks@, id@);
}

/// Expiring or rejecting part of an ask leaves the ask with its size less
/// the size given back; given back whole, the ask is gone.
pub proof fn law_reversed_ask_keeps_the_rest(
    store: ContractStore,
    querier: Querier,
    env: Env,
    info: MessageInfo,
    id: String,
    action: ContractAction,
    cancel_size: Option<u128>,
)
    requires
        store.wf(),
        reverse_ask_spec(store, querier, env, info, id, action, cancel_size) is Done,
    ensures
        match (reverse_ask_spec(store, querier, env, info, id, action, cancel_size), lookup_ask(store.asks@, id@)) {
            (Outcome::Done { asks, .. }, Some(a)) => {
                let given_back = match cancel_size {
                    Some(c) => c as int,
                    None => a.size as int,
                };
                &&& given_back <= a.size
                &&& given_back == a.size ==> lookup_ask(asks, id@) is None
                &&& given_back < a.size ==> lookup_ask(asks, id@) == Some(AskOrderV1 { size: (a.size - given_back) as u128, ..a })
            },
            _ => false,
        },
{
    let a = lookup_ask(store.asks@, id@)->0;
    let given_back = match cancel_size {
        Some(c) => c,
        None => a.size,
    };
    if given_back == a.size {
        lemma_ask_removed(store.asks@, id@);
    } else {
        lemma_ask_saved(store.asks@, AskOrderV1 { size: (a.size - given_back) as u128, ..a });
    }
}

/// Updating a bid with an action adds to its accumulated amounts exactly
/// the base, quote and fee the action moves (a refund moves no base), and
/// changes nothing else, when no amount overflows.
pub proof fn law_update_adds_what_the_action_moves(b: BidOrderV3, action: Action)
    requires
        b.spec_update(action).1 is Ok,
    ensures
        ({
            let nb = b.spec_update(action).0;
            &&& nb.accumulated_base == b.accumulated_base + action_base(action)
            &&& nb.accumulated_quote == b.accumulated_quote + action_quote(action)
            &&& nb.accumulated_fee == b.accumulated_fee + action_fee(action)
            &&& nb == (BidOrderV3 {
                accumulated_base: nb.accumulated_base,
                accumulated_quote: nb.accumulated_quote,
                accumulated_fee: nb.accumulated_fee,
                ..b
            })
        }),
{
}

/// A bid converted from the shape with events holds what replaying its
/// last event on the conversion of the earlier events gives: the
/// accumulated amounts are the running sums of the events.
pub proof fn law_conversion_replays_events(earlier: BidOrderV2, later: BidOrderV2, e: Event)
    requires
        later.events@ == earlier.events@.push(e),
        later.base == earlier.base,
        later.fee == earlier.fee,
        later.id == earlier.id,
        later.owner == earlier.owner,
        later.price == earlier.price,
        later.quote == earlier.quote,
        sums_fit(later),
    ensures
        converted_bid(earlier).spec_update(e.action) == (converted_bid(later), Ok::<(), ContractError>(())),
{
    assert(later.events@.drop_last() =~= earlier.events@);
    assert(sum_base(later.events@) == sum_base(earlier.events@) + action_base(e.action));
    assert(sum_quote(later.events@) == sum_quote(earlier.events@) + action_quote(e.action));
    assert(sum_fee(later.events@) == sum_fee(earlier.events@) + action_fee(e.action));
    lemma_sums_nonneg(earlier.events@);
    lemma_sums_nonneg(later.events@);
}

proof fn lemma_sums_nonneg(events: Seq<Event>)
    ensures
        sum_base(events) >= 0,
        sum_quote(events) >= 0,
        sum_fee(events) >= 0,
    decreases events.len(),
{
    if events.len() > 0 {
        lemma_sums_nonneg(events.drop_last());
    }
}

/// Cancelling, expiring or rejecting part of a bid accumulates the size
/// given back as base, so the bid keeps the rest; given back whole (as a
/// cancellation without a size is), the bid is gone.
pub proof fn law_reversed_bid_keeps_the_rest(
    store: ContractStore,
    querier: Querier,
    env: Env,
    info: MessageInfo,
    id: String,
    action: ContractAction,
    cancel_size: Option<u128>,
)
    requires
        store.wf(),
        reverse_bid_spec(store, querier, env, info, id, action, cancel_size) is Done,
    ensures
        match (reverse_bid_spec(store, querier, env, info, id, action, cancel_size), load_bid_spec(store.bids@, id@)) {
            (Outcome::Done { bids, .. }, Ok(b)) => {
                let given_back = match cancel_size {
                    Some(c) => c as int,
                    None => b.spec_remaining_base(),
                };
                &&& given_back <= b.spec_remaining_base()
                &&& given_back == b.spec_remaining_base() ==> lookup_bid(bids, id@) is None
                &&& given_back < b.spec_remaining_base() ==> (lookup_bid(bids, id@) matches Some(StoredBid::V3(nb))
                    && nb.accumulated_base == b.accumulated_base + given_back
                    && nb.base == b.base && nb.id == b.id && nb.owner == b.owner && nb.price == b.price)
            },
            _ => false,
        },
{
    let b = load_bid_spec(store.bids@, id@)->Ok_0;
    let effective: u128 = match cancel_size {
        Some(c) => c,
        None => b.spec_remaining_base() as u128,
    };
    let p = decimal_from_str(b.price@)->0;
    let q = decimal_checked_mul(p.0, p.1, effective as int, 0)->0;
    let cq = parts_to_u128(q)->0;
    let fee = cancel_fee_spec(b, cq)->0->Ok_0;
    let rejection = Action::Reject {
        base: Coin { denom: b.base.denom, amount: effective },
        fee: fee,
        quote: Coin { denom: b.quote.denom, amount: cq as u128 },
    };
    let nb = b.spec_update(rejection).0;
    law_update_adds_what_the_action_moves(b, rejection);
    let i = bid_index(store.bids@, id@);
    assert(bid_has_id(store.bids@, i, id@));
    assert(b.id@ == id@);
    if nb.spec_remaining_base() != 0 {
        lemma_bid_saved(store.bids@, nb);
    } else {
        lemma_bid_removed(store.bids@, id@);
    }
}

/// A match moves its size out of both orders: the ask keeps its size less
/// the size matched (and is gone when nothing is left), and the bid
/// accumulates the size matched as base (and is gone when no base is left).
#[verifier::rlimit(50)]
pub proof fn law_match_moves_the_size(
    store: ContractStore,
    querier: Querier,
    env: Env,
    info: MessageInfo,
    ask_id: String,
    bid_id: String,
    price: String,
    size: u128,
)
    requires
        store.wf(),
        execute_match_spec(store, querier, env, info, ask_id, bid_id, price, size) is Done,
    ensures
        match (
            execute_match_spec(store, querier, env, info, ask_id, bid_id, price, size),
            lookup_ask(store.asks@, ask_id@),
            load_bid_spec(store.bids@, bid_id@),
        ) {
            (Outcome::Done { asks, bids, .. }, Some(a), Ok(b)) => {
                &&& size <= a.size
                &&& size <= b.spec_remaining_base()
                &&& size == a.size ==> lookup_ask(asks, ask_id@) is None
                &&& size < a.size ==> (lookup_ask(asks, ask_id@) matches Some(na) && na.size == a.size - size
                    && na.id == a.id && na.owner == a.owner && na.base == a.base && na.quote == a.quote
                    && na.price == a.price)
                &&& size == b.spec_remaining_base() ==> lookup_bid(bids, bid_id@) is None
                &&& size < b.spec_remaining_base() ==> (lookup_bid(bids, bid_id@) matches Some(StoredBid::V3(nb))
                    && nb.accumulated_base == b.accumulated_base + size && nb.base == b.base && nb.id == b.id
                    && nb.owner == b.owner && nb.price == b.price)
            },
            _ => false,
        },
{
    let a = lookup_ask(store.asks@, ask_id@)->0;
    let b = load_bid_spec(store.bids@, bid_id@)->Ok_0;
    let bp = decimal_from_str(b.price@)->0;
    let ep = decimal_from_str(price@)->0;
    let g = decimal_checked_mul(ep.0, ep.1, size as int, 0)->0;
    let gross = parts_to_u128(g)->0 as u128;
    let actual = b.spec_calculate_fee_checked(gross)->0->Ok_0;
    let fill = Action::Fill {
        base: Coin { denom: b.base.denom, amount: size },
        fee: actual,
        price,
        quote: Coin { denom: b.quote.denom, amount: gross },
    };
    let b1 = b.spec_update(fill).0;
    law_update_adds_what_the_action_moves(b, fill);
    let nb = if parts_lt(ep, bp) {
        let og = decimal_checked_mul(bp.0, bp.1, size as int, 0)->0;
        let d = decimal_checked_sub(og.0, og.1, g.0, g.1)->0;
        let refund = parts_to_u128(d)->0;
        let ogross = parts_to_u128(og)->0;
        let at_bid_price = b.spec_calculate_fee_checked(ogross as u128)->0->Ok_0;
        let fee_refund = fee_refund_spec(actual, at_bid_price)->0;
        let refund_action = Action::Refund {
            fee: fee_refund,
            quote: Coin { denom: b.quote.denom, amount: refund as u128 },
        };
        law_update_adds_what_the_action_moves(b1, refund_action);
        b1.spec_update(refund_action).0
    } else {
        b1
    };
    let left = (a.size - size) as u128;
    let new_ask = AskOrderV1 { size: left, class: class_after_fill(a.class, left), ..a };
    let ia = ask_index(store.asks@, ask_id@);
    assert(ask_has_id(store.asks@, ia, ask_id@));
    let ib = bid_index(store.bids@, bid_id@);
    assert(bid_has_id(store.bids@, ib, bid_id@));
    if left == 0 {
        lemma_ask_removed(store.asks@, ask_id@);
    } else {
        lemma_ask_saved(store.asks@, new_ask);
    }
    if nb.spec_remaining_base() == 0 {
        lemma_bid_removed(store.bids@, bid_id@);
    } else {
        lemma_bid_saved(store.bids@, nb);
    }
}

/// From version 0.16.2 on, a migration whose message changes nothing
/// leaves the settings as they are.
pub proof fn law_migration_without_changes_keeps_settings(store: ContractStore, api: Api, msg: MigrateMsg)
    requires
        msg.approvers is None,
        msg.ask_fee_rate is None,
        msg.ask_fee_account is None,
        msg.bid_fee_rate is None,
        msg.bid_fee_account is None,
        msg.ask_required_attributes is None,
        msg.bid_required_attributes is None,
        version_of(store) matches Ok(v) && (semver_version_parse(v.1) matches Ok(p) && parts_at_least(p, (0, 16, 2))),
    ensures
        migrate_info_spec(store, api, msg) == match load_v3(store.contract_info) {
            Ok(m) => Ok::<InfoModel, ErrorView>(m),
            Err(e) => Err::<InfoModel, ErrorView>(ErrorView::Std(e)),
        },
{
    let v = version_of(store)->Ok_0;
    let p = semver_version_parse(v.1)->Ok_0;
    assert(!parts_below(p, (0, 15, 0)));
    assert(!parts_in_range(p, (0, 15, 0), (0, 15, 2)));
    assert(!parts_in_range(p, (0, 15, 3), (0, 16, 2)));
    match load_v3(store.contract_info) {
        Ok(m) => {
            assert(apply_migration(m, api, msg) == Ok::<InfoModel, ErrorView>(m));
        },
        Err(_) => {},
    }
}

/// Settings written in the current shape are what a read of the settings
/// gives back, and a recorded version is what a read of the version gives
/// back, whatever else the storage holds.
pub proof fn law_written_settings_and_version_are_read_back(store: ContractStore, c: ContractInfoV3, v: VersionInfoV1)
    ensures
        load_v3((ContractStore { contract_info: Some(StoredContractInfo::V3(c)), ..store }).contract_info)
            == Ok::<InfoModel, StdErrorView>(c@),
        version_of((ContractStore { version_info: Some(v), ..store })) == Ok::<(Seq<char>, Seq<char>), StdErrorView>(
            (v.definition@, v.version@),
        ),
{
}

/// An approved ask reads back ready, with its approver and the base the
/// approver converted, and is otherwise as it was.
pub proof fn law_approved_ask_is_read_back_ready(
    store: ContractStore,
    querier: Querier,
    env: Env,
    info: MessageInfo,
    id: String,
    base: String,
    size: u128,
)
    requires
        store.wf(),
        approve_ask_spec(store, querier, env, info, id, base, size) is Done,
    ensures
        match (approve_ask_spec(store, querier, env, info, id, base, size), lookup_ask(store.asks@, id@)) {
            (Outcome::Done { asks, .. }, Some(a)) => load_ask_spec(asks, id@) == Ok::<AskOrderV1, StdErrorView>(
                AskOrderV1 {
                    class: AskOrderClass::Convertible {
                        status: AskOrderStatus::Ready { approver: info.sender, converted_base: Coin { denom: base, amount: size } },
                    },
                    ..a
                },
            ),
            _ => false,
        },
{
    let a = lookup_ask(store.asks@, id@)->0;
    let i = ask_index(store.asks@, id@);
    assert(ask_has_id(store.asks@, i, id@));
    let updated = AskOrderV1 {
        class: AskOrderClass::Convertible {
            status: AskOrderStatus::Ready { approver: info.sender, converted_base: Coin { denom: base, amount: size } },
        },
        ..a
    };
    lemma_ask_saved(store.asks@, updated);
}

/// The quote a bid has left is its base left at its own price (a whole
/// amount).
pub open spec fn quote_at_bid_price(b: BidOrderV3) -> bool {
    let bp = decimal_from_str(b.price@)->0;
    let left = b.base.amount - b.accumulated_base;
    &&& (bp.0 * left) % pow10(bp.1 as nat) == 0
    &&& b.quote.amount - b.accumulated_quote == bid_price_total(bp, left)
}

/// A match keeps a bid's quote left at its base left times its price: the
/// match takes the size from the base and the size at the bid's price (the
/// fill plus the refund) from the quote, where the products of the prices
/// and the size fit in a decimal.
pub proof fn law_match_keeps_quote_at_bid_price(
    before: Seq<StoredBid>,
    after: Seq<StoredBid>,
    bid_id: Seq<char>,
    price: Seq<char>,
    size: int,
)
    requires
        match_accounting(before, after, bid_id, price, size),
        load_bid_spec(before, bid_id) matches Ok(b) && quote_at_bid_price(b)
            && match_totals_fit(decimal_from_str(b.price@)->0, decimal_from_str(price)->0, size)
            && 0 <= (decimal_from_str(b.price@)->0).1,
    ensures
        lookup_bid(after, bid_id) matches Some(StoredBid::V3(nb)) ==> quote_at_bid_price(nb),
{
    let b = load_bid_spec(before, bid_id)->Ok_0;
    let bp = decimal_from_str(b.price@)->0;
    if let Some(StoredBid::V3(nb)) = lookup_bid(after, bid_id) {
        let p = pow10(bp.1 as nat);
        lemma_pow10_positive(bp.1 as nat);
        let left = b.base.amount - b.accumulated_base;
        let x = bp.0 * left;
        let y = bp.0 * size;
        lemma_fundamental_div_mod(x, p);
        lemma_fundamental_div_mod(y, p);
        let qx = x / p;
        let qy = y / p;
        assert(bp.0 * (left - size) == p * (qx - qy)) by (nonlinear_arith)
            requires
                x == bp.0 * left,
                y == bp.0 * size,
                x == p * qx,
                y == p * qy,
        ;
        lemma_div_multiples_vanish(qx - qy, p);
        assert((p * (qx - qy)) % p == 0) by (nonlinear_arith)
            requires
                p >= 1,
        ;
        assert(nb.base.amount - nb.accumulated_base == left - size);
    }
}

} // verus!

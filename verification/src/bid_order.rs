//! Bid orders: offers to buy base with a quote denomination.

use crate::common::{clone_opt_coin, Action, Coin, Event};
use crate::decimal::{dec_checked_div, dec_checked_mul, dec_from_u128, dec_round_whole, dec_to_u128, decimal_checked_div, decimal_checked_mul, max_mantissa, round_half_away, Dec};
use crate::contract::Env;
use crate::error::{ContractError, ErrorView, OverflowOperation, StdError};
use crate::msg::MigrateMsg;
use crate::response::Response;
use crate::store::{stored_bid_id, ContractStore, StoredBid};
use crate::version_info::{matches_range, parts_in_range, require_recorded_version, version_requirement};
use vstd::prelude::*;

verus! {

/// The largest `u128`.
pub open spec fn max_u128() -> int {
    0xFFFF_FFFF_FFFF_FFFF_FFFF_FFFF_FFFF_FFFFint
}

/// The base amount an action moves.
pub open spec fn action_base(a: Action) -> int {
    match a {
        Action::Fill { base, .. } => base.amount as int,
        Action::Reject { base, .. } => base.amount as int,
        Action::Refund { .. } => 0,
    }
}

/// The quote amount an action moves.
pub open spec fn action_quote(a: Action) -> int {
    match a {
        Action::Fill { quote, .. } => quote.amount as int,
        Action::Refund { quote, .. } => quote.amount as int,
        Action::Reject { quote, .. } => quote.amount as int,
    }
}

/// The fee an action moves.
pub open spec fn action_fee(a: Action) -> int {
    let fee = match a {
        Action::Fill { fee, .. } => fee,
        Action::Refund { fee, .. } => fee,
        Action::Reject { fee, .. } => fee,
    };
    match fee {
        Some(f) => f.amount as int,
        None => 0,
    }
}

/// The base moved by a list of events.
pub open spec fn sum_base(events: Seq<Event>) -> int
    decreases events.len(),
{
    if events.len() == 0 {
        0
    } else {
        sum_base(events.drop_last()) + action_base(events.last().action)
    }
}

/// The quote moved by a list of events.
pub open spec fn sum_quote(events: Seq<Event>) -> int
    decreases events.len(),
{
    if events.len() == 0 {
        0
    } else {
        sum_quote(events.drop_last()) + action_quote(events.last().action)
    }
}

/// The fees moved by a list of events.
pub open spec fn sum_fee(events: Seq<Event>) -> int
    decreases events.len(),
{
    if events.len() == 0 {
        0
    } else {
        sum_fee(events.drop_last()) + action_fee(events.last().action)
    }
}

/// A bid as stored up to version 0.18.2: with the list of its events.
#[derive(Clone, Debug, PartialEq, Eq)]
pub struct BidOrderV2 {
    pub base: Coin,
    pub events: Vec<Event>,
    pub fee: Option<Coin>,
    pub id: String,
    pub owner: String,
    pub price: String,
    pub quote: Coin,
}

/// Which amount of an action a sum adds up.
#[derive(Clone, Copy, Debug, PartialEq, Eq)]
pub enum Part {
    Base,
    Quote,
    Fee,
}

/// The amount of an action that a sum adds up.
pub open spec fn action_part(a: Action, part: Part) -> int {
    match part {
        Part::Base => action_base(a),
        Part::Quote => action_quote(a),
        Part::Fee => action_fee(a),
    }
}

/// The sum of one part over a list of events.
pub open spec fn sum_part(events: Seq<Event>, part: Part) -> int {
    match part {
        Part::Base => sum_base(events),
        Part::Quote => sum_quote(events),
        Part::Fee => sum_fee(events),
    }
}

proof fn lemma_sum_nonneg(events: Seq<Event>, part: Part)
    ensures
        sum_part(events, part) >= 0,
    decreases events.len(),
{
    if events.len() > 0 {
        lemma_sum_nonneg(events.drop_last(), part);
    }
}

proof fn lemma_sum_prefix(events: Seq<Event>, part: Part, i: int)
    requires
        0 <= i < events.len(),
    ensures
        sum_part(events.subrange(0, i + 1), part) == sum_part(events.subrange(0, i), part) + action_part(events[i].action, part),
{
    assert(events.subrange(0, i + 1).drop_last() =~= events.subrange(0, i));
}

proof fn lemma_sum_prefix_le(events: Seq<Event>, part: Part, i: int)
    requires
        0 <= i <= events.len(),
    ensures
        sum_part(events.subrange(0, i), part) <= sum_part(events, part),
    decreases events.len() - i,
{
    if i < events.len() {
        lemma_sum_prefix(events, part, i);
        lemma_sum_prefix_le(events, part, i + 1);
        assert(action_part(events[i].action, part) >= 0);
    } else {
        assert(events.subrange(0, i) =~= events);
    }
}

fn event_part(e: &Event, part: Part) -> (r: u128)
    ensures
        r as int == action_part(e.action, part),
{
    match part {
        Part::Base => match &e.action {
            Action::Fill { base, .. } => base.amount,
            Action::Reject { base, .. } => base.amount,
            Action::Refund { .. } => 0,
        },
        Part::Quote => match &e.action {
            Action::Fill { quote, .. } => quote.amount,
            Action::Refund { quote, .. } => quote.amount,
            Action::Reject { quote, .. } => quote.amount,
        },
        Part::Fee => {
            let fee = match &e.action {
                Action::Fill { fee, .. } => fee,
                Action::Refund { fee, .. } => fee,
                Action::Reject { fee, .. } => fee,
            };
            match fee {
                Some(f) => f.amount,
                None => 0,
            }
        },
    }
}

impl BidOrderV2 {
    /// Adds up one part of the events, or `None` when the sum overflows.
    pub fn sum_checked(&self, part: Part) -> (r: Option<u128>)
        ensures
            match r {
                Some(t) => t as int == sum_part(self.events@, part),
                None => sum_part(self.events@, part) > max_u128(),
            },
    {
        let mut total: u128 = 0;
        let mut i: usize = 0;
        while i < self.events.len()
            invariant
                i <= self.events@.len(),
                total as int == sum_part(self.events@.subrange(0, i as int), part),
            decreases self.events@.len() - i,
        {
            proof {
                lemma_sum_prefix(self.events@, part, i as int);
                lemma_sum_prefix_le(self.events@, part, i as int + 1);
            }
            match total.checked_add(event_part(&self.events[i], part)) {
                Some(t) => {
                    total = t;
                },
                None => {
                    return None;
                },
            }
            i = i + 1;
        }
        assert(self.events@.subrange(0, i as int) =~= self.events@);
        Some(total)
    }

    /// Adds up one part of the events.
    pub fn sum(&self, part: Part) -> (r: u128)
        requires
            sum_part(self.events@, part) <= max_u128(),
        ensures
            r as int == sum_part(self.events@, part),
    {
        let mut total: u128 = 0;
        let mut i: usize = 0;
        while i < self.events.len()
            invariant
                i <= self.events@.len(),
                total as int == sum_part(self.events@.subrange(0, i as int), part),
                sum_part(self.events@, part) <= max_u128(),
            decreases self.events@.len() - i,
        {
            proof {
                lemma_sum_prefix(self.events@, part, i as int);
                lemma_sum_prefix_le(self.events@, part, i as int + 1);
            }
            total = total + event_part(&self.events[i], part);
            i = i + 1;
        }
        assert(self.events@.subrange(0, i as int) =~= self.events@);
        total
    }

    /// The base filled or rejected by the events.
    pub fn sum_base(&self) -> (r: u128)
        requires
            sum_base(self.events@) <= max_u128(),
        ensures
            r as int == sum_base(self.events@),
    {
        self.sum(Part::Base)
    }

    /// The quote filled, refunded or rejected by the events.
    pub fn sum_quote(&self) -> (r: u128)
        requires
            sum_quote(self.events@) <= max_u128(),
        ensures
            r as int == sum_quote(self.events@),
    {
        self.sum(Part::Quote)
    }

    /// The fees paid or returned by the events.
    pub fn sum_fee(&self) -> (r: u128)
        requires
            sum_fee(self.events@) <= max_u128(),
        ensures
            r as int == sum_fee(self.events@),
    {
        self.sum(Part::Fee)
    }
}

/// A bid: to buy `base` for `quote` at `price` (a decimal in text), paying
/// `fee`, with the base, quote and fee accumulated by fills, refunds and
/// rejections so far.
#[derive(Debug, PartialEq, Eq)]
pub struct BidOrderV3 {
    pub base: Coin,
    pub accumulated_base: u128,
    pub accumulated_quote: u128,
    pub accumulated_fee: u128,
    pub fee: Option<Coin>,
    pub id: String,
    pub owner: String,
    pub price: String,
    pub quote: Coin,
}

impl Clone for BidOrderV3 {
    fn clone(&self) -> (r: Self)
        ensures
            r == *self,
    {
        BidOrderV3 {
            base: self.base.clone(),
            accumulated_base: self.accumulated_base,
            accumulated_quote: self.accumulated_quote,
            accumulated_fee: self.accumulated_fee,
            fee: clone_opt_coin(&self.fee),
            id: self.id.clone(),
            owner: self.owner.clone(),
            price: self.price.clone(),
            quote: self.quote.clone(),
        }
    }
}

/// The result of `checked_add` on two amounts.
pub open spec fn checked_add_spec(a: u128, b: u128) -> Result<u128, ContractError> {
    if a + b <= max_u128() {
        Ok((a + b) as u128)
    } else {
        Err(ContractError::Std(StdError::Overflow { operation: OverflowOperation::Add, operand1: a, operand2: b }))
    }
}

/// `checked_add` on two amounts, with an overflow as an error.
pub fn checked_add(a: u128, b: u128) -> (r: Result<u128, ContractError>)
    ensures
        r == checked_add_spec(a, b),
{
    match a.checked_add(b) {
        Some(s) => Ok(s),
        None => Err(ContractError::Std(StdError::Overflow { operation: OverflowOperation::Add, operand1: a, operand2: b })),
    }
}

/// The fee due, given the fee left, the fee of the order and the ratio of
/// the quote that stays: the fee left minus the fee that the quote that
/// stays calls for (the ratio times the order's fee, rounded half away
/// from zero).
pub open spec fn fee_due(remaining_fee: int, fee_amount: int, ratio: (int, int)) -> Result<int, ContractError> {
    match decimal_checked_mul(ratio.0, ratio.1, fee_amount, 0) {
        None => Err(ContractError::TotalOverflow),
        Some(p) => {
            let expected = round_half_away(p.0, p.1 as nat);
            if expected < 0 {
                Err(ContractError::TotalOverflow)
            } else if remaining_fee < expected {
                Err(ContractError::BidOrderFeeInsufficientFunds)
            } else {
                Ok(remaining_fee - expected)
            }
        },
    }
}

impl BidOrderV3 {
    /// The amounts accumulated do not exceed the amounts of the order.
    pub open spec fn amounts_in_range(self) -> bool {
        &&& self.accumulated_base <= self.base.amount
        &&& self.accumulated_quote <= self.quote.amount
        &&& match self.fee {
            Some(f) => self.accumulated_fee <= f.amount,
            None => true,
        }
    }

    pub open spec fn spec_remaining_base(self) -> int {
        self.base.amount - self.accumulated_base
    }

    pub open spec fn spec_remaining_quote(self) -> int {
        self.quote.amount - self.accumulated_quote
    }

    pub open spec fn spec_remaining_fee(self) -> int {
        match self.fee {
            None => 0,
            Some(f) => f.amount - self.accumulated_fee,
        }
    }

    /// All the fee that is left, as a coin of the fee's denomination; `None`
    /// when nothing is left or the bid has no fee.
    pub open spec fn spec_fee_left(self) -> Option<Coin> {
        match self.fee {
            Some(f) => if self.spec_remaining_fee() > 0 {
                Some(Coin { denom: f.denom, amount: self.spec_remaining_fee() as u128 })
            } else {
                None
            },
            None => None,
        }
    }

    /// The named quotient `amount / total` as `Decimal::checked_div` gives
    /// it.
    pub open spec fn spec_ratio(amount: int, total: int) -> (int, int) {
        decimal_checked_div(amount, 0, total, 0)->0
    }

    /// A bid converted from a bid with events: the events summed up into
    /// the accumulated amounts.
    pub fn from_v2(old_bid: BidOrderV2) -> (r: BidOrderV3)
        requires
            sum_base(old_bid.events@) <= max_u128(),
            sum_quote(old_bid.events@) <= max_u128(),
            sum_fee(old_bid.events@) <= max_u128(),
        ensures
            r.base == old_bid.base,
            r.accumulated_base == sum_base(old_bid.events@),
            r.accumulated_quote == sum_quote(old_bid.events@),
            r.accumulated_fee == sum_fee(old_bid.events@),
            r.fee == old_bid.fee,
            r.id == old_bid.id,
            r.owner == old_bid.owner,
            r.price == old_bid.price,
            r.quote == old_bid.quote,
    {
        let accumulated_base = old_bid.sum_base();
        let accumulated_quote = old_bid.sum_quote();
        let accumulated_fee = old_bid.sum_fee();
        BidOrderV3 {
            base: old_bid.base,
            accumulated_base,
            accumulated_quote,
            accumulated_fee,
            fee: old_bid.fee,
            id: old_bid.id,
            owner: old_bid.owner,
            price: old_bid.price,
            quote: old_bid.quote,
        }
    }

    /// Returns the remaining amount of base in the order.
    pub fn get_remaining_base(&self) -> (r: u128)
        requires
            self.accumulated_base <= self.base.amount,
        ensures
            r == self.spec_remaining_base(),
    {
        self.base.amount - self.accumulated_base
    }

    /// Returns the remaining amount of fee in the order.
    pub fn get_remaining_fee(&self) -> (r: u128)
        requires
            self.fee matches Some(f) ==> self.accumulated_fee <= f.amount,
        ensures
            r == self.spec_remaining_fee(),
    {
        match &self.fee {
            None => 0,
            Some(fee) => fee.amount - self.accumulated_fee,
        }
    }

    /// Returns the remaining amount of quote in the order.
    pub fn get_remaining_quote(&self) -> (r: u128)
        requires
            self.accumulated_quote <= self.quote.amount,
        ensures
            r == self.spec_remaining_quote(),
    {
        self.quote.amount - self.accumulated_quote
    }

    /// Calculates the ratio of an amount to the bid order base amount.
    pub fn get_base_ratio(&self, amount: u128) -> (r: Dec)
        requires
            amount <= max_mantissa(),
            0 < self.base.amount <= max_mantissa(),
        ensures
            r.wf(),
            r.parts() == Self::spec_ratio(amount as int, self.base.amount as int),
    {
        let a = dec_from_u128(amount).unwrap();
        let b = dec_from_u128(self.base.amount).unwrap();
        dec_checked_div(a, b).unwrap()
    }

    /// Calculates the ratio of an amount to the bid order quote amount.
    pub fn get_quote_ratio(&self, amount: u128) -> (r: Dec)
        requires
            amount <= max_mantissa(),
            0 < self.quote.amount <= max_mantissa(),
        ensures
            r.wf(),
            r.parts() == Self::spec_ratio(amount as int, self.quote.amount as int),
            r.mantissa >= 0,
            amount == 0 ==> r == (Dec { mantissa: 0, scale: 0 }),
    {
        let a = dec_from_u128(amount).unwrap();
        let b = dec_from_u128(self.quote.amount).unwrap();
        dec_checked_div(a, b).unwrap()
    }

    /// The fee due when the quote that stays in the order is in the ratio
    /// `ratio` to the order's quote: `None` for an order without a fee or
    /// when nothing is due, else the fee left minus the fee that the quote
    /// that stays calls for.
    pub open spec fn spec_fee_for_ratio(self, ratio: (int, int)) -> Result<Option<Coin>, ContractError> {
        match self.fee {
            None => Ok(None),
            Some(f) => match fee_due(self.spec_remaining_fee(), f.amount as int, ratio) {
                Err(e) => Err(e),
                Ok(due) => if due > 0 {
                    Ok(Some(Coin { denom: f.denom, amount: due as u128 }))
                } else {
                    Ok(None)
                },
            },
        }
    }

    /// The fee due for a fill of `gross_proceeds`: computed for the ratio
    /// of the quote that would stay in the order after it.
    pub open spec fn spec_calculate_fee(self, gross_proceeds: u128) -> Result<Option<Coin>, ContractError> {
        match self.fee {
            None => Ok(None),
            Some(_) => self.spec_fee_for_ratio(
                Self::spec_ratio(self.spec_remaining_quote() - gross_proceeds, self.quote.amount as int),
            ),
        }
    }

    /// The fee due when the quote that stays in the order is in the ratio
    /// `ratio` to the order's quote.
    pub fn fee_for_ratio(&self, ratio: Dec) -> (r: Result<Option<Coin>, ContractError>)
        requires
            ratio.wf(),
            self.fee matches Some(f) ==> self.accumulated_fee <= f.amount && f.amount <= max_mantissa(),
        ensures
            r == self.spec_fee_for_ratio(ratio.parts()),
            ratio.mantissa == 0 ==> r == Ok::<Option<Coin>, ContractError>(self.spec_fee_left()),
    {
        match &self.fee {
            Some(bid_order_fee) => {
                let fee_amount = dec_from_u128(bid_order_fee.amount).unwrap();
                let product = match dec_checked_mul(ratio, fee_amount) {
                    Some(p) => p,
                    None => {
                        return Err(ContractError::TotalOverflow);
                    },
                };
                let rounded = dec_round_whole(product);
                let expected_remaining_fee = match dec_to_u128(rounded) {
                    Some(e) => e,
                    None => {
                        return Err(ContractError::TotalOverflow);
                    },
                };
                let remaining_fee = self.get_remaining_fee();
                if remaining_fee < expected_remaining_fee {
                    return Err(ContractError::BidOrderFeeInsufficientFunds);
                }
                let bid_fee = remaining_fee - expected_remaining_fee;
                if bid_fee > 0 {
                    Ok(Some(Coin { denom: bid_order_fee.denom.clone(), amount: bid_fee }))
                } else {
                    Ok(None)
                }
            },
            None => Ok(None),
        }
    }

    /// The fee due for a quote ratio, where the contract aborts for an
    /// order fee beyond 96 bits or a fee accumulated beyond the order's fee
    /// (`None`).
    pub open spec fn spec_fee_for_ratio_checked(self, ratio: (int, int)) -> Option<Result<Option<Coin>, ContractError>> {
        match self.fee {
            None => Some(Ok(None)),
            Some(f) => if f.amount > max_mantissa() {
                None
            } else {
                match decimal_checked_mul(ratio.0, ratio.1, f.amount as int, 0) {
                    None => Some(Err(ContractError::TotalOverflow)),
                    Some(p) => if round_half_away(p.0, p.1 as nat) < 0 {
                        Some(Err(ContractError::TotalOverflow))
                    } else if self.accumulated_fee > f.amount {
                        None
                    } else {
                        Some(self.spec_fee_for_ratio(ratio))
                    },
                }
            },
        }
    }

    /// The fee due for a quote ratio; `None` where the contract aborts.
    pub fn fee_for_ratio_checked(&self, ratio: Dec) -> (r: Option<Result<Option<Coin>, ContractError>>)
        requires
            ratio.wf(),
        ensures
            r == self.spec_fee_for_ratio_checked(ratio.parts()),
    {
        match &self.fee {
            Some(bid_order_fee) => {
                let fee_amount = match dec_from_u128(bid_order_fee.amount) {
                    Some(f) => f,
                    None => {
                        return None;
                    },
                };
                let product = match dec_checked_mul(ratio, fee_amount) {
                    Some(p) => p,
                    None => {
                        return Some(Err(ContractError::TotalOverflow));
                    },
                };
                let rounded = dec_round_whole(product);
                if dec_to_u128(rounded).is_none() {
                    return Some(Err(ContractError::TotalOverflow));
                }
                if self.accumulated_fee > bid_order_fee.amount {
                    return None;
                }
                Some(self.fee_for_ratio(ratio))
            },
            None => Some(Ok(None)),
        }
    }

    /// The fee due for a fill of `gross_proceeds`, where the contract aborts
    /// for accumulated amounts beyond the order's, a fill beyond the quote
    /// left, or a quote of zero or beyond 96 bits (`None`).
    pub open spec fn spec_calculate_fee_checked(self, gross_proceeds: u128) -> Option<Result<Option<Coin>, ContractError>> {
        match self.fee {
            None => Some(Ok(None)),
            Some(_) => if self.accumulated_quote > self.quote.amount || self.spec_remaining_quote() < gross_proceeds
                || self.quote.amount > max_mantissa() || self.quote.amount == 0 {
                None
            } else {
                self.spec_fee_for_ratio_checked(
                    Self::spec_ratio(self.spec_remaining_quote() - gross_proceeds, self.quote.amount as int),
                )
            },
        }
    }

    /// The fee due for a fill of `gross_proceeds`; `None` where the
    /// contract aborts.
    pub fn calculate_fee_checked(&self, gross_proceeds: u128) -> (r: Option<Result<Option<Coin>, ContractError>>)
        ensures
            r == self.spec_calculate_fee_checked(gross_proceeds),
    {
        match &self.fee {
            Some(_) => {
                if self.accumulated_quote > self.quote.amount || self.quote.amount - self.accumulated_quote < gross_proceeds
                    || self.quote.amount > 0xFFFF_FFFF_FFFF_FFFF_FFFF_FFFFu128 || self.quote.amount == 0 {
                    return None;
                }
                let ratio = self.get_quote_ratio(self.get_remaining_quote() - gross_proceeds);
                self.fee_for_ratio_checked(ratio)
            },
            None => Some(Ok(None)),
        }
    }

    /// The fee due for a fill of `gross_proceeds`: the fee left minus the
    /// fee that the quote that stays in the order calls for, `None` when
    /// nothing is due or the order has no fee.
    pub fn calculate_fee(&self, gross_proceeds: u128) -> (r: Result<Option<Coin>, ContractError>)
        requires
            self.amounts_in_range(),
            gross_proceeds <= self.spec_remaining_quote(),
            0 < self.quote.amount <= max_mantissa(),
            self.fee matches Some(f) ==> f.amount <= max_mantissa(),
        ensures
            r == self.spec_calculate_fee(gross_proceeds),
            gross_proceeds == self.spec_remaining_quote() ==> r == Ok::<Option<Coin>, ContractError>(self.spec_fee_left()),
    {
        match &self.fee {
            Some(_) => {
                let ratio = self.get_quote_ratio(self.get_remaining_quote() - gross_proceeds);
                self.fee_for_ratio(ratio)
            },
            None => Ok(None),
        }
    }

    /// The order after an action, and whether an accumulated amount
    /// overflowed: each amount the action moves is added in turn (base,
    /// fee, quote), and the first that overflows stops the update there.
    pub open spec fn spec_update(self, action: Action) -> (BidOrderV3, Result<(), ContractError>) {
        let fee = match action {
            Action::Fill { fee, .. } => fee,
            Action::Refund { fee, .. } => fee,
            Action::Reject { fee, .. } => fee,
        };
        let moves_base = !(action is Refund);
        let after_base = if moves_base {
            checked_add_spec(self.accumulated_base, action_base(action) as u128)
        } else {
            Ok(self.accumulated_base)
        };
        match after_base {
            Err(e) => (self, Err(e)),
            Ok(b) => {
                let s1 = BidOrderV3 { accumulated_base: b, ..self };
                let after_fee = match fee {
                    Some(f) => checked_add_spec(s1.accumulated_fee, f.amount),
                    None => Ok(s1.accumulated_fee),
                };
                match after_fee {
                    Err(e) => (s1, Err(e)),
                    Ok(fa) => {
                        let s2 = BidOrderV3 { accumulated_fee: fa, ..s1 };
                        match checked_add_spec(s2.accumulated_quote, action_quote(action) as u128) {
                            Err(e) => (s2, Err(e)),
                            Ok(q) => (BidOrderV3 { accumulated_quote: q, ..s2 }, Ok(())),
                        }
                    },
                }
            },
        }
    }

    /// Update remaining base, fee, and quote amounts based on the given
    /// `Action`.
    pub fn update_remaining_amounts(&mut self, action: &Action) -> (r: Result<(), ContractError>)
        ensures
            (*final(self), r) == old(self).spec_update(*action),
    {
        match action {
            Action::Fill { base, fee, price: _, quote } => {
                self.accumulated_base = checked_add(self.accumulated_base, base.amount)?;
                if let Some(fee) = fee {
                    self.accumulated_fee = checked_add(self.accumulated_fee, fee.amount)?;
                }
                self.accumulated_quote = checked_add(self.accumulated_quote, quote.amount)?;
            },
            Action::Refund { fee, quote } => {
                if let Some(fee) = fee {
                    self.accumulated_fee = checked_add(self.accumulated_fee, fee.amount)?;
                }
                self.accumulated_quote = checked_add(self.accumulated_quote, quote.amount)?;
            },
            Action::Reject { base, fee, quote } => {
                self.accumulated_base = checked_add(self.accumulated_base, base.amount)?;
                if let Some(fee) = fee {
                    self.accumulated_fee = checked_add(self.accumulated_fee, fee.amount)?;
                }
                self.accumulated_quote = checked_add(self.accumulated_quote, quote.amount)?;
            },
        }
        Ok(())
    }
}

/// The sums of the events of a bid fit in an amount.
pub open spec fn sums_fit(o: BidOrderV2) -> bool {
    &&& sum_base(o.events@) <= max_u128()
    &&& sum_quote(o.events@) <= max_u128()
    &&& sum_fee(o.events@) <= max_u128()
}

/// A bid with events in the current shape: the events summed up into the
/// accumulated amounts.
pub open spec fn converted_bid(o: BidOrderV2) -> BidOrderV3 {
    BidOrderV3 {
        base: o.base,
        accumulated_base: sum_base(o.events@) as u128,
        accumulated_quote: sum_quote(o.events@) as u128,
        accumulated_fee: sum_fee(o.events@) as u128,
        fee: o.fee,
        id: o.id,
        owner: o.owner,
        price: o.price,
        quote: o.quote,
    }
}

/// A stored bid after the conversion of the shape with events.
pub open spec fn convert_stored(b: StoredBid) -> StoredBid {
    match b {
        StoredBid::V2(o) => StoredBid::V3(converted_bid(o)),
        StoredBid::V3(o) => StoredBid::V3(o),
    }
}

/// Every stored bid can be read in the shape with events, and its sums fit.
pub open spec fn all_convertible(bids: Seq<StoredBid>) -> bool {
    forall|i: int| 0 <= i < bids.len() ==> (#[trigger] bids[i] matches StoredBid::V2(o) && sums_fit(o))
}

/// The bids after a migration: from version 0.16.2 on (else the error);
/// from 0.16.2 up to 0.18.2 every bid is read in the shape with events and
/// converted (the contract aborts, `None`, when one cannot be read so or its
/// sums overflow); from 0.18.2 on they are left as they are.
pub open spec fn bid_migration_spec(store: ContractStore) -> Option<Result<Seq<StoredBid>, ErrorView>> {
    match version_requirement(store, (0, 16, 2), ">=0.16.2"@) {
        Err(e) => Some(Err(e)),
        Ok(p) => if parts_in_range(p, (0, 16, 2), (0, 18, 2)) {
            if all_convertible(store.bids@) {
                Some(Ok(store.bids@.map_values(|b: StoredBid| convert_stored(b))))
            } else {
                None
            }
        } else {
            Some(Ok(store.bids@))
        },
    }
}

/// A bid with events in the current shape, or `None` when a sum overflows.
fn convert_bid(o: &BidOrderV2) -> (r: Option<BidOrderV3>)
    ensures
        match r {
            Some(b) => sums_fit(*o) && b == converted_bid(*o),
            None => !sums_fit(*o),
        },
{
    let accumulated_base = match o.sum_checked(Part::Base) {
        Some(t) => t,
        None => {
            return None;
        },
    };
    let accumulated_quote = match o.sum_checked(Part::Quote) {
        Some(t) => t,
        None => {
            return None;
        },
    };
    let accumulated_fee = match o.sum_checked(Part::Fee) {
        Some(t) => t,
        None => {
            return None;
        },
    };
    Some(BidOrderV3 {
        base: o.base.clone(),
        accumulated_base,
        accumulated_quote,
        accumulated_fee,
        fee: clone_opt_coin(&o.fee),
        id: o.id.clone(),
        owner: o.owner.clone(),
        price: o.price.clone(),
        quote: o.quote.clone(),
    })
}

/// Migrates the stored bids to the current shape, as the recorded version
/// calls for; the response is handed back as it is. The storage changes
/// only on success.
pub fn migrate_bid_orders(
    store: &mut ContractStore,
    env: &Env,
    msg: &MigrateMsg,
    response: Response,
) -> (r: Option<Result<Response, ContractError>>)
    requires
        old(store).wf(),
    ensures
        match bid_migration_spec(*old(store)) {
            None => r is None && *final(store) == *old(store),
            Some(Err(e)) => (r matches Some(Err(err)) && err@ == e) && *final(store) == *old(store),
            Some(Ok(bids)) => (r matches Some(Ok(resp)) && resp == response) && final(store).bids@ == bids
                && final(store).wf()
                && final(store).asks == old(store).asks
                && final(store).contract_info == old(store).contract_info
                && final(store).version_info == old(store).version_info,
        },
{
    let current_version = match require_recorded_version(store, ">=0.16.2", (0, 16, 2)) {
        Ok(v) => v,
        Err(e) => {
            return Some(Err(e));
        },
    };
    if matches_range(&current_version, (0, 16, 2), (0, 18, 2)) {
        let ghost old_bids = store.bids@;
        let mut converted: Vec<StoredBid> = Vec::new();
        let mut i: usize = 0;
        while i < store.bids.len()
            invariant
                i <= store.bids@.len(),
                store.bids@ == old_bids,
                *store == *old(store),
                parts_in_range(current_version.parts(), (0, 16, 2), (0, 18, 2)),
                version_requirement(*old(store), (0, 16, 2), ">=0.16.2"@) == Ok::<(int, int, int, Seq<char>, Seq<char>), ErrorView>(current_version.parts()),
                converted@ == old_bids.subrange(0, i as int).map_values(|b: StoredBid| convert_stored(b)),
                forall|j: int| 0 <= j < i ==> (#[trigger] old_bids[j] matches StoredBid::V2(o) && sums_fit(o)),
            decreases store.bids@.len() - i,
        {
            let next = match &store.bids[i] {
                StoredBid::V2(o) => convert_bid(o),
                StoredBid::V3(_) => None,
            };
            match next {
                Some(b) => {
                    converted.push(StoredBid::V3(b));
                    assert(old_bids.subrange(0, i as int + 1).map_values(|b: StoredBid| convert_stored(b)) =~= old_bids.subrange(
                        0,
                        i as int,
                    ).map_values(|b: StoredBid| convert_stored(b)).push(convert_stored(old_bids[i as int])));
                },
                None => {
                    assert(!(old_bids[i as int] matches StoredBid::V2(o) && sums_fit(o)));
                    assert(!all_convertible(old_bids));
                    return None;
                },
            }
            i = i + 1;
        }
        proof {
            assert(old_bids.subrange(0, i as int) =~= old_bids);
            assert forall|x: int, y: int| 0 <= x < converted@.len() && 0 <= y < converted@.len() && x != y
                implies stored_bid_id(converted@[x]) != stored_bid_id(converted@[y]) by {
                assert(stored_bid_id(converted@[x]) == stored_bid_id(old_bids[x]));
                assert(stored_bid_id(converted@[y]) == stored_bid_id(old_bids[y]));
            }
        }
        store.bids = converted;
    }
    Some(Ok(response))
}

/// The stored bids, for changing them.
pub fn get_bid_storage(store: &mut ContractStore) -> (r: &mut Vec<StoredBid>)
    ensures
        *r == old(store).bids,
        *final(store) == (ContractStore { bids: *final(r), ..*old(store) }),
{
    &mut store.bids
}

/// The stored bids, for reading them.
pub fn get_bid_storage_read(store: &ContractStore) -> (r: &Vec<StoredBid>)
    ensures
        *r == store.bids,
{
    &store.bids
}

} // verus!

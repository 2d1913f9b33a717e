//! What a match adds to a bid's quote: the fill at the execution price and
//! the refund of the difference to the bid's price come, together, to the
//! bid's price times the size matched.

use crate::bid_order::BidOrderV3;
use crate::decimal::{
    decimal_from_str, lemma_pow10_positive, max_mantissa, parts_eq, parts_integral, parts_lt, pow10,
};
use crate::store::{
    bid_has_id, bid_index, bids_unique, bids_with, bids_without, lemma_bid_removed, lemma_bid_saved, load_bid_spec,
    lookup_bid, StoredBid,
};
use vstd::arithmetic::div_mod::{lemma_div_multiples_vanish, lemma_fundamental_div_mod};
use vstd::prelude::*;

verus! {

/// The total of `size` at the price `bp`: the price times the size, in
/// whole units where it is a whole number.
pub open spec fn bid_price_total(bp: (int, int), size: int) -> int {
    bp.0 * size / pow10(bp.1 as nat)
}

/// The products of the bid price's and of the execution price's
/// mantissas with the size fit in a decimal's 96-bit mantissa, as
/// `Decimal::checked_mul` needs to give them exactly.
pub open spec fn match_totals_fit(bp: (int, int), ep: (int, int), size: int) -> bool {
    &&& -max_mantissa() <= bp.0 * size <= max_mantissa()
    &&& -max_mantissa() <= ep.0 * size <= max_mantissa()
}

/// What a match of `size` at `price` leaves of the bid under `bid_id`:
/// where the products of the prices and the size fit in a decimal, the
/// size at the bid's price is a whole amount, and a bid that is still stored has
/// accumulated the size as base and that amount as quote (the fill at
/// `price` and the refund of the difference to the bid's price together),
/// with its base, quote and price as they were.
pub open spec fn match_accounting(
    before: Seq<StoredBid>,
    after: Seq<StoredBid>,
    bid_id: Seq<char>,
    price: Seq<char>,
    size: int,
) -> bool {
    match load_bid_spec(before, bid_id) {
        Ok(b) => {
            let bp = decimal_from_str(b.price@)->0;
            let ep = decimal_from_str(price)->0;
            match_totals_fit(bp, ep, size) ==> {
                &&& (bp.0 * size) % pow10(bp.1 as nat) == 0
                &&& (lookup_bid(after, bid_id) matches Some(StoredBid::V3(nb)) ==> {
                    &&& nb.base == b.base
                    &&& nb.quote == b.quote
                    &&& nb.price == b.price
                    &&& nb.accumulated_base == b.accumulated_base + size
                    &&& nb.accumulated_quote == b.accumulated_quote + bid_price_total(bp, size)
                })
            }
        },
        Err(_) => true,
    }
}

/// Storing the bid a match leaves, or removing the bid, keeps what the
/// match did to the bid's amounts readable under its id.
pub proof fn lemma_accounting_stored(
    before: Seq<StoredBid>,
    after: Seq<StoredBid>,
    bid_id: Seq<char>,
    price: Seq<char>,
    size: int,
    b: BidOrderV3,
    nb: BidOrderV3,
)
    requires
        bids_unique(before),
        load_bid_spec(before, bid_id) == Ok::<BidOrderV3, crate::error::StdErrorView>(b),
        nb.id == b.id,
        nb.base == b.base,
        nb.quote == b.quote,
        nb.price == b.price,
        after == bids_with(before, nb) || after == bids_without(before, bid_id),
        ({
            let bp = decimal_from_str(b.price@)->0;
            let ep = decimal_from_str(price)->0;
            match_totals_fit(bp, ep, size) ==> {
                &&& (bp.0 * size) % pow10(bp.1 as nat) == 0
                &&& nb.accumulated_base == b.accumulated_base + size
                &&& nb.accumulated_quote == b.accumulated_quote + bid_price_total(bp, size)
            }
        }),
    ensures
        match_accounting(before, after, bid_id, price, size),
{
    let i = bid_index(before, bid_id);
    assert(bid_has_id(before, i, bid_id));
    assert(b.id@ == bid_id);
    if after == bids_with(before, nb) {
        lemma_bid_saved(before, nb);
    } else {
        lemma_bid_removed(before, bid_id);
    }
}

/// Prices equal in value to a price below a third are below it too.
pub proof fn lemma_eq_lt(e: (int, int), a: (int, int), b: (int, int))
    requires
        scale_ok(e),
        scale_ok(a),
        scale_ok(b),
        parts_eq(e, a),
        parts_lt(a, b),
    ensures
        parts_lt(e, b),
{
    lemma_pow10_positive(a.1 as nat);
    lemma_pow10_positive(e.1 as nat);
    let pe = pow10(e.1 as nat);
    let pa = pow10(a.1 as nat);
    let pb = pow10(b.1 as nat);
    assert((e.0 * pb) * pa == (a.0 * pb) * pe) by (nonlinear_arith)
        requires
            e.0 * pa == a.0 * pe,
    ;
    assert((a.0 * pb) * pe < (b.0 * pa) * pe) by (nonlinear_arith)
        requires
            a.0 * pb < b.0 * pa,
            pe >= 1,
    ;
    assert(e.0 * pb < b.0 * pe) by (nonlinear_arith)
        requires
            (e.0 * pb) * pa < (b.0 * pa) * pe,
            pa >= 1,
    ;
}

/// Equality of value carries over from price to price.
pub proof fn lemma_eq_eq(e: (int, int), a: (int, int), b: (int, int))
    requires
        scale_ok(e),
        scale_ok(a),
        scale_ok(b),
        parts_eq(e, a),
        parts_eq(a, b),
    ensures
        parts_eq(e, b),
{
    lemma_pow10_positive(a.1 as nat);
    let pe = pow10(e.1 as nat);
    let pa = pow10(a.1 as nat);
    let pb = pow10(b.1 as nat);
    assert(e.0 * pb == b.0 * pe) by (nonlinear_arith)
        requires
            e.0 * pa == a.0 * pe,
            a.0 * pb == b.0 * pa,
            pa >= 1,
    {
        assert((e.0 * pb) * pa == (a.0 * pe) * pb);
        assert((a.0 * pe) * pb == (b.0 * pa) * pe);
        assert((e.0 * pb - b.0 * pe) * pa == 0);
    }
}

/// A decimal times a whole number as `Decimal::checked_mul` gives it where
/// the product fits: zero at scale 0 when either is zero, else the product
/// of the mantissas at the decimal's scale.
pub open spec fn times_whole(a: (int, int), n: int) -> (int, int) {
    if a.0 == 0 || n == 0 {
        (0, 0)
    } else {
        (a.0 * n, a.1)
    }
}

/// A scale of a decimal (at most 28).
pub open spec fn scale_ok(a: (int, int)) -> bool {
    0 <= a.1 <= 28
}

/// A match at the bid's price: the whole gross
/// proceeds at the execution price are the bid price total.
pub proof fn lemma_gross_at_bid_price(bp: (int, int), ep: (int, int), size: int, g: (int, int), gross: int)
    requires
        scale_ok(bp),
        scale_ok(ep),
        parts_eq(ep, bp),
        g == times_whole(ep, size),
        parts_integral(g),
        gross == g.0 / pow10(g.1 as nat),
    ensures
        (bp.0 * size) % pow10(bp.1 as nat) == 0,
        gross == bid_price_total(bp, size),
{
    let p = pow10(ep.1 as nat);
    let q = pow10(bp.1 as nat);
    lemma_pow10_positive(ep.1 as nat);
    lemma_pow10_positive(bp.1 as nat);
    if ep.0 == 0 || size == 0 {
        assert(gross == 0);
        if size != 0 {
            assert(bp.0 * p == 0);
            assert(bp.0 == 0) by (nonlinear_arith)
                requires
                    bp.0 * p == 0,
                    p >= 1,
            ;
        }
        assert(bp.0 * size == 0) by (nonlinear_arith)
            requires
                bp.0 == 0 || size == 0,
        ;
        assert(0int % q == 0 && 0int / q == 0) by (nonlinear_arith)
            requires
                q >= 1,
        ;
    } else {
        lemma_fundamental_div_mod(g.0, p);
        assert(ep.0 * size == p * gross);
        let b = bp.0;
        let e = ep.0;
        assert(b * size == gross * q) by (nonlinear_arith)
            requires
                e * size == p * gross,
                e * q == b * p,
                p >= 1,
        {
            assert((b * size - gross * q) * p == (b * p) * size - (gross * p) * q);
            assert((b * p) * size == (e * q) * size);
            assert((e * q) * size == (e * size) * q);
        }
        lemma_div_multiples_vanish(gross, q);
        assert((gross * q) % q == 0) by (nonlinear_arith)
            requires
                q >= 1,
        ;
        assert(q * gross == gross * q);
    }
}

/// A match below the bid's price: where the products fit, the whole gross
/// proceeds at the execution price and the refund of the difference to
/// the total at the bid's price come to the bid price total.
pub proof fn lemma_refund_makes_up_bid_total(
    bp: (int, int),
    ep: (int, int),
    size: int,
    og: (int, int),
    g: (int, int),
    d: (int, int),
    gross: int,
    refund: int,
)
    requires
        0 <= d.1,
        og == times_whole(bp, size),
        g == times_whole(ep, size),
        parts_integral(og),
        gross == g.0 / pow10(g.1 as nat),
        refund == d.0 / pow10(d.1 as nat),
        d.0 == (og.0 / pow10(og.1 as nat) - gross) * pow10(d.1 as nat),
    ensures
        (bp.0 * size) % pow10(bp.1 as nat) == 0,
        gross + refund == bid_price_total(bp, size),
{
    let ogross = og.0 / pow10(og.1 as nat);
    let pd = pow10(d.1 as nat);
    lemma_pow10_positive(d.1 as nat);
    lemma_div_multiples_vanish(ogross - gross, pd);
    assert(pd * (ogross - gross) == (ogross - gross) * pd) by (nonlinear_arith);
    assert(refund == ogross - gross);
    lemma_pow10_positive(bp.1 as nat);
    if bp.0 == 0 || size == 0 {
        assert(bp.0 * size == 0) by (nonlinear_arith)
            requires
                bp.0 == 0 || size == 0,
        ;
        assert(ogross == 0);
        let q = pow10(bp.1 as nat);
        assert(0int % q == 0 && 0int / q == 0) by (nonlinear_arith)
            requires
                q >= 1,
        ;
    }
}

} // verus!

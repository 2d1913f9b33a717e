//! The contract's storage as values: the contract settings, the recorded
//! version, and the ask and bid orders by id; with the answers of the chain
//! that the contract reads (address checks, restricted markers, account
//! attributes).

use crate::ask_order::AskOrderV1;
use crate::bid_order::{BidOrderV2, BidOrderV3};
use crate::common::{has_text, views};
use crate::contract_info::{ContractInfo, ContractInfoV1, ContractInfoV2, ContractInfoV3};
use crate::error::{StdError, StdErrorView};
use crate::version_info::VersionInfoV1;
use vstd::prelude::*;
use vstd::string::{StrSliceExecFns, StringExecFns};
use vstd::utf8::encode_utf8;

verus! {

/// The contract settings as last written, in the shape of the version that
/// wrote them.
#[derive(Clone, Debug, PartialEq, Eq)]
pub enum StoredContractInfo {
    Legacy(ContractInfo),
    V1(ContractInfoV1),
    V2(ContractInfoV2),
    V3(ContractInfoV3),
}

/// A bid as last written, in the shape of the version that wrote it.
#[derive(Clone, Debug, PartialEq, Eq)]
pub enum StoredBid {
    V2(BidOrderV2),
    V3(BidOrderV3),
}

/// The id of a stored bid.
pub open spec fn stored_bid_id(b: StoredBid) -> Seq<char> {
    match b {
        StoredBid::V2(o) => o.id@,
        StoredBid::V3(o) => o.id@,
    }
}

/// The contract's storage.
#[derive(Clone, Debug, PartialEq, Eq)]
pub struct ContractStore {
    pub contract_info: Option<StoredContractInfo>,
    pub version_info: Option<VersionInfoV1>,
    pub asks: Vec<AskOrderV1>,
    pub bids: Vec<StoredBid>,
}

/// Ask `i` has the id `id`.
pub open spec fn ask_has_id(asks: Seq<AskOrderV1>, i: int, id: Seq<char>) -> bool {
    0 <= i < asks.len() && asks[i].id@ == id
}

/// Bid `i` has the id `id`.
pub open spec fn bid_has_id(bids: Seq<StoredBid>, i: int, id: Seq<char>) -> bool {
    0 <= i < bids.len() && stored_bid_id(bids[i]) == id
}

/// The position of the ask with the id, or -1.
pub open spec fn ask_index(asks: Seq<AskOrderV1>, id: Seq<char>) -> int {
    if exists|i: int| ask_has_id(asks, i, id) {
        choose|i: int| ask_has_id(asks, i, id)
    } else {
        -1
    }
}

/// The position of the bid with the id, or -1.
pub open spec fn bid_index(bids: Seq<StoredBid>, id: Seq<char>) -> int {
    if exists|i: int| bid_has_id(bids, i, id) {
        choose|i: int| bid_has_id(bids, i, id)
    } else {
        -1
    }
}

/// The ask stored under the id.
pub open spec fn lookup_ask(asks: Seq<AskOrderV1>, id: Seq<char>) -> Option<AskOrderV1> {
    let i = ask_index(asks, id);
    if i >= 0 { Some(asks[i]) } else { None }
}

/// The bid stored under the id.
pub open spec fn lookup_bid(bids: Seq<StoredBid>, id: Seq<char>) -> Option<StoredBid> {
    let i = bid_index(bids, id);
    if i >= 0 { Some(bids[i]) } else { None }
}

/// The asks after storing `a` under its id.
pub open spec fn asks_with(asks: Seq<AskOrderV1>, a: AskOrderV1) -> Seq<AskOrderV1> {
    let i = ask_index(asks, a.id@);
    if i >= 0 { asks.update(i, a) } else { asks.push(a) }
}

/// The asks after removing the one under the id.
pub open spec fn asks_without(asks: Seq<AskOrderV1>, id: Seq<char>) -> Seq<AskOrderV1> {
    let i = ask_index(asks, id);
    if i >= 0 { asks.remove(i) } else { asks }
}

/// The bids after storing `b` under its id.
pub open spec fn bids_with(bids: Seq<StoredBid>, b: BidOrderV3) -> Seq<StoredBid> {
    let i = bid_index(bids, b.id@);
    if i >= 0 { bids.update(i, StoredBid::V3(b)) } else { bids.push(StoredBid::V3(b)) }
}

/// The bids after removing the one under the id.
pub open spec fn bids_without(bids: Seq<StoredBid>, id: Seq<char>) -> Seq<StoredBid> {
    let i = bid_index(bids, id);
    if i >= 0 { bids.remove(i) } else { bids }
}

/// No two asks share an id.
pub open spec fn asks_unique(asks: Seq<AskOrderV1>) -> bool {
    forall|i: int, j: int| 0 <= i < asks.len() && 0 <= j < asks.len() && i != j ==> asks[i].id@ != asks[j].id@
}

/// No two bids share an id.
pub open spec fn bids_unique(bids: Seq<StoredBid>) -> bool {
    forall|i: int, j: int| 0 <= i < bids.len() && 0 <= j < bids.len() && i != j ==> stored_bid_id(bids[i]) != stored_bid_id(bids[j])
}

/// The hexadecimal digits, upper case.
pub open spec fn hex_digits() -> Seq<char> {
    "0123456789ABCDEF"@
}

/// A byte as two upper-case hexadecimal digits.
pub open spec fn byte_hex(b: u8) -> Seq<char> {
    seq![hex_digits()[b as int / 16], hex_digits()[b as int % 16]]
}

/// Each byte as ", " and its two hexadecimal digits.
pub open spec fn hex_tail(bytes: Seq<u8>) -> Seq<char>
    decreases bytes.len(),
{
    if bytes.len() == 0 {
        Seq::empty()
    } else {
        hex_tail(bytes.drop_last()) + ", "@ + byte_hex(bytes.last())
    }
}

/// What a missing order is reported as: the start (its type and its
/// length-prefixed namespace), then the UTF-8 bytes of the id, in
/// hexadecimal.
pub open spec fn missing_kind(start: Seq<char>, id: Seq<char>) -> Seq<char> {
    start + hex_tail(encode_utf8(id)) + "]"@
}

/// The start of what a missing ask is reported as: its type, and the
/// length-prefixed namespace "ask".
pub open spec fn ask_kind_start() -> Seq<char> {
    "type: ats_smart_contract::ask_order::AskOrderV1; key: [00, 03, 61, 73, 6B"@
}

/// The start of what a missing bid is reported as: its type, and the
/// length-prefixed namespace "bid".
pub open spec fn bid_kind_start() -> Seq<char> {
    "type: ats_smart_contract::bid_order::BidOrderV3; key: [00, 03, 62, 69, 64"@
}

/// What a missing ask under the id is reported as.
pub open spec fn ask_kind(id: Seq<char>) -> Seq<char> {
    missing_kind(ask_kind_start(), id)
}

/// What a missing bid under the id is reported as.
pub open spec fn missing_bid_kind(id: Seq<char>) -> Seq<char> {
    missing_kind(bid_kind_start(), id)
}

/// What a missing order under the id is reported as, after `start`.
fn missing_order_kind(start: &str, id: &String) -> (r: String)
    ensures
        r@ == missing_kind(start@, id@),
{
    let bytes = id.as_str().as_bytes();
    let digits = "0123456789ABCDEF";
    proof {
        reveal_strlit("0123456789ABCDEF");
    }
    let mut text = start.to_owned();
    let mut i: usize = 0;
    while i < bytes.len()
        invariant
            i <= bytes@.len(),
            bytes@ == encode_utf8(id@),
            digits@ == hex_digits(),
            digits@.len() == 16,
            text@ == start@ + hex_tail(bytes@.subrange(0, i as int)),
        decreases bytes@.len() - i,
    {
        let b = bytes[i];
        let high = (b / 16) as usize;
        let low = (b % 16) as usize;
        text.append(", ");
        text.append(digits.substring_char(high, high + 1));
        text.append(digits.substring_char(low, low + 1));
        proof {
            let done = bytes@.subrange(0, i as int + 1);
            assert(done.drop_last() =~= bytes@.subrange(0, i as int));
            assert(done.last() == b);
            assert(digits@.subrange(high as int, high as int + 1) =~= seq![hex_digits()[b as int / 16]]);
            assert(digits@.subrange(low as int, low as int + 1) =~= seq![hex_digits()[b as int % 16]]);
            assert(text@ =~= start@ + hex_tail(done));
        }
        i = i + 1;
    }
    text.append("]");
    assert(bytes@.subrange(0, i as int) =~= bytes@);
    text
}

/// The type name under which a bid is looked for.
pub open spec fn bid_kind() -> Seq<char> {
    "ats_smart_contract::bid_order::BidOrderV3"@
}

/// Loading the ask stored under the id.
pub open spec fn load_ask_spec(asks: Seq<AskOrderV1>, id: Seq<char>) -> Result<AskOrderV1, StdErrorView> {
    match lookup_ask(asks, id) {
        Some(a) => Ok(a),
        None => Err(StdErrorView::NotFound { kind: ask_kind(id) }),
    }
}

/// Loading the bid stored under the id, in the current shape: a bid still
/// in the shape with events is not readable as one.
pub open spec fn load_bid_spec(bids: Seq<StoredBid>, id: Seq<char>) -> Result<BidOrderV3, StdErrorView> {
    match lookup_bid(bids, id) {
        Some(StoredBid::V3(b)) => Ok(b),
        Some(StoredBid::V2(_)) => Err(StdErrorView::ParseErr { target_type: bid_kind() }),
        None => Err(StdErrorView::NotFound { kind: missing_bid_kind(id) }),
    }
}

/// An ask stored under its id is found there afterwards, the asks stay
/// keyed by id, and every other id finds what it found before.
pub proof fn lemma_ask_saved(asks: Seq<AskOrderV1>, a: AskOrderV1)
    requires
        asks_unique(asks),
    ensures
        asks_unique(asks_with(asks, a)),
        lookup_ask(asks_with(asks, a), a.id@) == Some(a),
        forall|id: Seq<char>| id != a.id@ ==> lookup_ask(asks_with(asks, a), id) == lookup_ask(asks, id),
{
    let i = ask_index(asks, a.id@);
    let after = asks_with(asks, a);
    if i >= 0 {
        assert(ask_has_id(asks, i, a.id@));
    } else {
        assert forall|k: int| 0 <= k < asks.len() implies asks[k].id@ != a.id@ by {
            if asks[k].id@ == a.id@ {
                assert(ask_has_id(asks, k, a.id@));
            }
        }
    }
    let j = if i >= 0 { i } else { asks.len() as int };
    assert(ask_has_id(after, j, a.id@));
    assert forall|x: int, y: int| 0 <= x < after.len() && 0 <= y < after.len() && x != y implies after[x].id@ != after[y].id@ by {
        if x != j && y != j {
            assert(after[x] == asks[x] && after[y] == asks[y]);
        } else if x == j {
            assert(after[y] == asks[y]);
            assert(!ask_has_id(asks, y, a.id@) || y == i);
        } else {
            assert(after[x] == asks[x]);
            assert(!ask_has_id(asks, x, a.id@) || x == i);
        }
    }
    assert(ask_index(after, a.id@) == j) by {
        let c = choose|c: int| ask_has_id(after, c, a.id@);
        if c != j {
            assert(after[c].id@ != after[j].id@);
        }
    }
    assert forall|id: Seq<char>| id != a.id@ implies lookup_ask(after, id) == lookup_ask(asks, id) by {
        assert forall|k: int| 0 <= k < after.len() && k != j implies after[k] == asks[k] by {}
        if exists|k: int| ask_has_id(asks, k, id) {
            let k = choose|k: int| ask_has_id(asks, k, id);
            assert(k != j);
            assert(ask_has_id(after, k, id));
            let c = choose|c: int| ask_has_id(after, c, id);
            assert(c != j);
            assert(after[c] == asks[c]);
            assert(ask_has_id(asks, c, id));
            if c != k {
                assert(asks[c].id@ != asks[k].id@);
            }
        } else {
            if exists|c: int| ask_has_id(after, c, id) {
                let c = choose|c: int| ask_has_id(after, c, id);
                assert(c != j);
                assert(ask_has_id(asks, c, id));
            }
        }
    }
}

/// Once the ask under an id is removed, nothing is found under it, the
/// asks stay keyed by id, and every other id finds what it found before.
pub proof fn lemma_ask_removed(asks: Seq<AskOrderV1>, id: Seq<char>)
    requires
        asks_unique(asks),
    ensures
        asks_unique(asks_without(asks, id)),
        lookup_ask(asks_without(asks, id), id) is None,
        forall|other: Seq<char>| other != id ==> lookup_ask(asks_without(asks, id), other) == lookup_ask(asks, other),
{
    let i = ask_index(asks, id);
    let after = asks_without(asks, id);
    if i >= 0 {
        assert(ask_has_id(asks, i, id));
        assert forall|x: int| 0 <= x < after.len() implies after[x] == asks[if x < i { x } else { x + 1 }] by {}
        assert forall|x: int, y: int| 0 <= x < after.len() && 0 <= y < after.len() && x != y implies after[x].id@ != after[y].id@ by {
            let xx = if x < i { x } else { x + 1 };
            let yy = if y < i { y } else { y + 1 };
            assert(after[x] == asks[xx] && after[y] == asks[yy]);
        }
        if exists|c: int| ask_has_id(after, c, id) {
            let c = choose|c: int| ask_has_id(after, c, id);
            let cc = if c < i { c } else { c + 1 };
            assert(after[c] == asks[cc]);
            assert(asks[cc].id@ == asks[i].id@);
        }
        assert forall|other: Seq<char>| other != id implies lookup_ask(after, other) == lookup_ask(asks, other) by {
            if exists|k: int| ask_has_id(asks, k, other) {
                let k = choose|k: int| ask_has_id(asks, k, other);
                assert(k != i);
                let kk = if k < i { k } else { k - 1 };
                assert(after[kk] == asks[k]);
                assert(ask_has_id(after, kk, other));
                let c = choose|c: int| ask_has_id(after, c, other);
                let cc = if c < i { c } else { c + 1 };
                assert(after[c] == asks[cc]);
                if cc != k {
                    assert(asks[cc].id@ != asks[k].id@);
                }
            } else {
                if exists|c: int| ask_has_id(after, c, other) {
                    let c = choose|c: int| ask_has_id(after, c, other);
                    let cc = if c < i { c } else { c + 1 };
                    assert(after[c] == asks[cc]);
                    assert(ask_has_id(asks, cc, other));
                }
            }
        }
    } else {
        assert(!exists|c: int| ask_has_id(asks, c, id));
    }
}

/// A bid stored under its id is found there afterwards, the bids stay
/// keyed by id, and every other id finds what it found before.
pub proof fn lemma_bid_saved(bids: Seq<StoredBid>, a: BidOrderV3)
    requires
        bids_unique(bids),
    ensures
        bids_unique(bids_with(bids, a)),
        lookup_bid(bids_with(bids, a), a.id@) == Some(StoredBid::V3(a)),
        forall|id: Seq<char>| id != a.id@ ==> lookup_bid(bids_with(bids, a), id) == lookup_bid(bids, id),
{
    let i = bid_index(bids, a.id@);
    let after = bids_with(bids, a);
    if i >= 0 {
        assert(bid_has_id(bids, i, a.id@));
    } else {
        assert forall|k: int| 0 <= k < bids.len() implies stored_bid_id(bids[k]) != a.id@ by {
            if stored_bid_id(bids[k]) == a.id@ {
                assert(bid_has_id(bids, k, a.id@));
            }
        }
    }
    let j = if i >= 0 { i } else { bids.len() as int };
    assert(bid_has_id(after, j, a.id@));
    assert forall|x: int, y: int| 0 <= x < after.len() && 0 <= y < after.len() && x != y implies stored_bid_id(after[x]) != stored_bid_id(after[y]) by {
        if x != j && y != j {
            assert(after[x] == bids[x] && after[y] == bids[y]);
        } else if x == j {
            assert(after[y] == bids[y]);
            assert(!bid_has_id(bids, y, a.id@) || y == i);
        } else {
            assert(after[x] == bids[x]);
            assert(!bid_has_id(bids, x, a.id@) || x == i);
        }
    }
    assert(bid_index(after, a.id@) == j) by {
        let c = choose|c: int| bid_has_id(after, c, a.id@);
        if c != j {
            assert(stored_bid_id(after[c]) != stored_bid_id(after[j]));
        }
    }
    assert forall|id: Seq<char>| id != a.id@ implies lookup_bid(after, id) == lookup_bid(bids, id) by {
        assert forall|k: int| 0 <= k < after.len() && k != j implies after[k] == bids[k] by {}
        if exists|k: int| bid_has_id(bids, k, id) {
            let k = choose|k: int| bid_has_id(bids, k, id);
            assert(k != j);
            assert(bid_has_id(after, k, id));
            let c = choose|c: int| bid_has_id(after, c, id);
            assert(c != j);
            assert(after[c] == bids[c]);
            assert(bid_has_id(bids, c, id));
            if c != k {
                assert(stored_bid_id(bids[c]) != stored_bid_id(bids[k]));
            }
        } else {
            if exists|c: int| bid_has_id(after, c, id) {
                let c = choose|c: int| bid_has_id(after, c, id);
                assert(c != j);
                assert(bid_has_id(bids, c, id));
            }
        }
    }
}

/// Once the bid under an id is removed, nothing is found under it, the
/// bids stay keyed by id, and every other id finds what it found before.
pub proof fn lemma_bid_removed(bids: Seq<StoredBid>, id: Seq<char>)
    requires
        bids_unique(bids),
    ensures
        bids_unique(bids_without(bids, id)),
        lookup_bid(bids_without(bids, id), id) is None,
        forall|other: Seq<char>| other != id ==> lookup_bid(bids_without(bids, id), other) == lookup_bid(bids, other),
{
    let i = bid_index(bids, id);
    let after = bids_without(bids, id);
    if i >= 0 {
        assert(bid_has_id(bids, i, id));
        assert forall|x: int| 0 <= x < after.len() implies after[x] == bids[if x < i { x } else { x + 1 }] by {}
        assert forall|x: int, y: int| 0 <= x < after.len() && 0 <= y < after.len() && x != y implies stored_bid_id(after[x]) != stored_bid_id(after[y]) by {
            let xx = if x < i { x } else { x + 1 };
            let yy = if y < i { y } else { y + 1 };
            assert(after[x] == bids[xx] && after[y] == bids[yy]);
        }
        if exists|c: int| bid_has_id(after, c, id) {
            let c = choose|c: int| bid_has_id(after, c, id);
            let cc = if c < i { c } else { c + 1 };
            assert(after[c] == bids[cc]);
            assert(stored_bid_id(bids[cc]) == stored_bid_id(bids[i]));
        }
        assert forall|other: Seq<char>| other != id implies lookup_bid(after, other) == lookup_bid(bids, other) by {
            if exists|k: int| bid_has_id(bids, k, other) {
                let k = choose|k: int| bid_has_id(bids, k, other);
                assert(k != i);
                let kk = if k < i { k } else { k - 1 };
                assert(after[kk] == bids[k]);
                assert(bid_has_id(after, kk, other));
                let c = choose|c: int| bid_has_id(after, c, other);
                let cc = if c < i { c } else { c + 1 };
                assert(after[c] == bids[cc]);
                if cc != k {
                    assert(stored_bid_id(bids[cc]) != stored_bid_id(bids[k]));
                }
            } else {
                if exists|c: int| bid_has_id(after, c, other) {
                    let c = choose|c: int| bid_has_id(after, c, other);
                    let cc = if c < i { c } else { c + 1 };
                    assert(after[c] == bids[cc]);
                    assert(bid_has_id(bids, cc, other));
                }
            }
        }
    } else {
        assert(!exists|c: int| bid_has_id(bids, c, id));
    }
}

impl ContractStore {
    /// Loads the ask stored under the id.
    pub fn load_ask(&self, id: &String) -> (r: Result<AskOrderV1, StdError>)
        requires
            self.wf(),
        ensures
            match load_ask_spec(self.asks@, id@) {
                Ok(a) => r == Ok::<AskOrderV1, StdError>(a),
                Err(e) => r matches Err(err) && err@ == e,
            },
    {
        match self.find_ask(id) {
            Some(i) => Ok(self.asks[i].clone()),
            None => Err(StdError::NotFound {
                kind: missing_order_kind("type: ats_smart_contract::ask_order::AskOrderV1; key: [00, 03, 61, 73, 6B", id),
            }),
        }
    }

    /// Loads the bid stored under the id, in the current shape.
    pub fn load_bid(&self, id: &String) -> (r: Result<BidOrderV3, StdError>)
        requires
            self.wf(),
        ensures
            match load_bid_spec(self.bids@, id@) {
                Ok(b) => r == Ok::<BidOrderV3, StdError>(b),
                Err(e) => r matches Err(err) && err@ == e,
            },
    {
        match self.find_bid(id) {
            Some(i) => match &self.bids[i] {
                StoredBid::V3(b) => Ok(b.clone()),
                StoredBid::V2(_) => Err(StdError::ParseErr { target_type: "ats_smart_contract::bid_order::BidOrderV3".to_owned() }),
            },
            None => Err(StdError::NotFound {
                kind: missing_order_kind("type: ats_smart_contract::bid_order::BidOrderV3; key: [00, 03, 62, 69, 64", id),
            }),
        }
    }

    /// Orders are stored by id: no two asks and no two bids share an id.
    pub open spec fn wf(self) -> bool {
        asks_unique(self.asks@) && bids_unique(self.bids@)
    }

    /// An empty storage.
    pub fn new() -> (r: ContractStore)
        ensures
            r.contract_info is None,
            r.version_info is None,
            r.asks@.len() == 0,
            r.bids@.len() == 0,
            r.wf(),
    {
        ContractStore { contract_info: None, version_info: None, asks: Vec::new(), bids: Vec::new() }
    }

    /// The position of the ask with the id.
    pub fn find_ask(&self, id: &String) -> (r: Option<usize>)
        requires
            self.wf(),
        ensures
            match r {
                Some(i) => i as int == ask_index(self.asks@, id@) && ask_has_id(self.asks@, i as int, id@),
                None => ask_index(self.asks@, id@) == -1,
            },
    {
        let mut i: usize = 0;
        while i < self.asks.len()
            invariant
                i <= self.asks@.len(),
                self.wf(),
                forall|j: int| 0 <= j < i ==> self.asks@[j].id@ != id@,
            decreases self.asks@.len() - i,
        {
            if self.asks[i].id == *id {
                assert(ask_has_id(self.asks@, i as int, id@));
                proof {
                    let j = choose|j: int| ask_has_id(self.asks@, j, id@);
                    if j != i {
                        assert(self.asks@[j].id@ != self.asks@[i as int].id@);
                    }
                }
                return Some(i);
            }
            i = i + 1;
        }
        None
    }

    /// The position of the bid with the id.
    pub fn find_bid(&self, id: &String) -> (r: Option<usize>)
        requires
            self.wf(),
        ensures
            match r {
                Some(i) => i as int == bid_index(self.bids@, id@) && bid_has_id(self.bids@, i as int, id@),
                None => bid_index(self.bids@, id@) == -1,
            },
    {
        let mut i: usize = 0;
        while i < self.bids.len()
            invariant
                i <= self.bids@.len(),
                self.wf(),
                forall|j: int| 0 <= j < i ==> stored_bid_id(self.bids@[j]) != id@,
            decreases self.bids@.len() - i,
        {
            let same = match &self.bids[i] {
                StoredBid::V2(o) => o.id == *id,
                StoredBid::V3(o) => o.id == *id,
            };
            if same {
                assert(bid_has_id(self.bids@, i as int, id@));
                proof {
                    let j = choose|j: int| bid_has_id(self.bids@, j, id@);
                    if j != i {
                        assert(stored_bid_id(self.bids@[j]) != stored_bid_id(self.bids@[i as int]));
                    }
                }
                return Some(i);
            }
            i = i + 1;
        }
        None
    }

    /// Stores an ask under its id, replacing the one stored there.
    pub fn save_ask(&mut self, ask: AskOrderV1)
        requires
            old(self).wf(),
        ensures
            final(self).wf(),
            final(self).asks@ == asks_with(old(self).asks@, ask),
            final(self).bids == old(self).bids,
            final(self).contract_info == old(self).contract_info,
            final(self).version_info == old(self).version_info,
    {
        let ghost a = ask;
        match self.find_ask(&ask.id) {
            Some(i) => {
                self.asks.set(i, ask);
            },
            None => {
                self.asks.push(ask);
                proof {
                    assert forall|k: int| 0 <= k < old(self).asks@.len() implies self.asks@[k].id@ != a.id@ by {
                        if self.asks@[k].id@ == a.id@ {
                            assert(ask_has_id(old(self).asks@, k, a.id@));
                        }
                    }
                }
            },
        }
    }

    /// Removes the ask stored under the id.
    pub fn remove_ask(&mut self, id: &String)
        requires
            old(self).wf(),
        ensures
            final(self).wf(),
            final(self).asks@ == asks_without(old(self).asks@, id@),
            final(self).bids == old(self).bids,
            final(self).contract_info == old(self).contract_info,
            final(self).version_info == old(self).version_info,
    {
        match self.find_ask(id) {
            Some(i) => {
                let ghost before = self.asks@;
                self.asks.remove(i);
                proof {
                    assert forall|x: int, y: int| 0 <= x < self.asks@.len() && 0 <= y < self.asks@.len() && x != y
                        implies self.asks@[x].id@ != self.asks@[y].id@ by {
                        let xx = if x < i { x } else { x + 1 };
                        let yy = if y < i { y } else { y + 1 };
                        assert(self.asks@[x] == before[xx]);
                        assert(self.asks@[y] == before[yy]);
                    }
                }
            },
            None => {},
        }
    }

    /// Stores a bid under its id, replacing the one stored there.
    pub fn save_bid(&mut self, bid: BidOrderV3)
        requires
            old(self).wf(),
        ensures
            final(self).wf(),
            final(self).bids@ == bids_with(old(self).bids@, bid),
            final(self).asks == old(self).asks,
            final(self).contract_info == old(self).contract_info,
            final(self).version_info == old(self).version_info,
    {
        let ghost b = bid;
        match self.find_bid(&bid.id) {
            Some(i) => {
                self.bids.set(i, StoredBid::V3(bid));
            },
            None => {
                self.bids.push(StoredBid::V3(bid));
                proof {
                    assert forall|k: int| 0 <= k < old(self).bids@.len() implies stored_bid_id(self.bids@[k]) != b.id@ by {
                        if stored_bid_id(self.bids@[k]) == b.id@ {
                            assert(bid_has_id(old(self).bids@, k, b.id@));
                        }
                    }
                }
            },
        }
    }

    /// Removes the bid stored under the id.
    pub fn remove_bid(&mut self, id: &String)
        requires
            old(self).wf(),
        ensures
            final(self).wf(),
            final(self).bids@ == bids_without(old(self).bids@, id@),
            final(self).asks == old(self).asks,
            final(self).contract_info == old(self).contract_info,
            final(self).version_info == old(self).version_info,
    {
        match self.find_bid(id) {
            Some(i) => {
                let ghost before = self.bids@;
                self.bids.remove(i);
                proof {
                    assert forall|x: int, y: int| 0 <= x < self.bids@.len() && 0 <= y < self.bids@.len() && x != y
                        implies stored_bid_id(self.bids@[x]) != stored_bid_id(self.bids@[y]) by {
                        let xx = if x < i { x } else { x + 1 };
                        let yy = if y < i { y } else { y + 1 };
                        assert(self.bids@[x] == before[xx]);
                        assert(self.bids@[y] == before[yy]);
                    }
                }
            },
            None => {},
        }
    }
}

/// The chain's verdict on addresses: those it refuses.
#[derive(Clone, Debug, PartialEq, Eq)]
pub struct Api {
    pub invalid_addresses: Vec<String>,
}

impl Api {
    /// The chain accepts the address.
    pub open spec fn accepts(self, address: Seq<char>) -> bool {
        !has_text(self.invalid_addresses@, address)
    }

    /// Checks an address: the address itself when the chain accepts it.
    pub fn addr_validate(&self, address: &String) -> (r: Result<String, StdError>)
        ensures
            self.accepts(address@) ==> r == Ok::<String, StdError>(*address),
            !self.accepts(address@) ==> r == Err::<String, StdError>(StdError::InvalidAddress { address: *address }),
    {
        if crate::common::contains_string(&self.invalid_addresses, address) {
            Err(StdError::InvalidAddress { address: address.clone() })
        } else {
            Ok(address.clone())
        }
    }
}

/// An account's attribute names.
#[derive(Clone, Debug, PartialEq, Eq)]
pub struct AccountAttributes {
    pub address: String,
    pub names: Vec<String>,
}

/// The chain's answers that the contract reads: the denominations that are
/// restricted markers, and the attribute names of accounts.
#[derive(Clone, Debug, PartialEq, Eq)]
pub struct Querier {
    pub restricted_markers: Vec<String>,
    pub attributes: Vec<AccountAttributes>,
}

/// The attribute names that a list of accounts gives the address: those of
/// the first entry for it, none when there is none.
pub open spec fn attributes_of(list: Seq<AccountAttributes>, address: Seq<char>) -> Seq<String>
    decreases list.len(),
{
    if list.len() == 0 {
        Seq::empty()
    } else if list[0].address@ == address {
        list[0].names@
    } else {
        attributes_of(list.drop_first(), address)
    }
}

impl Querier {
    /// The denomination is a restricted marker.
    pub open spec fn is_restricted(self, denom: Seq<char>) -> bool {
        has_text(self.restricted_markers@, denom)
    }

    /// The account holds every attribute of the list.
    pub open spec fn holds_all(self, address: Seq<char>, required: Seq<Seq<char>>) -> bool {
        forall|i: int| 0 <= i < required.len() ==> has_text(attributes_of(self.attributes@, address), #[trigger] required[i])
    }

    /// The denomination is a restricted marker.
    pub fn is_restricted_marker(&self, denom: &String) -> (r: bool)
        ensures
            r == self.is_restricted(denom@),
    {
        crate::common::contains_string(&self.restricted_markers, denom)
    }

    /// The entry for the address that gives it its attribute names.
    pub fn find_account(&self, address: &String) -> (r: Option<usize>)
        ensures
            match r {
                Some(j) => j < self.attributes@.len() && attributes_of(self.attributes@, address@) == self.attributes@[j as int].names@,
                None => attributes_of(self.attributes@, address@) == Seq::<String>::empty(),
            },
    {
        let mut k: usize = 0;
        assert(self.attributes@.subrange(0, self.attributes@.len() as int) =~= self.attributes@);
        while k < self.attributes.len()
            invariant
                k <= self.attributes@.len(),
                attributes_of(self.attributes@, address@) == attributes_of(self.attributes@.subrange(k as int, self.attributes@.len() as int), address@),
            decreases self.attributes@.len() - k,
        {
            let ghost rest = self.attributes@.subrange(k as int, self.attributes@.len() as int);
            assert(rest.drop_first() =~= self.attributes@.subrange(k + 1, self.attributes@.len() as int));
            if self.attributes[k].address == *address {
                return Some(k);
            }
            k = k + 1;
        }
        assert(self.attributes@.subrange(k as int, self.attributes@.len() as int) =~= Seq::<AccountAttributes>::empty());
        None
    }

    /// The account holds every attribute of the list.
    pub fn has_all_attributes(&self, address: &String, required: &Vec<String>) -> (r: bool)
        ensures
            r == self.holds_all(address@, views(required@)),
    {
        let found = self.find_account(address);
        let mut i: usize = 0;
        while i < required.len()
            invariant
                i <= required@.len(),
                match found {
                    Some(j) => j < self.attributes@.len() && attributes_of(self.attributes@, address@) == self.attributes@[j as int].names@,
                    None => attributes_of(self.attributes@, address@) == Seq::<String>::empty(),
                },
                forall|j: int| 0 <= j < i ==> has_text(attributes_of(self.attributes@, address@), #[trigger] views(required@)[j]),
            decreases required@.len() - i,
        {
            let held = match found {
                Some(j) => crate::common::contains_string(&self.attributes[j].names, &required[i]),
                None => false,
            };
            if !held {
                assert(!has_text(attributes_of(self.attributes@, address@), required@[i as int]@));
                assert(views(required@)[i as int] == required@[i as int]@);
                return false;
            }
            i = i + 1;
        }
        true
    }
}

} // verus!

//! Values shared by orders, fees and responses.

use vstd::prelude::*;

verus! {

/// An amount of one denomination.
#[derive(Debug, PartialEq, Eq)]
pub struct Coin {
    pub denom: String,
    pub amount: u128,
}

impl Clone for Coin {
    fn clone(&self) -> (r: Self)
        ensures
            r == *self,
    {
        Coin { denom: self.denom.clone(), amount: self.amount }
    }
}

/// A coin of `amount` in `denom`.
pub fn coin(amount: u128, denom: &String) -> (r: Coin)
    ensures
        r == (Coin { denom: *denom, amount }),
{
    Coin { denom: denom.clone(), amount }
}

/// A copy of an optional coin.
pub fn clone_opt_coin(c: &Option<Coin>) -> (r: Option<Coin>)
    ensures
        r == *c,
{
    match c {
        Some(c) => Some(c.clone()),
        None => None,
    }
}

/// The account that collects a fee and the fee rate, a decimal in text.
#[derive(Debug, PartialEq, Eq)]
pub struct FeeInfo {
    pub account: String,
    pub rate: String,
}

impl View for FeeInfo {
    type V = (Seq<char>, Seq<char>);

    /// The account and the rate, as text.
    open spec fn view(&self) -> (Seq<char>, Seq<char>) {
        (self.account@, self.rate@)
    }
}

/// An optional fee as text.
pub open spec fn fee_view(f: Option<FeeInfo>) -> Option<(Seq<char>, Seq<char>)> {
    match f {
        Some(f) => Some(f@),
        None => None,
    }
}

impl Clone for FeeInfo {
    fn clone(&self) -> (r: Self)
        ensures
            r == *self,
    {
        FeeInfo { account: self.account.clone(), rate: self.rate.clone() }
    }
}

/// A copy of an optional fee.
pub fn clone_opt_fee(f: &Option<FeeInfo>) -> (r: Option<FeeInfo>)
    ensures
        r == *f,
{
    match f {
        Some(f) => Some(f.clone()),
        None => None,
    }
}

/// What happened to (part of) a bid order.
#[derive(Debug, PartialEq, Eq)]
pub enum Action {
    Fill { base: Coin, fee: Option<Coin>, price: String, quote: Coin },
    Refund { fee: Option<Coin>, quote: Coin },
    Reject { base: Coin, fee: Option<Coin>, quote: Coin },
}

impl Clone for Action {
    fn clone(&self) -> (r: Self)
        ensures
            r == *self,
    {
        match self {
            Action::Fill { base, fee, price, quote } => Action::Fill {
                base: base.clone(),
                fee: clone_opt_coin(fee),
                price: price.clone(),
                quote: quote.clone(),
            },
            Action::Refund { fee, quote } => Action::Refund { fee: clone_opt_coin(fee), quote: quote.clone() },
            Action::Reject { base, fee, quote } => Action::Reject {
                base: base.clone(),
                fee: clone_opt_coin(fee),
                quote: quote.clone(),
            },
        }
    }
}

/// An action with the block in which it happened.
#[derive(Debug, PartialEq, Eq)]
pub struct Event {
    pub action: Action,
    pub block_info: BlockInfo,
}

impl Clone for Event {
    fn clone(&self) -> (r: Self)
        ensures
            r == *self,
    {
        Event { action: self.action.clone(), block_info: self.block_info }
    }
}

/// A block: its height and its time, in nanoseconds since the epoch.
#[derive(Clone, Copy, Debug, Default, PartialEq, Eq)]
pub struct BlockInfo {
    pub height: u64,
    pub time: u64,
}

/// `BlockInfo::from`: the height and time of a block.
pub fn block_info_from(height: u64, time: u64) -> (r: BlockInfo)
    ensures
        r == (BlockInfo { height, time }),
{
    BlockInfo { height, time }
}

/// The operation that a response reports.
#[derive(Clone, Copy, Debug, PartialEq, Eq)]
pub enum ContractAction {
    Init,
    ApproveAsk,
    CreateAsk,
    CreateBid,
    CancelAsk,
    CancelBid,
    Execute,
    ExpireAsk,
    ExpireBid,
    RejectAsk,
    RejectBid,
    ModifyContract,
}

impl ContractAction {
    /// The name under which a response reports the operation.
    pub open spec fn spec_name(self) -> Seq<char> {
        match self {
            ContractAction::Init => "init"@,
            ContractAction::ApproveAsk => "approve_ask"@,
            ContractAction::CreateAsk => "create_ask"@,
            ContractAction::CreateBid => "create_bid"@,
            ContractAction::CancelAsk => "cancel_ask"@,
            ContractAction::CancelBid => "cancel_bid"@,
            ContractAction::Execute => "execute"@,
            ContractAction::ExpireAsk => "expire_ask"@,
            ContractAction::ExpireBid => "expire_bid"@,
            ContractAction::RejectAsk => "reject_ask"@,
            ContractAction::RejectBid => "reject_bid"@,
            ContractAction::ModifyContract => "modify_contract"@,
        }
    }

    /// The name under which a response reports the operation.
    pub fn name(&self) -> (r: String)
        ensures
            r@ == self.spec_name(),
    {
        match self {
            ContractAction::Init => "init".to_owned(),
            ContractAction::ApproveAsk => "approve_ask".to_owned(),
            ContractAction::CreateAsk => "create_ask".to_owned(),
            ContractAction::CreateBid => "create_bid".to_owned(),
            ContractAction::CancelAsk => "cancel_ask".to_owned(),
            ContractAction::CancelBid => "cancel_bid".to_owned(),
            ContractAction::Execute => "execute".to_owned(),
            ContractAction::ExpireAsk => "expire_ask".to_owned(),
            ContractAction::ExpireBid => "expire_bid".to_owned(),
            ContractAction::RejectAsk => "reject_ask".to_owned(),
            ContractAction::RejectBid => "reject_bid".to_owned(),
            ContractAction::ModifyContract => "modify_contract".to_owned(),
        }
    }
}

/// The texts of a list, as character sequences.
pub open spec fn views(v: Seq<String>) -> Seq<Seq<char>> {
    v.map_values(|s: String| s@)
}

/// Two lists hold texts that read the same, in the same order.
pub open spec fn texts_eq(a: Seq<String>, b: Seq<String>) -> bool {
    &&& a.len() == b.len()
    &&& forall|j: int| 0 <= j < a.len() ==> a[j]@ == b[j]@
}

/// A list holds a text that reads `t`.
pub open spec fn has_text(list: Seq<String>, t: Seq<char>) -> bool {
    exists|j: int| 0 <= j < list.len() && list[j]@ == t
}

pub proof fn lemma_has_text_views(list: Seq<String>, t: Seq<char>)
    ensures
        has_text(list, t) == views(list).contains(t),
{
    if has_text(list, t) {
        let j = choose|j: int| 0 <= j < list.len() && list[j]@ == t;
        assert(views(list)[j] == t);
    }
    if views(list).contains(t) {
        let j = choose|j: int| 0 <= j < views(list).len() && views(list)[j] == t;
        assert(list[j]@ == t);
    }
}

/// Two lists hold texts that read the same, in the same order.
pub fn strings_eq(a: &Vec<String>, b: &Vec<String>) -> (r: bool)
    ensures
        r == texts_eq(a@, b@),
{
    if a.len() != b.len() {
        return false;
    }
    let mut i: usize = 0;
    while i < a.len()
        invariant
            a.len() == b.len(),
            i <= a.len(),
            forall|j: int| 0 <= j < i ==> a@[j]@ == b@[j]@,
        decreases a.len() - i,
    {
        if a[i] != b[i] {
            return false;
        }
        i = i + 1;
    }
    true
}

/// `list` holds a text that reads as `item`.
pub fn contains_string(list: &Vec<String>, item: &String) -> (r: bool)
    ensures
        r == has_text(list@, item@),
{
    let mut i: usize = 0;
    while i < list.len()
        invariant
            i <= list.len(),
            forall|j: int| 0 <= j < i ==> list@[j]@ != item@,
        decreases list.len() - i,
    {
        if list[i] == *item {
            assert(list@[i as int]@ == item@);
            return true;
        }
        i = i + 1;
    }
    false
}

/// A copy of a list of texts.
pub fn clone_strings(v: &Vec<String>) -> (r: Vec<String>)
    ensures
        r@ == v@,
{
    let mut r: Vec<String> = Vec::new();
    let mut i: usize = 0;
    while i < v.len()
        invariant
            i <= v.len(),
            r@ == v@.subrange(0, i as int),
        decreases v.len() - i,
    {
        r.push(v[i].clone());
        i = i + 1;
        assert(r@ =~= v@.subrange(0, i as int));
    }
    assert(r@ =~= v@);
    r
}

} // verus!

//! The messages the contract accepts, and their field checks.

use crate::common::{views, Coin};
use crate::error::ContractError;
use uuid::Uuid;
use vstd::prelude::*;

verus! {

/// What `Uuid::parse_str` accepts.
pub uninterp spec fn uuid_parses(s: Seq<char>) -> bool;

/// Checks a text with `Uuid::parse_str` (`uuid`).
///
/// Trusted: the answer is the named `uuid_parses` of the text.
#[verifier::external_body]
pub(crate) fn is_uuid(s: &String) -> (r: bool)
    ensures
        r == uuid_parses(s@),
{
    Uuid::parse_str(s).is_ok()
}

/// `name` as a one-field list when `cond` holds, else nothing.
pub open spec fn field_if(cond: bool, name: Seq<char>) -> Seq<Seq<char>> {
    if cond {
        seq![name]
    } else {
        Seq::empty()
    }
}

/// The answer of a field check: `Ok` when no field is invalid, else
/// `InvalidFields` listing the invalid fields in the order they were found.
pub open spec fn check_result(r: Result<(), ContractError>, fields: Seq<Seq<char>>) -> bool {
    match r {
        Ok(()) => fields.len() == 0,
        Err(e) => fields.len() > 0 && (e matches ContractError::InvalidFields { fields: f } && views(f@) == fields),
    }
}

/// The fields named when a rate and an account must be given together:
/// the missing one of the pair.
pub open spec fn fee_pair_fields<A, B>(rate: Option<A>, account: Option<B>, rate_name: Seq<char>, account_name: Seq<char>) -> Seq<Seq<char>> {
    match (rate, account) {
        (Some(_), None) => seq![account_name],
        (None, Some(_)) => seq![rate_name],
        _ => Seq::empty(),
    }
}

fn push_if(v: &mut Vec<String>, cond: bool, name: &str)
    ensures
        views(final(v)@) == views(old(v)@) + field_if(cond, name@),
{
    if cond {
        v.push(name.to_owned());
        assert(views(final(v)@) =~= views(old(v)@) + field_if(cond, name@));
    } else {
        assert(views(final(v)@) =~= views(old(v)@) + field_if(cond, name@));
    }
}

fn push_fee_pair(v: &mut Vec<String>, rate: &Option<String>, account: &Option<String>, rate_name: &str, account_name: &str)
    ensures
        views(final(v)@) == views(old(v)@) + fee_pair_fields(*rate, *account, rate_name@, account_name@),
{
    match (rate, account) {
        (Some(_), None) => {
            push_if(v, true, account_name);
        },
        (None, Some(_)) => {
            push_if(v, true, rate_name);
        },
        _ => {
            assert(views(final(v)@) =~= views(old(v)@) + fee_pair_fields(*rate, *account, rate_name@, account_name@));
        },
    }
}

fn finish(fields: Vec<String>) -> (r: Result<(), ContractError>)
    ensures
        check_result(r, views(fields@)),
{
    if fields.len() == 0 {
        Ok(())
    } else {
        Err(ContractError::InvalidFields { fields })
    }
}

/// Checks a message's fields.
pub trait Validate {
    fn validate(&self) -> Result<(), ContractError>;
}

/// The message that sets up an order book.
#[derive(Clone, Debug, PartialEq, Eq)]
pub struct InstantiateMsg {
    pub name: String,
    pub bind_name: String,
    pub base_denom: String,
    pub convertible_base_denoms: Vec<String>,
    pub supported_quote_denoms: Vec<String>,
    pub approvers: Vec<String>,
    pub executors: Vec<String>,
    pub ask_fee_rate: Option<String>,
    pub ask_fee_account: Option<String>,
    pub bid_fee_rate: Option<String>,
    pub bid_fee_account: Option<String>,
    pub ask_required_attributes: Vec<String>,
    pub bid_required_attributes: Vec<String>,
    pub price_precision: u128,
    pub size_increment: u128,
}

impl InstantiateMsg {
    /// The invalid fields, in the order they are checked.
    pub open spec fn invalid_fields(self) -> Seq<Seq<char>> {
        field_if(self.name@.len() == 0, "name"@)
        + field_if(self.bind_name@.len() == 0, "bind_name"@)
        + field_if(self.base_denom@.len() == 0, "base_denom"@)
        + field_if(self.supported_quote_denoms@.len() == 0, "supported_quote_denoms"@)
        + field_if(self.executors@.len() == 0, "executors"@)
        + fee_pair_fields(self.ask_fee_rate, self.ask_fee_account, "ask_fee_rate"@, "ask_fee_account"@)
        + fee_pair_fields(self.bid_fee_rate, self.bid_fee_account, "bid_fee_rate"@, "bid_fee_account"@)
        + field_if(self.price_precision > 18, "price_precision"@)
        + field_if(self.size_increment < 1, "size_increment"@)
    }
}

impl Validate for InstantiateMsg {
    /// `Ok` when no field is invalid; else the invalid fields, in order: an
    /// empty name, bind name or base denomination, no supported quote
    /// denomination, no executor, a fee rate without its account or an
    /// account without its rate, a price precision above 18, a size
    /// increment below 1.
    fn validate(&self) -> (r: Result<(), ContractError>)
        ensures
            check_result(r, self.invalid_fields()),
    {
        let mut v: Vec<String> = Vec::new();
        let ghost v0 = views(v@);
        assert(v0 =~= Seq::empty());
        push_if(&mut v, self.name.as_str().is_empty(), "name");
        push_if(&mut v, self.bind_name.as_str().is_empty(), "bind_name");
        push_if(&mut v, self.base_denom.as_str().is_empty(), "base_denom");
        push_if(&mut v, self.supported_quote_denoms.len() == 0, "supported_quote_denoms");
        push_if(&mut v, self.executors.len() == 0, "executors");
        push_fee_pair(&mut v, &self.ask_fee_rate, &self.ask_fee_account, "ask_fee_rate", "ask_fee_account");
        push_fee_pair(&mut v, &self.bid_fee_rate, &self.bid_fee_account, "bid_fee_rate", "bid_fee_account");
        push_if(&mut v, self.price_precision > 18, "price_precision");
        push_if(&mut v, self.size_increment < 1, "size_increment");
        assert(views(v@) =~= self.invalid_fields());
        finish(v)
    }
}

/// The operations of the contract.
#[derive(Clone, Debug, PartialEq, Eq)]
pub enum ExecuteMsg {
    ApproveAsk { id: String, base: String, size: u128 },
    CancelAsk { id: String },
    CancelBid { id: String },
    CreateAsk { id: String, base: String, quote: String, price: String, size: u128 },
    CreateBid {
        id: String,
        base: String,
        fee: Option<Coin>,
        price: String,
        quote: String,
        quote_size: u128,
        size: u128,
    },
    ExecuteMatch { ask_id: String, bid_id: String, price: String, size: u128 },
    ExpireAsk { id: String },
    ExpireBid { id: String },
    RejectAsk { id: String, size: Option<u128> },
    RejectBid { id: String, size: Option<u128> },
    ModifyContract {
        approvers: Option<Vec<String>>,
        executors: Option<Vec<String>>,
        ask_fee_rate: Option<String>,
        ask_fee_account: Option<String>,
        bid_fee_rate: Option<String>,
        bid_fee_account: Option<String>,
        ask_required_attributes: Option<Vec<String>>,
        bid_required_attributes: Option<Vec<String>>,
    },
}

/// The field `name` when the text `id` is not a UUID.
pub open spec fn id_field(id: String, name: Seq<char>) -> Seq<Seq<char>> {
    field_if(!uuid_parses(id@), name)
}

/// The field "size" when an optional size is given and below 1.
pub open spec fn opt_size_field(size: Option<u128>) -> Seq<Seq<char>> {
    field_if(size matches Some(s) && s < 1, "size"@)
}

impl ExecuteMsg {
    /// The invalid fields, in the order they are checked.
    pub open spec fn invalid_fields(self) -> Seq<Seq<char>> {
        match self {
            ExecuteMsg::ApproveAsk { id, base, size } => id_field(id, "id"@) + field_if(base@.len() == 0, "base"@)
                + field_if(size < 1, "size"@),
            ExecuteMsg::CreateAsk { id, base, quote, price, size } => id_field(id, "id"@)
                + field_if(base@.len() == 0, "base"@) + field_if(quote@.len() == 0, "quote"@)
                + field_if(price@.len() == 0, "price"@) + field_if(size < 1, "size"@),
            ExecuteMsg::CreateBid { id, base, fee, price, quote, quote_size, size } => id_field(id, "id"@)
                + field_if(base@.len() == 0, "base"@)
                + field_if(fee matches Some(f) && f.amount < 1, "fee"@)
                + field_if(price@.len() == 0, "price"@) + field_if(quote@.len() == 0, "quote"@)
                + field_if(quote_size < 1, "quote_size"@) + field_if(size < 1, "size"@),
            ExecuteMsg::CancelAsk { id } => id_field(id, "id"@),
            ExecuteMsg::CancelBid { id } => id_field(id, "id"@),
            ExecuteMsg::ExecuteMatch { ask_id, bid_id, price, size } => id_field(ask_id, "ask_id"@)
                + id_field(bid_id, "bid_id"@) + field_if(price@.len() == 0, "price"@)
                + field_if(size < 1, "price"@),
            ExecuteMsg::ExpireAsk { id } => id_field(id, "id"@),
            ExecuteMsg::ExpireBid { id } => id_field(id, "id"@),
            ExecuteMsg::RejectAsk { id, size } => id_field(id, "id"@) + opt_size_field(size),
            ExecuteMsg::RejectBid { id, size } => id_field(id, "id"@) + opt_size_field(size),
            ExecuteMsg::ModifyContract { ask_fee_rate, ask_fee_account, bid_fee_rate, bid_fee_account, .. } =>
                fee_pair_fields(ask_fee_rate, ask_fee_account, "ask_fee_rate"@, "ask_fee_account"@)
                + fee_pair_fields(bid_fee_rate, bid_fee_account, "bid_fee_rate"@, "bid_fee_account"@),
        }
    }
}

impl Validate for ExecuteMsg {
    /// `Ok` when no field is invalid; else the invalid fields, in order:
    /// ids that are not UUIDs, empty denominations and prices, sizes, quote
    /// sizes and fees below 1 (a match below size 1 is reported under
    /// "price"), and, for a change of the contract, a fee rate without its
    /// account or an account without its rate.
    fn validate(&self) -> (r: Result<(), ContractError>)
        ensures
            check_result(r, self.invalid_fields()),
    {
        let mut v: Vec<String> = Vec::new();
        assert(views(v@) =~= Seq::empty());
        match self {
            ExecuteMsg::ApproveAsk { id, base, size } => {
                push_if(&mut v, !is_uuid(id), "id");
                push_if(&mut v, base.as_str().is_empty(), "base");
                push_if(&mut v, *size < 1, "size");
            },
            ExecuteMsg::CreateAsk { id, base, quote, price, size } => {
                push_if(&mut v, !is_uuid(id), "id");
                push_if(&mut v, base.as_str().is_empty(), "base");
                push_if(&mut v, quote.as_str().is_empty(), "quote");
                push_if(&mut v, price.as_str().is_empty(), "price");
                push_if(&mut v, *size < 1, "size");
            },
            ExecuteMsg::CreateBid { id, base, fee, price, quote, quote_size, size } => {
                push_if(&mut v, !is_uuid(id), "id");
                push_if(&mut v, base.as_str().is_empty(), "base");
                let low_fee = match fee {
                    Some(f) => f.amount < 1,
                    None => false,
                };
                push_if(&mut v, low_fee, "fee");
                push_if(&mut v, price.as_str().is_empty(), "price");
                push_if(&mut v, quote.as_str().is_empty(), "quote");
                push_if(&mut v, *quote_size < 1, "quote_size");
                push_if(&mut v, *size < 1, "size");
            },
            ExecuteMsg::CancelAsk { id } => {
                push_if(&mut v, !is_uuid(id), "id");
            },
            ExecuteMsg::CancelBid { id } => {
                push_if(&mut v, !is_uuid(id), "id");
            },
            ExecuteMsg::ExecuteMatch { ask_id, bid_id, price, size } => {
                push_if(&mut v, !is_uuid(ask_id), "ask_id");
                push_if(&mut v, !is_uuid(bid_id), "bid_id");
                push_if(&mut v, price.as_str().is_empty(), "price");
                push_if(&mut v, *size < 1, "price");
            },
            ExecuteMsg::ExpireAsk { id } => {
                push_if(&mut v, !is_uuid(id), "id");
            },
            ExecuteMsg::ExpireBid { id } => {
                push_if(&mut v, !is_uuid(id), "id");
            },
            ExecuteMsg::RejectAsk { id, size } => {
                push_if(&mut v, !is_uuid(id), "id");
                let low = match size {
                    Some(s) => *s < 1,
                    None => false,
                };
                push_if(&mut v, low, "size");
            },
            ExecuteMsg::RejectBid { id, size } => {
                push_if(&mut v, !is_uuid(id), "id");
                let low = match size {
                    Some(s) => *s < 1,
                    None => false,
                };
                push_if(&mut v, low, "size");
            },
            ExecuteMsg::ModifyContract { ask_fee_rate, ask_fee_account, bid_fee_rate, bid_fee_account, .. } => {
                push_fee_pair(&mut v, ask_fee_rate, ask_fee_account, "ask_fee_rate", "ask_fee_account");
                push_fee_pair(&mut v, bid_fee_rate, bid_fee_account, "bid_fee_rate", "bid_fee_account");
            },
        }
        assert(views(v@) =~= self.invalid_fields());
        finish(v)
    }
}

/// The questions the contract answers.
#[derive(Clone, Debug, PartialEq, Eq)]
pub enum QueryMsg {
    GetAsk { id: String },
    GetBid { id: String },
    GetContractInfo {},
    GetVersionInfo {},
}

impl QueryMsg {
    /// The invalid fields, in the order they are checked.
    pub open spec fn invalid_fields(self) -> Seq<Seq<char>> {
        match self {
            QueryMsg::GetAsk { id } => id_field(id, "id"@),
            QueryMsg::GetBid { id } => id_field(id, "id"@),
            _ => Seq::empty(),
        }
    }
}

impl Validate for QueryMsg {
    /// `Ok` unless the id of an order asked for is not a UUID.
    fn validate(&self) -> (r: Result<(), ContractError>)
        ensures
            check_result(r, self.invalid_fields()),
    {
        let mut v: Vec<String> = Vec::new();
        assert(views(v@) =~= Seq::empty());
        match self {
            QueryMsg::GetAsk { id } => {
                push_if(&mut v, !is_uuid(id), "id");
            },
            QueryMsg::GetBid { id } => {
                push_if(&mut v, !is_uuid(id), "id");
            },
            _ => {},
        }
        assert(views(v@) =~= self.invalid_fields());
        finish(v)
    }
}

/// A change of the contract's settings; a field left out is not changed.
#[derive(Clone, Debug, PartialEq, Eq)]
pub struct ModifyContractMsg {
    pub approvers: Option<Vec<String>>,
    pub executors: Option<Vec<String>>,
    pub ask_fee_rate: Option<String>,
    pub ask_fee_account: Option<String>,
    pub bid_fee_rate: Option<String>,
    pub bid_fee_account: Option<String>,
    pub ask_required_attributes: Option<Vec<String>>,
    pub bid_required_attributes: Option<Vec<String>>,
}

impl ModifyContractMsg {
    /// The invalid fields, in the order they are checked.
    pub open spec fn invalid_fields(self) -> Seq<Seq<char>> {
        field_if(self.approvers matches Some(a) && a@.len() == 0, "approvers_empty"@)
        + field_if(self.executors matches Some(e) && e@.len() == 0, "executors_empty"@)
        + fee_pair_fields(self.ask_fee_rate, self.ask_fee_account, "ask_fee_rate"@, "ask_fee_account"@)
        + fee_pair_fields(self.bid_fee_rate, self.bid_fee_account, "bid_fee_rate"@, "bid_fee_account"@)
    }
}

impl Validate for ModifyContractMsg {
    /// `Ok` when no field is invalid; else, in order: an empty list of
    /// approvers, an empty list of executors, a fee rate without its account
    /// or an account without its rate.
    fn validate(&self) -> (r: Result<(), ContractError>)
        ensures
            check_result(r, self.invalid_fields()),
    {
        let mut v: Vec<String> = Vec::new();
        assert(views(v@) =~= Seq::empty());
        let empty_approvers = match &self.approvers {
            Some(a) => a.len() == 0,
            None => false,
        };
        push_if(&mut v, empty_approvers, "approvers_empty");
        let empty_executors = match &self.executors {
            Some(e) => e.len() == 0,
            None => false,
        };
        push_if(&mut v, empty_executors, "executors_empty");
        push_fee_pair(&mut v, &self.ask_fee_rate, &self.ask_fee_account, "ask_fee_rate", "ask_fee_account");
        push_fee_pair(&mut v, &self.bid_fee_rate, &self.bid_fee_account, "bid_fee_rate", "bid_fee_account");
        assert(views(v@) =~= self.invalid_fields());
        finish(v)
    }
}

/// The settings that a migration may change; a field left out is not
/// changed.
#[derive(Clone, Debug, PartialEq, Eq)]
pub struct MigrateMsg {
    pub approvers: Option<Vec<String>>,
    pub ask_fee_rate: Option<String>,
    pub ask_fee_account: Option<String>,
    pub bid_fee_rate: Option<String>,
    pub bid_fee_account: Option<String>,
    pub ask_required_attributes: Option<Vec<String>>,
    pub bid_required_attributes: Option<Vec<String>>,
}

impl MigrateMsg {
    /// The invalid fields, in the order they are checked.
    pub open spec fn invalid_fields(self) -> Seq<Seq<char>> {
        fee_pair_fields(self.ask_fee_rate, self.ask_fee_account, "ask_fee_rate"@, "ask_fee_account"@)
        + fee_pair_fields(self.bid_fee_rate, self.bid_fee_account, "bid_fee_rate"@, "bid_fee_account"@)
    }
}

impl Validate for MigrateMsg {
    /// `Ok` unless a fee rate comes without its account or an account
    /// without its rate.
    fn validate(&self) -> (r: Result<(), ContractError>)
        ensures
            check_result(r, self.invalid_fields()),
    {
        let mut v: Vec<String> = Vec::new();
        assert(views(v@) =~= Seq::empty());
        push_fee_pair(&mut v, &self.ask_fee_rate, &self.ask_fee_account, "ask_fee_rate", "ask_fee_account");
        push_fee_pair(&mut v, &self.bid_fee_rate, &self.bid_fee_account, "bid_fee_rate", "bid_fee_account");
        assert(views(v@) =~= self.invalid_fields());
        finish(v)
    }
}

} // verus!

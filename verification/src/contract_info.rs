//! The contract's settings, in the shapes of the versions that stored them,
//! and their migration to the current shape.

use crate::common::{clone_opt_fee, clone_strings, fee_view, views, FeeInfo};
use crate::decimal::{dec_from_str, decimal_from_str};
use crate::error::{invalid_field, field_error, ContractError, ErrorView, StdError, StdErrorView};
use crate::msg::{MigrateMsg, ModifyContractMsg};
use crate::store::{Api, ContractStore, StoredContractInfo};
use crate::version_info::{
    get_version_info, matches_below, matches_range, parts_below, parts_in_range, semver_parse, semver_version_parse,
    version_of,
};
use vstd::prelude::*;
use vstd::string::StringExecFns;

verus! {

/// The settings as stored before version 0.15.0.
#[derive(Clone, Debug, PartialEq, Eq)]
pub struct ContractInfo {
    pub name: String,
    pub definition: String,
    pub version: String,
    pub bind_name: String,
    pub base_denom: String,
    pub convertible_base_denoms: Vec<String>,
    pub supported_quote_denoms: Vec<String>,
    pub executors: Vec<String>,
    pub issuers: Vec<String>,
    pub ask_required_attributes: Vec<String>,
    pub bid_required_attributes: Vec<String>,
    pub price_precision: u128,
    pub size_increment: u128,
}

/// The settings as stored from version 0.15.0 to 0.15.1.
#[derive(Clone, Debug, PartialEq, Eq)]
pub struct ContractInfoV1 {
    pub name: String,
    pub bind_name: String,
    pub base_denom: String,
    pub convertible_base_denoms: Vec<String>,
    pub supported_quote_denoms: Vec<String>,
    pub approvers: Vec<String>,
    pub executors: Vec<String>,
    pub ask_required_attributes: Vec<String>,
    pub bid_required_attributes: Vec<String>,
    pub price_precision: u128,
    pub size_increment: u128,
}

/// The settings as stored from version 0.15.2 to 0.16.0: one fee, on asks.
#[derive(Clone, Debug, PartialEq, Eq)]
pub struct ContractInfoV2 {
    pub name: String,
    pub bind_name: String,
    pub base_denom: String,
    pub convertible_base_denoms: Vec<String>,
    pub supported_quote_denoms: Vec<String>,
    pub approvers: Vec<String>,
    pub executors: Vec<String>,
    pub fee_rate: Option<String>,
    pub fee_account: Option<String>,
    pub ask_required_attributes: Vec<String>,
    pub bid_required_attributes: Vec<String>,
    pub price_precision: u128,
    pub size_increment: u128,
}

/// The settings of the order book: its base denomination and the
/// denominations convertible to it, the quote denominations it trades in,
/// who approves convertible asks and who executes matches, the fees on asks
/// and bids, the account attributes that askers and bidders must hold, the
/// number of decimal places a price may have, and the step of order sizes.
#[derive(Clone, Debug, PartialEq, Eq)]
pub struct ContractInfoV3 {
    pub name: String,
    pub bind_name: String,
    pub base_denom: String,
    pub convertible_base_denoms: Vec<String>,
    pub supported_quote_denoms: Vec<String>,
    pub approvers: Vec<String>,
    pub executors: Vec<String>,
    pub ask_fee_info: Option<FeeInfo>,
    pub bid_fee_info: Option<FeeInfo>,
    pub ask_required_attributes: Vec<String>,
    pub bid_required_attributes: Vec<String>,
    pub price_precision: u128,
    pub size_increment: u128,
}

/// The settings with their texts as character sequences.
pub ghost struct InfoModel {
    pub name: Seq<char>,
    pub bind_name: Seq<char>,
    pub base_denom: Seq<char>,
    pub convertible_base_denoms: Seq<Seq<char>>,
    pub supported_quote_denoms: Seq<Seq<char>>,
    pub approvers: Seq<Seq<char>>,
    pub executors: Seq<Seq<char>>,
    pub ask_fee_info: Option<(Seq<char>, Seq<char>)>,
    pub bid_fee_info: Option<(Seq<char>, Seq<char>)>,
    pub ask_required_attributes: Seq<Seq<char>>,
    pub bid_required_attributes: Seq<Seq<char>>,
    pub price_precision: u128,
    pub size_increment: u128,
}

impl View for ContractInfoV3 {
    type V = InfoModel;

    open spec fn view(&self) -> InfoModel {
        InfoModel {
            name: self.name@,
            bind_name: self.bind_name@,
            base_denom: self.base_denom@,
            convertible_base_denoms: views(self.convertible_base_denoms@),
            supported_quote_denoms: views(self.supported_quote_denoms@),
            approvers: views(self.approvers@),
            executors: views(self.executors@),
            ask_fee_info: fee_view(self.ask_fee_info),
            bid_fee_info: fee_view(self.bid_fee_info),
            ask_required_attributes: views(self.ask_required_attributes@),
            bid_required_attributes: views(self.bid_required_attributes@),
            price_precision: self.price_precision,
            size_increment: self.size_increment,
        }
    }
}

/// The current settings that settings before 0.15.0 convert to: no
/// approvers (issuers are dropped) and no fees.
pub open spec fn legacy_model(c: ContractInfo) -> InfoModel {
    InfoModel {
        name: c.name@,
        bind_name: c.bind_name@,
        base_denom: c.base_denom@,
        convertible_base_denoms: views(c.convertible_base_denoms@),
        supported_quote_denoms: views(c.supported_quote_denoms@),
        approvers: Seq::empty(),
        executors: views(c.executors@),
        ask_fee_info: None,
        bid_fee_info: None,
        ask_required_attributes: views(c.ask_required_attributes@),
        bid_required_attributes: views(c.bid_required_attributes@),
        price_precision: c.price_precision,
        size_increment: c.size_increment,
    }
}

/// The current settings that settings of 0.15.0 convert to: no fees.
pub open spec fn v1_model(c: ContractInfoV1) -> InfoModel {
    InfoModel {
        name: c.name@,
        bind_name: c.bind_name@,
        base_denom: c.base_denom@,
        convertible_base_denoms: views(c.convertible_base_denoms@),
        supported_quote_denoms: views(c.supported_quote_denoms@),
        approvers: views(c.approvers@),
        executors: views(c.executors@),
        ask_fee_info: None,
        bid_fee_info: None,
        ask_required_attributes: views(c.ask_required_attributes@),
        bid_required_attributes: views(c.bid_required_attributes@),
        price_precision: c.price_precision,
        size_increment: c.size_increment,
    }
}

/// The fee of settings of 0.15.2: an ask fee when both its rate and its
/// account are set.
pub open spec fn v2_ask_fee(c: ContractInfoV2) -> Option<(Seq<char>, Seq<char>)> {
    match (c.fee_account, c.fee_rate) {
        (Some(account), Some(rate)) => Some((account@, rate@)),
        _ => None,
    }
}

/// The current settings that settings of 0.15.2 convert to: their fee
/// becomes the ask fee.
pub open spec fn v2_model(c: ContractInfoV2) -> InfoModel {
    InfoModel { ask_fee_info: v2_ask_fee(c), ..v2_fields(c) }
}

/// The fields of settings of 0.15.2 that the current settings share, with
/// no fees.
pub open spec fn v2_fields(c: ContractInfoV2) -> InfoModel {
    InfoModel {
        name: c.name@,
        bind_name: c.bind_name@,
        base_denom: c.base_denom@,
        convertible_base_denoms: views(c.convertible_base_denoms@),
        supported_quote_denoms: views(c.supported_quote_denoms@),
        approvers: views(c.approvers@),
        executors: views(c.executors@),
        ask_fee_info: None,
        bid_fee_info: None,
        ask_required_attributes: views(c.ask_required_attributes@),
        bid_required_attributes: views(c.bid_required_attributes@),
        price_precision: c.price_precision,
        size_increment: c.size_increment,
    }
}

/// Current settings without their fees.
pub open spec fn without_fees(m: InfoModel) -> InfoModel {
    InfoModel { ask_fee_info: None, bid_fee_info: None, ..m }
}

impl ContractInfoV3 {
    /// Settings before 0.15.0 converted: no approvers and no fees.
    pub fn from_legacy(c: ContractInfo) -> (r: ContractInfoV3)
        ensures
            r@ == legacy_model(c),
    {
        let r = ContractInfoV3 {
            name: c.name,
            bind_name: c.bind_name,
            base_denom: c.base_denom,
            convertible_base_denoms: c.convertible_base_denoms,
            supported_quote_denoms: c.supported_quote_denoms,
            approvers: Vec::new(),
            executors: c.executors,
            ask_fee_info: None,
            bid_fee_info: None,
            ask_required_attributes: c.ask_required_attributes,
            bid_required_attributes: c.bid_required_attributes,
            price_precision: c.price_precision,
            size_increment: c.size_increment,
        };
        assert(r@.approvers =~= Seq::<Seq<char>>::empty());
        r
    }

    /// Settings of 0.15.0 converted: no fees.
    pub fn from_v1(c: ContractInfoV1) -> (r: ContractInfoV3)
        ensures
            r@ == v1_model(c),
    {
        ContractInfoV3 {
            name: c.name,
            bind_name: c.bind_name,
            base_denom: c.base_denom,
            convertible_base_denoms: c.convertible_base_denoms,
            supported_quote_denoms: c.supported_quote_denoms,
            approvers: c.approvers,
            executors: c.executors,
            ask_fee_info: None,
            bid_fee_info: None,
            ask_required_attributes: c.ask_required_attributes,
            bid_required_attributes: c.bid_required_attributes,
            price_precision: c.price_precision,
            size_increment: c.size_increment,
        }
    }

    /// Settings of 0.15.2 converted: their fee becomes the ask fee.
    pub fn from_v2(c: ContractInfoV2) -> (r: ContractInfoV3)
        ensures
            r@ == v2_model(c),
    {
        let ask_fee_info = match (c.fee_account, c.fee_rate) {
            (Some(account), Some(rate)) => Some(FeeInfo { account, rate }),
            (_, _) => None,
        };
        ContractInfoV3 {
            name: c.name,
            bind_name: c.bind_name,
            base_denom: c.base_denom,
            convertible_base_denoms: c.convertible_base_denoms,
            supported_quote_denoms: c.supported_quote_denoms,
            approvers: c.approvers,
            executors: c.executors,
            ask_fee_info,
            bid_fee_info: None,
            ask_required_attributes: c.ask_required_attributes,
            bid_required_attributes: c.bid_required_attributes,
            price_precision: c.price_precision,
            size_increment: c.size_increment,
        }
    }

    /// A copy of the settings.
    pub fn duplicate(&self) -> (r: ContractInfoV3)
        ensures
            r@ == self@,
    {
        ContractInfoV3 {
            name: self.name.clone(),
            bind_name: self.bind_name.clone(),
            base_denom: self.base_denom.clone(),
            convertible_base_denoms: clone_strings(&self.convertible_base_denoms),
            supported_quote_denoms: clone_strings(&self.supported_quote_denoms),
            approvers: clone_strings(&self.approvers),
            executors: clone_strings(&self.executors),
            ask_fee_info: clone_opt_fee(&self.ask_fee_info),
            bid_fee_info: clone_opt_fee(&self.bid_fee_info),
            ask_required_attributes: clone_strings(&self.ask_required_attributes),
            bid_required_attributes: clone_strings(&self.bid_required_attributes),
            price_precision: self.price_precision,
            size_increment: self.size_increment,
        }
    }
}

/// The type under which settings in the shape before 0.15.0 are looked
/// for.
pub open spec fn legacy_info_kind() -> Seq<char> {
    "ats_smart_contract::contract_info::ContractInfo"@
}

/// The type under which settings in the shape of 0.15.0 are looked for.
pub open spec fn v1_info_kind() -> Seq<char> {
    "ats_smart_contract::contract_info::ContractInfoV1"@
}

/// The type under which settings in the shape of 0.15.2 are looked for.
pub open spec fn v2_info_kind() -> Seq<char> {
    "ats_smart_contract::contract_info::ContractInfoV2"@
}

/// The type under which settings in the current shape are looked for.
pub open spec fn v3_info_kind() -> Seq<char> {
    "ats_smart_contract::contract_info::ContractInfoV3"@
}

/// What missing settings looked for as the type `t` are reported as: the
/// type and the key "contract_info" in hexadecimal.
pub open spec fn missing_info(t: Seq<char>) -> Seq<char> {
    "type: "@ + t + "; key: [63, 6F, 6E, 74, 72, 61, 63, 74, 5F, 69, 6E, 66, 6F]"@
}

/// What loading the current settings reads from the stored settings: the
/// stored fields that the current shape has, fees missing from an older
/// shape read as none, and settings from before 0.15.0 not readable (they
/// lack the approvers).
pub open spec fn load_v3(si: Option<StoredContractInfo>) -> Result<InfoModel, StdErrorView> {
    match si {
        None => Err(StdErrorView::NotFound { kind: missing_info(v3_info_kind()) }),
        Some(StoredContractInfo::Legacy(_)) => Err(StdErrorView::ParseErr { target_type: v3_info_kind() }),
        Some(StoredContractInfo::V1(c)) => Ok(v1_model(c)),
        Some(StoredContractInfo::V2(c)) => Ok(v2_fields(c)),
        Some(StoredContractInfo::V3(c)) => Ok(c@),
    }
}

/// What loading the settings in the shape of 0.15.0, then converting them,
/// gives: the shared fields, with no fees.
pub open spec fn load_v1_converted(si: Option<StoredContractInfo>) -> Result<InfoModel, StdErrorView> {
    match si {
        None => Err(StdErrorView::NotFound { kind: missing_info(v1_info_kind()) }),
        Some(StoredContractInfo::Legacy(_)) => Err(StdErrorView::ParseErr { target_type: v1_info_kind() }),
        Some(StoredContractInfo::V1(c)) => Ok(v1_model(c)),
        Some(StoredContractInfo::V2(c)) => Ok(v2_fields(c)),
        Some(StoredContractInfo::V3(c)) => Ok(without_fees(c@)),
    }
}

/// What loading the settings in the shape of 0.15.2, then converting them,
/// gives: the shared fields, with the stored fee as the ask fee.
pub open spec fn load_v2_converted(si: Option<StoredContractInfo>) -> Result<InfoModel, StdErrorView> {
    match si {
        None => Err(StdErrorView::NotFound { kind: missing_info(v2_info_kind()) }),
        Some(StoredContractInfo::Legacy(_)) => Err(StdErrorView::ParseErr { target_type: v2_info_kind() }),
        Some(StoredContractInfo::V1(c)) => Ok(v1_model(c)),
        Some(StoredContractInfo::V2(c)) => Ok(v2_model(c)),
        Some(StoredContractInfo::V3(c)) => Ok(without_fees(c@)),
    }
}

/// What loading the settings in the shape before 0.15.0, then converting
/// them, gives: only such settings are readable.
pub open spec fn load_legacy_converted(si: Option<StoredContractInfo>) -> Result<InfoModel, StdErrorView> {
    match si {
        None => Err(StdErrorView::NotFound { kind: missing_info(legacy_info_kind()) }),
        Some(StoredContractInfo::Legacy(c)) => Ok(legacy_model(c)),
        Some(_) => Err(StdErrorView::ParseErr { target_type: legacy_info_kind() }),
    }
}

pub(crate) fn not_found_info(kind: &str) -> (r: StdError)
    ensures
        r@ == (StdErrorView::NotFound { kind: missing_info(kind@) }),
{
    let mut text = "type: ".to_owned();
    text.append(kind);
    text.append("; key: [63, 6F, 6E, 74, 72, 61, 63, 74, 5F, 69, 6E, 66, 6F]");
    StdError::NotFound { kind: text }
}

pub(crate) fn parse_err_info(kind: &str) -> (r: StdError)
    ensures
        r@ == (StdErrorView::ParseErr { target_type: kind@ }),
{
    StdError::ParseErr { target_type: kind.to_owned() }
}

fn v1_to_v3(c: &ContractInfoV1) -> (r: ContractInfoV3)
    ensures
        r@ == v1_model(*c),
{
    ContractInfoV3 {
        name: c.name.clone(),
        bind_name: c.bind_name.clone(),
        base_denom: c.base_denom.clone(),
        convertible_base_denoms: clone_strings(&c.convertible_base_denoms),
        supported_quote_denoms: clone_strings(&c.supported_quote_denoms),
        approvers: clone_strings(&c.approvers),
        executors: clone_strings(&c.executors),
        ask_fee_info: None,
        bid_fee_info: None,
        ask_required_attributes: clone_strings(&c.ask_required_attributes),
        bid_required_attributes: clone_strings(&c.bid_required_attributes),
        price_precision: c.price_precision,
        size_increment: c.size_increment,
    }
}

fn v2_fields_to_v3(c: &ContractInfoV2, with_fee: bool) -> (r: ContractInfoV3)
    ensures
        with_fee ==> r@ == v2_model(*c),
        !with_fee ==> r@ == v2_fields(*c),
{
    let ask_fee_info = if with_fee {
        match (&c.fee_account, &c.fee_rate) {
            (Some(account), Some(rate)) => Some(FeeInfo { account: account.clone(), rate: rate.clone() }),
            (_, _) => None,
        }
    } else {
        None
    };
    ContractInfoV3 {
        name: c.name.clone(),
        bind_name: c.bind_name.clone(),
        base_denom: c.base_denom.clone(),
        convertible_base_denoms: clone_strings(&c.convertible_base_denoms),
        supported_quote_denoms: clone_strings(&c.supported_quote_denoms),
        approvers: clone_strings(&c.approvers),
        executors: clone_strings(&c.executors),
        ask_fee_info,
        bid_fee_info: None,
        ask_required_attributes: clone_strings(&c.ask_required_attributes),
        bid_required_attributes: clone_strings(&c.bid_required_attributes),
        price_precision: c.price_precision,
        size_increment: c.size_increment,
    }
}

fn legacy_to_v3(c: &ContractInfo) -> (r: ContractInfoV3)
    ensures
        r@ == legacy_model(*c),
{
    let r = ContractInfoV3 {
        name: c.name.clone(),
        bind_name: c.bind_name.clone(),
        base_denom: c.base_denom.clone(),
        convertible_base_denoms: clone_strings(&c.convertible_base_denoms),
        supported_quote_denoms: clone_strings(&c.supported_quote_denoms),
        approvers: Vec::new(),
        executors: clone_strings(&c.executors),
        ask_fee_info: None,
        bid_fee_info: None,
        ask_required_attributes: clone_strings(&c.ask_required_attributes),
        bid_required_attributes: clone_strings(&c.bid_required_attributes),
        price_precision: c.price_precision,
        size_increment: c.size_increment,
    };
    assert(r@.approvers =~= Seq::<Seq<char>>::empty());
    r
}

/// Writes the settings.
pub fn set_contract_info(store: &mut ContractStore, contract_info: &ContractInfoV3) -> (r: Result<(), ContractError>)
    ensures
        r is Ok,
        final(store).contract_info matches Some(StoredContractInfo::V3(c)) && c@ == contract_info@,
        final(store).version_info == old(store).version_info,
        final(store).asks == old(store).asks,
        final(store).bids == old(store).bids,
{
    store.contract_info = Some(StoredContractInfo::V3(contract_info.duplicate()));
    Ok(())
}

/// Reads the settings in their current shape.
pub fn get_contract_info(store: &ContractStore) -> (r: Result<ContractInfoV3, ContractError>)
    ensures
        match load_v3(store.contract_info) {
            Ok(m) => r matches Ok(c) && c@ == m,
            Err(e) => r matches Err(err) && err@ == ErrorView::Std(e),
        },
{
    match &store.contract_info {
        None => Err(ContractError::Std(not_found_info("ats_smart_contract::contract_info::ContractInfoV3"))),
        Some(StoredContractInfo::Legacy(_)) => Err(ContractError::Std(parse_err_info("ats_smart_contract::contract_info::ContractInfoV3"))),
        Some(StoredContractInfo::V1(c)) => Ok(v1_to_v3(c)),
        Some(StoredContractInfo::V2(c)) => Ok(v2_fields_to_v3(c, false)),
        Some(StoredContractInfo::V3(c)) => Ok(c.duplicate()),
    }
}

/// The two settings from before 0.15.0 read the same.
pub open spec fn legacy_same(a: ContractInfo, b: ContractInfo) -> bool {
    &&& a.definition@ == b.definition@
    &&& a.version@ == b.version@
    &&& views(a.issuers@) == views(b.issuers@)
    &&& legacy_model(a) == legacy_model(b)
}

/// A copy of settings from before 0.15.0.
pub fn legacy_copy(c: &ContractInfo) -> (r: ContractInfo)
    ensures
        legacy_same(r, *c),
{
    ContractInfo {
        name: c.name.clone(),
        definition: c.definition.clone(),
        version: c.version.clone(),
        bind_name: c.bind_name.clone(),
        base_denom: c.base_denom.clone(),
        convertible_base_denoms: clone_strings(&c.convertible_base_denoms),
        supported_quote_denoms: clone_strings(&c.supported_quote_denoms),
        executors: clone_strings(&c.executors),
        issuers: clone_strings(&c.issuers),
        ask_required_attributes: clone_strings(&c.ask_required_attributes),
        bid_required_attributes: clone_strings(&c.bid_required_attributes),
        price_precision: c.price_precision,
        size_increment: c.size_increment,
    }
}

/// Reads the settings in the shape before version 0.15.0.
pub fn get_legacy_contract_info(store: &ContractStore) -> (r: Result<ContractInfo, ContractError>)
    ensures
        match store.contract_info {
            Some(StoredContractInfo::Legacy(c)) => r matches Ok(rc) && legacy_same(rc, c),
            None => r matches Err(e) && e@ == ErrorView::Std((StdErrorView::NotFound { kind: missing_info(legacy_info_kind()) })),
            Some(_) => r matches Err(e) && e@ == ErrorView::Std((StdErrorView::ParseErr { target_type: legacy_info_kind() })),
        },
{
    match &store.contract_info {
        Some(StoredContractInfo::Legacy(c)) => Ok(legacy_copy(c)),
        None => Err(ContractError::Std(not_found_info("ats_smart_contract::contract_info::ContractInfo"))),
        Some(_) => Err(ContractError::Std(parse_err_info("ats_smart_contract::contract_info::ContractInfo"))),
    }
}

/// Writes settings in the shape before version 0.15.0.
pub fn set_legacy_contract_info(store: &mut ContractStore, contract_info: &ContractInfo) -> (r: Result<(), ContractError>)
    ensures
        r is Ok,
        final(store).contract_info matches Some(StoredContractInfo::Legacy(c)) && legacy_same(c, *contract_info),
        final(store).version_info == old(store).version_info,
        final(store).asks == old(store).asks,
        final(store).bids == old(store).bids,
{
    store.contract_info = Some(StoredContractInfo::Legacy(legacy_copy(contract_info)));
    Ok(())
}

/// Every address of the list is accepted by the chain.
pub open spec fn all_accepted(api: Api, list: Seq<String>) -> bool {
    forall|i: int| 0 <= i < list.len() ==> api.accepts(#[trigger] list[i]@)
}

/// Address `i` is the first that the chain refuses.
pub open spec fn first_refused(api: Api, list: Seq<String>, i: int) -> bool {
    &&& 0 <= i < list.len()
    &&& !api.accepts(list[i]@)
    &&& forall|j: int| 0 <= j < i ==> api.accepts(#[trigger] list[j]@)
}

/// A list of addresses checked by the chain: the addresses, or the refusal
/// of the first it does not accept.
pub open spec fn validate_all(api: Api, list: Seq<String>) -> Result<Seq<Seq<char>>, ErrorView> {
    if all_accepted(api, list) {
        Ok(views(list))
    } else {
        let i = choose|i: int| first_refused(api, list, i);
        Err(ErrorView::Std(StdErrorView::InvalidAddress { address: list[i]@ }))
    }
}

/// Checks each address of a list with the chain.
pub fn validate_addresses(api: &Api, list: &Vec<String>) -> (r: Result<Vec<String>, ContractError>)
    ensures
        match validate_all(*api, list@) {
            Ok(v) => r matches Ok(l) && views(l@) == v,
            Err(e) => r matches Err(err) && err@ == e,
        },
{
    let mut out: Vec<String> = Vec::new();
    let mut k: usize = 0;
    while k < list.len()
        invariant
            k <= list@.len(),
            views(out@) == views(list@.subrange(0, k as int)),
            forall|j: int| 0 <= j < k ==> api.accepts(#[trigger] list@[j]@),
        decreases list@.len() - k,
    {
        match api.addr_validate(&list[k]) {
            Ok(a) => {
                let ghost before = out@;
                out.push(a);
                assert(list@.subrange(0, k as int + 1) =~= list@.subrange(0, k as int).push(list@[k as int]));
                assert(views(out@) =~= views(before).push(list@[k as int]@));
                assert(views(list@.subrange(0, k as int + 1)) =~= views(list@.subrange(0, k as int)).push(list@[k as int]@));
            },
            Err(e) => {
                proof {
                    assert(first_refused(*api, list@, k as int));
                    assert(!all_accepted(*api, list@));
                    let i = choose|i: int| first_refused(*api, list@, i);
                    if i < k {
                        assert(api.accepts(list@[i]@));
                    } else if i > k {
                        assert(api.accepts(list@[k as int]@));
                    }
                }
                return Err(ContractError::Std(e));
            },
        }
        k = k + 1;
    }
    assert(list@.subrange(0, k as int) =~= list@);
    Ok(out)
}

/// A fee after a change: a rate and an account given together replace the
/// fee (both empty remove it; a rate that is not a decimal is refused,
/// reported under `field`, and so is an address the chain refuses);
/// anything else leaves the fee as it is.
pub open spec fn fee_update(
    api: Api,
    current: Option<(Seq<char>, Seq<char>)>,
    account: Option<String>,
    rate: Option<String>,
    field: Seq<char>,
) -> Result<Option<(Seq<char>, Seq<char>)>, ErrorView> {
    match (account, rate) {
        (Some(a), Some(r)) => if a@.len() == 0 && r@.len() == 0 {
            Ok(None)
        } else if decimal_from_str(r@) is None {
            Err(field_error(field))
        } else if !api.accepts(a@) {
            Err(ErrorView::Std(StdErrorView::InvalidAddress { address: a@ }))
        } else {
            Ok(Some((a@, r@)))
        },
        _ => Ok(current),
    }
}

/// Applies a change of a fee.
pub fn update_fee(
    api: &Api,
    current: Option<FeeInfo>,
    account: &Option<String>,
    rate: &Option<String>,
    field: &str,
) -> (r: Result<Option<FeeInfo>, ContractError>)
    ensures
        match fee_update(*api, fee_view(current), *account, *rate, field@) {
            Ok(f) => r matches Ok(nf) && fee_view(nf) == f,
            Err(e) => r matches Err(err) && err@ == e,
        },
{
    match (account, rate) {
        (Some(account), Some(rate)) => {
            if account.as_str().is_empty() && rate.as_str().is_empty() {
                Ok(None)
            } else {
                if dec_from_str(rate.as_str()).is_none() {
                    return Err(invalid_field(field));
                }
                match api.addr_validate(account) {
                    Ok(a) => Ok(Some(FeeInfo { account: a, rate: rate.clone() })),
                    Err(e) => Err(ContractError::Std(e)),
                }
            }
        },
        (_, _) => Ok(current),
    }
}

/// An optional list replaces the current one when given.
pub open spec fn list_update(current: Seq<Seq<char>>, new: Option<Vec<String>>) -> Seq<Seq<char>> {
    match new {
        Some(l) => views(l@),
        None => current,
    }
}

/// The settings after the changes of a migration: the approvers (checked
/// by the chain), the ask fee, the bid fee (a bad bid fee rate is reported
/// under "ask_fee_rate"), and the attributes required of askers and
/// bidders.
pub open spec fn apply_migration(m: InfoModel, api: Api, msg: MigrateMsg) -> Result<InfoModel, ErrorView> {
    let approvers = match msg.approvers {
        Some(l) => validate_all(api, l@),
        None => Ok(m.approvers),
    };
    match approvers {
        Err(e) => Err(e),
        Ok(approvers) => match fee_update(api, m.ask_fee_info, msg.ask_fee_account, msg.ask_fee_rate, "ask_fee_rate"@) {
            Err(e) => Err(e),
            Ok(ask_fee) => match fee_update(api, m.bid_fee_info, msg.bid_fee_account, msg.bid_fee_rate, "ask_fee_rate"@) {
                Err(e) => Err(e),
                Ok(bid_fee) => Ok(InfoModel {
                    approvers,
                    ask_fee_info: ask_fee,
                    bid_fee_info: bid_fee,
                    ask_required_attributes: list_update(m.ask_required_attributes, msg.ask_required_attributes),
                    bid_required_attributes: list_update(m.bid_required_attributes, msg.bid_required_attributes),
                    ..m
                }),
            },
        },
    }
}

/// The settings after the changes of a modification: as for a migration,
/// and the executors (checked by the chain) after the approvers.
pub open spec fn apply_modification(m: InfoModel, api: Api, msg: ModifyContractMsg) -> Result<InfoModel, ErrorView> {
    let approvers = match msg.approvers {
        Some(l) => validate_all(api, l@),
        None => Ok(m.approvers),
    };
    match approvers {
        Err(e) => Err(e),
        Ok(approvers) => {
            let executors = match msg.executors {
                Some(l) => validate_all(api, l@),
                None => Ok(m.executors),
            };
            match executors {
                Err(e) => Err(e),
                Ok(executors) => match fee_update(api, m.ask_fee_info, msg.ask_fee_account, msg.ask_fee_rate, "ask_fee_rate"@) {
                    Err(e) => Err(e),
                    Ok(ask_fee) => match fee_update(api, m.bid_fee_info, msg.bid_fee_account, msg.bid_fee_rate, "ask_fee_rate"@) {
                        Err(e) => Err(e),
                        Ok(bid_fee) => Ok(InfoModel {
                            approvers,
                            executors,
                            ask_fee_info: ask_fee,
                            bid_fee_info: bid_fee,
                            ask_required_attributes: list_update(m.ask_required_attributes, msg.ask_required_attributes),
                            bid_required_attributes: list_update(m.bid_required_attributes, msg.bid_required_attributes),
                            ..m
                        }),
                    },
                },
            }
        },
    }
}

/// The current settings that the recorded version calls for: before
/// 0.15.0, from 0.15.0 to 0.15.1, and from 0.15.3 to 0.16.1 the stored
/// settings are read in the shape of that version and converted; otherwise
/// they are read as they are.
pub open spec fn settings_for_version(store: ContractStore) -> Result<InfoModel, ErrorView> {
    match version_of(store) {
        Err(e) => Err(ErrorView::Std(e)),
        Ok(vi) => match semver_version_parse(vi.1) {
            Err(m) => Err(ErrorView::SemverError { msg: m }),
            Ok(p) => {
                let loaded = if parts_below(p, (0, 15, 0)) {
                    load_legacy_converted(store.contract_info)
                } else if parts_in_range(p, (0, 15, 0), (0, 15, 2)) {
                    load_v1_converted(store.contract_info)
                } else if parts_in_range(p, (0, 15, 3), (0, 16, 2)) {
                    load_v2_converted(store.contract_info)
                } else {
                    load_v3(store.contract_info)
                };
                match loaded {
                    Err(e) => Err(ErrorView::Std(e)),
                    Ok(m) => Ok(m),
                }
            },
        },
    }
}

/// The settings after a migration.
pub open spec fn migrate_info_spec(store: ContractStore, api: Api, msg: MigrateMsg) -> Result<InfoModel, ErrorView> {
    match settings_for_version(store) {
        Err(e) => Err(e),
        Ok(m) => apply_migration(m, api, msg),
    }
}

/// The settings after a modification.
pub open spec fn modify_info_spec(store: ContractStore, api: Api, msg: ModifyContractMsg) -> Result<InfoModel, ErrorView> {
    match settings_for_version(store) {
        Err(e) => Err(e),
        Ok(m) => apply_modification(m, api, msg),
    }
}

fn settings_for_version_exec(store: &ContractStore) -> (r: Result<ContractInfoV3, ContractError>)
    ensures
        match settings_for_version(*store) {
            Ok(m) => r matches Ok(c) && c@ == m,
            Err(e) => r matches Err(err) && err@ == e,
        },
{
    let version_info = get_version_info(store)?;
    let current_version = match semver_parse(&version_info.version) {
        Ok(v) => v,
        Err(msg) => {
            return Err(ContractError::SemverError { msg });
        },
    };
    if matches_below(&current_version, (0, 15, 0)) {
        return match &store.contract_info {
            Some(StoredContractInfo::Legacy(c)) => Ok(legacy_to_v3(c)),
            None => Err(ContractError::Std(not_found_info("ats_smart_contract::contract_info::ContractInfo"))),
            Some(_) => Err(ContractError::Std(parse_err_info("ats_smart_contract::contract_info::ContractInfo"))),
        };
    }
    if matches_range(&current_version, (0, 15, 0), (0, 15, 2)) {
        return match &store.contract_info {
            None => Err(ContractError::Std(not_found_info("ats_smart_contract::contract_info::ContractInfoV1"))),
            Some(StoredContractInfo::Legacy(_)) => Err(ContractError::Std(parse_err_info("ats_smart_contract::contract_info::ContractInfoV1"))),
            Some(StoredContractInfo::V1(c)) => Ok(v1_to_v3(c)),
            Some(StoredContractInfo::V2(c)) => Ok(v2_fields_to_v3(c, false)),
            Some(StoredContractInfo::V3(c)) => {
                let mut r = c.duplicate();
                r.ask_fee_info = None;
                r.bid_fee_info = None;
                Ok(r)
            },
        };
    }
    if matches_range(&current_version, (0, 15, 3), (0, 16, 2)) {
        return match &store.contract_info {
            None => Err(ContractError::Std(not_found_info("ats_smart_contract::contract_info::ContractInfoV2"))),
            Some(StoredContractInfo::Legacy(_)) => Err(ContractError::Std(parse_err_info("ats_smart_contract::contract_info::ContractInfoV2"))),
            Some(StoredContractInfo::V1(c)) => Ok(v1_to_v3(c)),
            Some(StoredContractInfo::V2(c)) => Ok(v2_fields_to_v3(c, true)),
            Some(StoredContractInfo::V3(c)) => {
                let mut r = c.duplicate();
                r.ask_fee_info = None;
                r.bid_fee_info = None;
                Ok(r)
            },
        };
    }
    get_contract_info(store)
}

/// The settings in the current shape, as the recorded version calls for,
/// with the changes the migration message carries; nothing is written.
pub fn migrated_contract_info(store: &ContractStore, api: &Api, msg: &MigrateMsg) -> (r: Result<ContractInfoV3, ContractError>)
    ensures
        match migrate_info_spec(*store, *api, *msg) {
            Ok(m) => r matches Ok(c) && c@ == m,
            Err(e) => r matches Err(err) && err@ == e,
        },
{
    let mut contract_info = settings_for_version_exec(store)?;
    match &msg.approvers {
        None => {},
        Some(approvers) => {
            contract_info.approvers = validate_addresses(api, approvers)?;
        },
    }
    contract_info.ask_fee_info = update_fee(api, contract_info.ask_fee_info, &msg.ask_fee_account, &msg.ask_fee_rate, "ask_fee_rate")?;
    contract_info.bid_fee_info = update_fee(api, contract_info.bid_fee_info, &msg.bid_fee_account, &msg.bid_fee_rate, "ask_fee_rate")?;
    match &msg.ask_required_attributes {
        None => {},
        Some(a) => {
            contract_info.ask_required_attributes = clone_strings(a);
        },
    }
    match &msg.bid_required_attributes {
        None => {},
        Some(b) => {
            contract_info.bid_required_attributes = clone_strings(b);
        },
    }
    Ok(contract_info)
}

/// Migrates the stored settings to the current shape, as the recorded
/// version calls for, and applies the changes the migration message
/// carries; the storage changes only on success.
pub fn migrate_contract_info(store: &mut ContractStore, api: &Api, msg: &MigrateMsg) -> (r: Result<ContractInfoV3, ContractError>)
    ensures
        match migrate_info_spec(*old(store), *api, *msg) {
            Ok(m) => (r matches Ok(c) && c@ == m)
                && (final(store).contract_info matches Some(StoredContractInfo::V3(s)) && s@ == m),
            Err(e) => r matches Err(err) && err@ == e && *final(store) == *old(store),
        },
        final(store).version_info == old(store).version_info,
        final(store).asks == old(store).asks,
        final(store).bids == old(store).bids,
{
    let contract_info = migrated_contract_info(store, api, msg)?;
    let _ = set_contract_info(store, &contract_info);
    Ok(contract_info)
}

/// Migrates the stored settings to the current shape, as the recorded
/// version calls for, and applies the changes of a modification; the
/// storage changes only on success.
pub fn modify_contract_info(store: &mut ContractStore, api: &Api, msg: &ModifyContractMsg) -> (r: Result<ContractInfoV3, ContractError>)
    ensures
        match modify_info_spec(*old(store), *api, *msg) {
            Ok(m) => (r matches Ok(c) && c@ == m)
                && (final(store).contract_info matches Some(StoredContractInfo::V3(s)) && s@ == m),
            Err(e) => r matches Err(err) && err@ == e && *final(store) == *old(store),
        },
        final(store).version_info == old(store).version_info,
        final(store).asks == old(store).asks,
        final(store).bids == old(store).bids,
{
    let mut contract_info = settings_for_version_exec(store)?;
    match &msg.approvers {
        None => {},
        Some(approvers) => {
            contract_info.approvers = validate_addresses(api, approvers)?;
        },
    }
    match &msg.executors {
        None => {},
        Some(executors) => {
            contract_info.executors = validate_addresses(api, executors)?;
        },
    }
    contract_info.ask_fee_info = update_fee(api, contract_info.ask_fee_info, &msg.ask_fee_account, &msg.ask_fee_rate, "ask_fee_rate")?;
    contract_info.bid_fee_info = update_fee(api, contract_info.bid_fee_info, &msg.bid_fee_account, &msg.bid_fee_rate, "ask_fee_rate")?;
    match &msg.ask_required_attributes {
        None => {},
        Some(a) => {
            contract_info.ask_required_attributes = clone_strings(a);
        },
    }
    match &msg.bid_required_attributes {
        None => {},
        Some(b) => {
            contract_info.bid_required_attributes = clone_strings(b);
        },
    }
    let _ = set_contract_info(store, &contract_info);
    Ok(contract_info)
}

} // verus!

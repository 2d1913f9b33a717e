//! The messages and errors of the profiler, a command-line tool that
//! stores the contract on a local chain, sets up an order book under a
//! random name, and places and matches orders to measure their gas.

use crate::msg::QueryMsg;
use rand::distributions::Alphanumeric;
use rand::{thread_rng, Rng};
use uuid::Uuid;
use vstd::prelude::*;
use vstd::arithmetic::power::pow;
use vstd::string::StringExecFns;

verus! {

/// The base denomination the profiler trades.
pub const BASE_DENOM: &'static str = "gme.local";

/// The quote denomination the profiler trades in.
pub const QUOTE_DENOM: &'static str = "usd.local";

/// The profiler's errors that carry plain values.
#[derive(Debug, PartialEq, Eq)]
pub enum ProfilerError {
    /// The local chain's command failed.
    ProvenanceError(String),
    /// A mnemonic phrase was not given.
    MissingMnemonic(String),
    /// Storing the contract gave no answer.
    MissingStoreCodeResponse,
    /// No directory of contract artifacts was given.
    MissingWasmDirectory,
}

/// A failure of the local chain's command, with its message.
pub fn provenance_error<T>(msg: &str) -> (r: Result<T, ProfilerError>)
    ensures
        r matches Err(ProfilerError::ProvenanceError(m)) && m@ == msg@,
{
    Err(ProfilerError::ProvenanceError(msg.to_owned()))
}

/// The question for the ask under an id.
pub fn get_ask(id: String) -> (r: QueryMsg)
    ensures
        r == (QueryMsg::GetAsk { id }),
{
    QueryMsg::GetAsk { id }
}

/// The question for the bid under an id.
pub fn get_bid(id: String) -> (r: QueryMsg)
    ensures
        r == (QueryMsg::GetBid { id }),
{
    QueryMsg::GetBid { id }
}

/// The question for the settings.
pub fn get_contract_info() -> (r: QueryMsg)
    ensures
        r == (QueryMsg::GetContractInfo {}),
{
    QueryMsg::GetContractInfo {}
}

/// The question for the recorded version.
pub fn get_contract_version() -> (r: QueryMsg)
    ensures
        r == (QueryMsg::GetVersionInfo {}),
{
    QueryMsg::GetVersionInfo {}
}

/// An ASCII letter or digit.
pub open spec fn is_alphanumeric(c: char) -> bool {
    ('0' <= c && c <= '9') || ('A' <= c && c <= 'Z') || ('a' <= c && c <= 'z')
}

/// Draws `n` random letters and digits with `rand`'s `thread_rng` sampling
/// the `Alphanumeric` distribution.
///
/// Trusted: as `Alphanumeric`'s `sample` shows, each draw is one of the 62
/// ASCII letters and digits, and `n` are taken; which ones is left unsaid.
#[verifier::external_body]
fn rand_string(n: usize) -> (r: String)
    ensures
        r@.len() == n,
        forall|i: int| 0 <= i < n ==> is_alphanumeric(#[trigger] r@[i]),
{
    thread_rng().sample_iter(&Alphanumeric).take(n).map(char::from).collect()
}

/// The name an order book is bound to.
#[derive(Clone, Debug, PartialEq, Eq)]
pub struct OrderbookName(pub String);

/// The names the profiler gives its order books: "orderbook-", eight letters
/// or digits, and ".sc.pb".
pub open spec fn is_random_orderbook_name(name: Seq<char>) -> bool {
    exists|suffix: Seq<char>|
        #![trigger name_with_suffix(suffix)]
        suffix.len() == 8 && (forall|i: int| 0 <= i < 8 ==> is_alphanumeric(#[trigger] suffix[i]))
            && name == name_with_suffix(suffix)
}

/// "orderbook-", the suffix, and ".sc.pb".
pub open spec fn name_with_suffix(suffix: Seq<char>) -> Seq<char> {
    "orderbook-"@ + suffix + ".sc.pb"@
}

impl OrderbookName {
    /// A name with a random suffix of eight letters and digits.
    pub fn new_random() -> (r: Self)
        ensures
            is_random_orderbook_name(r.0@),
    {
        let suffix = rand_string(8);
        let mut name = "orderbook-".to_owned();
        name.append(suffix.as_str());
        name.append(".sc.pb");
        assert(name@ == name_with_suffix(suffix@));
        OrderbookName(name)
    }

}

impl From<OrderbookName> for String {
    /// The name as text.
    fn from(value: OrderbookName) -> (r: String) {
        value.0
    }
}

impl vstd::std_specs::convert::FromSpecImpl<OrderbookName> for String {
    open spec fn obeys_from_spec() -> bool {
        true
    }

    open spec fn from_spec(value: OrderbookName) -> String {
        value.0
    }
}

impl From<String> for OrderbookName {
    /// A name given as text.
    fn from(value: String) -> (r: OrderbookName) {
        OrderbookName(value)
    }
}

impl vstd::std_specs::convert::FromSpecImpl<String> for OrderbookName {
    open spec fn obeys_from_spec() -> bool {
        true
    }

    open spec fn from_spec(value: String) -> OrderbookName {
        OrderbookName(value)
    }
}

/// The message that sets up an order book, as the profiler sends it.
#[derive(Clone, Debug, PartialEq, Eq)]
pub struct InstantiateMsg {
    pub name: String,
    pub bind_name: String,
    pub base_denom: String,
    pub convertible_base_denoms: Vec<String>,
    pub supported_quote_denoms: Vec<String>,
    pub approvers: Vec<String>,
    pub executors: Vec<String>,
    pub ask_required_attributes: Vec<String>,
    pub bid_required_attributes: Vec<String>,
    pub price_precision: String,
    pub size_increment: String,
}

impl InstantiateMsg {
    /// An order book named and bound as the service, trading the base
    /// "gme.local" in the quote "usd.local", executed by node 0, with no
    /// approvers and no required attributes, prices in whole numbers and
    /// sizes in steps of one.
    pub fn build(node0_address: &str, service_name: String) -> (r: InstantiateMsg)
        ensures
            r.name == service_name,
            r.bind_name == service_name,
            r.base_denom@ == BASE_DENOM@,
            r.convertible_base_denoms@.len() == 0,
            r.supported_quote_denoms@.len() == 1 && r.supported_quote_denoms@[0]@ == QUOTE_DENOM@,
            r.approvers@.len() == 0,
            r.executors@.len() == 1 && r.executors@[0]@ == node0_address@,
            r.ask_required_attributes@.len() == 0,
            r.bid_required_attributes@.len() == 0,
            r.price_precision@ == "0"@,
            r.size_increment@ == "1"@,
    {
        let mut supported_quote_denoms: Vec<String> = Vec::new();
        supported_quote_denoms.push(QUOTE_DENOM.to_owned());
        let mut executors: Vec<String> = Vec::new();
        executors.push(node0_address.to_owned());
        InstantiateMsg {
            name: service_name.clone(),
            bind_name: service_name,
            base_denom: BASE_DENOM.to_owned(),
            convertible_base_denoms: Vec::new(),
            supported_quote_denoms,
            approvers: Vec::new(),
            executors,
            ask_required_attributes: Vec::new(),
            bid_required_attributes: Vec::new(),
            price_precision: "0".to_owned(),
            size_increment: "1".to_owned(),
        }
    }
}

/// An amount of a denomination, as the profiler sends it.
#[derive(Clone, Debug, PartialEq, Eq)]
pub struct RequestCoin {
    pub denom: String,
    pub amount: String,
}

/// The operations the profiler asks the contract for.
#[derive(Clone, Debug, PartialEq, Eq)]
pub enum ExecuteRequest {
    CreateAsk { id: String, quote: String, price: String, base: String, size: String },
    CreateBid {
        id: String,
        base: String,
        price: String,
        size: String,
        quote: String,
        quote_size: String,
        fee: Option<RequestCoin>,
    },
    ExecuteMatch { bid_id: String, ask_id: String, price: String, size: String },
}

#[verifier::external_type_specification]
#[verifier::external_body]
pub struct ExUtf8Error(std::str::Utf8Error);

/// What `std::str::from_utf8` gives back for the bytes: their text, or
/// `None` where they are not UTF-8.
pub uninterp spec fn utf8_decoded(bytes: Seq<u8>) -> Option<Seq<char>>;

/// Reads bytes as text with `std::str::from_utf8`.
///
/// Trusted: the result is the named `utf8_decoded` of the bytes.
#[verifier::external_body]
fn decode_utf8(bytes: &Vec<u8>) -> (r: Result<String, std::str::Utf8Error>)
    ensures
        match r {
            Ok(t) => utf8_decoded(bytes@) == Some(t@),
            Err(_) => utf8_decoded(bytes@) is None,
        },
{
    std::str::from_utf8(bytes).map(|t| t.to_owned())
}

/// The data of a chain response as text: empty where the response has no
/// data, else the data read as UTF-8, or the error of reading it.
pub fn to_utf8_string(data: &Option<Vec<u8>>) -> (r: Result<String, std::str::Utf8Error>)
    ensures
        match data {
            None => r matches Ok(t) && t@ == Seq::<char>::empty(),
            Some(bytes) => match utf8_decoded(bytes@) {
                Some(t) => r matches Ok(s) && s@ == t,
                None => r is Err,
            },
        },
{
    match data {
        None => Ok(String::new()),
        Some(bytes) => decode_utf8(bytes),
    }
}

/// A hexadecimal digit, lower case.
pub open spec fn lower_hex_char(d: int) -> char {
    if d < 10 {
        (d + 48) as char
    } else {
        (d + 87) as char
    }
}

/// The 32 lower-case hexadecimal digits of a 128-bit value, most
/// significant first.
pub open spec fn hex_of_u128(id: u128) -> Seq<char> {
    Seq::new(32, |i: int| lower_hex_char((id as int / pow(16, (31 - i) as nat)) % 16))
}

/// The text of a UUID given by its 128-bit value, as `Uuid`'s `Display`
/// writes it: its 32 lower-case hexadecimal digits in groups of 8, 4, 4, 4
/// and 12, joined by hyphens.
pub open spec fn uuid_hyphenated(id: u128) -> Seq<char> {
    let h = hex_of_u128(id);
    h.subrange(0, 8) + seq!['-'] + h.subrange(8, 12) + seq!['-'] + h.subrange(12, 16) + seq!['-']
        + h.subrange(16, 20) + seq!['-'] + h.subrange(20, 32)
}

/// Writes a UUID given by its value with `Uuid::from_u128` and `Uuid`'s
/// `Display` (`uuid`).
///
/// Trusted: as `from_u128` (the value's bytes, most significant first) and
/// the hyphenated lower-case format show, the text is `uuid_hyphenated` of
/// the value.
#[verifier::external_body]
fn uuid_text(id: u128) -> (r: String)
    ensures
        r@ == uuid_hyphenated(id),
{
    Uuid::from_u128(id).to_string()
}

/// A bid for `size` of the base at `price`, paying `quote_size` of the
/// quote, without a fee, under the UUID with value `id`.
pub fn create_bid(id: u128, base_denom: &str, price: &str, size: &str, quote_denom: &str, quote_size: &str) -> (r: ExecuteRequest)
    ensures
        r matches ExecuteRequest::CreateBid { id: i, base, price: p, size: s, quote, quote_size: qs, fee }
            && i@ == uuid_hyphenated(id) && base@ == base_denom@ && p@ == price@ && s@ == size@ && quote@ == quote_denom@
            && qs@ == quote_size@ && fee is None,
{
    ExecuteRequest::CreateBid {
        id: uuid_text(id),
        base: base_denom.to_owned(),
        price: price.to_owned(),
        size: size.to_owned(),
        quote: quote_denom.to_owned(),
        quote_size: quote_size.to_owned(),
        fee: None,
    }
}

/// An ask of `size` of the base at `price` in the quote, under the UUID
/// with value `id`.
pub fn create_ask(id: u128, quote_denom: &str, price: &str, base_denom: &str, size: &str) -> (r: ExecuteRequest)
    ensures
        r matches ExecuteRequest::CreateAsk { id: i, quote, price: p, base, size: s }
            && i@ == uuid_hyphenated(id) && quote@ == quote_denom@ && p@ == price@ && base@ == base_denom@ && s@ == size@,
{
    ExecuteRequest::CreateAsk {
        id: uuid_text(id),
        quote: quote_denom.to_owned(),
        price: price.to_owned(),
        base: base_denom.to_owned(),
        size: size.to_owned(),
    }
}

/// A match of the bid and the ask with the given UUID values, at `price`
/// for `size`.
pub fn execute_match(bid_id: u128, ask_id: u128, price: &str, size: &str) -> (r: ExecuteRequest)
    ensures
        r matches ExecuteRequest::ExecuteMatch { bid_id: b, ask_id: a, price: p, size: s }
            && b@ == uuid_hyphenated(bid_id) && a@ == uuid_hyphenated(ask_id) && p@ == price@ && s@ == size@,
{
    ExecuteRequest::ExecuteMatch {
        bid_id: uuid_text(bid_id),
        ask_id: uuid_text(ask_id),
        price: price.to_owned(),
        size: size.to_owned(),
    }
}

/// The code of the contract to use: the code id given, else the one the
/// configuration records; `None` means the contract must be stored first.
pub fn code_id_to_use(code_id: Option<u64>, configured: Option<u64>) -> (r: Option<u64>)
    ensures
        r == (if code_id is Some { code_id } else { configured }),
{
    match code_id {
        Some(id) => Some(id),
        None => configured,
    }
}

} // verus!

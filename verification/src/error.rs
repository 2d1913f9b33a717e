//! The errors the contract answers with.

use crate::common::views;
use vstd::prelude::*;
use vstd::string::StringExecFns;

verus! {

/// The arithmetic operation that overflowed.
#[derive(Clone, Copy, Debug, PartialEq, Eq)]
pub enum OverflowOperation {
    Add,
    Sub,
}

/// Errors of the storage and of the chain's address checks.
#[derive(Debug, PartialEq, Eq)]
pub enum StdError {
    /// Nothing is stored under the key: `kind` names the type looked for.
    NotFound { kind: String },
    /// The stored value is not of the type looked for.
    ParseErr { target_type: String },
    /// An amount overflowed.
    Overflow { operation: OverflowOperation, operand1: u128, operand2: u128 },
    /// The chain does not accept the address.
    InvalidAddress { address: String },
    /// Any other failure, with its message.
    GenericErr { msg: String },
}

impl Clone for StdError {
    fn clone(&self) -> (r: Self)
        ensures
            r == *self,
    {
        match self {
            StdError::NotFound { kind } => StdError::NotFound { kind: kind.clone() },
            StdError::ParseErr { target_type } => StdError::ParseErr { target_type: target_type.clone() },
            StdError::Overflow { operation, operand1, operand2 } => StdError::Overflow {
                operation: *operation,
                operand1: *operand1,
                operand2: *operand2,
            },
            StdError::InvalidAddress { address } => StdError::InvalidAddress { address: address.clone() },
            StdError::GenericErr { msg } => StdError::GenericErr { msg: msg.clone() },
        }
    }
}

/// The errors of the contract.
#[derive(Debug, PartialEq, Eq)]
pub enum ContractError {
    AskBidPriceMismatch,
    AskOrderNotReady { current_status: String },
    AskOrderReady { approver: String },
    BaseQuantity,
    BidFeeAccountMissing,
    BidOrderNotFound,
    BidOrderFeeInsufficientFunds,
    CancelWithFunds,
    ExecuteWithFunds,
    ExpireWithFunds,
    InvalidFeeSize { fee_rate: String },
    InconvertibleBaseDenom,
    InvalidExecutePrice,
    InvalidExecuteSize,
    InvalidFields { fields: Vec<String> },
    InvalidPricePrecisionSizePair,
    LoadOrderFailed { error: StdError },
    NonIntegerTotal,
    QuoteQuantity,
    SentFundsOrderMismatch,
    Std(StdError),
    JsonSerde { msg: String },
    SemverError { msg: String },
    TotalOverflow,
    Unauthorized,
    UnsupportedQuoteDenom,
    UnsupportedUpgrade { source_version: String, target_version: String },
}

/// A storage or chain error, with its texts as character sequences.
pub ghost enum StdErrorView {
    NotFound { kind: Seq<char> },
    ParseErr { target_type: Seq<char> },
    Overflow { operation: OverflowOperation, operand1: u128, operand2: u128 },
    InvalidAddress { address: Seq<char> },
    GenericErr { msg: Seq<char> },
}

impl View for StdError {
    type V = StdErrorView;

    open spec fn view(&self) -> StdErrorView {
        match *self {
            StdError::NotFound { kind } => StdErrorView::NotFound { kind: kind@ },
            StdError::ParseErr { target_type } => StdErrorView::ParseErr { target_type: target_type@ },
            StdError::Overflow { operation, operand1, operand2 } => StdErrorView::Overflow { operation, operand1, operand2 },
            StdError::InvalidAddress { address } => StdErrorView::InvalidAddress { address: address@ },
            StdError::GenericErr { msg } => StdErrorView::GenericErr { msg: msg@ },
        }
    }
}

/// A contract error, with its texts as character sequences.
pub ghost enum ErrorView {
    AskBidPriceMismatch,
    AskOrderNotReady { current_status: Seq<char> },
    AskOrderReady { approver: Seq<char> },
    BaseQuantity,
    BidFeeAccountMissing,
    BidOrderNotFound,
    BidOrderFeeInsufficientFunds,
    CancelWithFunds,
    ExecuteWithFunds,
    ExpireWithFunds,
    InvalidFeeSize { fee_rate: Seq<char> },
    InconvertibleBaseDenom,
    InvalidExecutePrice,
    InvalidExecuteSize,
    InvalidFields { fields: Seq<Seq<char>> },
    InvalidPricePrecisionSizePair,
    LoadOrderFailed { error: StdErrorView },
    NonIntegerTotal,
    QuoteQuantity,
    SentFundsOrderMismatch,
    Std(StdErrorView),
    JsonSerde { msg: Seq<char> },
    SemverError { msg: Seq<char> },
    TotalOverflow,
    Unauthorized,
    UnsupportedQuoteDenom,
    UnsupportedUpgrade { source_version: Seq<char>, target_version: Seq<char> },
}

impl View for ContractError {
    type V = ErrorView;

    open spec fn view(&self) -> ErrorView {
        match *self {
            ContractError::AskBidPriceMismatch => ErrorView::AskBidPriceMismatch,
            ContractError::AskOrderNotReady { current_status } => ErrorView::AskOrderNotReady { current_status: current_status@ },
            ContractError::AskOrderReady { approver } => ErrorView::AskOrderReady { approver: approver@ },
            ContractError::BaseQuantity => ErrorView::BaseQuantity,
            ContractError::BidFeeAccountMissing => ErrorView::BidFeeAccountMissing,
            ContractError::BidOrderNotFound => ErrorView::BidOrderNotFound,
            ContractError::BidOrderFeeInsufficientFunds => ErrorView::BidOrderFeeInsufficientFunds,
            ContractError::CancelWithFunds => ErrorView::CancelWithFunds,
            ContractError::ExecuteWithFunds => ErrorView::ExecuteWithFunds,
            ContractError::ExpireWithFunds => ErrorView::ExpireWithFunds,
            ContractError::InvalidFeeSize { fee_rate } => ErrorView::InvalidFeeSize { fee_rate: fee_rate@ },
            ContractError::InconvertibleBaseDenom => ErrorView::InconvertibleBaseDenom,
            ContractError::InvalidExecutePrice => ErrorView::InvalidExecutePrice,
            ContractError::InvalidExecuteSize => ErrorView::InvalidExecuteSize,
            ContractError::InvalidFields { fields } => ErrorView::InvalidFields { fields: views(fields@) },
            ContractError::InvalidPricePrecisionSizePair => ErrorView::InvalidPricePrecisionSizePair,
            ContractError::LoadOrderFailed { error } => ErrorView::LoadOrderFailed { error: error@ },
            ContractError::NonIntegerTotal => ErrorView::NonIntegerTotal,
            ContractError::QuoteQuantity => ErrorView::QuoteQuantity,
            ContractError::SentFundsOrderMismatch => ErrorView::SentFundsOrderMismatch,
            ContractError::Std(e) => ErrorView::Std(e@),
            ContractError::JsonSerde { msg } => ErrorView::JsonSerde { msg: msg@ },
            ContractError::SemverError { msg } => ErrorView::SemverError { msg: msg@ },
            ContractError::TotalOverflow => ErrorView::TotalOverflow,
            ContractError::Unauthorized => ErrorView::Unauthorized,
            ContractError::UnsupportedQuoteDenom => ErrorView::UnsupportedQuoteDenom,
            ContractError::UnsupportedUpgrade { source_version, target_version } => ErrorView::UnsupportedUpgrade {
                source_version: source_version@,
                target_version: target_version@,
            },
        }
    }
}

/// `InvalidFields` naming one field.
pub open spec fn field_error(name: Seq<char>) -> ErrorView {
    ErrorView::InvalidFields { fields: seq![name] }
}

/// `ContractError::InvalidFields` naming one field.
pub fn invalid_field(name: &str) -> (r: ContractError)
    ensures
        r@ == field_error(name@),
{
    let mut fields: Vec<String> = Vec::new();
    fields.push(name.to_owned());
    assert(views(fields@) =~= seq![name@]);
    ContractError::InvalidFields { fields }
}

/// A storage error that a read of a missing or unreadable value gives,
/// as the generic error with its text that a contract error turns into
/// (`"<kind> not found"`, or `"Error parsing into type <type>: invalid
/// shape"`); any other error as it is.
pub open spec fn generic_of(e: StdErrorView) -> StdErrorView {
    match e {
        StdErrorView::NotFound { kind } => StdErrorView::GenericErr { msg: kind + " not found"@ },
        StdErrorView::ParseErr { target_type } => StdErrorView::GenericErr {
            msg: "Error parsing into type "@ + target_type + ": invalid shape"@,
        },
        _ => e,
    }
}

/// The generic error, with the error's text, that a read error of the
/// storage turns into when it leaves as a contract error.
pub fn to_generic(e: StdError) -> (r: StdError)
    ensures
        r@ == generic_of(e@),
{
    match e {
        StdError::NotFound { kind } => StdError::GenericErr { msg: kind.concat(" not found") },
        StdError::ParseErr { target_type } => {
            let msg = String::from_str("Error parsing into type ").concat(target_type.as_str()).concat(": invalid shape");
            StdError::GenericErr { msg }
        },
        other => other,
    }
}

} // verus!

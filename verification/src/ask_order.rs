//! Ask orders: offers to sell base for a quote denomination.

use crate::common::Coin;
use crate::error::{ContractError, ErrorView};
use crate::msg::MigrateMsg;
use crate::store::ContractStore;
use crate::version_info::{require_recorded_version, version_requirement};
use vstd::prelude::*;

verus! {

/// Where a convertible ask stands: waiting for the issuer of its base, or
/// approved, with the approver and the base that the approver converted.
#[derive(Debug, PartialEq, Eq)]
pub enum AskOrderStatus {
    PendingIssuerApproval,
    Ready { approver: String, converted_base: Coin },
}

impl Clone for AskOrderStatus {
    fn clone(&self) -> (r: Self)
        ensures
            r == *self,
    {
        match self {
            AskOrderStatus::PendingIssuerApproval => AskOrderStatus::PendingIssuerApproval,
            AskOrderStatus::Ready { approver, converted_base } => AskOrderStatus::Ready {
                approver: approver.clone(),
                converted_base: converted_base.clone(),
            },
        }
    }
}

/// An ask in the contract's base denomination, or in a convertible one.
#[derive(Debug, PartialEq, Eq)]
pub enum AskOrderClass {
    Basic,
    Convertible { status: AskOrderStatus },
}

impl Clone for AskOrderClass {
    fn clone(&self) -> (r: Self)
        ensures
            r == *self,
    {
        match self {
            AskOrderClass::Basic => AskOrderClass::Basic,
            AskOrderClass::Convertible { status } => AskOrderClass::Convertible { status: status.clone() },
        }
    }
}

/// An offer to sell `size` of `base` at `price` (a decimal in text) in
/// `quote`.
#[derive(Debug, PartialEq, Eq)]
pub struct AskOrderV1 {
    pub id: String,
    pub owner: String,
    pub class: AskOrderClass,
    pub base: String,
    pub quote: String,
    pub price: String,
    pub size: u128,
}

impl Clone for AskOrderV1 {
    fn clone(&self) -> (r: Self)
        ensures
            r == *self,
    {
        AskOrderV1 {
            id: self.id.clone(),
            owner: self.owner.clone(),
            class: self.class.clone(),
            base: self.base.clone(),
            quote: self.quote.clone(),
            price: self.price.clone(),
            size: self.size,
        }
    }
}

/// The stored asks need no change from version 0.15.0 on, where their
/// shape was introduced: the migration succeeds exactly when the recorded
/// version is a release of at least 0.15.0.
pub open spec fn ask_migration_spec(store: ContractStore) -> Result<(), ErrorView> {
    match version_requirement(store, (0, 15, 0), ">=0.15.0"@) {
        Ok(_) => Ok(()),
        Err(e) => Err(e),
    }
}

/// Checks that the stored asks are in the current shape.
pub fn migrate_ask_orders(store: &ContractStore, msg: &MigrateMsg) -> (r: Result<(), ContractError>)
    ensures
        match ask_migration_spec(*store) {
            Ok(()) => r is Ok,
            Err(e) => r matches Err(err) && err@ == e,
        },
{
    require_recorded_version(store, ">=0.15.0", (0, 15, 0))?;
    Ok(())
}

} // verus!

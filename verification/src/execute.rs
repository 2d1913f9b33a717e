//! Operations of the contract that have a module of their own.

pub mod modify_contract;

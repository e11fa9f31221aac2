//! A two-party escrow: each party commits an agreed bundle of coins, and once
//! both have committed the bundles are swapped. Until then either party may
//! take its own bundle back.
//!
//! The record and its operations are ordinary values and functions. The host
//! that stores the record, authenticates callers and moves coins lives
//! outside this crate: it hands in the record, the caller and the attached
//! coins, and receives the new record and the transfers to perform.

pub mod bundle;
pub mod contract;
pub mod error;
pub mod laws;
pub mod model;
pub mod msg;
pub mod state;

pub use crate::contract::{execute, instantiate, query};
pub use crate::error::ContractError;
pub use crate::msg::{
    Attribute, BankMsg, ConfigResponse, ExecuteMsg, InstantiateMsg, MessageInfo, QueryMsg, Response,
};
pub use crate::state::{Coin, Config, Party};

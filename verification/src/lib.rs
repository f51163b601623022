//! Guest accounts for a non-fungible token ledger.
//!
//! A guest is a participant who has no account of their own yet and is known
//! only by a signing key. The ledger sponsors a bounded number of mints for
//! each guest, lets a guest delegate one marketplace listing per token, and
//! finally promotes the guest to an independent account in two phases: a
//! request that describes the account to create, and a completion that
//! removes the guest record once the host confirms the creation.
//!
//! Every operation is a function from the ledger state and the caller's
//! context to a new state and a description of what the host has to send.
//! Nothing here talks to the host: reading the caller's identity, persisting
//! the state and dispatching requests belong to the embedding program.

pub mod account;
pub mod contract;
pub mod error;
pub mod guests;
pub mod host;
pub mod keys;
pub mod keyset;
pub mod laws;
pub mod mint;
pub mod model;
pub mod sale;
pub mod table;
pub mod types;
pub mod upgrade;

pub use crate::account::ValidAccountId;
pub use crate::contract::Contract;
pub use crate::error::ContractError;
pub use crate::types::{Guest, GuestSale, Token, TokenId};
pub use crate::upgrade::ExtContract;

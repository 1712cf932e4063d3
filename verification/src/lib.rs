//! A per-identity custody vault built on deterministic address derivation.
//!
//! Each identity owns one state record and one vault. The state record's
//! address is derived from a fixed label and the identity's address; the
//! vault's address is derived from a fixed label and the state record's
//! address. The record stores the two derivation proof bytes, and every
//! operation that moves funds out of the vault must re-derive the supplied
//! addresses from those stored bytes before any balance moves.

pub mod address;
pub mod custody;
pub mod laws;
pub mod model;

pub use address::Address;
pub use address::address_eq;
pub use address::signing_seeds;
pub use custody::Custody;
pub use model::CloseEvent;
pub use model::DepositEvent;
pub use model::InitializeEvent;
pub use model::VaultError;
pub use model::VaultState;
pub use model::WithdrawEvent;

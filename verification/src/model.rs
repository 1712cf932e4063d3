//! The data model of the custody protocol and its mathematical transitions.
//!
//! [`CustodyModel`] is the abstract state of one identity's custody world:
//! the identity's address, the program id, the optional state record, and
//! the two balances. Each operation is specified here as a total function on
//! that model, together with its success condition and the error it returns
//! when it fails. The executable operations in [`crate::custody`] promise to
//! follow these functions exactly.

use vstd::prelude::*;

use crate::address::pda_of;
use crate::address::rederived_of;
use crate::address::state_label;
use crate::address::vault_label;

verus! {

/// The persistent state record: the two derivation proof bytes stored at
/// initialize time. `vault_proof` re-derives the vault's address from the
/// state record's address; `state_proof` re-derives the state record's own
/// address from the identity's address.
#[derive(Clone, Copy, Debug, PartialEq, Eq, Structural)]
pub struct VaultState {
    pub vault_proof: u8,
    pub state_proof: u8,
}

/// A named failure of one operation. Every operation either commits fully
/// or returns one of these and changes nothing.
#[derive(Clone, Copy, Debug, PartialEq, Eq, Structural)]
pub enum VaultError {
    /// A supplied address does not re-derive from its seeds and the stored
    /// proof byte, or a seed tuple derives no address at all.
    DerivationMismatch,
    /// Initialize was called while a state record already exists.
    DuplicateRecord,
    /// The source account's balance is smaller than the requested amount.
    InsufficientBalance,
    /// The operation referenced an identity with no state record.
    MissingRecord,
}

/// Emitted by a successful initialize.
#[derive(Debug)]
pub struct InitializeEvent {
    pub user: crate::address::Address,
    pub vault_state: crate::address::Address,
    pub vault: crate::address::Address,
}

/// Emitted by a successful deposit.
#[derive(Debug)]
pub struct DepositEvent {
    pub user: crate::address::Address,
    pub amount: u64,
}

/// Emitted by a successful withdraw.
#[derive(Debug)]
pub struct WithdrawEvent {
    pub user: crate::address::Address,
    pub amount: u64,
}

/// Emitted by a successful close.
#[derive(Debug)]
pub struct CloseEvent {
    pub user: crate::address::Address,
    pub vault_state: crate::address::Address,
}

/// The abstract state of one identity's custody world.
pub struct CustodyModel {
    /// The identity's address.
    pub user: Seq<u8>,
    /// The program id under which addresses are derived.
    pub program: Seq<u8>,
    /// The state record, if one exists.
    pub record: Option<VaultState>,
    /// The vault's balance.
    pub vault_balance: u64,
    /// The identity's balance.
    pub user_balance: u64,
}

/// Well-formedness of a custody model: real addresses, and a total balance
/// that fits the balance type (the ledger's supply bound).
pub open spec fn wf_model(m: CustodyModel) -> bool {
    &&& m.user.len() == 32
    &&& m.program.len() == 32
    &&& m.user_balance + m.vault_balance <= u64::MAX
}

/// The stored state proof byte re-derives `state_addr` from the identity.
pub open spec fn state_rederives(m: CustodyModel, rec: VaultState, state_addr: Seq<u8>) -> bool {
    rederived_of(state_label(), m.user, rec.state_proof, m.program) == Some(state_addr)
}

/// The stored vault proof byte re-derives `vault_addr` from `state_addr`.
pub open spec fn vault_rederives(m: CustodyModel, rec: VaultState, state_addr: Seq<u8>, vault_addr: Seq<u8>) -> bool {
    rederived_of(vault_label(), state_addr, rec.vault_proof, m.program) == Some(vault_addr)
}

/// A state record exists and both supplied addresses re-derive from the
/// proof bytes it stores.
pub open spec fn derivation_ok(m: CustodyModel, state_addr: Seq<u8>, vault_addr: Seq<u8>) -> bool {
    &&& m.record matches Some(rec)
    &&& state_rederives(m, m.record.unwrap(), state_addr)
    &&& vault_rederives(m, m.record.unwrap(), state_addr, vault_addr)
}

/// What the derivation search yields for the state record's address.
pub open spec fn init_state_pda(m: CustodyModel) -> Option<(Seq<u8>, u8)> {
    pda_of(state_label(), m.user, m.program)
}

/// What the derivation search yields for the vault's address, anchored at
/// the derived state record address.
pub open spec fn init_vault_pda(m: CustodyModel) -> Option<(Seq<u8>, u8)> {
    match init_state_pda(m) {
        Some(sp) => pda_of(vault_label(), sp.0, m.program),
        None => None,
    }
}

/// Initialize succeeds exactly when no record exists yet and both
/// derivation searches find an address.
pub open spec fn init_allowed(m: CustodyModel) -> bool {
    &&& m.record is None
    &&& init_state_pda(m) is Some
    &&& init_vault_pda(m) is Some
}

/// The record that a successful initialize stores.
pub open spec fn init_record(m: CustodyModel) -> VaultState
    recommends
        init_allowed(m),
{
    VaultState {
        vault_proof: init_vault_pda(m).unwrap().1,
        state_proof: init_state_pda(m).unwrap().1,
    }
}

/// The custody world after initialize: the record is created; nothing else
/// changes. A failing initialize changes nothing.
pub open spec fn init_step(m: CustodyModel) -> CustodyModel {
    if init_allowed(m) {
        CustodyModel { record: Some(init_record(m)), ..m }
    } else {
        m
    }
}

/// The error a failing initialize returns.
pub open spec fn init_error(m: CustodyModel) -> VaultError {
    if m.record is Some {
        VaultError::DuplicateRecord
    } else {
        VaultError::DerivationMismatch
    }
}

/// Deposit succeeds exactly when the record exists, both supplied addresses
/// re-derive, and the identity's balance covers the amount.
pub open spec fn deposit_allowed(m: CustodyModel, state_addr: Seq<u8>, vault_addr: Seq<u8>, amount: u64) -> bool {
    &&& derivation_ok(m, state_addr, vault_addr)
    &&& amount <= m.user_balance
}

/// The custody world after deposit: the amount moves from the identity to
/// the vault. A failing deposit changes nothing.
pub open spec fn deposit_step(m: CustodyModel, state_addr: Seq<u8>, vault_addr: Seq<u8>, amount: u64) -> CustodyModel {
    if deposit_allowed(m, state_addr, vault_addr, amount) {
        CustodyModel {
            user_balance: (m.user_balance - amount) as u64,
            vault_balance: (m.vault_balance + amount) as u64,
            ..m
        }
    } else {
        m
    }
}

/// The error a failing deposit returns: a missing record first, then a
/// derivation mismatch, then an insufficient identity balance.
pub open spec fn deposit_error(m: CustodyModel, state_addr: Seq<u8>, vault_addr: Seq<u8>, amount: u64) -> VaultError {
    if m.record is None {
        VaultError::MissingRecord
    } else if !derivation_ok(m, state_addr, vault_addr) {
        VaultError::DerivationMismatch
    } else {
        VaultError::InsufficientBalance
    }
}

/// Withdraw succeeds exactly when the record exists, both supplied
/// addresses re-derive, and the vault's balance covers the amount.
pub open spec fn withdraw_allowed(m: CustodyModel, state_addr: Seq<u8>, vault_addr: Seq<u8>, amount: u64) -> bool {
    &&& derivation_ok(m, state_addr, vault_addr)
    &&& amount <= m.vault_balance
}

/// The custody world after withdraw: the amount moves from the vault to the
/// identity. A failing withdraw changes nothing.
pub open spec fn withdraw_step(m: CustodyModel, state_addr: Seq<u8>, vault_addr: Seq<u8>, amount: u64) -> CustodyModel {
    if withdraw_allowed(m, state_addr, vault_addr, amount) {
        CustodyModel {
            user_balance: (m.user_balance + amount) as u64,
            vault_balance: (m.vault_balance - amount) as u64,
            ..m
        }
    } else {
        m
    }
}

/// The error a failing withdraw returns: a missing record first, then a
/// derivation mismatch, then an insufficient vault balance.
pub open spec fn withdraw_error(m: CustodyModel, state_addr: Seq<u8>, vault_addr: Seq<u8>, amount: u64) -> VaultError {
    if m.record is None {
        VaultError::MissingRecord
    } else if !derivation_ok(m, state_addr, vault_addr) {
        VaultError::DerivationMismatch
    } else {
        VaultError::InsufficientBalance
    }
}

/// Close succeeds exactly when the record exists and both supplied
/// addresses re-derive.
pub open spec fn close_allowed(m: CustodyModel, state_addr: Seq<u8>, vault_addr: Seq<u8>) -> bool {
    derivation_ok(m, state_addr, vault_addr)
}

/// The custody world after close: the whole vault balance moves to the
/// identity, then the record is destroyed. A failing close changes nothing.
pub open spec fn close_step(m: CustodyModel, state_addr: Seq<u8>, vault_addr: Seq<u8>) -> CustodyModel {
    if close_allowed(m, state_addr, vault_addr) {
        CustodyModel {
            record: None,
            vault_balance: 0,
            user_balance: (m.user_balance + m.vault_balance) as u64,
            ..m
        }
    } else {
        m
    }
}

/// The error a failing close returns: a missing record first, then a
/// derivation mismatch.
pub open spec fn close_error(m: CustodyModel, state_addr: Seq<u8>, vault_addr: Seq<u8>) -> VaultError {
    if m.record is None {
        VaultError::MissingRecord
    } else {
        VaultError::DerivationMismatch
    }
}

} // verus!

//! The executable custody operations.
//!
//! [`Custody`] holds one identity's custody world and offers the four
//! operations of the protocol. Each operation's contract says that the new
//! state is exactly the corresponding transition of [`crate::model`], that
//! success happens exactly when the model allows it, and which error comes
//! back otherwise. The address checks call the re-derivation primitive at
//! run time, just as the host's account validation would.

use vstd::prelude::*;

use crate::address::Address;
use crate::address::address_eq;
use crate::address::derive_address;
use crate::address::rederive_address;
use crate::address::state_label_bytes;
use crate::address::vault_label_bytes;
use crate::model::CloseEvent;
use crate::model::CustodyModel;
use crate::model::DepositEvent;
use crate::model::InitializeEvent;
use crate::model::VaultError;
use crate::model::VaultState;
use crate::model::WithdrawEvent;
use crate::model::close_allowed;
use crate::model::close_error;
use crate::model::close_step;
use crate::model::deposit_allowed;
use crate::model::deposit_error;
use crate::model::deposit_step;
use crate::model::derivation_ok;
use crate::model::init_allowed;
use crate::model::init_error;
use crate::model::init_record;
use crate::model::init_state_pda;
use crate::model::init_step;
use crate::model::init_vault_pda;
use crate::model::wf_model;
use crate::model::withdraw_allowed;
use crate::model::withdraw_error;
use crate::model::withdraw_step;

verus! {

/// One identity's custody world: the identity and program addresses, the
/// optional state record, and the two balances.
pub struct Custody {
    user: Address,
    program: Address,
    record: Option<VaultState>,
    vault_balance: u64,
    user_balance: u64,
}

impl View for Custody {
    type V = CustodyModel;

    closed spec fn view(&self) -> CustodyModel {
        CustodyModel {
            user: self.user@,
            program: self.program@,
            record: self.record,
            vault_balance: self.vault_balance,
            user_balance: self.user_balance,
        }
    }
}

impl Custody {
    /// The custody world is well formed.
    pub open spec fn wf(&self) -> bool {
        wf_model(self@)
    }

    /// A fresh custody world: no state record yet, an empty vault, and the
    /// identity holding `user_balance`.
    pub fn new(user: Address, program: Address, user_balance: u64) -> (r: Custody)
        requires
            user.wf(),
            program.wf(),
        ensures
            r@ == (CustodyModel {
                user: user@,
                program: program@,
                record: None,
                vault_balance: 0,
                user_balance,
            }),
            r.wf(),
    {
        Custody { user, program, record: None, vault_balance: 0, user_balance }
    }

    /// A custody world resumed from stored parts; rejects balances whose
    /// total does not fit the balance type.
    pub fn from_parts(user: Address, program: Address, record: Option<VaultState>, vault_balance: u64, user_balance: u64) -> (r: Option<Custody>)
        requires
            user.wf(),
            program.wf(),
        ensures
            r is Some <==> user_balance + vault_balance <= u64::MAX,
            r matches Some(c) ==> c@ == (CustodyModel {
                user: user@,
                program: program@,
                record,
                vault_balance,
                user_balance,
            }) && c.wf(),
    {
        if vault_balance <= u64::MAX - user_balance {
            Some(Custody { user, program, record, vault_balance, user_balance })
        } else {
            None
        }
    }

    /// The vault's current balance.
    pub fn vault_balance(&self) -> (r: u64)
        ensures
            r == self@.vault_balance,
    {
        self.vault_balance
    }

    /// The identity's current balance.
    pub fn user_balance(&self) -> (r: u64)
        ensures
            r == self@.user_balance,
    {
        self.user_balance
    }

    /// The state record, if one exists.
    pub fn record(&self) -> (r: Option<VaultState>)
        ensures
            r == self@.record,
    {
        self.record
    }

    /// Creates the state record: derives the state record's address from
    /// the identity and the vault's address from the state record's
    /// address, and stores the two proof bytes. Fails with
    /// `DuplicateRecord` when a record already exists, and balances never
    /// change. On success, the event carries the derived addresses, and the
    /// stored proof bytes re-derive exactly those addresses.
    pub fn initialize(&mut self) -> (r: Result<InitializeEvent, VaultError>)
        requires
            old(self).wf(),
        ensures
            final(self)@ == init_step(old(self)@),
            final(self).wf(),
            r is Ok <==> init_allowed(old(self)@),
            r matches Ok(ev) ==> {
                &&& ev.user@ == old(self)@.user
                &&& init_state_pda(old(self)@) == Some((ev.vault_state@, init_record(old(self)@).state_proof))
                &&& init_vault_pda(old(self)@) == Some((ev.vault@, init_record(old(self)@).vault_proof))
                &&& derivation_ok(final(self)@, ev.vault_state@, ev.vault@)
            },
            r matches Err(e) ==> e == init_error(old(self)@),
    {
        if self.record.is_some() {
            return Err(VaultError::DuplicateRecord);
        }
        let state_seed = state_label_bytes();
        let found_state = derive_address(&state_seed, &self.user, &self.program);
        match found_state {
            None => Err(VaultError::DerivationMismatch),
            Some((state_addr, state_proof)) => {
                let vault_seed = vault_label_bytes();
                let found_vault = derive_address(&vault_seed, &state_addr, &self.program);
                match found_vault {
                    None => Err(VaultError::DerivationMismatch),
                    Some((vault_addr, vault_proof)) => {
                        self.record = Some(VaultState { vault_proof, state_proof });
                        Ok(InitializeEvent {
                            user: self.user.dup(),
                            vault_state: state_addr,
                            vault: vault_addr,
                        })
                    },
                }
            },
        }
    }

    /// True exactly when the record exists and both supplied addresses
    /// re-derive from the proof bytes it stores. Re-runs the derivation at
    /// run time, as the host's account validation does.
    fn check_derivation(&self, state_addr: &Address, vault_addr: &Address) -> (r: bool)
        requires
            self.wf(),
            self@.record is Some,
        ensures
            r == derivation_ok(self@, state_addr@, vault_addr@),
    {
        let rec = match self.record {
            Some(rec) => rec,
            None => {
                return false;
            },
        };
        let state_seed = state_label_bytes();
        let derived_state = rederive_address(&state_seed, &self.user, rec.state_proof, &self.program);
        let derived_state = match derived_state {
            Some(a) => a,
            None => {
                return false;
            },
        };
        if !address_eq(&derived_state, state_addr) {
            return false;
        }
        let vault_seed = vault_label_bytes();
        let derived_vault = rederive_address(&vault_seed, state_addr, rec.vault_proof, &self.program);
        let derived_vault = match derived_vault {
            Some(a) => a,
            None => {
                return false;
            },
        };
        address_eq(&derived_vault, vault_addr)
    }

    /// Moves `amount` from the identity to the vault. Fails with
    /// `MissingRecord` when no record exists, `DerivationMismatch` when a
    /// supplied address does not re-derive, and `InsufficientBalance` when
    /// the identity's balance is smaller than the amount; a failing deposit
    /// changes nothing.
    pub fn deposit(&mut self, state_addr: &Address, vault_addr: &Address, amount: u64) -> (r: Result<DepositEvent, VaultError>)
        requires
            old(self).wf(),
        ensures
            final(self)@ == deposit_step(old(self)@, state_addr@, vault_addr@, amount),
            final(self).wf(),
            r is Ok <==> deposit_allowed(old(self)@, state_addr@, vault_addr@, amount),
            r matches Ok(ev) ==> ev.user@ == old(self)@.user && ev.amount == amount,
            r matches Err(e) ==> e == deposit_error(old(self)@, state_addr@, vault_addr@, amount),
    {
        if self.record.is_none() {
            return Err(VaultError::MissingRecord);
        }
        if !self.check_derivation(state_addr, vault_addr) {
            return Err(VaultError::DerivationMismatch);
        }
        if amount > self.user_balance {
            return Err(VaultError::InsufficientBalance);
        }
        self.user_balance = self.user_balance - amount;
        self.vault_balance = self.vault_balance + amount;
        Ok(DepositEvent { user: self.user.dup(), amount })
    }

    /// Moves `amount` from the vault back to the identity, authorized by
    /// the re-derived proof bytes. Fails with `MissingRecord` when no
    /// record exists, `DerivationMismatch` when a supplied address does not
    /// re-derive, and `InsufficientBalance` when the vault's balance is
    /// smaller than the amount; a failing withdraw changes nothing.
    pub fn withdraw(&mut self, state_addr: &Address, vault_addr: &Address, amount: u64) -> (r: Result<WithdrawEvent, VaultError>)
        requires
            old(self).wf(),
        ensures
            final(self)@ == withdraw_step(old(self)@, state_addr@, vault_addr@, amount),
            final(self).wf(),
            r is Ok <==> withdraw_allowed(old(self)@, state_addr@, vault_addr@, amount),
            r matches Ok(ev) ==> ev.user@ == old(self)@.user && ev.amount == amount,
            r matches Err(e) ==> e == withdraw_error(old(self)@, state_addr@, vault_addr@, amount),
    {
        if self.record.is_none() {
            return Err(VaultError::MissingRecord);
        }
        if !self.check_derivation(state_addr, vault_addr) {
            return Err(VaultError::DerivationMismatch);
        }
        if amount > self.vault_balance {
            return Err(VaultError::InsufficientBalance);
        }
        self.vault_balance = self.vault_balance - amount;
        self.user_balance = self.user_balance + amount;
        Ok(WithdrawEvent { user: self.user.dup(), amount })
    }

    /// Drains the whole vault balance to the identity, then destroys the
    /// state record; the transfer comes first, so a failing close leaves
    /// the record in place. Fails with `MissingRecord` when no record
    /// exists and `DerivationMismatch` when a supplied address does not
    /// re-derive; a failing close changes nothing.
    pub fn close_account(&mut self, state_addr: &Address, vault_addr: &Address) -> (r: Result<CloseEvent, VaultError>)
        requires
            old(self).wf(),
        ensures
            final(self)@ == close_step(old(self)@, state_addr@, vault_addr@),
            final(self).wf(),
            r is Ok <==> close_allowed(old(self)@, state_addr@, vault_addr@),
            r matches Ok(ev) ==> ev.user@ == old(self)@.user && ev.vault_state@ == state_addr@,
            r matches Err(e) ==> e == close_error(old(self)@, state_addr@, vault_addr@),
    {
        if self.record.is_none() {
            return Err(VaultError::MissingRecord);
        }
        if !self.check_derivation(state_addr, vault_addr) {
            return Err(VaultError::DerivationMismatch);
        }
        let drained: u64 = self.vault_balance;
        self.vault_balance = 0;
        self.user_balance = self.user_balance + drained;
        self.record = None;
        Ok(CloseEvent { user: self.user.dup(), vault_state: state_addr.dup() })
    }
}

} // verus!

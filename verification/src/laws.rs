//! The protocol's laws, proved over the model transitions.
//!
//! Each law quantifies over every custody model, not over chosen values:
//! the executable operations promise to follow the model transitions
//! exactly, so whatever holds of the transitions holds of every run.

use vstd::prelude::*;

use crate::model::CustodyModel;
use crate::model::VaultError;
use crate::model::close_allowed;
use crate::model::close_error;
use crate::model::close_step;
use crate::model::deposit_allowed;
use crate::model::deposit_step;
use crate::model::derivation_ok;
use crate::model::init_allowed;
use crate::model::init_error;
use crate::model::init_record;
use crate::model::init_step;
use crate::model::vault_rederives;
use crate::model::wf_model;
use crate::model::withdraw_allowed;
use crate::model::withdraw_error;
use crate::model::withdraw_step;

verus! {

/// One deposit or withdraw request against a custody world: the supplied
/// addresses and the amount.
pub enum BalanceOp {
    Deposit { state_addr: Seq<u8>, vault_addr: Seq<u8>, amount: u64 },
    Withdraw { state_addr: Seq<u8>, vault_addr: Seq<u8>, amount: u64 },
}

/// The custody world after one balance operation.
pub open spec fn op_step(m: CustodyModel, op: BalanceOp) -> CustodyModel {
    match op {
        BalanceOp::Deposit { state_addr, vault_addr, amount } => deposit_step(m, state_addr, vault_addr, amount),
        BalanceOp::Withdraw { state_addr, vault_addr, amount } => withdraw_step(m, state_addr, vault_addr, amount),
    }
}

/// The custody world after a sequence of balance operations, applied in
/// order.
pub open spec fn ops_fold(m: CustodyModel, ops: Seq<BalanceOp>) -> CustodyModel
    decreases ops.len(),
{
    if ops.len() == 0 {
        m
    } else {
        ops_fold(op_step(m, ops[0]), ops.subrange(1, ops.len() as int))
    }
}

/// The total amount the successful deposits of the sequence move into the
/// vault, each judged in the state it runs in.
pub open spec fn deposits_total(m: CustodyModel, ops: Seq<BalanceOp>) -> int
    decreases ops.len(),
{
    if ops.len() == 0 {
        0
    } else {
        let here: int = match ops[0] {
            BalanceOp::Deposit { state_addr, vault_addr, amount } =>
                if deposit_allowed(m, state_addr, vault_addr, amount) { amount as int } else { 0 },
            BalanceOp::Withdraw { .. } => 0,
        };
        here + deposits_total(op_step(m, ops[0]), ops.subrange(1, ops.len() as int))
    }
}

/// The total amount the successful withdrawals of the sequence move out of
/// the vault, each judged in the state it runs in.
pub open spec fn withdrawals_total(m: CustodyModel, ops: Seq<BalanceOp>) -> int
    decreases ops.len(),
{
    if ops.len() == 0 {
        0
    } else {
        let here: int = match ops[0] {
            BalanceOp::Withdraw { state_addr, vault_addr, amount } =>
                if withdraw_allowed(m, state_addr, vault_addr, amount) { amount as int } else { 0 },
            BalanceOp::Deposit { .. } => 0,
        };
        here + withdrawals_total(op_step(m, ops[0]), ops.subrange(1, ops.len() as int))
    }
}

/// One balance operation conserves the total balance: the sum of the
/// identity's and the vault's balances never changes, the vault gains
/// exactly a successful deposit's amount, loses exactly a successful
/// withdrawal's amount, and a failing operation changes nothing.
pub proof fn lemma_op_conservation(m: CustodyModel, op: BalanceOp)
    requires
        wf_model(m),
    ensures
        wf_model(op_step(m, op)),
        op_step(m, op).user_balance + op_step(m, op).vault_balance == m.user_balance + m.vault_balance,
        op_step(m, op).user == m.user,
        op_step(m, op).program == m.program,
        op_step(m, op).record == m.record,
        op matches BalanceOp::Deposit { state_addr, vault_addr, amount } ==> op_step(m, op).vault_balance ==
            if deposit_allowed(m, state_addr, vault_addr, amount) { m.vault_balance + amount } else { m.vault_balance as int },
        op matches BalanceOp::Withdraw { state_addr, vault_addr, amount } ==> op_step(m, op).vault_balance ==
            if withdraw_allowed(m, state_addr, vault_addr, amount) { m.vault_balance - amount } else { m.vault_balance as int },
{
}

/// Balance conservation over any sequence of deposits and withdrawals: the
/// vault's final balance is its initial balance plus the sum of the
/// successful deposits minus the sum of the successful withdrawals, and no
/// operation creates or destroys balance.
pub proof fn lemma_balance_conservation(m: CustodyModel, ops: Seq<BalanceOp>)
    requires
        wf_model(m),
    ensures
        wf_model(ops_fold(m, ops)),
        ops_fold(m, ops).vault_balance == m.vault_balance + deposits_total(m, ops) - withdrawals_total(m, ops),
        ops_fold(m, ops).user_balance + ops_fold(m, ops).vault_balance == m.user_balance + m.vault_balance,
    decreases ops.len(),
{
    if ops.len() > 0 {
        lemma_op_conservation(m, ops[0]);
        lemma_balance_conservation(op_step(m, ops[0]), ops.subrange(1, ops.len() as int));
    }
}

/// No double initialize: a first initialize succeeds exactly when no record
/// exists; after it, a second initialize fails with `DuplicateRecord` and
/// leaves the whole world, the stored record included, unchanged.
pub proof fn lemma_no_double_init(m: CustodyModel)
    ensures
        init_allowed(m) ==> !init_allowed(init_step(m)),
        init_allowed(m) ==> init_error(init_step(m)) == VaultError::DuplicateRecord,
        init_allowed(m) ==> init_step(m).record == Some(init_record(m)),
        init_step(init_step(m)) == init_step(m),
        !init_allowed(m) ==> init_step(m) == m,
{
}

/// Withdraw bound: an amount above the vault's balance never succeeds, and
/// when the record exists and the supplied addresses re-derive, the failure
/// is `InsufficientBalance`; the world is unchanged either way.
pub proof fn lemma_withdraw_bound(m: CustodyModel, state_addr: Seq<u8>, vault_addr: Seq<u8>, amount: u64)
    requires
        amount > m.vault_balance,
    ensures
        !withdraw_allowed(m, state_addr, vault_addr, amount),
        withdraw_step(m, state_addr, vault_addr, amount) == m,
        derivation_ok(m, state_addr, vault_addr) ==> withdraw_error(m, state_addr, vault_addr, amount)
            == VaultError::InsufficientBalance,
{
}

/// Close drains fully: a successful close leaves the vault empty, hands the
/// identity exactly the vault's prior balance, and destroys the record.
pub proof fn lemma_close_drains(m: CustodyModel, state_addr: Seq<u8>, vault_addr: Seq<u8>)
    requires
        wf_model(m),
    ensures
        close_allowed(m, state_addr, vault_addr) ==> {
            &&& close_step(m, state_addr, vault_addr).vault_balance == 0
            &&& close_step(m, state_addr, vault_addr).user_balance == m.user_balance + m.vault_balance
            &&& close_step(m, state_addr, vault_addr).record is None
        },
{
}

/// Atomicity under derivation failure: when the stored vault proof byte
/// does not re-derive the supplied vault address, withdraw and close both
/// fail with `DerivationMismatch` and move no balance.
pub proof fn lemma_atomic_on_derivation_mismatch(m: CustodyModel, state_addr: Seq<u8>, vault_addr: Seq<u8>, amount: u64)
    ensures
        m.record matches Some(rec) && !vault_rederives(m, rec, state_addr, vault_addr) ==> {
            &&& !withdraw_allowed(m, state_addr, vault_addr, amount)
            &&& withdraw_step(m, state_addr, vault_addr, amount) == m
            &&& withdraw_error(m, state_addr, vault_addr, amount) == VaultError::DerivationMismatch
            &&& !close_allowed(m, state_addr, vault_addr)
            &&& close_step(m, state_addr, vault_addr) == m
            &&& close_error(m, state_addr, vault_addr) == VaultError::DerivationMismatch
        },
{
}

} // verus!

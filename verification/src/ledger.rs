use crate::directive::{Directive, DirectiveView};
use crate::error::VaultError;
use crate::identity::{zero_bytes, Identity};
use crate::instruction::DepositInstruction;
use crate::record::{spec_decode_record, spec_encode_record, DepositAccount, VaultRecord};
use crate::slot::{Slot, SlotView};
use vstd::prelude::*;

verus! {

/// The record after `depositor` has touched it. An unclaimed record takes
/// the depositor as its owner; a record that another identity owns refuses.
pub open spec fn spec_claim(
    record: VaultRecord,
    depositor: Seq<u8>,
) -> Result<VaultRecord, VaultError> {
    if record.owner == zero_bytes() {
        Ok(VaultRecord { owner: depositor, balance: record.balance })
    } else if record.owner != depositor {
        Err(VaultError::Unauthorized)
    } else {
        Ok(record)
    }
}

/// The record after a deposit of `amount`. An amount of zero is refused, and
/// so is one that would carry the balance past what a record can hold.
pub open spec fn spec_deposit(record: VaultRecord, amount: nat) -> Result<VaultRecord, VaultError> {
    if amount == 0 || record.balance + amount > u64::MAX {
        Err(VaultError::InvalidAmount)
    } else {
        Ok(VaultRecord { owner: record.owner, balance: record.balance + amount })
    }
}

/// The record after a withdrawal of `amount`, refused where the amount
/// exceeds the balance.
pub open spec fn spec_withdraw(
    record: VaultRecord,
    amount: nat,
) -> Result<VaultRecord, VaultError> {
    if amount > record.balance {
        Err(VaultError::InsufficientFunds)
    } else {
        Ok(VaultRecord { owner: record.owner, balance: (record.balance - amount) as nat })
    }
}

/// The quantities of the vault slot and of the depositor slot after `amount`
/// has gone from the first to the second. A vault slot that holds less than
/// `amount` cannot pay, and a depositor slot cannot hold more than `u64::MAX`.
pub open spec fn spec_pay_out(
    vault_quantity: nat,
    depositor_quantity: nat,
    amount: nat,
) -> Result<(nat, nat), VaultError> {
    if amount > vault_quantity {
        Err(VaultError::InsufficientFunds)
    } else if depositor_quantity + amount > u64::MAX {
        Err(VaultError::InvalidAmount)
    } else {
        Ok(((vault_quantity - amount) as nat, depositor_quantity + amount))
    }
}

/// What an instruction of `depositor` does to the vault at `vault` that holds
/// `record`, where the two slots hold the given quantities.
pub open spec fn spec_transition(
    record: VaultRecord,
    depositor: Seq<u8>,
    vault: Seq<u8>,
    instruction: DepositInstruction,
    vault_quantity: nat,
    depositor_quantity: nat,
) -> Result<DirectiveView, VaultError> {
    match spec_claim(record, depositor) {
        Err(e) => Err(e),
        Ok(claimed) => match instruction {
            DepositInstruction::Deposit { amount } => match spec_deposit(claimed, amount as nat) {
                Err(e) => Err(e),
                Ok(next) => Ok(
                    DirectiveView::Transfer {
                        from: depositor,
                        to: vault,
                        amount: amount as nat,
                        record: spec_encode_record(next),
                    },
                ),
            },
            DepositInstruction::Withdraw { amount } => match spec_withdraw(claimed, amount as nat) {
                Err(e) => Err(e),
                Ok(next) => match spec_pay_out(vault_quantity, depositor_quantity, amount as nat) {
                    Err(e) => Err(e),
                    Ok((vault_after, depositor_after)) => Ok(
                        DirectiveView::Settle {
                            vault_quantity: vault_after,
                            depositor_quantity: depositor_after,
                            record: spec_encode_record(next),
                        },
                    ),
                },
            },
        },
    }
}

/// What an instruction does to the vault slot as it stands: the slot's bytes
/// have to decode to a record, and the record goes through the transition.
pub open spec fn spec_ledger(
    depositor: SlotView,
    vault: SlotView,
    instruction: DepositInstruction,
) -> Result<DirectiveView, VaultError> {
    match spec_decode_record(vault.data) {
        None => Err(VaultError::DecodeError),
        Some(record) => spec_transition(
            record,
            depositor.address,
            vault.address,
            instruction,
            vault.quantity,
            depositor.quantity,
        ),
    }
}

/// The view of an outcome: the directive by its view, the error as it is.
pub open spec fn outcome_view(
    outcome: Result<Directive, VaultError>,
) -> Result<DirectiveView, VaultError> {
    match outcome {
        Ok(directive) => Ok(directive@),
        Err(e) => Err(e),
    }
}

impl DepositAccount {
    /// First-touch claim. An unclaimed record takes `depositor` as its owner.
    /// A record owned by another identity refuses with `Unauthorized` and
    /// stays as it was.
    pub fn claim(&mut self, depositor: &Identity) -> (claimed: Result<(), VaultError>)
        ensures
            match spec_claim(old(self)@, depositor@) {
                Ok(record) => claimed is Ok && final(self)@ == record,
                Err(e) => claimed == Err::<(), VaultError>(e) && *final(self) == *old(self),
            },
    {
        if self.owner.is_sentinel() {
            self.owner = *depositor;
            Ok(())
        } else if self.owner != *depositor {
            Err(VaultError::Unauthorized)
        } else {
            Ok(())
        }
    }

    /// Adds `amount` to the balance. Refuses with `InvalidAmount`, and leaves
    /// the record as it was, where `amount` is zero or the sum does not fit.
    pub fn deposit(&mut self, amount: u64) -> (deposited: Result<(), VaultError>)
        ensures
            match spec_deposit(old(self)@, amount as nat) {
                Ok(record) => deposited is Ok && final(self)@ == record,
                Err(e) => deposited == Err::<(), VaultError>(e) && *final(self) == *old(self),
            },
    {
        if amount == 0 {
            return Err(VaultError::InvalidAmount);
        }
        match self.balance.checked_add(amount) {
            Some(sum) => {
                self.balance = sum;
                Ok(())
            },
            None => Err(VaultError::InvalidAmount),
        }
    }

    /// Takes `amount` from the balance. Refuses with `InsufficientFunds`, and
    /// leaves the record as it was, where `amount` exceeds the balance.
    pub fn withdraw(&mut self, amount: u64) -> (withdrawn: Result<(), VaultError>)
        ensures
            match spec_withdraw(old(self)@, amount as nat) {
                Ok(record) => withdrawn is Ok && final(self)@ == record,
                Err(e) => withdrawn == Err::<(), VaultError>(e) && *final(self) == *old(self),
            },
    {
        if amount > self.balance {
            return Err(VaultError::InsufficientFunds);
        }
        self.balance = self.balance - amount;
        Ok(())
    }
}

/// Moves `amount` from the quantity of the vault slot to that of the
/// depositor slot, and returns the two in this order.
pub fn pay_out(
    vault_quantity: u64,
    depositor_quantity: u64,
    amount: u64,
) -> (paid: Result<(u64, u64), VaultError>)
    ensures
        match spec_pay_out(vault_quantity as nat, depositor_quantity as nat, amount as nat) {
            Ok((vault_after, depositor_after)) => paid is Ok && paid->Ok_0.0 == vault_after
                && paid->Ok_0.1 == depositor_after,
            Err(e) => paid == Err::<(u64, u64), VaultError>(e),
        },
{
    if amount > vault_quantity {
        return Err(VaultError::InsufficientFunds);
    }
    match depositor_quantity.checked_add(amount) {
        Some(depositor_after) => Ok((vault_quantity - amount, depositor_after)),
        None => Err(VaultError::InvalidAmount),
    }
}

/// Applies an instruction of `depositor` to `record`, the record of the vault
/// at `vault`, whose slot holds `vault_quantity` while the depositor's slot
/// holds `depositor_quantity`. The directive carries the record to store,
/// encoded.
pub fn transition(
    record: &DepositAccount,
    depositor: &Identity,
    vault: &Identity,
    instruction: &DepositInstruction,
    vault_quantity: u64,
    depositor_quantity: u64,
) -> (outcome: Result<Directive, VaultError>)
    ensures
        outcome_view(outcome) == spec_transition(
            record@,
            depositor@,
            vault@,
            *instruction,
            vault_quantity as nat,
            depositor_quantity as nat,
        ),
{
    let mut next = *record;
    match next.claim(depositor) {
        Err(e) => {
            return Err(e);
        },
        Ok(()) => {},
    }
    match instruction {
        DepositInstruction::Deposit { amount } => {
            match next.deposit(*amount) {
                Err(e) => Err(e),
                Ok(()) => Ok(
                    Directive::Transfer {
                        from: *depositor,
                        to: *vault,
                        amount: *amount,
                        record: next.to_bytes(),
                    },
                ),
            }
        },
        DepositInstruction::Withdraw { amount } => {
            match next.withdraw(*amount) {
                Err(e) => Err(e),
                Ok(()) => match pay_out(vault_quantity, depositor_quantity, *amount) {
                    Err(e) => Err(e),
                    Ok((vault_after, depositor_after)) => Ok(
                        Directive::Settle {
                            vault_quantity: vault_after,
                            depositor_quantity: depositor_after,
                            record: next.to_bytes(),
                        },
                    ),
                },
            }
        },
    }
}

/// Loads the record from the vault slot and applies the instruction to it.
pub fn run_ledger(
    depositor: &Slot,
    vault: &Slot,
    instruction: &DepositInstruction,
) -> (outcome: Result<Directive, VaultError>)
    ensures
        outcome_view(outcome) == spec_ledger(depositor@, vault@, *instruction),
{
    match DepositAccount::try_from_slice(vault.data.as_slice()) {
        Err(e) => Err(e),
        Ok(record) => transition(
            &record,
            &depositor.address,
            &vault.address,
            instruction,
            vault.quantity,
            depositor.quantity,
        ),
    }
}

} // verus!

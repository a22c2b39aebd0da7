use crate::directive::DirectiveView;
use crate::error::VaultError;
use crate::host::program_address;
use crate::identity::zero_bytes;
use crate::instruction::{spec_decode_instruction, DepositInstruction};
use crate::ledger::{spec_claim, spec_transition};
use crate::provisioner::seed_tag;
use crate::record::{lemma_record_round_trip, spec_decode_record, VaultRecord};
use crate::resolver::spec_authenticate;
use crate::slot::SlotView;
use crate::{spec_apply_to_vault, spec_dispatch, spec_resume};
use vstd::prelude::*;

verus! {

/// Whether `depositor` may operate on `record`: the record is unclaimed or
/// the depositor owns it.
pub open spec fn may_operate(record: VaultRecord, depositor: Seq<u8>) -> bool {
    record.owner == zero_bytes() || record.owner == depositor
}

/// The record bytes that an accepted transition stores in the vault slot.
pub open spec fn stored_record(outcome: Result<DirectiveView, VaultError>) -> Seq<u8> {
    match outcome {
        Ok(DirectiveView::Transfer { record, .. }) => record,
        Ok(DirectiveView::Settle { record, .. }) => record,
        _ => Seq::empty(),
    }
}

/// A deposit is accepted exactly where the depositor may operate on the
/// record, the amount is not zero and the new balance fits. The host is then
/// asked to move exactly `amount` from the depositor to the vault, and the
/// record stored with it holds the old balance plus `amount` under the
/// depositor as owner.
pub proof fn lemma_deposit(
    record: VaultRecord,
    depositor: Seq<u8>,
    vault: Seq<u8>,
    amount: u64,
    vault_quantity: nat,
    depositor_quantity: nat,
)
    requires
        record.valid(),
        depositor.len() == 32,
    ensures
        ({
            let outcome = spec_transition(
                record,
                depositor,
                vault,
                DepositInstruction::Deposit { amount },
                vault_quantity,
                depositor_quantity,
            );
            &&& outcome is Ok <==> may_operate(record, depositor) && amount > 0 && record.balance
                + amount <= u64::MAX
            &&& outcome matches Ok(directive) ==> {
                &&& directive matches DirectiveView::Transfer {
                    from,
                    to,
                    amount: moved,
                    record: stored,
                }
                &&& from == depositor
                &&& to == vault
                &&& moved == amount
                &&& spec_decode_record(stored) == Some(
                    VaultRecord { owner: depositor, balance: (record.balance + amount) as nat },
                )
            }
        }),
{
    if may_operate(record, depositor) && amount > 0 && record.balance + amount <= u64::MAX {
        lemma_record_round_trip(
            VaultRecord { owner: depositor, balance: (record.balance + amount) as nat },
        );
    }
}

/// A withdrawal is accepted exactly where the depositor may operate on the
/// record, the amount is within the balance, the vault slot holds the amount
/// and the depositor slot has room for it. The vault slot then loses
/// exactly `amount`, the depositor slot gains it, the stored record holds the
/// old balance less `amount`, and the vault slot backs the balance as before.
pub proof fn lemma_withdrawal(
    record: VaultRecord,
    depositor: Seq<u8>,
    vault: Seq<u8>,
    amount: u64,
    vault_quantity: nat,
    depositor_quantity: nat,
)
    requires
        record.valid(),
        depositor.len() == 32,
    ensures
        ({
            let outcome = spec_transition(
                record,
                depositor,
                vault,
                DepositInstruction::Withdraw { amount },
                vault_quantity,
                depositor_quantity,
            );
            &&& outcome is Ok <==> may_operate(record, depositor) && amount <= record.balance
                && amount <= vault_quantity && depositor_quantity + amount <= u64::MAX
            &&& outcome matches Ok(directive) ==> {
                &&& directive matches DirectiveView::Settle {
                    vault_quantity: vault_after,
                    depositor_quantity: depositor_after,
                    record: stored,
                }
                &&& vault_after + amount == vault_quantity
                &&& depositor_after == depositor_quantity + amount
                &&& spec_decode_record(stored) == Some(
                    VaultRecord { owner: depositor, balance: (record.balance - amount) as nat },
                )
                &&& vault_after - (record.balance - amount) == vault_quantity - record.balance
            }
        }),
{
    if may_operate(record, depositor) && amount <= record.balance {
        lemma_record_round_trip(
            VaultRecord { owner: depositor, balance: (record.balance - amount) as nat },
        );
    }
}

/// A withdrawal of more than the balance, by one who may operate on the
/// record, is refused with `InsufficientFunds`: no directive comes of it, so
/// the record and both quantities stay as they are.
pub proof fn lemma_overdraft_is_refused(
    record: VaultRecord,
    depositor: Seq<u8>,
    vault: Seq<u8>,
    amount: u64,
    vault_quantity: nat,
    depositor_quantity: nat,
)
    requires
        may_operate(record, depositor),
        amount > record.balance,
    ensures
        spec_transition(
            record,
            depositor,
            vault,
            DepositInstruction::Withdraw { amount },
            vault_quantity,
            depositor_quantity,
        ) == Err::<DirectiveView, VaultError>(VaultError::InsufficientFunds),
{
}

/// A deposit of nothing, by one who may operate on the record, is refused
/// with `InvalidAmount`: no directive comes of it, so nothing changes.
pub proof fn lemma_empty_deposit_is_refused(
    record: VaultRecord,
    depositor: Seq<u8>,
    vault: Seq<u8>,
    vault_quantity: nat,
    depositor_quantity: nat,
)
    requires
        may_operate(record, depositor),
    ensures
        spec_transition(
            record,
            depositor,
            vault,
            DepositInstruction::Deposit { amount: 0 },
            vault_quantity,
            depositor_quantity,
        ) == Err::<DirectiveView, VaultError>(VaultError::InvalidAmount),
{
}

/// The first instruction accepted on an unclaimed record stores a record
/// owned by its depositor, and on that record every instruction of another
/// identity is refused with `Unauthorized`, whatever it asks and whatever
/// the slots hold. The depositor is not the sentinel, which owns nothing.
pub proof fn lemma_first_touch_claims(
    record: VaultRecord,
    depositor: Seq<u8>,
    vault: Seq<u8>,
    instruction: DepositInstruction,
    vault_quantity: nat,
    depositor_quantity: nat,
    intruder: Seq<u8>,
    attempt: DepositInstruction,
    vault_quantity_then: nat,
    intruder_quantity: nat,
)
    requires
        record.valid(),
        record.owner == zero_bytes(),
        depositor.len() == 32,
        depositor != zero_bytes(),
        intruder != depositor,
        spec_transition(record, depositor, vault, instruction, vault_quantity, depositor_quantity)
            is Ok,
    ensures
        ({
            let stored = stored_record(
                spec_transition(
                    record,
                    depositor,
                    vault,
                    instruction,
                    vault_quantity,
                    depositor_quantity,
                ),
            );
            &&& spec_decode_record(stored) is Some
            &&& spec_decode_record(stored)->0.owner == depositor
            &&& spec_transition(
                spec_decode_record(stored)->0,
                intruder,
                vault,
                attempt,
                vault_quantity_then,
                intruder_quantity,
            ) == Err::<DirectiveView, VaultError>(VaultError::Unauthorized)
        }),
{
    match instruction {
        DepositInstruction::Deposit { amount } => {
            lemma_deposit(record, depositor, vault, amount, vault_quantity, depositor_quantity);
        },
        DepositInstruction::Withdraw { amount } => {
            lemma_withdrawal(record, depositor, vault, amount, vault_quantity, depositor_quantity);
        },
    }
}

/// An owner, once set, stays: whatever is accepted on a claimed record
/// stores a record with the same owner.
pub proof fn lemma_owner_is_permanent(
    record: VaultRecord,
    depositor: Seq<u8>,
    vault: Seq<u8>,
    instruction: DepositInstruction,
    vault_quantity: nat,
    depositor_quantity: nat,
)
    requires
        record.valid(),
        record.owner != zero_bytes(),
        spec_transition(record, depositor, vault, instruction, vault_quantity, depositor_quantity)
            is Ok,
    ensures
        ({
            let stored = stored_record(
                spec_transition(
                    record,
                    depositor,
                    vault,
                    instruction,
                    vault_quantity,
                    depositor_quantity,
                ),
            );
            &&& spec_decode_record(stored) is Some
            &&& spec_decode_record(stored)->0.owner == record.owner
        }),
{
    assert(spec_claim(record, depositor) == Ok::<VaultRecord, VaultError>(record));
    match instruction {
        DepositInstruction::Deposit { amount } => {
            lemma_deposit(record, depositor, vault, amount, vault_quantity, depositor_quantity);
        },
        DepositInstruction::Withdraw { amount } => {
            lemma_withdrawal(record, depositor, vault, amount, vault_quantity, depositor_quantity);
        },
    }
}

/// Whether the host derives `address`.
pub open spec fn is_derived(address: Seq<u8>, derived: Option<(Seq<u8>, u8)>) -> bool {
    derived matches Some((expected, _)) && expected == address
}

/// A vault slot that is not at the address derived for the depositor is
/// refused with `InvalidAccountData`, whatever the instruction, the record in
/// the slot and the state of provisioning.
pub proof fn lemma_substituted_vault_is_refused(
    derived: Option<(Seq<u8>, u8)>,
    depositor: SlotView,
    vault: SlotView,
    instruction: DepositInstruction,
    provisioned: bool,
)
    requires
        !is_derived(vault.address, derived),
    ensures
        spec_apply_to_vault(derived, depositor, vault, instruction, provisioned) == Err::<
            DirectiveView,
            VaultError,
        >(VaultError::InvalidAccountData),
{
}

/// No invocation succeeds on a vault slot that is not at the address derived
/// for its depositor under the program, and one that passes decoding and
/// authentication ends with `InvalidAccountData`.
pub proof fn lemma_dispatch_refuses_substituted_vault(
    program: Seq<u8>,
    slots: Seq<SlotView>,
    instruction_data: Seq<u8>,
    provisioned: bool,
)
    ensures
        ({
            let derived = program_address(seed_tag(), slots[0].address, program);
            let outcome = spec_dispatch(program, slots, instruction_data, provisioned);
            !is_derived(slots[1].address, derived) ==> {
                &&& outcome is Err
                &&& spec_resume(true, program, slots, instruction_data) is Err
                &&& spec_decode_instruction(instruction_data) is Some && spec_authenticate(slots)
                    is Ok ==> outcome == Err::<DirectiveView, VaultError>(
                    VaultError::InvalidAccountData,
                )
            }
        }),
{
}

/// The vault slot is created at most once in an invocation: taking it up
/// again after the host's answer never asks for the slot a second time, and
/// a creation that failed ends the invocation with `ProvisioningFailed`.
pub proof fn lemma_provisioning_happens_once(
    created: bool,
    program: Seq<u8>,
    slots: Seq<SlotView>,
    instruction_data: Seq<u8>,
)
    ensures
        !(spec_resume(created, program, slots, instruction_data) matches Ok(
            DirectiveView::CreateSlot { .. },
        )),
        !created ==> spec_resume(created, program, slots, instruction_data) == Err::<
            DirectiveView,
            VaultError,
        >(VaultError::ProvisioningFailed),
{
}

/// A vault slot that holds native asset is never handed to the host for
/// creation.
pub proof fn lemma_existing_slot_is_kept(
    program: Seq<u8>,
    slots: Seq<SlotView>,
    instruction_data: Seq<u8>,
    provisioned: bool,
)
    requires
        slots[1].quantity > 0,
    ensures
        !(spec_dispatch(program, slots, instruction_data, provisioned) matches Ok(
            DirectiveView::CreateSlot { .. },
        )),
{
}

/// Slots after the third have no part in an invocation.
pub proof fn lemma_extra_slots_are_ignored(
    program: Seq<u8>,
    slots: Seq<SlotView>,
    instruction_data: Seq<u8>,
    provisioned: bool,
)
    requires
        slots.len() >= 3,
    ensures
        spec_dispatch(program, slots, instruction_data, provisioned) == spec_dispatch(
            program,
            slots.subrange(0, 3),
            instruction_data,
            provisioned,
        ),
{
}

/// The slot that the host is asked to create is the one derived for the
/// depositor, as wide as a record and paid for by the depositor.
pub proof fn lemma_created_slot_is_the_derived_one(
    program: Seq<u8>,
    slots: Seq<SlotView>,
    instruction_data: Seq<u8>,
)
    ensures
        spec_dispatch(program, slots, instruction_data, false) matches Ok(
            DirectiveView::CreateSlot { address, payer, size, bump },
        ) ==> {
            &&& program_address(seed_tag(), slots[0].address, program) == Some((address, bump))
            &&& address == slots[1].address
            &&& payer == slots[0].address
            &&& size == 40
            &&& slots[1].quantity == 0
        },
{
}

} // verus!

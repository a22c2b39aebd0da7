pub mod directive;
pub mod error;
pub mod host;
pub mod identity;
pub mod instruction;
pub mod laws;
pub mod ledger;
pub mod provisioner;
pub mod record;
pub mod resolver;
pub mod slot;
pub mod wire;

pub use crate::directive::Directive;
pub use crate::error::VaultError;
pub use crate::identity::Identity;
pub use crate::instruction::DepositInstruction;
pub use crate::record::DepositAccount;
pub use crate::slot::Slot;

use crate::directive::DirectiveView;
use crate::host::{derivation_view, find_program_address, program_address};
use crate::instruction::spec_decode_instruction;
use crate::ledger::{outcome_view, run_ledger, spec_ledger};
use crate::provisioner::{
    confirm_vault_address, needs_provisioning, seed_tag, spec_confirm_vault_address,
    spec_needs_provisioning, vault_seed,
};
use crate::record::RECORD_WIDTH;
use crate::resolver::{authenticate, spec_authenticate};
use crate::slot::{slot_views, SlotView};
use vstd::prelude::*;

verus! {

/// What becomes of an instruction once the invocation is authenticated and
/// the vault address has been derived. `provisioned` says that the host has
/// already been asked to create the vault slot in this invocation.
pub open spec fn spec_apply_to_vault(
    derived: Option<(Seq<u8>, u8)>,
    depositor: SlotView,
    vault: SlotView,
    instruction: DepositInstruction,
    provisioned: bool,
) -> Result<DirectiveView, VaultError> {
    match spec_confirm_vault_address(vault.address, derived) {
        Err(e) => Err(e),
        Ok(bump) => if spec_needs_provisioning(vault) && !provisioned {
            Ok(
                DirectiveView::CreateSlot {
                    address: vault.address,
                    payer: depositor.address,
                    size: RECORD_WIDTH as nat,
                    bump,
                },
            )
        } else {
            spec_ledger(depositor, vault, instruction)
        },
    }
}

/// What becomes of an invocation: the stages in their order, each of which
/// ends it with its own error.
pub open spec fn spec_dispatch(
    program: Seq<u8>,
    slots: Seq<SlotView>,
    instruction_data: Seq<u8>,
    provisioned: bool,
) -> Result<DirectiveView, VaultError> {
    match spec_decode_instruction(instruction_data) {
        None => Err(VaultError::DecodeError),
        Some(instruction) => match spec_authenticate(slots) {
            Err(e) => Err(e),
            Ok(()) => spec_apply_to_vault(
                program_address(seed_tag(), slots[0].address, program),
                slots[0],
                slots[1],
                instruction,
                provisioned,
            ),
        },
    }
}

/// Provisions the vault and runs the ledger, given the address that the host
/// derives for the depositor. A vault slot at any other address is refused
/// with `InvalidAccountData`. A vault slot that was never funded is handed
/// to the host for creation, once; any other goes through the ledger.
pub fn apply_to_vault(
    derived: Option<(Identity, u8)>,
    depositor: &Slot,
    vault: &Slot,
    instruction: &DepositInstruction,
    provisioned: bool,
) -> (outcome: Result<Directive, VaultError>)
    ensures
        outcome_view(outcome) == spec_apply_to_vault(
            derivation_view(derived),
            depositor@,
            vault@,
            *instruction,
            provisioned,
        ),
{
    match confirm_vault_address(&vault.address, derived) {
        Err(e) => Err(e),
        Ok(bump) => {
            if needs_provisioning(vault) && !provisioned {
                Ok(
                    Directive::CreateSlot {
                        address: vault.address,
                        payer: depositor.address,
                        size: RECORD_WIDTH,
                        bump,
                    },
                )
            } else {
                run_ledger(depositor, vault, instruction)
            }
        },
    }
}

/// Decodes, authenticates, derives the vault address and applies the
/// instruction to the vault.
fn dispatch(
    program_id: &Identity,
    slots: &[Slot],
    instruction_data: &[u8],
    provisioned: bool,
) -> (outcome: Result<Directive, VaultError>)
    ensures
        outcome_view(outcome) == spec_dispatch(
            program_id@,
            slot_views(slots@),
            instruction_data@,
            provisioned,
        ),
{
    let instruction = match DepositInstruction::try_from_slice(instruction_data) {
        Err(e) => {
            return Err(e);
        },
        Ok(instruction) => instruction,
    };
    match authenticate(slots) {
        Err(e) => {
            return Err(e);
        },
        Ok(()) => {},
    }
    let tag = vault_seed();
    let derived = find_program_address(tag.as_slice(), &slots[0].address, program_id);
    apply_to_vault(derived, &slots[0], &slots[1], &instruction, provisioned)
}

/// Handles one invocation of the program `program_id` on the slots
/// `accounts` with the instruction buffer `instruction_data`. The result is
/// what the host has to carry out, or the error that ends the invocation
/// with nothing changed.
pub fn process_instruction(
    program_id: &Identity,
    accounts: &[Slot],
    instruction_data: &[u8],
) -> (outcome: Result<Directive, VaultError>)
    ensures
        outcome_view(outcome) == spec_dispatch(
            program_id@,
            slot_views(accounts@),
            instruction_data@,
            false,
        ),
{
    dispatch(program_id, accounts, instruction_data, false)
}

/// What becomes of an invocation after the host was asked to create the
/// vault slot: a failed creation ends it, a slot that was created is not
/// created again.
pub open spec fn spec_resume(
    created: bool,
    program: Seq<u8>,
    slots: Seq<SlotView>,
    instruction_data: Seq<u8>,
) -> Result<DirectiveView, VaultError> {
    if created {
        spec_dispatch(program, slots, instruction_data, true)
    } else {
        Err(VaultError::ProvisioningFailed)
    }
}

/// Takes an invocation up again once the host has answered a `CreateSlot`
/// directive. `created` is the host's answer, and `accounts` are the slots
/// as they stand after it.
pub fn resume_after_provisioning(
    created: bool,
    program_id: &Identity,
    accounts: &[Slot],
    instruction_data: &[u8],
) -> (outcome: Result<Directive, VaultError>)
    ensures
        outcome_view(outcome) == spec_resume(
            created,
            program_id@,
            slot_views(accounts@),
            instruction_data@,
        ),
{
    if !created {
        return Err(VaultError::ProvisioningFailed);
    }
    dispatch(program_id, accounts, instruction_data, true)
}

} // verus!

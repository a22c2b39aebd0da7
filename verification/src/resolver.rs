use crate::error::VaultError;
use crate::host::system_program_id;
use crate::identity::zero_bytes;
use crate::slot::{slot_views, Slot, SlotView};
use vstd::prelude::*;

verus! {

/// The identity of the host's native-asset transfer authority.
pub open spec fn transfer_authority() -> Seq<u8> {
    zero_bytes()
}

/// Whether the slots supplied let the invocation go on, and why not. An
/// invocation consults three slots, in this order: the depositor, the vault
/// and the reference to the transfer authority. Slots after the third are
/// not looked at.
pub open spec fn spec_authenticate(slots: Seq<SlotView>) -> Result<(), VaultError> {
    if slots.len() < 3 {
        Err(VaultError::MissingAccount)
    } else if !slots[0].is_signer {
        Err(VaultError::Unauthorized)
    } else if slots[2].address != transfer_authority() {
        Err(VaultError::InvalidProgramReference)
    } else {
        Ok(())
    }
}

/// Resolves the three participants and authenticates the invocation: the
/// depositor has to have signed, and the third slot has to be the host's
/// transfer authority.
pub fn authenticate(slots: &[Slot]) -> (granted: Result<(), VaultError>)
    ensures
        granted == spec_authenticate(slot_views(slots@)),
{
    if slots.len() < 3 {
        return Err(VaultError::MissingAccount);
    }
    if !slots[0].is_signer {
        return Err(VaultError::Unauthorized);
    }
    let authority = system_program_id();
    if slots[2].address != authority {
        return Err(VaultError::InvalidProgramReference);
    }
    Ok(())
}

} // verus!

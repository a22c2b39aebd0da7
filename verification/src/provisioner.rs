use crate::error::VaultError;
use crate::host::derivation_view;
use crate::identity::Identity;
use crate::slot::{Slot, SlotView};
use vstd::prelude::*;

verus! {

/// The seed tag of every vault address: the ASCII bytes of "deposit".
pub open spec fn seed_tag() -> Seq<u8> {
    seq![100u8, 101u8, 112u8, 111u8, 115u8, 105u8, 116u8]
}

/// The seed tag of every vault address.
pub fn vault_seed() -> (tag: [u8; 7])
    ensures
        tag@ == seed_tag(),
{
    let tag: [u8; 7] = [100, 101, 112, 111, 115, 105, 116];
    assert(tag@ =~= seed_tag());
    tag
}

/// The bump seed that proves `address` to be the derived one, or the
/// refusal: a slot anywhere else is never taken for the vault, and neither
/// is any slot where the derivation yields no address.
pub open spec fn spec_confirm_vault_address(
    address: Seq<u8>,
    derived: Option<(Seq<u8>, u8)>,
) -> Result<u8, VaultError> {
    match derived {
        Some((expected, bump)) => if address == expected {
            Ok(bump)
        } else {
            Err(VaultError::InvalidAccountData)
        },
        None => Err(VaultError::InvalidAccountData),
    }
}

/// Holds the address of the vault slot against the derived one.
pub fn confirm_vault_address(
    address: &Identity,
    derived: Option<(Identity, u8)>,
) -> (confirmed: Result<u8, VaultError>)
    ensures
        confirmed == spec_confirm_vault_address(address@, derivation_view(derived)),
{
    match derived {
        Some((expected, bump)) => {
            if *address == expected {
                Ok(bump)
            } else {
                Err(VaultError::InvalidAccountData)
            }
        },
        None => Err(VaultError::InvalidAccountData),
    }
}

/// A vault slot that holds no native asset has never been created.
pub open spec fn spec_needs_provisioning(vault: SlotView) -> bool {
    vault.quantity == 0
}

/// Whether the host has yet to create the vault slot.
pub fn needs_provisioning(vault: &Slot) -> (needed: bool)
    ensures
        needed == spec_needs_provisioning(vault@),
{
    vault.quantity == 0
}

} // verus!

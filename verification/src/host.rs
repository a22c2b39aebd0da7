use crate::identity::Identity;
use solana_program::pubkey::Pubkey;
use vstd::prelude::*;

verus! {

/// What the host's address derivation yields for the two seeds `tag` and
/// `identity` under the program `program`: the derived address with its bump
/// seed, or `None` where the host finds no address.
pub uninterp spec fn program_address(tag: Seq<u8>, identity: Seq<u8>, program: Seq<u8>) -> Option<
    (Seq<u8>, u8),
>;

/// A derivation result as a mathematical value: the address by its bytes.
pub open spec fn derivation_view(derived: Option<(Identity, u8)>) -> Option<(Seq<u8>, u8)> {
    match derived {
        Some((address, bump)) => Some((address@, bump)),
        None => None,
    }
}

/// Calls `Pubkey::try_find_program_address` with the two seeds `tag` and
/// `identity` and the program `program`. The result is a function of these
/// three byte strings alone, named `program_address`; nothing else is claimed
/// of it.
#[verifier::external_body]
pub(crate) fn find_program_address(
    tag: &[u8],
    identity: &Identity,
    program: &Identity,
) -> (derived: Option<(Identity, u8)>)
    ensures
        derivation_view(derived) == program_address(tag@, identity@, program@),
{
    let program_key = Pubkey::new_from_array(program.bytes);
    match Pubkey::try_find_program_address(&[tag, &identity.bytes], &program_key) {
        Some((address, bump)) => Some((Identity { bytes: address.to_bytes() }, bump)),
        None => None,
    }
}

/// Calls `solana_program::system_program::id`, the identity of the host's
/// native-asset transfer authority. The crate declares it by its base58
/// text, thirty-two times the digit `1`, each of which stands for one zero
/// byte: it is the all-zero identity.
#[verifier::external_body]
pub(crate) fn system_program_id() -> (id: Identity)
    ensures
        id@ == crate::identity::zero_bytes(),
{
    Identity { bytes: solana_program::system_program::id().to_bytes() }
}

} // verus!

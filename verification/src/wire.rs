use borsh::BorshDeserialize;
use vstd::bytes::{spec_u64_from_le_bytes, spec_u64_to_le_bytes};
use vstd::prelude::*;

verus! {

/// Calls borsh's `try_from_slice` for `u64`. It reads eight bytes as a
/// little-endian number and rejects a slice of any other length.
#[verifier::external_body]
pub(crate) fn u64_from_slice(bytes: &[u8]) -> (value: Option<u64>)
    ensures
        value == if bytes@.len() == 8 {
            Some(spec_u64_from_le_bytes(bytes@))
        } else {
            None
        },
{
    u64::try_from_slice(bytes).ok()
}

/// Calls borsh's `to_vec` for `u64`. It writes the number as eight
/// little-endian bytes, and writing to a vector does not fail.
#[verifier::external_body]
pub(crate) fn u64_to_vec(value: u64) -> (bytes: Vec<u8>)
    ensures
        bytes@ == spec_u64_to_le_bytes(value),
        bytes@.len() == 8,
{
    borsh::to_vec(&value).unwrap()
}

/// Decoding inverts encoding for every amount.
pub proof fn lemma_amount_round_trip(value: u64)
    ensures
        spec_u64_to_le_bytes(value).len() == 8,
        spec_u64_from_le_bytes(spec_u64_to_le_bytes(value)) == value,
{
    vstd::bytes::lemma_auto_spec_u64_to_from_le_bytes();
}

/// Encoding inverts decoding for every eight bytes.
pub proof fn lemma_amount_bytes_round_trip(bytes: Seq<u8>)
    requires
        bytes.len() == 8,
    ensures
        spec_u64_to_le_bytes(spec_u64_from_le_bytes(bytes)) == bytes,
{
    vstd::bytes::lemma_auto_spec_u64_to_from_le_bytes();
}

} // verus!

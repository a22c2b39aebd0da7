use crate::error::VaultError;
use crate::identity::{zero_bytes, Identity};
use crate::wire::{u64_from_slice, u64_to_vec};
use vstd::bytes::{spec_u64_from_le_bytes, spec_u64_to_le_bytes};
use vstd::prelude::*;
use vstd::slice::slice_subrange;

verus! {

/// Number of bytes of an encoded vault record: the owner and the balance.
pub const RECORD_WIDTH: u64 = 40;

/// The record kept in a vault slot.
#[derive(Clone, Copy, Debug)]
pub struct DepositAccount {
    /// Who controls the vault; the sentinel while nobody has claimed it.
    pub owner: Identity,
    /// What the vault holds for its owner.
    pub balance: u64,
}

/// A vault record as a mathematical value.
pub struct VaultRecord {
    pub owner: Seq<u8>,
    pub balance: nat,
}

impl View for DepositAccount {
    type V = VaultRecord;

    open spec fn view(&self) -> VaultRecord {
        VaultRecord { owner: self.owner@, balance: self.balance as nat }
    }
}

impl VaultRecord {
    /// The record of a vault that nobody has touched.
    pub open spec fn unclaimed() -> VaultRecord {
        VaultRecord { owner: zero_bytes(), balance: 0 }
    }

    /// Whether the record can be stored: an owner of identity width and a
    /// balance that fits the wire format.
    pub open spec fn valid(self) -> bool {
        self.owner.len() == 32 && self.balance <= u64::MAX
    }
}

/// The bytes that encode a record: the owner, then the balance as eight
/// little-endian bytes.
pub open spec fn spec_encode_record(record: VaultRecord) -> Seq<u8> {
    record.owner + spec_u64_to_le_bytes(record.balance as u64)
}

/// The record that a byte string encodes, if any.
pub open spec fn spec_decode_record(bytes: Seq<u8>) -> Option<VaultRecord> {
    if bytes.len() == 40 {
        Some(
            VaultRecord {
                owner: bytes.subrange(0, 32),
                balance: spec_u64_from_le_bytes(bytes.subrange(32, 40)) as nat,
            },
        )
    } else {
        None
    }
}

impl DepositAccount {
    /// Decodes the contents of a vault slot. A buffer of any width but that
    /// of a record is rejected with `DecodeError`.
    pub fn try_from_slice(bytes: &[u8]) -> (decoded: Result<DepositAccount, VaultError>)
        ensures
            match spec_decode_record(bytes@) {
                Some(record) => decoded is Ok && decoded->Ok_0@ == record,
                None => decoded == Err::<DepositAccount, VaultError>(VaultError::DecodeError),
            },
    {
        if bytes.len() != 40 {
            return Err(VaultError::DecodeError);
        }
        let mut owner = [0u8; 32];
        let mut i: usize = 0;
        while i < 32
            invariant
                i <= 32,
                bytes@.len() == 40,
                forall|j: int| 0 <= j < i ==> owner@[j] == bytes@[j],
            decreases 32 - i,
        {
            owner[i] = bytes[i];
            i += 1;
        }
        assert(owner@ =~= bytes@.subrange(0, 32));
        match u64_from_slice(slice_subrange(bytes, 32, 40)) {
            Some(balance) => Ok(DepositAccount { owner: Identity { bytes: owner }, balance }),
            None => Err(VaultError::DecodeError),
        }
    }

    /// Encodes the record.
    pub fn to_bytes(&self) -> (bytes: Vec<u8>)
        ensures
            bytes@ == spec_encode_record(self@),
            bytes@.len() == 40,
    {
        let mut bytes: Vec<u8> = Vec::new();
        let mut i: usize = 0;
        while i < 32
            invariant
                i <= 32,
                bytes@.len() == i,
                forall|j: int| 0 <= j < i ==> bytes@[j] == self.owner@[j],
            decreases 32 - i,
        {
            bytes.push(self.owner.bytes[i]);
            i += 1;
        }
        assert(bytes@ =~= self.owner@);
        let mut balance = u64_to_vec(self.balance);
        bytes.append(&mut balance);
        bytes
    }
}

impl Default for DepositAccount {
    /// The record of a vault that nobody has touched.
    fn default() -> (record: DepositAccount)
        ensures
            record@ == VaultRecord::unclaimed(),
    {
        DepositAccount { owner: Identity::sentinel(), balance: 0 }
    }
}

impl PartialEq for DepositAccount {
    fn eq(&self, other: &DepositAccount) -> (r: bool) {
        self.owner == other.owner && self.balance == other.balance
    }
}

impl Eq for DepositAccount {}

impl vstd::std_specs::cmp::PartialEqSpecImpl for DepositAccount {
    open spec fn obeys_eq_spec() -> bool {
        true
    }

    open spec fn eq_spec(&self, other: &DepositAccount) -> bool {
        self@ == other@
    }
}

/// Decoding the encoding of a record gives the record back, for every owner
/// and every balance that a record can hold.
pub proof fn lemma_record_round_trip(record: VaultRecord)
    requires
        record.valid(),
    ensures
        spec_encode_record(record).len() == 40,
        spec_decode_record(spec_encode_record(record)) == Some(record),
{
    crate::wire::lemma_amount_round_trip(record.balance as u64);
    let bytes = spec_encode_record(record);
    assert(bytes.subrange(0, 32) =~= record.owner);
    assert(bytes.subrange(32, 40) =~= spec_u64_to_le_bytes(record.balance as u64));
}

/// A buffer that decodes to a record is the encoding of that record.
pub proof fn lemma_record_encoding_unique(bytes: Seq<u8>)
    requires
        spec_decode_record(bytes) is Some,
    ensures
        spec_decode_record(bytes)->0.valid(),
        spec_encode_record(spec_decode_record(bytes)->0) == bytes,
{
    crate::wire::lemma_amount_bytes_round_trip(bytes.subrange(32, 40));
    assert(spec_encode_record(spec_decode_record(bytes)->0) =~= bytes);
}

/// A slot filled with zero bytes to the width of a record, as the host
/// leaves one it has just created, holds the unclaimed record.
pub proof fn lemma_fresh_slot_is_unclaimed(bytes: Seq<u8>)
    requires
        bytes.len() == 40,
        forall|i: int| 0 <= i < 40 ==> bytes[i] == 0u8,
    ensures
        spec_decode_record(bytes) == Some(VaultRecord::unclaimed()),
{
    assert(bytes.subrange(0, 32) =~= zero_bytes());
    let tail = bytes.subrange(32, 40);
    lemma_zero_amount();
    assert(tail =~= spec_u64_to_le_bytes(0u64)) by {
        assert(spec_u64_to_le_bytes(0u64).len() == 8);
        assert forall|i: int| 0 <= i < 8 implies spec_u64_to_le_bytes(0u64)[i] == 0u8 by {}
    }
}

/// Amount zero is written as eight zero bytes.
proof fn lemma_zero_amount()
    ensures
        spec_u64_to_le_bytes(0u64).len() == 8,
        forall|i: int| 0 <= i < 8 ==> spec_u64_to_le_bytes(0u64)[i] == 0u8,
        spec_u64_from_le_bytes(spec_u64_to_le_bytes(0u64)) == 0u64,
{
    vstd::bytes::lemma_auto_spec_u64_to_from_le_bytes();
    vstd::bytes::spec_u64_to_le_bytes_to_open(0u64);
    assert(0u64 & 0xff == 0) by (bit_vector);
    assert((0u64 >> 8) & 0xff == 0) by (bit_vector);
    assert((0u64 >> 16) & 0xff == 0) by (bit_vector);
    assert((0u64 >> 24) & 0xff == 0) by (bit_vector);
    assert((0u64 >> 32) & 0xff == 0) by (bit_vector);
    assert((0u64 >> 40) & 0xff == 0) by (bit_vector);
    assert((0u64 >> 48) & 0xff == 0) by (bit_vector);
    assert((0u64 >> 56) & 0xff == 0) by (bit_vector);
}

} // verus!

use crate::error::VaultError;
use crate::wire::{u64_from_slice, u64_to_vec};
use vstd::bytes::{spec_u64_from_le_bytes, spec_u64_to_le_bytes};
use vstd::prelude::*;
use vstd::slice::slice_subrange;

verus! {

/// What an invocation asks of the vault.
#[derive(Clone, Copy, Debug, PartialEq, Eq, Structural)]
pub enum DepositInstruction {
    /// Move `amount` from the depositor into the vault.
    Deposit { amount: u64 },
    /// Move `amount` from the vault back to the depositor.
    Withdraw { amount: u64 },
}

/// The instruction that a byte string encodes, if any: one discriminant byte,
/// 0 for a deposit and 1 for a withdrawal, then the amount as eight
/// little-endian bytes, and nothing after it.
pub open spec fn spec_decode_instruction(bytes: Seq<u8>) -> Option<DepositInstruction> {
    if bytes.len() != 9 {
        None
    } else if bytes[0] == 0 {
        Some(DepositInstruction::Deposit { amount: spec_u64_from_le_bytes(bytes.subrange(1, 9)) })
    } else if bytes[0] == 1 {
        Some(DepositInstruction::Withdraw { amount: spec_u64_from_le_bytes(bytes.subrange(1, 9)) })
    } else {
        None
    }
}

/// The bytes that encode an instruction.
pub open spec fn spec_encode_instruction(instruction: DepositInstruction) -> Seq<u8> {
    match instruction {
        DepositInstruction::Deposit { amount } => seq![0u8] + spec_u64_to_le_bytes(amount),
        DepositInstruction::Withdraw { amount } => seq![1u8] + spec_u64_to_le_bytes(amount),
    }
}

impl DepositInstruction {
    /// The amount the instruction carries.
    pub open spec fn spec_amount(self) -> u64 {
        match self {
            DepositInstruction::Deposit { amount } => amount,
            DepositInstruction::Withdraw { amount } => amount,
        }
    }

    /// The amount the instruction carries.
    pub fn amount(&self) -> (amount: u64)
        ensures
            amount == self.spec_amount(),
    {
        match self {
            DepositInstruction::Deposit { amount } => *amount,
            DepositInstruction::Withdraw { amount } => *amount,
        }
    }

    /// Decodes an instruction buffer. Any other discriminant, a truncated
    /// buffer and trailing bytes are all rejected with `DecodeError`.
    pub fn try_from_slice(bytes: &[u8]) -> (decoded: Result<DepositInstruction, VaultError>)
        ensures
            decoded == match spec_decode_instruction(bytes@) {
                Some(instruction) => Ok::<DepositInstruction, VaultError>(instruction),
                None => Err(VaultError::DecodeError),
            },
    {
        if bytes.len() == 0 {
            return Err(VaultError::DecodeError);
        }
        let tag = bytes[0];
        let payload = slice_subrange(bytes, 1, bytes.len());
        match u64_from_slice(payload) {
            None => Err(VaultError::DecodeError),
            Some(amount) => {
                if tag == 0 {
                    Ok(DepositInstruction::Deposit { amount })
                } else if tag == 1 {
                    Ok(DepositInstruction::Withdraw { amount })
                } else {
                    Err(VaultError::DecodeError)
                }
            },
        }
    }

    /// Encodes the instruction.
    pub fn to_bytes(&self) -> (bytes: Vec<u8>)
        ensures
            bytes@ == spec_encode_instruction(*self),
            bytes@.len() == 9,
    {
        let mut bytes: Vec<u8> = Vec::new();
        let mut payload = match self {
            DepositInstruction::Deposit { amount } => {
                bytes.push(0u8);
                u64_to_vec(*amount)
            },
            DepositInstruction::Withdraw { amount } => {
                bytes.push(1u8);
                u64_to_vec(*amount)
            },
        };
        bytes.append(&mut payload);
        bytes
    }
}

/// Decoding the encoding of an instruction gives the instruction back.
pub proof fn lemma_instruction_round_trip(instruction: DepositInstruction)
    ensures
        spec_encode_instruction(instruction).len() == 9,
        spec_decode_instruction(spec_encode_instruction(instruction)) == Some(instruction),
{
    let amount = instruction.spec_amount();
    crate::wire::lemma_amount_round_trip(amount);
    let bytes = spec_encode_instruction(instruction);
    assert(bytes.subrange(1, 9) =~= spec_u64_to_le_bytes(amount));
}

/// A buffer that decodes to an instruction is the encoding of that
/// instruction: no two buffers stand for the same instruction.
pub proof fn lemma_instruction_encoding_unique(bytes: Seq<u8>)
    requires
        spec_decode_instruction(bytes) is Some,
    ensures
        spec_encode_instruction(spec_decode_instruction(bytes)->0) == bytes,
{
    crate::wire::lemma_amount_bytes_round_trip(bytes.subrange(1, 9));
    let instruction = spec_decode_instruction(bytes)->0;
    assert(spec_encode_instruction(instruction) =~= bytes);
}

} // verus!

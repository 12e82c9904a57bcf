use vstd::prelude::*;
use vstd::bytes::spec_u64_from_le_bytes;

use crate::codec::read_le_u64;
use crate::error::ErrorKind;

verus! {

/// The three operations an instruction can ask for, one per invocation.
#[derive(Clone, Copy, Debug, PartialEq, Eq, Structural)]
pub enum Operation {
    /// Write a fresh record with this value and the caller's authority.
    Initialize { value: u64 },
    /// Replace the record's value, keeping its authority.
    SetValue { new_value: u64 },
    /// Read the record's value without writing anything.
    GetValue,
}

/// What decoding an instruction yields. The first byte is the opcode; for
/// the two mutating opcodes the next 8 bytes are a little-endian value and
/// any trailing bytes are ignored. Empty input or an opcode outside the
/// three known ones is `UnknownInstruction`; a known mutating opcode whose
/// payload is shorter than 8 bytes is `TruncatedPayload`.
pub open spec fn spec_decode_instruction(s: Seq<u8>) -> Result<Operation, ErrorKind> {
    if s.len() == 0 {
        Err(ErrorKind::UnknownInstruction)
    } else if s[0] == 0 {
        if s.len() < 9 {
            Err(ErrorKind::TruncatedPayload)
        } else {
            Ok(Operation::Initialize { value: spec_u64_from_le_bytes(s.subrange(1, 9)) })
        }
    } else if s[0] == 1 {
        if s.len() < 9 {
            Err(ErrorKind::TruncatedPayload)
        } else {
            Ok(Operation::SetValue { new_value: spec_u64_from_le_bytes(s.subrange(1, 9)) })
        }
    } else if s[0] == 2 {
        Ok(Operation::GetValue)
    } else {
        Err(ErrorKind::UnknownInstruction)
    }
}

/// Classifies raw instruction bytes into one of the three operations, or
/// reports exactly why they decode to none.
pub fn decode_instruction(data: &Vec<u8>) -> (r: Result<Operation, ErrorKind>)
    ensures
        r == spec_decode_instruction(data@),
{
    if data.len() == 0 {
        return Err(ErrorKind::UnknownInstruction);
    }
    let opcode = data[0];
    if opcode == 0 || opcode == 1 {
        if data.len() < 9 {
            return Err(ErrorKind::TruncatedPayload);
        }
        let v = read_le_u64(data, 1);
        if opcode == 0 {
            Ok(Operation::Initialize { value: v })
        } else {
            Ok(Operation::SetValue { new_value: v })
        }
    } else if opcode == 2 {
        Ok(Operation::GetValue)
    } else {
        Err(ErrorKind::UnknownInstruction)
    }
}

} // verus!

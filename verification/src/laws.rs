use vstd::prelude::*;
use vstd::bytes::lemma_auto_spec_u64_to_from_le_bytes;
use vstd::bytes::spec_u64_to_le_bytes;

use crate::account::AccountModel;
use crate::codec::lemma_decode_after_record_write;
use crate::codec::lemma_decode_after_value_write;
use crate::codec::spec_decode_record;
use crate::codec::RecordModel;
use crate::dispatch::spec_process;
use crate::error::ErrorKind;
use crate::instruction::spec_decode_instruction;
use crate::instruction::Operation;
use crate::validate::spec_validate_initialize;

verus! {

/// A mutating opcode whose payload is shorter than 8 bytes is rejected as
/// truncated, while a read needs no payload at all.
pub proof fn lemma_short_payload_rejected(s: Seq<u8>)
    requires
        1 <= s.len() < 9,
    ensures
        (s[0] == 0 || s[0] == 1) ==> spec_decode_instruction(s) == Err::<Operation, ErrorKind>(
            ErrorKind::TruncatedPayload,
        ),
        s[0] == 2 ==> spec_decode_instruction(s) == Ok::<Operation, ErrorKind>(
            Operation::GetValue,
        ),
{
}

/// Empty instruction bytes, or an opcode outside the three known ones, are
/// rejected as unknown.
pub proof fn lemma_unknown_opcode_rejected(s: Seq<u8>)
    requires
        s.len() == 0 || (s[0] != 0 && s[0] != 1 && s[0] != 2),
    ensures
        spec_decode_instruction(s) == Err::<Operation, ErrorKind>(ErrorKind::UnknownInstruction),
{
}

/// `Initialize` overwrites unconditionally: whenever its validation passes,
/// the call succeeds and the target's bytes afterwards decode to the new
/// value under the signing authority — whatever record, if any, the account
/// held before. No other account changes.
pub proof fn lemma_initialize_overwrites(
    program_id: Seq<u8>,
    accounts: Seq<AccountModel>,
    data: Seq<u8>,
    value: u64,
)
    requires
        accounts.len() >= 2,
        accounts[0].data.len() >= 40,
        accounts[1].key.len() == 32,
        spec_decode_instruction(data) == Ok::<Operation, ErrorKind>(
            Operation::Initialize { value },
        ),
        spec_validate_initialize(program_id, accounts[0], accounts[1]) == Ok::<(), ErrorKind>(()),
    ensures
        ({
            let out = spec_process(program_id, accounts, data);
            &&& out.result == Ok::<Option<u64>, ErrorKind>(None)
            &&& spec_decode_record(out.accounts[0].data) == Ok::<RecordModel, ErrorKind>(
                RecordModel { value, authority: accounts[1].key },
            )
            &&& out.accounts[0].data.len() == accounts[0].data.len()
            &&& forall|i: int| 1 <= i < accounts.len() ==> out.accounts[i] == accounts[i]
        }),
{
    let rec = RecordModel { value, authority: accounts[1].key };
    lemma_decode_after_record_write(accounts[0].data, rec);
}

/// `SetValue` preserves the authority: after `Initialize(v0)` and then
/// `SetValue(v1)`, both signed by the same authority, the record reads
/// `v1` under the unchanged authority, and the 32 authority bytes are
/// byte-identical before and after the second call.
pub proof fn lemma_set_value_preserves_authority(
    program_id: Seq<u8>,
    accounts: Seq<AccountModel>,
    v0: u64,
    v1: u64,
)
    requires
        accounts.len() >= 2,
        accounts[0].data.len() >= 40,
        accounts[1].key.len() == 32,
        accounts[0].owner == program_id,
        accounts[1].is_signer,
    ensures
        ({
            let first = spec_process(program_id, accounts, seq![0u8] + spec_u64_to_le_bytes(v0));
            let second = spec_process(
                program_id,
                first.accounts,
                seq![1u8] + spec_u64_to_le_bytes(v1),
            );
            &&& first.result == Ok::<Option<u64>, ErrorKind>(None)
            &&& second.result == Ok::<Option<u64>, ErrorKind>(None)
            &&& spec_decode_record(second.accounts[0].data) == Ok::<RecordModel, ErrorKind>(
                RecordModel { value: v1, authority: accounts[1].key },
            )
            &&& second.accounts[0].data.subrange(8, 40) == first.accounts[0].data.subrange(8, 40)
        }),
{
    lemma_auto_spec_u64_to_from_le_bytes();
    let rec0 = RecordModel { value: v0, authority: accounts[1].key };
    let d0 = seq![0u8] + spec_u64_to_le_bytes(v0);
    assert(d0.len() == 9 && d0[0] == 0);
    assert(d0.subrange(1, 9) =~= spec_u64_to_le_bytes(v0));
    assert(spec_decode_instruction(d0) == Ok::<Operation, ErrorKind>(
        Operation::Initialize { value: v0 },
    ));
    lemma_decode_after_record_write(accounts[0].data, rec0);
    let first = spec_process(program_id, accounts, d0);

    let d1 = seq![1u8] + spec_u64_to_le_bytes(v1);
    assert(d1.len() == 9 && d1[0] == 1);
    assert(d1.subrange(1, 9) =~= spec_u64_to_le_bytes(v1));
    assert(spec_decode_instruction(d1) == Ok::<Operation, ErrorKind>(
        Operation::SetValue { new_value: v1 },
    ));
    lemma_decode_after_value_write(first.accounts[0].data, v1);
}

/// `SetValue` under a signer whose identity differs from the stored
/// authority fails with `Unauthorized` and leaves every account's bytes
/// completely unchanged.
pub proof fn lemma_unauthorized_set_value_changes_nothing(
    program_id: Seq<u8>,
    accounts: Seq<AccountModel>,
    data: Seq<u8>,
    new_value: u64,
)
    requires
        accounts.len() >= 2,
        spec_decode_instruction(data) == Ok::<Operation, ErrorKind>(
            Operation::SetValue { new_value },
        ),
        accounts[1].is_signer,
        accounts[0].owner == program_id,
        spec_decode_record(accounts[0].data) matches Ok(rec) && rec.authority
            != accounts[1].key,
    ensures
        spec_process(program_id, accounts, data).result == Err::<Option<u64>, ErrorKind>(
            ErrorKind::Unauthorized,
        ),
        spec_process(program_id, accounts, data).accounts == accounts,
{
}

/// `SetValue` without a signing authority fails with `MissingSignature`
/// before any record byte is examined, and no account changes.
pub proof fn lemma_unsigned_set_value_changes_nothing(
    program_id: Seq<u8>,
    accounts: Seq<AccountModel>,
    data: Seq<u8>,
    new_value: u64,
)
    requires
        accounts.len() >= 2,
        spec_decode_instruction(data) == Ok::<Operation, ErrorKind>(
            Operation::SetValue { new_value },
        ),
        !accounts[1].is_signer,
    ensures
        spec_process(program_id, accounts, data).result == Err::<Option<u64>, ErrorKind>(
            ErrorKind::MissingSignature,
        ),
        spec_process(program_id, accounts, data).accounts == accounts,
{
}

/// `GetValue` answers the stored value and performs zero writes: every
/// account, the target included, is left exactly as it was.
pub proof fn lemma_get_value_writes_nothing(
    program_id: Seq<u8>,
    accounts: Seq<AccountModel>,
    data: Seq<u8>,
    rec: RecordModel,
)
    requires
        accounts.len() >= 1,
        spec_decode_instruction(data) == Ok::<Operation, ErrorKind>(Operation::GetValue),
        spec_decode_record(accounts[0].data) == Ok::<RecordModel, ErrorKind>(rec),
    ensures
        spec_process(program_id, accounts, data).result == Ok::<Option<u64>, ErrorKind>(
            Some(rec.value),
        ),
        spec_process(program_id, accounts, data).accounts == accounts,
{
}

} // verus!

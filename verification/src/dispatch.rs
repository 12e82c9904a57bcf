use vstd::prelude::*;
use vstd::bytes::lemma_auto_spec_u64_to_from_le_bytes;
use vstd::bytes::spec_u64_to_le_bytes;

use crate::account::account_views;
use crate::account::AccountModel;
use crate::account::AccountRef;
use crate::codec::clone_bytes;
use crate::codec::decode_record;
use crate::codec::spec_decode_record;
use crate::codec::spec_encode_record;
use crate::codec::spec_write_bytes;
use crate::codec::write_bytes;
use crate::codec::write_le_u64;
use crate::codec::RecordModel;
use crate::error::ErrorKind;
use crate::instruction::decode_instruction;
use crate::instruction::spec_decode_instruction;
use crate::instruction::Operation;
use crate::validate::spec_validate_initialize;
use crate::validate::spec_validate_set_value;
use crate::validate::validate_initialize;
use crate::validate::validate_set_value;

verus! {

/// Result and post-state of one invocation: what the call returned and what
/// every account's bytes look like afterwards.
#[verifier::ext_equal]
pub struct Outcome {
    pub result: Result<Option<u64>, ErrorKind>,
    pub accounts: Seq<AccountModel>,
}

/// How many leading accounts an operation reads: the target alone for a
/// read, the target and the authenticating account for a write.
pub open spec fn spec_accounts_needed(op: Operation) -> int {
    match op {
        Operation::GetValue => 1,
        _ => 2,
    }
}

/// The host-side convention an operation relies on: enough accounts are
/// supplied, identities are full 32-byte keys, and an account about to be
/// initialized has room for a record.
pub open spec fn spec_can_apply(op: Operation, accounts: Seq<AccountModel>) -> bool {
    &&& accounts.len() >= spec_accounts_needed(op)
    &&& (op matches Operation::Initialize { .. } ==> {
        &&& accounts[0].data.len() >= 40
        &&& accounts[1].key.len() == 32
    })
}

/// What applying an already-decoded operation does: either validation fails
/// and every account is untouched, or exactly the declared byte range of the
/// target account (the whole record for `Initialize`, the 8 value bytes for
/// `SetValue`, nothing for `GetValue`) changes.
pub open spec fn spec_apply(
    program_id: Seq<u8>,
    op: Operation,
    accounts: Seq<AccountModel>,
) -> Outcome
    recommends
        spec_can_apply(op, accounts),
{
    match op {
        Operation::Initialize { value } => {
            match spec_validate_initialize(program_id, accounts[0], accounts[1]) {
                Err(e) => Outcome { result: Err(e), accounts },
                Ok(u) => {
                    let rec = RecordModel { value, authority: accounts[1].key };
                    let new_data = spec_write_bytes(accounts[0].data, 0, spec_encode_record(rec));
                    Outcome {
                        result: Ok(None),
                        accounts: accounts.update(
                            0,
                            AccountModel {
                                key: accounts[0].key,
                                data: new_data,
                                owner: accounts[0].owner,
                                is_signer: accounts[0].is_signer,
                            },
                        ),
                    }
                },
            }
        },
        Operation::SetValue { new_value } => {
            match spec_validate_set_value(program_id, accounts[0], accounts[1]) {
                Err(e) => Outcome { result: Err(e), accounts },
                Ok(u) => {
                    let new_data = spec_write_bytes(
                        accounts[0].data,
                        0,
                        spec_u64_to_le_bytes(new_value),
                    );
                    Outcome {
                        result: Ok(None),
                        accounts: accounts.update(
                            0,
                            AccountModel {
                                key: accounts[0].key,
                                data: new_data,
                                owner: accounts[0].owner,
                                is_signer: accounts[0].is_signer,
                            },
                        ),
                    }
                },
            }
        },
        Operation::GetValue => {
            match spec_decode_record(accounts[0].data) {
                Err(e) => Outcome { result: Err(e), accounts },
                Ok(rec) => Outcome { result: Ok(Some(rec.value)), accounts },
            }
        },
    }
}

/// What one whole invocation does: decode, then apply; a decode failure
/// touches no account.
pub open spec fn spec_process(
    program_id: Seq<u8>,
    accounts: Seq<AccountModel>,
    data: Seq<u8>,
) -> Outcome {
    match spec_decode_instruction(data) {
        Err(e) => Outcome { result: Err(e), accounts },
        Ok(op) => spec_apply(program_id, op, accounts),
    }
}

/// Writes a fresh record — the given value, owned by the signing authority —
/// over the target account's buffer, after checking program ownership and
/// the authority's signature. Prior contents are overwritten unconditionally.
pub fn initialize(program_id: &Vec<u8>, accounts: &mut Vec<AccountRef>, value: u64) -> (r: Result<
    Option<u64>,
    ErrorKind,
>)
    requires
        spec_can_apply(
            Operation::Initialize { value },
            account_views(old(accounts)@),
        ),
    ensures
        ({
            let out = spec_apply(
                program_id@,
                Operation::Initialize { value },
                account_views(old(accounts)@),
            );
            &&& r == out.result
            &&& account_views(final(accounts)@) == out.accounts
        }),
{
    let vr = validate_initialize(program_id, &accounts[0], &accounts[1]);
    match vr {
        Err(e) => Err(e),
        Ok(u) => {
            let authority_key = clone_bytes(&accounts[1].key);
            let mut target = accounts.remove(0);
            write_le_u64(&mut target.data, 0, value);
            write_bytes(&mut target.data, 8, &authority_key);
            proof {
                lemma_auto_spec_u64_to_from_le_bytes();
                let olds = account_views(old(accounts)@);
                let rec = RecordModel { value, authority: olds[1].key };
                assert(target.data@ =~= spec_write_bytes(
                    olds[0].data,
                    0,
                    spec_encode_record(rec),
                ));
            }
            accounts.insert(0, target);
            proof {
                let out = spec_apply(
                    program_id@,
                    Operation::Initialize { value },
                    account_views(old(accounts)@),
                );
                assert(account_views(accounts@) =~= out.accounts);
            }
            Ok(None)
        },
    }
}

/// Replaces the record's value with `new_value`, leaving the authority bytes
/// untouched, after checking the signature, program ownership and the
/// stored authority.
pub fn set_value(program_id: &Vec<u8>, accounts: &mut Vec<AccountRef>, new_value: u64) -> (r:
    Result<Option<u64>, ErrorKind>)
    requires
        spec_can_apply(
            Operation::SetValue { new_value },
            account_views(old(accounts)@),
        ),
    ensures
        ({
            let out = spec_apply(
                program_id@,
                Operation::SetValue { new_value },
                account_views(old(accounts)@),
            );
            &&& r == out.result
            &&& account_views(final(accounts)@) == out.accounts
        }),
{
    let vr = validate_set_value(program_id, &accounts[0], &accounts[1]);
    match vr {
        Err(e) => Err(e),
        Ok(u) => {
            let mut target = accounts.remove(0);
            write_le_u64(&mut target.data, 0, new_value);
            accounts.insert(0, target);
            proof {
                let out = spec_apply(
                    program_id@,
                    Operation::SetValue { new_value },
                    account_views(old(accounts)@),
                );
                assert(account_views(accounts@) =~= out.accounts);
            }
            Ok(None)
        },
    }
}

/// Reads the record's value from the target account without writing a byte.
pub fn get_value(accounts: &Vec<AccountRef>) -> (r: Result<Option<u64>, ErrorKind>)
    requires
        spec_can_apply(Operation::GetValue, account_views(accounts@)),
    ensures
        r == (match spec_decode_record(accounts@[0].data@) {
            Ok(rec) => Ok::<Option<u64>, ErrorKind>(Some(rec.value)),
            Err(e) => Err::<Option<u64>, ErrorKind>(e),
        }),
{
    match decode_record(&accounts[0].data) {
        Err(e) => Err(e),
        Ok(rec) => Ok(Some(rec.value)),
    }
}

/// One whole invocation, as the host calls it: classify the instruction
/// bytes, validate the named accounts, apply the operation, and answer with
/// the read value (for `GetValue`), no value (for the two writes), or the
/// exact reason the call failed. On failure no account byte changes.
pub fn process_instruction(
    program_id: &Vec<u8>,
    accounts: &mut Vec<AccountRef>,
    instruction_data: &Vec<u8>,
) -> (r: Result<Option<u64>, ErrorKind>)
    requires
        spec_decode_instruction(instruction_data@) matches Ok(op) ==> spec_can_apply(
            op,
            account_views(old(accounts)@),
        ),
    ensures
        ({
            let out = spec_process(program_id@, account_views(old(accounts)@), instruction_data@);
            &&& r == out.result
            &&& account_views(final(accounts)@) == out.accounts
        }),
{
    let op = match decode_instruction(instruction_data) {
        Err(e) => {
            return Err(e);
        },
        Ok(op) => op,
    };
    match op {
        Operation::Initialize { value } => initialize(program_id, accounts, value),
        Operation::SetValue { new_value } => set_value(program_id, accounts, new_value),
        Operation::GetValue => get_value(accounts),
    }
}

} // verus!

use vstd::prelude::*;

use crate::account::AccountModel;
use crate::account::AccountRef;
use crate::codec::decode_record;
use crate::codec::spec_decode_record;
use crate::error::ErrorKind;

verus! {

/// What validation demands before `Initialize` may write: the target account
/// must be owned by the invoking program, and the authenticating account must
/// have signed the call. Prior contents of the target are not examined; an
/// already-populated account is overwritten. A hardened variant would check a
/// not-yet-initialized marker here and refuse the second write; this core
/// keeps the unconditional overwrite and leaves such a marker to the caller.
pub open spec fn spec_validate_initialize(
    program_id: Seq<u8>,
    target: AccountModel,
    authority: AccountModel,
) -> Result<(), ErrorKind> {
    if target.owner != program_id {
        Err(ErrorKind::OwnershipMismatch)
    } else if !authority.is_signer {
        Err(ErrorKind::MissingSignature)
    } else {
        Ok(())
    }
}

/// What validation demands before `SetValue` may write: the authenticating
/// account must have signed the call (checked before any record byte is
/// read), the target must be owned by the invoking program, the target's
/// buffer must hold a record, and that record's stored authority must equal
/// the authenticating account's identity.
pub open spec fn spec_validate_set_value(
    program_id: Seq<u8>,
    target: AccountModel,
    authority: AccountModel,
) -> Result<(), ErrorKind> {
    if !authority.is_signer {
        Err(ErrorKind::MissingSignature)
    } else if target.owner != program_id {
        Err(ErrorKind::OwnershipMismatch)
    } else {
        match spec_decode_record(target.data) {
            Err(e) => Err(e),
            Ok(rec) => if rec.authority != authority.key {
                Err(ErrorKind::Unauthorized)
            } else {
                Ok(())
            },
        }
    }
}

/// Compares two byte strings for equality of their contents.
pub fn bytes_eq(a: &Vec<u8>, b: &Vec<u8>) -> (r: bool)
    ensures
        r == (a@ == b@),
{
    if a.len() != b.len() {
        return false;
    }
    let mut i: usize = 0;
    while i < a.len()
        invariant
            i <= a@.len(),
            a@.len() == b@.len(),
            forall|j: int| 0 <= j < i ==> a@[j] == b@[j],
        decreases a@.len() - i,
    {
        if a[i] != b[i] {
            return false;
        }
        i += 1;
    }
    proof {
        assert(a@ =~= b@);
    }
    true
}

/// Checks the `Initialize` invariants, reading nothing but account metadata.
pub fn validate_initialize(
    program_id: &Vec<u8>,
    target: &AccountRef,
    authority: &AccountRef,
) -> (r: Result<(), ErrorKind>)
    ensures
        r == spec_validate_initialize(program_id@, target@, authority@),
{
    if !bytes_eq(&target.owner, program_id) {
        return Err(ErrorKind::OwnershipMismatch);
    }
    if !authority.is_signer {
        return Err(ErrorKind::MissingSignature);
    }
    Ok(())
}

/// Checks the `SetValue` invariants; both writer credentials — the signing
/// identity and the authority stored in the record — must agree before any
/// mutation is allowed.
pub fn validate_set_value(
    program_id: &Vec<u8>,
    target: &AccountRef,
    authority: &AccountRef,
) -> (r: Result<(), ErrorKind>)
    ensures
        r == spec_validate_set_value(program_id@, target@, authority@),
{
    if !authority.is_signer {
        return Err(ErrorKind::MissingSignature);
    }
    if !bytes_eq(&target.owner, program_id) {
        return Err(ErrorKind::OwnershipMismatch);
    }
    match decode_record(&target.data) {
        Err(e) => Err(e),
        Ok(rec) => {
            if !bytes_eq(&rec.authority, &authority.key) {
                Err(ErrorKind::Unauthorized)
            } else {
                Ok(())
            }
        },
    }
}

} // verus!

use vstd::prelude::*;

verus! {

/// Every way an invocation can fail. All failures are terminal for the call:
/// no error leaves a partial write behind, because validation finishes before
/// any byte of an account is touched.
#[derive(Clone, Copy, Debug, PartialEq, Eq, Structural)]
pub enum ErrorKind {
    /// The instruction bytes were empty or began with an opcode outside the
    /// three known ones.
    UnknownInstruction,
    /// The opcode asked for a 64-bit payload but fewer than eight payload
    /// bytes followed it.
    TruncatedPayload,
    /// The target account's buffer is too short to hold a record.
    MalformedRecord,
    /// The target account is not owned by the invoking program.
    OwnershipMismatch,
    /// The authenticating account did not sign the call.
    MissingSignature,
    /// The authenticating account's identity differs from the authority
    /// stored in the record.
    Unauthorized,
}

} // verus!

use vstd::prelude::*;

verus! {

/// Number of bytes in an identity (a public key of the host environment).
pub const ID_LEN: usize = 32;

/// One account as the host hands it to an invocation: its address, its byte
/// buffer, the identity of the program that owns it, and whether it signed
/// this call. The core never looks accounts up itself; it only works on the
/// accounts it is given, in the order it is given them.
pub struct AccountRef {
    /// The account's own identity, always `ID_LEN` bytes.
    pub key: Vec<u8>,
    /// The account's byte buffer; for a data account it holds the record.
    pub data: Vec<u8>,
    /// Identity of the program that owns the account, always `ID_LEN` bytes.
    pub owner: Vec<u8>,
    /// Whether this account cryptographically signed the current call.
    pub is_signer: bool,
}

/// Mathematical view of an account: the same four fields over sequences.
#[verifier::ext_equal]
pub struct AccountModel {
    pub key: Seq<u8>,
    pub data: Seq<u8>,
    pub owner: Seq<u8>,
    pub is_signer: bool,
}

impl AccountModel {
    /// A well-formed account carries full 32-byte identities.
    pub open spec fn wf(self) -> bool {
        self.key.len() == ID_LEN && self.owner.len() == ID_LEN
    }
}

impl View for AccountRef {
    type V = AccountModel;

    open spec fn view(&self) -> AccountModel {
        AccountModel {
            key: self.key@,
            data: self.data@,
            owner: self.owner@,
            is_signer: self.is_signer,
        }
    }
}

/// The views of a sequence of accounts, element by element.
pub open spec fn account_views(s: Seq<AccountRef>) -> Seq<AccountModel> {
    s.map_values(|a: AccountRef| a@)
}

} // verus!

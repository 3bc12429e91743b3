//! Accounts as the counter sees them: who owns the storage, and its bytes.

use vstd::prelude::*;

verus! {

/// Number of bytes in an identity.
pub const IDENTITY_LEN: usize = 32;

/// The identity of a program: 32 bytes that are compared and never interpreted.
#[derive(Debug, Clone, Copy, PartialEq, Eq)]
pub struct Identity {
    pub bytes: [u8; 32],
}

impl View for Identity {
    type V = Seq<u8>;

    open spec fn view(&self) -> Seq<u8> {
        self.bytes@
    }
}

impl Identity {
    /// An identity made of the given bytes.
    pub fn new(bytes: [u8; 32]) -> (id: Identity)
        ensures
            id@ == bytes@,
    {
        Identity { bytes }
    }

    /// Whether two identities are the same, byte for byte.
    pub fn matches(&self, other: &Identity) -> (same: bool)
        ensures
            same == (self@ == other@),
    {
        let mut i: usize = 0;
        while i < IDENTITY_LEN
            invariant
                i <= IDENTITY_LEN,
                forall|k: int| 0 <= k < i ==> self.bytes@[k] == other.bytes@[k],
            decreases IDENTITY_LEN - i,
        {
            if self.bytes[i] != other.bytes[i] {
                return false;
            }
            i += 1;
        }
        assert(self@ =~= other@);
        true
    }
}

/// A unit of storage handed to the program: its owner and its bytes.
#[derive(Debug, Clone, PartialEq, Eq)]
pub struct Account {
    pub owner: Identity,
    pub data: Vec<u8>,
}

/// What an account holds, as plain sequences.
pub ghost struct AccountView {
    pub owner: Seq<u8>,
    pub data: Seq<u8>,
}

impl View for Account {
    type V = AccountView;

    open spec fn view(&self) -> AccountView {
        AccountView { owner: self.owner@, data: self.data@ }
    }
}

impl Account {
    /// An account with the given owner and content.
    pub fn new(owner: Identity, data: Vec<u8>) -> (account: Account)
        ensures
            account@ == (AccountView { owner: owner@, data: data@ }),
    {
        Account { owner, data }
    }
}

/// The views of a list of accounts, in order.
pub open spec fn views(accounts: Seq<Account>) -> Seq<AccountView> {
    Seq::new(accounts.len(), |i: int| accounts[i]@)
}

} // verus!

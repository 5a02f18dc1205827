//! The two accounts an invocation touches, and the mathematical snapshot
//! that contracts and laws are stated over.

use vstd::prelude::*;

verus! {

/// The calling user's account. The reconciler reads and changes only its
/// native balance; the host checks that this account authorized (signed)
/// the invocation before the reconciler runs.
pub struct Identity {
    /// Native balance, in the ledger's smallest unit.
    pub balance: u64,
}

/// The per-identity storage account. An account that does not yet exist is
/// represented with a zero balance, an empty buffer and the host's null
/// owner; the reconciler, like the host, treats a zero balance as "absent".
pub struct Storage {
    /// Native balance, in the ledger's smallest unit.
    pub balance: u64,
    /// The program that owns the account and may mutate it directly.
    pub owner: [u8; 32],
    /// The raw byte buffer.
    pub data: Vec<u8>,
}

/// A mathematical snapshot of everything an invocation may read or write:
/// the identity's balance and the storage account's balance, owner and bytes.
#[verifier::ext_equal]
pub struct Snapshot {
    pub identity_balance: int,
    pub storage_balance: int,
    pub storage_owner: Seq<u8>,
    pub storage_data: Seq<u8>,
}

impl Snapshot {
    /// What holds of any snapshot taken from real accounts: balances are
    /// machine integers, so they are non-negative and their sum fits the
    /// ledger's balance type (the host conserves the total supply).
    pub open spec fn wf(self) -> bool {
        &&& 0 <= self.identity_balance
        &&& 0 <= self.storage_balance
        &&& self.identity_balance + self.storage_balance <= u64::MAX
    }
}

/// The snapshot of a concrete identity/storage pair.
pub open spec fn snap(identity: Identity, storage: Storage) -> Snapshot {
    Snapshot {
        identity_balance: identity.balance as int,
        storage_balance: storage.balance as int,
        storage_owner: storage.owner@,
        storage_data: storage.data@,
    }
}

/// The funding state of the storage account relative to the target minimum
/// balance for the current payload's size.
#[derive(Clone, Copy, Debug, PartialEq, Eq, Structural)]
pub enum Funding {
    /// Zero balance: the account does not exist yet.
    Absent,
    /// Existing account holding less than the target; `shortfall` brings it
    /// up to the target exactly.
    Underfunded { shortfall: u64 },
    /// Existing account holding more than the target; `excess` brings it
    /// down to the target exactly.
    Overfunded { excess: u64 },
    /// Existing account holding the target exactly.
    Exact,
}

/// The classification `classify` must return.
pub open spec fn spec_classify(balance: u64, target: u64) -> Funding {
    if balance == 0 {
        Funding::Absent
    } else if balance < target {
        Funding::Underfunded { shortfall: (target - balance) as u64 }
    } else if balance > target {
        Funding::Overfunded { excess: (balance - target) as u64 }
    } else {
        Funding::Exact
    }
}

/// Classifies the storage account's funding state against the target
/// minimum balance. A zero balance means the account does not exist yet,
/// whatever the target is.
pub fn classify(balance: u64, target: u64) -> (f: Funding)
    ensures
        f == spec_classify(balance, target),
{
    if balance == 0 {
        Funding::Absent
    } else if balance < target {
        Funding::Underfunded { shortfall: target - balance }
    } else if balance > target {
        Funding::Overfunded { excess: balance - target }
    } else {
        Funding::Exact
    }
}

} // verus!

//! The reconciler itself: one invocation drives the storage account to the
//! canonical end state for the supplied payload.

use vstd::prelude::*;

use crate::state::{classify, snap, Funding, Identity, Snapshot, Storage};

verus! {

/// Why an invocation aborted. The host discards every mutation of a failed
/// invocation, so no partial effect survives any of these.
///
/// The reconciler's own logic raises `CreationFailed` and `TransferFailed`
/// (the identity cannot cover the required debit). The remaining variants
/// are raised by the embedding when a host primitive fails: the
/// minimum-balance oracle cannot be read (`OracleUnavailable`), a balance or
/// buffer is already borrowed elsewhere in the same invocation
/// (`AliasingViolation`), or the host refuses the requested buffer size
/// (`ResizeFailed`).
#[derive(Clone, Copy, Debug, PartialEq, Eq, Structural)]
pub enum ReconcileError {
    OracleUnavailable,
    CreationFailed,
    TransferFailed,
    AliasingViolation,
    ResizeFailed,
}

/// How much an invocation debits the identity account: the full target on
/// the creation path, the shortfall when the storage account is underfunded,
/// and nothing otherwise.
pub open spec fn debit_amount(s: Snapshot, target: int) -> int {
    if s.storage_balance == 0 {
        target
    } else if s.storage_balance < target {
        target - s.storage_balance
    } else {
        0
    }
}

/// How much an invocation credits the identity account: the excess when the
/// storage account is overfunded, and nothing otherwise.
pub open spec fn credit_amount(s: Snapshot, target: int) -> int {
    if s.storage_balance > target && s.storage_balance != 0 {
        s.storage_balance - target
    } else {
        0
    }
}

/// The transition one invocation makes, given the payload and the oracle's
/// target minimum balance for the payload's length. Success leaves the
/// storage account at exactly the target balance, holding exactly the
/// payload, owned by `program` if it was just created; the identity account
/// settles the whole balance differential. Failure means the identity could
/// not cover the debit, and nothing changes.
pub open spec fn step(
    s: Snapshot,
    payload: Seq<u8>,
    target: int,
    program: Seq<u8>,
) -> Result<Snapshot, ReconcileError> {
    if s.identity_balance < debit_amount(s, target) {
        if s.storage_balance == 0 {
            Err(ReconcileError::CreationFailed)
        } else {
            Err(ReconcileError::TransferFailed)
        }
    } else {
        Ok(
            Snapshot {
                identity_balance: s.identity_balance - debit_amount(s, target) + credit_amount(
                    s,
                    target,
                ),
                storage_balance: target,
                storage_owner: if s.storage_balance == 0 {
                    program
                } else {
                    s.storage_owner
                },
                storage_data: payload,
            },
        )
    }
}

/// Resizes the buffer to exactly the payload's length and overwrites its
/// full content with the payload, bit for bit.
pub fn resize_and_write(buf: &mut Vec<u8>, payload: &[u8])
    ensures
        final(buf)@ == payload@,
{
    buf.clear();
    let mut i: usize = 0;
    while i < payload.len()
        invariant
            i <= payload.len(),
            buf@ == payload@.subrange(0, i as int),
        decreases payload.len() - i,
    {
        buf.push(payload[i]);
        i += 1;
    }
    proof {
        assert(buf@ =~= payload@);
    }
}

/// Reconciles the storage account with the payload: creates it at the
/// target balance if it is absent, otherwise settles the balance
/// differential against the identity account, then sizes the buffer to the
/// payload's length and overwrites it with the payload. `target` is the
/// host oracle's minimum balance for `payload.len()`, queried fresh by the
/// embedding; `program_id` is this program's identity, which owns every
/// storage account it creates.
///
/// The reconciler performs no check that `storage` is the account at the
/// address derived from the identity's key: on the creation path the host
/// accepts the derived-address signature only if the addresses coincide,
/// and on the other paths no such check exists at all.
///
/// The precondition is the host's conservation of the total supply: the two
/// balances sum to at most the balance type's maximum.
pub fn reconcile(
    identity: &mut Identity,
    storage: &mut Storage,
    payload: &[u8],
    target: u64,
    program_id: &[u8; 32],
) -> (r: Result<(), ReconcileError>)
    requires
        old(identity).balance + old(storage).balance <= u64::MAX,
    ensures
        match r {
            Ok(()) => step(
                snap(*old(identity), *old(storage)),
                payload@,
                target as int,
                program_id@,
            ) == Ok::<Snapshot, ReconcileError>(snap(*final(identity), *final(storage))),
            Err(e) => {
                &&& step(
                    snap(*old(identity), *old(storage)),
                    payload@,
                    target as int,
                    program_id@,
                ) == Err::<Snapshot, ReconcileError>(e)
                &&& *final(identity) == *old(identity)
                &&& *final(storage) == *old(storage)
            },
        },
{
    let ghost s0 = snap(*old(identity), *old(storage));
    match classify(storage.balance, target) {
        Funding::Absent => {
            // The account does not exist: materialize it at the derived
            // address, pre-funded with exactly the target, debited from the
            // identity, owned by this program.
            if identity.balance < target {
                return Err(ReconcileError::CreationFailed);
            }
            identity.balance = identity.balance - target;
            storage.balance = target;
            storage.owner = *program_id;
            resize_and_write(&mut storage.data, payload);
            proof {
                assert(snap(*identity, *storage) =~= step(
                    s0,
                    payload@,
                    target as int,
                    program_id@,
                )->Ok_0);
            }
            Ok(())
        },
        Funding::Underfunded { shortfall } => {
            // Move the shortfall from the identity, authorized by the
            // identity's own transaction signature.
            if identity.balance < shortfall {
                return Err(ReconcileError::TransferFailed);
            }
            identity.balance = identity.balance - shortfall;
            storage.balance = storage.balance + shortfall;
            resize_and_write(&mut storage.data, payload);
            proof {
                assert(snap(*identity, *storage) =~= step(
                    s0,
                    payload@,
                    target as int,
                    program_id@,
                )->Ok_0);
            }
            Ok(())
        },
        Funding::Overfunded { excess } => {
            // This program owns the storage account outright, so the excess
            // moves directly between the two balance fields.
            identity.balance = identity.balance + excess;
            storage.balance = target;
            resize_and_write(&mut storage.data, payload);
            proof {
                assert(snap(*identity, *storage) =~= step(
                    s0,
                    payload@,
                    target as int,
                    program_id@,
                )->Ok_0);
            }
            Ok(())
        },
        Funding::Exact => {
            resize_and_write(&mut storage.data, payload);
            proof {
                assert(snap(*identity, *storage) =~= step(
                    s0,
                    payload@,
                    target as int,
                    program_id@,
                )->Ok_0);
            }
            Ok(())
        },
    }
}

} // verus!

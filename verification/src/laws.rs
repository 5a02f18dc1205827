//! Laws of the reconciler, stated and proved over the transition `step`:
//! what holds of every payload, every funding state and every sequence of
//! invocations.

use vstd::prelude::*;

use crate::reconcile::{credit_amount, debit_amount, step, ReconcileError};
use crate::state::Snapshot;

verus! {

/// After a single successful invocation with a fresh identity (its storage
/// account absent, balance zero), the storage account holds exactly the
/// target balance, contains exactly the payload, is owned by this program,
/// and the identity paid exactly the target.
pub proof fn lemma_fresh_creation(s: Snapshot, payload: Seq<u8>, target: int, program: Seq<u8>)
    requires
        s.wf(),
        0 <= target,
        s.storage_balance == 0,
        s.identity_balance >= target,
    ensures
        step(s, payload, target, program) matches Ok(s1) && {
            &&& s1.storage_balance == target
            &&& s1.storage_data == payload
            &&& s1.storage_owner == program
            &&& s1.identity_balance == s.identity_balance - target
        },
{
}

/// After every successful invocation, whatever came before it, the storage
/// account's balance equals the target exactly — never strictly above or
/// below — and its buffer equals the payload. Quantifying over an arbitrary
/// starting snapshot makes this hold after each invocation of any sequence.
pub proof fn lemma_balance_exact(s: Snapshot, payload: Seq<u8>, target: int, program: Seq<u8>)
    ensures
        step(s, payload, target, program) matches Ok(s1) ==> {
            &&& s1.storage_balance == target
            &&& s1.storage_data == payload
        },
{
}

/// A successful invocation hands back accounts as well-formed as it found
/// them: balances stay non-negative and their sum stays within the balance
/// type, so every invocation of a sequence starts from a well-formed state.
pub proof fn lemma_wf_preserved(s: Snapshot, payload: Seq<u8>, target: int, program: Seq<u8>)
    requires
        s.wf(),
        0 <= target,
    ensures
        step(s, payload, target, program) matches Ok(s1) ==> s1.wf(),
{
}

/// The state after a whole sequence of invocations, each with its payload
/// and its freshly queried target; the first failure aborts the sequence.
pub open spec fn run(
    s: Snapshot,
    calls: Seq<(Seq<u8>, int)>,
    program: Seq<u8>,
) -> Result<Snapshot, ReconcileError>
    decreases calls.len(),
{
    if calls.len() == 0 {
        Ok(s)
    } else {
        match step(s, calls[0].0, calls[0].1, program) {
            Ok(s1) => run(s1, calls.drop_first(), program),
            Err(e) => Err(e),
        }
    }
}

/// For every sequence of successful invocations, the storage account ends —
/// and so stands after each invocation, since every prefix is itself such a
/// sequence — at exactly the last target, holding exactly the last payload.
pub proof fn lemma_sequence_balance_exact(s: Snapshot, calls: Seq<(Seq<u8>, int)>, program: Seq<u8>)
    requires
        calls.len() > 0,
    ensures
        run(s, calls, program) matches Ok(sf) ==> {
            &&& sf.storage_balance == calls.last().1
            &&& sf.storage_data == calls.last().0
        },
    decreases calls.len(),
{
    if step(s, calls[0].0, calls[0].1, program) is Ok {
        let s1 = step(s, calls[0].0, calls[0].1, program)->Ok_0;
        if calls.len() == 1 {
            assert(calls.drop_first().len() == 0);
            assert(run(s1, calls.drop_first(), program) == Ok::<Snapshot, ReconcileError>(s1));
        } else {
            lemma_sequence_balance_exact(s1, calls.drop_first(), program);
            assert(calls.drop_first().last() == calls.last());
        }
    }
}

/// An invocation succeeds exactly when the identity can cover the debit:
/// together the two accounts must already hold the target. On failure the
/// error tells which primitive was refused.
pub proof fn lemma_success_condition(s: Snapshot, payload: Seq<u8>, target: int, program: Seq<u8>)
    requires
        s.wf(),
    ensures
        step(s, payload, target, program) is Ok <==> s.identity_balance + s.storage_balance
            >= target,
        step(s, payload, target, program) is Err ==> step(s, payload, target, program)
            == Err::<Snapshot, ReconcileError>(
            if s.storage_balance == 0 {
                ReconcileError::CreationFailed
            } else {
                ReconcileError::TransferFailed
            },
        ),
{
}

/// Idempotence: a second invocation with the same payload and target
/// succeeds, changes neither account, and moves no funds in either
/// direction. The host's minimum balance is positive for every length, so
/// the target is positive: defunding a storage account all the way to zero
/// would put it back in the "absent" state, and the next invocation would
/// re-create it.
pub proof fn lemma_idempotent(s: Snapshot, payload: Seq<u8>, target: int, program: Seq<u8>)
    requires
        s.wf(),
        0 < target,
    ensures
        step(s, payload, target, program) matches Ok(s1) ==> {
            &&& step(s1, payload, target, program) == Ok::<Snapshot, ReconcileError>(s1)
            &&& debit_amount(s1, target) == 0
            &&& credit_amount(s1, target) == 0
        },
{
    if step(s, payload, target, program) is Ok {
        let s1 = step(s, payload, target, program)->Ok_0;
        assert(step(s1, payload, target, program)->Ok_0 =~= s1);
    }
}

/// Monotonic resize correctness: an invocation with a larger target
/// followed by one with a smaller target returns exactly the freed
/// difference to the identity account — no funds lost or created. The
/// second invocation cannot fail.
pub proof fn lemma_shrink_refund(
    s: Snapshot,
    payload1: Seq<u8>,
    target1: int,
    payload2: Seq<u8>,
    target2: int,
    program: Seq<u8>,
)
    requires
        s.wf(),
        0 <= target2 <= target1,
    ensures
        step(s, payload1, target1, program) matches Ok(s1) ==> {
            &&& step(s1, payload2, target2, program) is Ok
            &&& step(s1, payload2, target2, program)->Ok_0.identity_balance == s1.identity_balance
                + (target1 - target2)
        },
{
}

/// Conservation: a successful invocation moves funds only between the two
/// accounts; their sum is unchanged.
pub proof fn lemma_conservation(s: Snapshot, payload: Seq<u8>, target: int, program: Seq<u8>)
    ensures
        step(s, payload, target, program) matches Ok(s1) ==> s1.identity_balance
            + s1.storage_balance == s.identity_balance + s.storage_balance,
{
}

/// No invocation both debits and credits the identity account: at least one
/// of the two flows is zero, and a successful invocation changes the
/// identity's balance by exactly their difference.
pub proof fn lemma_no_double_movement(s: Snapshot, payload: Seq<u8>, target: int, program: Seq<u8>)
    requires
        0 <= target,
    ensures
        debit_amount(s, target) == 0 || credit_amount(s, target) == 0,
        step(s, payload, target, program) matches Ok(s1) ==> s1.identity_balance
            == s.identity_balance - debit_amount(s, target) + credit_amount(s, target),
{
}

} // verus!

use reconciler::reconcile::{reconcile, ReconcileError};
use reconciler::state::{classify, Funding, Identity, Storage};

/// A stand-in for the host's minimum-balance oracle: positive and strictly
/// monotone in the byte length, like the real rent schedule.
fn oracle(len: usize) -> u64 {
    (128 + len as u64) * 6960
}

const PROGRAM_ID: [u8; 32] = [7u8; 32];

fn absent_storage() -> Storage {
    Storage { balance: 0, owner: [0u8; 32], data: Vec::new() }
}

#[test]
fn creates_absent_account() {
    let mut id = Identity { balance: 10 * oracle(5) };
    let mut st = absent_storage();
    let r = reconcile(&mut id, &mut st, b"hello", oracle(5), &PROGRAM_ID);
    assert_eq!(r, Ok(()));
    assert_eq!(st.balance, oracle(5));
    assert_eq!(st.data, b"hello".to_vec());
    assert_eq!(st.owner, PROGRAM_ID);
    assert_eq!(id.balance, 10 * oracle(5) - oracle(5));
}

#[test]
fn grows_and_debits_shortfall() {
    let start = 10 * oracle(11);
    let mut id = Identity { balance: start };
    let mut st = absent_storage();
    assert_eq!(reconcile(&mut id, &mut st, b"hello", oracle(5), &PROGRAM_ID), Ok(()));
    let after_first = id.balance;

    assert_eq!(reconcile(&mut id, &mut st, b"hello world", oracle(11), &PROGRAM_ID), Ok(()));
    assert_eq!(id.balance, after_first - (oracle(11) - oracle(5)));
    assert_eq!(st.balance, oracle(11));
    assert_eq!(st.data, b"hello world".to_vec());
    assert_eq!(st.owner, PROGRAM_ID);
}

#[test]
fn shrinks_and_credits_excess() {
    let start = 10 * oracle(11);
    let mut id = Identity { balance: start };
    let mut st = absent_storage();
    assert_eq!(reconcile(&mut id, &mut st, b"hello", oracle(5), &PROGRAM_ID), Ok(()));
    assert_eq!(reconcile(&mut id, &mut st, b"hello world", oracle(11), &PROGRAM_ID), Ok(()));
    let after_second = id.balance;

    assert_eq!(reconcile(&mut id, &mut st, b"hi", oracle(2), &PROGRAM_ID), Ok(()));
    assert_eq!(id.balance, after_second + (oracle(11) - oracle(2)));
    assert_eq!(st.balance, oracle(2));
    assert_eq!(st.data, b"hi".to_vec());
    assert_eq!(st.owner, PROGRAM_ID);
}

#[test]
fn repeat_invocation_changes_nothing() {
    let mut id = Identity { balance: 10 * oracle(4) };
    let mut st = absent_storage();
    assert_eq!(reconcile(&mut id, &mut st, b"data", oracle(4), &PROGRAM_ID), Ok(()));
    let id_after = id.balance;
    let st_after = st.balance;

    assert_eq!(reconcile(&mut id, &mut st, b"data", oracle(4), &PROGRAM_ID), Ok(()));
    assert_eq!(id.balance, id_after);
    assert_eq!(st.balance, st_after);
    assert_eq!(st.data, b"data".to_vec());
}

#[test]
fn empty_payload() {
    let mut id = Identity { balance: 10 * oracle(0) };
    let mut st = absent_storage();
    assert_eq!(reconcile(&mut id, &mut st, b"", oracle(0), &PROGRAM_ID), Ok(()));
    assert_eq!(st.balance, oracle(0));
    assert_eq!(st.data, Vec::<u8>::new());

    // Shrinking an existing buffer to empty overwrites it completely.
    let mut st2 = Storage { balance: oracle(3), owner: PROGRAM_ID, data: b"old".to_vec() };
    assert_eq!(reconcile(&mut id, &mut st2, b"", oracle(0), &PROGRAM_ID), Ok(()));
    assert_eq!(st2.data, Vec::<u8>::new());
    assert_eq!(st2.balance, oracle(0));
}

#[test]
fn creation_fails_when_identity_cannot_fund() {
    let mut id = Identity { balance: oracle(5) - 1 };
    let mut st = absent_storage();
    let r = reconcile(&mut id, &mut st, b"hello", oracle(5), &PROGRAM_ID);
    assert_eq!(r, Err(ReconcileError::CreationFailed));
    // A failed invocation leaves both accounts untouched.
    assert_eq!(id.balance, oracle(5) - 1);
    assert_eq!(st.balance, 0);
    assert_eq!(st.data, Vec::<u8>::new());
    assert_eq!(st.owner, [0u8; 32]);
}

#[test]
fn transfer_fails_when_identity_cannot_cover_shortfall() {
    let mut id = Identity { balance: 100 };
    let mut st = Storage { balance: oracle(2), owner: PROGRAM_ID, data: b"hi".to_vec() };
    let r = reconcile(&mut id, &mut st, b"hello world", oracle(11), &PROGRAM_ID);
    assert_eq!(r, Err(ReconcileError::TransferFailed));
    assert_eq!(id.balance, 100);
    assert_eq!(st.balance, oracle(2));
    assert_eq!(st.data, b"hi".to_vec());
}

#[test]
fn exact_funding_moves_nothing() {
    let mut id = Identity { balance: 5000 };
    let mut st = Storage { balance: oracle(3), owner: PROGRAM_ID, data: b"abc".to_vec() };
    assert_eq!(reconcile(&mut id, &mut st, b"xyz", oracle(3), &PROGRAM_ID), Ok(()));
    assert_eq!(id.balance, 5000);
    assert_eq!(st.balance, oracle(3));
    assert_eq!(st.data, b"xyz".to_vec());
}

#[test]
fn classify_all_states() {
    assert_eq!(classify(0, 500), Funding::Absent);
    assert_eq!(classify(0, 0), Funding::Absent);
    assert_eq!(classify(200, 500), Funding::Underfunded { shortfall: 300 });
    assert_eq!(classify(800, 500), Funding::Overfunded { excess: 300 });
    assert_eq!(classify(500, 500), Funding::Exact);
}

#[test]
fn round_trip_returns_all_funds() {
    // Growing then shrinking back to the earlier length leaves the
    // identity exactly where it stood after the first invocation.
    let mut id = Identity { balance: 10 * oracle(16) };
    let mut st = absent_storage();
    assert_eq!(reconcile(&mut id, &mut st, b"abc", oracle(3), &PROGRAM_ID), Ok(()));
    let settled = id.balance;
    assert_eq!(reconcile(&mut id, &mut st, b"abcdefghijklmnop", oracle(16), &PROGRAM_ID), Ok(()));
    assert_eq!(reconcile(&mut id, &mut st, b"cba", oracle(3), &PROGRAM_ID), Ok(()));
    assert_eq!(id.balance, settled);
    assert_eq!(st.balance, oracle(3));
    assert_eq!(st.data, b"cba".to_vec());
}

use yashandb::ffi::YacTempLobType;
use yashandb::lob::LobRequest;
use yashandb::transaction::SessionCall;
use yashandb::Transaction;

#[test]
fn commit_restores_auto_commit() {
    let tx = Transaction::new(true);
    assert_eq!(tx.commit(), vec![SessionCall::Commit, SessionCall::SetAutoCommit(true)]);
}

#[test]
fn rollback_in_manual_mode() {
    let tx = Transaction::new(false);
    assert_eq!(tx.rollback(), vec![SessionCall::Rollback]);
}

#[test]
fn drop_rolls_back_changes() {
    let tx = Transaction::new(true);
    assert_eq!(tx.abandon(), vec![SessionCall::Rollback, SessionCall::SetAutoCommit(true)]);
}

#[test]
fn transaction_forwards_lob_requests() {
    let tx = Transaction::new(false);
    assert_eq!(
        tx.temporary_blob(),
        LobRequest { lob_type: YacTempLobType::Blob, create_temporary: true }
    );
    assert_eq!(
        tx.output_clob(),
        LobRequest { lob_type: YacTempLobType::Clob, create_temporary: false }
    );
    let q = tx.query_one_map::<i32>();
    let _ = q;
}

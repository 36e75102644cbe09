use yashandb::conn::{conn_param_len, finish_result};
use yashandb::connect::ConnectCall;
use yashandb::ffi::{YacConnAttr, YacTempLobType, YacTxnIsolation};
use yashandb::lob::LobRequest;
use yashandb::query::ExecCall;
use yashandb::transaction::SessionCall;
use yashandb::{Connection, Error, TransactionIsolation};

fn internal_error(message: &str) -> Error {
    Error::Internal(message.to_owned())
}

#[test]
fn txn_isolation_conversion_roundtrip() {
    for (rust, raw) in [
        (TransactionIsolation::ReadCommitted, YacTxnIsolation::ReadCommitted),
        (TransactionIsolation::CurrentCommitted, YacTxnIsolation::CurrCommitted),
        (TransactionIsolation::Serializable, YacTxnIsolation::Serializable),
    ] {
        let raw_from_rust = rust.to_native();
        assert_eq!(raw_from_rust.code(), raw.code());
        let rust_from_raw = TransactionIsolation::from_native(raw);
        assert_eq!(rust_from_raw, rust);
    }
}

#[test]
fn finish_result_returns_value_when_operation_and_release_succeed() {
    assert!(matches!(finish_result(Ok(42), Ok(())), Ok(42)));
}

#[test]
fn finish_result_returns_release_error_after_successful_operation() {
    let result = finish_result(Ok(()), Err(internal_error("release failed")));
    assert!(matches!(result, Err(Error::Internal(message)) if message == "release failed"));
}

#[test]
fn finish_result_preserves_operation_error_when_release_also_fails() {
    let result = finish_result::<()>(
        Err(internal_error("query failed")),
        Err(internal_error("release failed")),
    );
    assert!(matches!(result, Err(Error::Internal(message)) if message == "query failed"));
}

#[test]
fn conn_param_len_empty() {
    assert_eq!(conn_param_len("").unwrap(), 0);
}

#[test]
fn conn_param_len_ascii() {
    assert_eq!(conn_param_len("127.0.0.1:1688").unwrap(), 14);
}

#[test]
fn conn_param_len_utf8_multibyte() {
    // Length is measured in bytes, not chars.
    assert_eq!(conn_param_len("雪").unwrap(), 3);
    assert_eq!(conn_param_len("用户").unwrap(), 6);
}

#[test]
fn conn_param_len_max_ok() {
    let max = i16::MAX as usize;
    let s = "a".repeat(max);
    assert_eq!(conn_param_len(&s).unwrap(), max as i16);
}

#[test]
fn conn_param_len_overflow_errors() {
    let max = i16::MAX as usize;
    let s = "a".repeat(max + 1);
    let err = conn_param_len(&s).unwrap_err();
    assert!(matches!(err, Error::InvalidArgument(_)));
    let Error::InvalidArgument(msg) = &err else {
        panic!("expected InvalidArgument, got {err:?}");
    };
    assert!(msg.contains("maximum"), "unexpected message: {msg}");
    assert_eq!(msg, "connection parameter exceeds the maximum of 32767 bytes");
}

#[test]
fn connection_close_releases_in_order() {
    let conn = Connection::new((1u8, 2u8));
    let (handles, calls) = conn.close();
    assert_eq!(handles, (1, 2));
    assert_eq!(
        calls,
        vec![ConnectCall::Disconnect, ConnectCall::FreeDbc, ConnectCall::FreeEnv]
    );
}

#[test]
fn connection_reports_session_attributes() {
    let mut conn = Connection::new(());
    assert!(conn.auto_commit(1));
    assert!(!conn.auto_commit(0));
    assert!(conn.heartbeat_enabled(-3));
    assert_eq!(conn.packet_size(65536), 65536);
    assert_eq!(conn.set_auto_commit(true), SessionCall::SetAutoCommit(true));
    assert_eq!(conn.commit(), SessionCall::Commit);
    assert_eq!(conn.rollback(), SessionCall::Rollback);
    assert_eq!(conn.transaction_isolation(1), TransactionIsolation::CurrentCommitted);
    assert_eq!(conn.transaction_isolation(2), TransactionIsolation::Serializable);
    assert_eq!(
        conn.set_transaction_isolation(TransactionIsolation::Serializable),
        ConnectCall::SetAttr { attr: YacConnAttr::TransactionIsolation, value: 2 }
    );
}

#[test]
fn connection_lob_requests() {
    let conn = Connection::new(());
    assert_eq!(
        conn.temporary_blob(),
        LobRequest { lob_type: YacTempLobType::Blob, create_temporary: true }
    );
    assert_eq!(
        conn.temporary_clob(),
        LobRequest { lob_type: YacTempLobType::Clob, create_temporary: true }
    );
    assert_eq!(
        conn.output_blob(),
        LobRequest { lob_type: YacTempLobType::Blob, create_temporary: false }
    );
    assert_eq!(
        conn.output_clob(),
        LobRequest { lob_type: YacTempLobType::Clob, create_temporary: false }
    );
}

#[test]
fn transaction_on_auto_commit_connection_disables_it_first() {
    let mut conn = Connection::new(());
    let (guard, call) = conn.transaction(1);
    assert_eq!(call, Some(SessionCall::SetAutoCommit(false)));
    assert_eq!(
        guard.commit(),
        vec![SessionCall::Commit, SessionCall::SetAutoCommit(true)]
    );
    let (guard, call) = conn.transaction(0);
    assert_eq!(call, None);
    assert_eq!(guard.rollback(), vec![SessionCall::Rollback]);
}

#[test]
fn connection_execute_starts_with_statement_allocation() {
    let conn = Connection::new(());
    let mut exec = conn.execute();
    assert!(exec.resume(Ok(0)).is_none());
    assert!(exec.resume(Ok(0)).is_none());
    assert!(exec.resume(Ok(5)).is_none());
    let result = exec.resume(Ok(0)).expect("done").expect("ok");
    assert_eq!(result.rows_affected(), 5);
    let _ = ExecCall::AllocStmt;
}

#[test]
fn builder_setters_record_attributes() {
    let b = Connection::<()>::builder()
        .login_timeout(30)
        .packet_size(65536)
        .auto_commit(true)
        .transaction_isolation(TransactionIsolation::Serializable)
        .heartbeat_enabled(false);
    let (mut machine, first) = b.connect("127.0.0.1:1688", "u", "p");
    assert!(matches!(first, yashandb::connect::ConnectStep::Call(ConnectCall::AllocEnv)));
    let _ = machine.resume(Ok(()));
}

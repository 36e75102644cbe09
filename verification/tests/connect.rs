use yashandb::connect::{env_settings, ConnectCall, ConnectStep, EnvSetting};
use yashandb::ffi::{YacCharsetCode, YacConnAttr};
use yashandb::{ConnectionBuilder, Error, TransactionIsolation};

fn call(step: ConnectStep) -> ConnectCall {
    match step {
        ConnectStep::Call(c) => c,
        other => panic!("unexpected step {other:?}"),
    }
}

#[test]
fn default_connect_sequence() {
    let (mut m, first) = ConnectionBuilder::new().connect("h:1688", "user", "pw");
    assert_eq!(call(first), ConnectCall::AllocEnv);
    assert_eq!(call(m.resume(Ok(()))), ConnectCall::ConfigureEnv);
    assert_eq!(call(m.resume(Ok(()))), ConnectCall::AllocDbc);
    assert_eq!(
        call(m.resume(Ok(()))),
        ConnectCall::SetAttr { attr: YacConnAttr::AutoCommit, value: 0 }
    );
    assert_eq!(
        call(m.resume(Ok(()))),
        ConnectCall::Connect { url_len: 6, username_len: 4, password_len: 2 }
    );
    assert!(matches!(m.resume(Ok(())), ConnectStep::Connected));
}

#[test]
fn configured_attributes_are_applied_in_order() {
    let builder = ConnectionBuilder::new()
        .login_timeout(30)
        .packet_size(65536)
        .auto_commit(true)
        .heartbeat_enabled(true)
        .transaction_isolation(TransactionIsolation::Serializable);
    let (mut m, _) = builder.connect("u", "n", "p");
    let _ = m.resume(Ok(()));
    let _ = m.resume(Ok(()));
    assert_eq!(
        call(m.resume(Ok(()))),
        ConnectCall::SetAttr { attr: YacConnAttr::LoginTimeout, value: 30 }
    );
    assert_eq!(
        call(m.resume(Ok(()))),
        ConnectCall::SetAttr { attr: YacConnAttr::PacketSize, value: 65536 }
    );
    assert_eq!(
        call(m.resume(Ok(()))),
        ConnectCall::SetAttr { attr: YacConnAttr::AutoCommit, value: 1 }
    );
    assert_eq!(
        call(m.resume(Ok(()))),
        ConnectCall::SetAttr { attr: YacConnAttr::HeartbeatEnabled, value: 1 }
    );
    assert!(matches!(call(m.resume(Ok(()))), ConnectCall::Connect { .. }));
    assert_eq!(
        call(m.resume(Ok(()))),
        ConnectCall::SetAttr { attr: YacConnAttr::TransactionIsolation, value: 2 }
    );
    assert!(matches!(m.resume(Ok(())), ConnectStep::Connected));
}

#[test]
fn packet_size_out_of_range_releases_handles() {
    let (mut m, _) = ConnectionBuilder::new().packet_size(1024).connect("u", "n", "p");
    let _ = m.resume(Ok(()));
    let _ = m.resume(Ok(()));
    assert_eq!(call(m.resume(Ok(()))), ConnectCall::FreeDbc);
    assert_eq!(call(m.resume(Ok(()))), ConnectCall::FreeEnv);
    let ConnectStep::Failed(Error::InvalidArgument(msg)) = m.resume(Ok(())) else {
        panic!("expected failure");
    };
    assert_eq!(msg, "packet size 1024 is out of range [65536, 33554432]");
}

#[test]
fn failed_isolation_disconnects_before_freeing() {
    let (mut m, _) = ConnectionBuilder::new()
        .transaction_isolation(TransactionIsolation::ReadCommitted)
        .connect("u", "n", "p");
    for _ in 0..4 {
        let _ = m.resume(Ok(()));
    }
    assert!(matches!(call(m.resume(Ok(()))), ConnectCall::SetAttr { .. }));
    assert_eq!(call(m.resume(Err(Error::Internal("in txn".into())))), ConnectCall::Disconnect);
    assert_eq!(call(m.resume(Ok(()))), ConnectCall::FreeDbc);
    assert_eq!(call(m.resume(Ok(()))), ConnectCall::FreeEnv);
    assert!(matches!(m.resume(Ok(())), ConnectStep::Failed(Error::Internal(msg)) if msg == "in txn"));
}

#[test]
fn failed_env_allocation_needs_no_release() {
    let (mut m, _) = ConnectionBuilder::new().connect("u", "n", "p");
    assert!(matches!(
        m.resume(Err(Error::ClientLibrary("no env".into()))),
        ConnectStep::Failed(Error::ClientLibrary(msg)) if msg == "no env"
    ));
}

#[test]
fn too_long_parameter_fails_after_release() {
    let long = "a".repeat(40000);
    let (mut m, _) = ConnectionBuilder::new().connect(&long, "n", "p");
    let _ = m.resume(Ok(()));
    let _ = m.resume(Ok(()));
    let _ = m.resume(Ok(()));
    assert_eq!(call(m.resume(Ok(()))), ConnectCall::FreeDbc);
    assert_eq!(call(m.resume(Ok(()))), ConnectCall::FreeEnv);
    assert!(matches!(m.resume(Ok(())), ConnectStep::Failed(Error::InvalidArgument(_))));
}

#[test]
fn environment_identifies_the_driver() {
    assert_eq!(
        env_settings(),
        vec![
            EnvSetting::Charset(YacCharsetCode::UTF8),
            EnvSetting::ClientDriver("YashanDB Rust Driver"),
            EnvSetting::SoftwareVersion("0.1.0"),
        ]
    );
}

#[test]
fn refused_login_reports_the_client_error() {
    let (mut m, _) = ConnectionBuilder::new().connect("u", "n", "wrong-password");
    let _ = m.resume(Ok(()));
    let _ = m.resume(Ok(()));
    let _ = m.resume(Ok(()));
    assert!(matches!(call(m.resume(Ok(()))), ConnectCall::Connect { password_len: 14, .. }));
    let refused = Error::Database {
        code: 1017,
        message: "invalid username/password".into(),
        line: 0,
        column: 0,
    };
    assert_eq!(call(m.resume(Err(refused))), ConnectCall::FreeDbc);
    assert_eq!(call(m.resume(Ok(()))), ConnectCall::FreeEnv);
    assert!(matches!(
        m.resume(Ok(())),
        ConnectStep::Failed(Error::Database { code: 1017, message, .. })
            if message == "invalid username/password"
    ));
}

#[test]
fn packet_size_bounds_are_accepted() {
    for bytes in [65536u32, 33554432u32] {
        let (mut m, _) = ConnectionBuilder::new().packet_size(bytes).connect("u", "n", "p");
        let _ = m.resume(Ok(()));
        let _ = m.resume(Ok(()));
        assert_eq!(
            call(m.resume(Ok(()))),
            ConnectCall::SetAttr { attr: YacConnAttr::PacketSize, value: bytes }
        );
    }
}

use yashandb::ffi::{
    YacCharsetCode, YacConnAttr, YacEnvAttr, YacHandleType, YacParamDirection, YacResult,
    YacTxnIsolation,
};

#[test]
fn result_repr() {
    assert_eq!(YacResult::Success.code(), 0);
    assert_eq!(YacResult::SuccessWithInfo.code(), 1);
    assert_eq!(YacResult::Error.code(), -1);
}

#[test]
fn handle_type_repr() {
    assert_eq!(YacHandleType::Unknown.code(), 0);
    assert_eq!(YacHandleType::Env.code(), 1);
    assert_eq!(YacHandleType::Dbc.code(), 2);
}

#[test]
fn param_direction_repr() {
    assert_eq!(YacParamDirection::Input.code(), 1);
    assert_eq!(YacParamDirection::Output.code(), 2);
    assert_eq!(YacParamDirection::InOut.code(), 3);
}

#[test]
fn env_attr_repr() {
    assert_eq!(YacEnvAttr::CharsetCode.code(), 62);
    assert_eq!(YacEnvAttr::ReturnSuccessWithInfo.code(), 64);
    assert_eq!(YacEnvAttr::SoftwareVersion.code(), 65);
    assert_eq!(YacEnvAttr::ClientDriver.code(), 66);
}

#[test]
fn conn_attr_repr() {
    assert_eq!(YacConnAttr::AutoCommit.code(), 3);
    assert_eq!(YacConnAttr::LoginTimeout.code(), 4);
    assert_eq!(YacConnAttr::PacketSize.code(), 6);
    assert_eq!(YacConnAttr::TransactionIsolation.code(), 7);
    assert_eq!(YacConnAttr::Credt.code(), 11);
    assert_eq!(YacConnAttr::MaxCharsetRatio.code(), 12);
    assert_eq!(YacConnAttr::TafEnabled.code(), 14);
    assert_eq!(YacConnAttr::TafCallback.code(), 15);
    assert_eq!(YacConnAttr::MaxNcharsetRatio.code(), 17);
    assert_eq!(YacConnAttr::HeartbeatEnabled.code(), 18);
}

#[test]
fn charset_code_repr() {
    assert_eq!(YacCharsetCode::ASCII.code(), 0);
    assert_eq!(YacCharsetCode::GBK.code(), 1);
    assert_eq!(YacCharsetCode::UTF8.code(), 2);
    assert_eq!(YacCharsetCode::ISO88591.code(), 3);
    assert_eq!(YacCharsetCode::UTF16.code(), 4);
    assert_eq!(YacCharsetCode::GB18030.code(), 5);
}

#[test]
fn txn_isolation_repr() {
    assert_eq!(YacTxnIsolation::ReadCommitted.code(), 0);
    assert_eq!(YacTxnIsolation::CurrCommitted.code(), 1);
    assert_eq!(YacTxnIsolation::Serializable.code(), 2);
}

#[test]
fn result_codes_round_trip() {
    for r in [YacResult::Success, YacResult::SuccessWithInfo, YacResult::Error] {
        assert_eq!(YacResult::from_code(r.code()), Some(r));
    }
    assert_eq!(YacResult::from_code(2), None);
}

#[test]
fn txn_isolation_codes_round_trip() {
    for level in [
        YacTxnIsolation::ReadCommitted,
        YacTxnIsolation::CurrCommitted,
        YacTxnIsolation::Serializable,
    ] {
        assert_eq!(YacTxnIsolation::from_code(level.code()), Some(level));
    }
    assert_eq!(YacTxnIsolation::from_code(3), None);
}

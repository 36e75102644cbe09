use yashandb::stmt::{
    check_unique_names, render_name, ColumnAttr, ColumnDescribe, ColumnReply, ParamCall, ParamStep,
    StatementState,
};
use yashandb::{DataTypeInfo, Error, Statement};

fn expect_call(step: ParamStep) -> ParamCall {
    match step {
        ParamStep::Call(c) => c,
        ParamStep::Done(r) => panic!("unexpected end: {r:?}"),
    }
}

#[test]
fn ready_statement_executes_and_reports_rows() {
    let mut stmt = Statement::new(7u32);
    let mut exec = stmt.execute_params(2, false).unwrap();
    assert_eq!(
        expect_call(exec.resume(&mut stmt, Ok(2))),
        ParamCall::BindPosition { id: 1, position: 0 }
    );
    assert_eq!(
        expect_call(exec.resume(&mut stmt, Ok(0))),
        ParamCall::BindPosition { id: 2, position: 1 }
    );
    assert_eq!(expect_call(exec.resume(&mut stmt, Ok(0))), ParamCall::Execute);
    assert_eq!(expect_call(exec.resume(&mut stmt, Ok(0))), ParamCall::Complete { position: 0 });
    assert_eq!(expect_call(exec.resume(&mut stmt, Ok(0))), ParamCall::Complete { position: 1 });
    assert_eq!(expect_call(exec.resume(&mut stmt, Ok(0))), ParamCall::RowsAffected);
    let ParamStep::Done(Ok(result)) = exec.resume(&mut stmt, Ok(3)) else {
        panic!("expected a result");
    };
    assert_eq!(result.rows_affected(), 3);
    assert_eq!(stmt.state(), StatementState::Ready);
    assert_eq!(*stmt.handle(), 7);
}

#[test]
fn parameter_count_mismatch_is_refused_before_binding() {
    let mut stmt = Statement::new(());
    let mut exec = stmt.execute_params(1, false).unwrap();
    let ParamStep::Done(Err(Error::InvalidArgument(msg))) = exec.resume(&mut stmt, Ok(2)) else {
        panic!("expected a count error");
    };
    assert_eq!(msg, "prepared statement expects 2 parameters, received 1");
}

#[test]
fn query_marks_statement_active_until_drained() {
    let mut stmt = Statement::new(());
    let mut exec = stmt.execute_params(0, true).unwrap();
    assert_eq!(expect_call(exec.resume(&mut stmt, Ok(0))), ParamCall::Execute);
    let ParamStep::Done(Ok(result)) = exec.resume(&mut stmt, Ok(0)) else {
        panic!("expected a result");
    };
    assert_eq!(result.rows_affected(), 0);
    assert_eq!(stmt.state(), StatementState::Active);
    let err = stmt.execute_params(0, true).unwrap_err();
    assert!(matches!(err, Error::Internal(m) if m == "prepared statement has an active result set"));
    assert!(stmt.needs_drain());
    assert!(stmt.drained(Ok(1)).is_none());
    assert!(matches!(stmt.drained(Ok(0)), Some(Ok(()))));
    assert_eq!(stmt.state(), StatementState::Ready);
    assert!(stmt.ensure_ready().is_ok());
}

#[test]
fn failed_write_back_drains_and_reports_the_write_back_error() {
    let mut stmt = Statement::new(());
    let mut exec = stmt.execute_params(1, true).unwrap();
    let _ = exec.resume(&mut stmt, Ok(1));
    let _ = exec.resume(&mut stmt, Ok(0));
    assert_eq!(expect_call(exec.resume(&mut stmt, Ok(0))), ParamCall::Complete { position: 0 });
    let step = exec.resume(&mut stmt, Err(Error::InvalidArgument("text output exceeds its capacity".into())));
    assert_eq!(expect_call(step), ParamCall::DrainFetch);
    assert_eq!(expect_call(exec.resume(&mut stmt, Ok(1))), ParamCall::DrainFetch);
    let ParamStep::Done(Err(Error::InvalidArgument(msg))) = exec.resume(&mut stmt, Ok(0)) else {
        panic!("expected the write-back error");
    };
    assert_eq!(msg, "text output exceeds its capacity");
    assert_eq!(stmt.state(), StatementState::Ready);
}

#[test]
fn drain_with_many_rows_poisons_the_statement() {
    let mut stmt = Statement::new(());
    let mut exec = stmt.execute_params(0, true).unwrap();
    let _ = exec.resume(&mut stmt, Ok(0));
    let _ = exec.resume(&mut stmt, Ok(0));
    let outcome = stmt.drained(Ok(3));
    assert!(matches!(outcome, Some(Err(Error::Internal(m))) if m == "client returned 3 rows for rowset size 1"));
    assert_eq!(stmt.state(), StatementState::Poisoned);
    let err = stmt.ensure_ready().unwrap_err();
    assert!(matches!(err, Error::Internal(m) if m == "prepared statement cannot be reused after result cleanup failed"));
}

#[test]
fn named_parameters_bind_by_position_in_the_list() {
    let mut stmt = Statement::new(());
    let names = vec![b"a".to_vec(), b"b".to_vec()];
    let mut exec = stmt.execute_named_params(&names, false).unwrap();
    assert_eq!(expect_call(exec.resume(&mut stmt, Ok(2))), ParamCall::BindName { position: 0 });
    assert_eq!(expect_call(exec.resume(&mut stmt, Ok(0))), ParamCall::BindName { position: 1 });
    assert_eq!(expect_call(exec.resume(&mut stmt, Ok(0))), ParamCall::Execute);
}

#[test]
fn duplicate_named_parameter_is_refused() {
    let names = vec![b"a".to_vec(), b"b".to_vec(), b"a".to_vec(), b"b".to_vec()];
    let err = check_unique_names(&names).unwrap_err();
    assert!(matches!(err, Error::InvalidArgument(m) if m == "duplicate named parameter \"a\""));
    let names = vec![b"x\n".to_vec(), b"x\n".to_vec()];
    let err = check_unique_names(&names).unwrap_err();
    assert!(matches!(err, Error::InvalidArgument(m) if m == "duplicate named parameter \"x\\n\""));
    assert!(check_unique_names(&vec![b"a".to_vec(), b"ab".to_vec()]).is_ok());
}

#[test]
fn describe_varchar_column() {
    let mut d = ColumnDescribe::new();
    assert_eq!(d.next(), Some(ColumnAttr::Name));
    assert!(d.resume(Ok(ColumnReply::Name(b"NAME".to_vec()))).is_none());
    assert!(d.resume(Ok(ColumnReply::Type(26))).is_none());
    assert_eq!(d.next(), Some(ColumnAttr::Size));
    assert!(d.resume(Ok(ColumnReply::Size(64))).is_none());
    assert_eq!(d.next(), Some(ColumnAttr::CharSize));
    assert!(d.resume(Ok(ColumnReply::CharSize(16))).is_none());
    assert_eq!(d.next(), Some(ColumnAttr::Nullable));
    let info = d.resume(Ok(ColumnReply::Nullable(1))).unwrap().unwrap();
    assert_eq!(info.name(), "NAME");
    assert_eq!(info.data_type_info(), DataTypeInfo::VarChar { size: 64, char_size: 16 });
    assert!(info.nullable());
    assert_eq!(d.next(), None);
}

#[test]
fn describe_number_and_unknown_columns() {
    let mut d = ColumnDescribe::new();
    let _ = d.resume(Ok(ColumnReply::Name(b"N".to_vec())));
    let _ = d.resume(Ok(ColumnReply::Type(12)));
    assert_eq!(d.next(), Some(ColumnAttr::Precision));
    let _ = d.resume(Ok(ColumnReply::Precision(10)));
    let _ = d.resume(Ok(ColumnReply::Scale(-2)));
    let info = d.resume(Ok(ColumnReply::Nullable(0))).unwrap().unwrap();
    assert_eq!(info.data_type_info(), DataTypeInfo::Number { precision: 10, scale: -2 });
    assert!(!info.nullable());

    let mut d = ColumnDescribe::new();
    let _ = d.resume(Ok(ColumnReply::Name(b"J".to_vec())));
    let _ = d.resume(Ok(ColumnReply::Type(35)));
    assert_eq!(d.next(), Some(ColumnAttr::Nullable));
    let info = d.resume(Ok(ColumnReply::Nullable(1))).unwrap().unwrap();
    assert_eq!(info.data_type_info(), DataTypeInfo::Other(35));
}

#[test]
fn describe_rejects_non_utf8_column_names() {
    let mut d = ColumnDescribe::new();
    let result = d.resume(Ok(ColumnReply::Name(vec![0xff, 0xfe])));
    assert!(matches!(result, Some(Err(Error::InvalidEncoding { context: "column name" }))));
    assert_eq!(d.next(), None);
}

#[test]
fn describe_stops_at_the_first_failed_read() {
    let mut d = ColumnDescribe::new();
    let _ = d.resume(Ok(ColumnReply::Name(b"A".to_vec())));
    let result = d.resume(Err(Error::Internal("type".into())));
    assert!(matches!(result, Some(Err(Error::Internal(m))) if m == "type"));
}

#[test]
fn parameter_names_render_like_c_strings() {
    let all: Vec<u8> = (0u8..=255u8).collect();
    assert_eq!(render_name(&all), format!("\"{}\"", all.escape_ascii()));
    assert_eq!(render_name(b"a\tb\"\x9d"), "\"a\\tb\\\"\\x9d\"");
    assert_eq!(render_name(b""), "\"\"");
}

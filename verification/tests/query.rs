use yashandb::query::{ExecCall, Execution, RowQuery, RowQueryStep};
use yashandb::Error;

#[test]
fn query_one_requires_exactly_one_row() {
    let mut q: RowQuery<i32> = RowQuery::new(false);
    assert_eq!(q.fetched(Ok(false)), RowQueryStep::Finish);
    assert!(matches!(q.finish_one(Ok(())), Err(Error::RowNotFound)));

    let mut q: RowQuery<i32> = RowQuery::new(false);
    assert_eq!(q.fetched(Ok(true)), RowQueryStep::ApplyMap);
    assert_eq!(q.mapped(Ok(42)), RowQueryStep::Fetch);
    assert_eq!(q.fetched(Ok(true)), RowQueryStep::Finish);
    assert!(matches!(q.finish_one(Ok(())), Err(Error::TooManyRows)));

    let mut q: RowQuery<i32> = RowQuery::new(false);
    q.fetched(Ok(true));
    q.mapped(Ok(42));
    q.fetched(Ok(false));
    assert!(matches!(q.finish_one(Ok(())), Ok(42)));
}

#[test]
fn query_opt_accepts_zero_rows() {
    let mut q: RowQuery<i32> = RowQuery::new(true);
    q.fetched(Ok(false));
    assert!(matches!(q.finish_optional(Ok(())), Ok(None)));
}

#[test]
fn query_errors_win_over_release_errors() {
    let mut q: RowQuery<i32> = RowQuery::new(true);
    q.fetched(Ok(true));
    q.mapped(Err(Error::Internal("map".into())));
    let r = q.finish_optional(Err(Error::Internal("release".into())));
    assert!(matches!(r, Err(Error::Internal(m)) if m == "map"));

    let mut q: RowQuery<i32> = RowQuery::new(true);
    q.fetched(Ok(true));
    q.mapped(Ok(1));
    q.fetched(Ok(false));
    let r = q.finish_optional(Err(Error::Internal("release".into())));
    assert!(matches!(r, Err(Error::Internal(m)) if m == "release"));
}

#[test]
fn execution_frees_statement_after_failure() {
    let mut e = Execution::new();
    assert!(e.resume(Ok(0)).is_none());
    assert!(e.resume(Err(Error::Internal("exec".into()))).is_none());
    let r = e.resume(Ok(0)).expect("done");
    assert!(matches!(r, Err(Error::Internal(m)) if m == "exec"));
    let _ = ExecCall::FreeStmt;
}

#[test]
fn execution_without_statement_reports_allocation_error() {
    let mut e = Execution::new();
    let r = e.resume(Err(Error::Internal("alloc".into()))).expect("done");
    assert!(matches!(r, Err(Error::Internal(m)) if m == "alloc"));
}

//! One-row queries and non-query execution: the order of native calls and
//! how their replies decide the result.

use vstd::prelude::*;

use crate::conn::finish_result;
use crate::error::Error;

verus! {

/// What a one-row query needs next.
#[derive(Clone, Copy, Debug, PartialEq, Eq, Structural)]
pub enum RowQueryStep {
    /// Fetch the next row and report whether one arrived.
    Fetch,
    /// Apply the mapping function to the fetched row and report its result.
    ApplyMap,
    /// Release the result set and report the outcome of the release.
    Finish,
}

#[derive(Clone, Copy, Debug, PartialEq, Eq, Structural)]
enum RowPhase {
    First,
    Mapping,
    Second,
    Finish,
}

/// A query that expects at most one row (or exactly one row) and maps it.
///
/// The mapping runs after the first row is fetched and before the check for
/// a second row, so it can run even when the query ends with
/// [`Error::TooManyRows`]. An error of the fetch or the mapping is reported
/// even when the release also fails; a release error is reported only after
/// an otherwise successful query.
#[derive(Debug)]
pub struct RowQuery<T> {
    optional: bool,
    phase: RowPhase,
    value: Option<T>,
    outcome: Option<Result<Option<T>, Error>>,
}

impl<T> RowQuery<T> {
    /// Whether zero rows is an acceptable outcome.
    pub closed spec fn spec_optional(&self) -> bool {
        self.optional
    }

    /// The action the query waits for.
    pub closed spec fn next(&self) -> RowQueryStep {
        match self.phase {
            RowPhase::First => RowQueryStep::Fetch,
            RowPhase::Mapping => RowQueryStep::ApplyMap,
            RowPhase::Second => RowQueryStep::Fetch,
            RowPhase::Finish => RowQueryStep::Finish,
        }
    }

    /// Whether the query waits for its first fetch.
    pub closed spec fn at_first_fetch(&self) -> bool {
        self.phase == RowPhase::First
    }

    /// The mapped value, once the mapping succeeded.
    pub closed spec fn mapped_value(&self) -> Option<T> {
        self.value
    }

    /// The result decided before release, once the query reaches its release.
    pub closed spec fn outcome(&self) -> Option<Result<Option<T>, Error>> {
        self.outcome
    }

    /// The internal consistency of the query.
    pub closed spec fn wf(&self) -> bool {
        &&& (self.phase == RowPhase::Finish) <==> self.outcome is Some
        &&& self.phase == RowPhase::Second ==> self.value is Some
        &&& (!self.optional ==> !(self.outcome == Some(Ok::<Option<T>, Error>(None))))
    }

    /// A consistent query waits for its release exactly when its result is
    /// decided.
    pub proof fn finish_iff_decided(&self)
        requires
            self.wf(),
        ensures
            self.next() == RowQueryStep::Finish <==> self.outcome() is Some,
    {
    }

    /// A query that waits for its first fetch.
    pub fn new(optional: bool) -> (result: RowQuery<T>)
        ensures
            result.wf(),
            result.spec_optional() == optional,
            result.next() == RowQueryStep::Fetch,
            result.outcome() is None,
            result.at_first_fetch(),
    {
        RowQuery { optional, phase: RowPhase::First, value: None, outcome: None }
    }

    /// Continue with the result of a fetch: `Ok(true)` when a row arrived,
    /// `Ok(false)` at the end of the result set.
    pub fn fetched(&mut self, reply: Result<bool, Error>) -> (step: RowQueryStep)
        requires
            old(self).wf(),
            old(self).next() == RowQueryStep::Fetch,
        ensures
            final(self).wf(),
            step == final(self).next(),
            final(self).outcome() is Some <==> step == RowQueryStep::Finish,
            final(self).spec_optional() == old(self).spec_optional(),
            old(self).at_first_fetch() ==> match reply {
                Err(e) => final(self).outcome() == Some(Err::<Option<T>, Error>(e)),
                Ok(false) => final(self).outcome() == Some(
                    if old(self).spec_optional() {
                        Ok::<Option<T>, Error>(None)
                    } else {
                        Err::<Option<T>, Error>(Error::RowNotFound)
                    },
                ),
                Ok(true) => step == RowQueryStep::ApplyMap && final(self).outcome() is None,
            },
            !old(self).at_first_fetch() ==> final(self).outcome() == Some(
                match reply {
                    Err(e) => Err::<Option<T>, Error>(e),
                    Ok(true) => Err::<Option<T>, Error>(Error::TooManyRows),
                    Ok(false) => Ok::<Option<T>, Error>(old(self).mapped_value()),
                },
            ),
            !old(self).at_first_fetch() && reply == Ok::<bool, Error>(false) ==> old(
                self,
            ).mapped_value() is Some,
    {
        match self.phase {
            RowPhase::First => match reply {
                Err(e) => {
                    self.outcome = Some(Err(e));
                    self.phase = RowPhase::Finish;
                    RowQueryStep::Finish
                },
                Ok(false) => {
                    if self.optional {
                        self.outcome = Some(Ok(None));
                    } else {
                        self.outcome = Some(Err(Error::RowNotFound));
                    }
                    self.phase = RowPhase::Finish;
                    RowQueryStep::Finish
                },
                Ok(true) => {
                    self.phase = RowPhase::Mapping;
                    RowQueryStep::ApplyMap
                },
            },
            _ => {
                match reply {
                    Err(e) => {
                        self.outcome = Some(Err(e));
                    },
                    Ok(true) => {
                        self.outcome = Some(Err(Error::TooManyRows));
                    },
                    Ok(false) => {
                        let value = self.value.take();
                        self.outcome = Some(Ok(value));
                    },
                }
                self.phase = RowPhase::Finish;
                RowQueryStep::Finish
            },
        }
    }

    /// Continue with the result of the mapping function.
    pub fn mapped(&mut self, reply: Result<T, Error>) -> (step: RowQueryStep)
        requires
            old(self).wf(),
            old(self).next() == RowQueryStep::ApplyMap,
        ensures
            final(self).wf(),
            step == final(self).next(),
            final(self).outcome() is Some <==> step == RowQueryStep::Finish,
            final(self).spec_optional() == old(self).spec_optional(),
            match reply {
                Err(e) => final(self).outcome() == Some(Err::<Option<T>, Error>(e)),
                Ok(v) => step == RowQueryStep::Fetch && final(self).mapped_value() == Some(v)
                    && final(self).outcome() is None && !final(self).at_first_fetch(),
            },
    {
        match reply {
            Err(e) => {
                self.outcome = Some(Err(e));
                self.phase = RowPhase::Finish;
                RowQueryStep::Finish
            },
            Ok(v) => {
                self.value = Some(v);
                self.phase = RowPhase::Second;
                RowQueryStep::Fetch
            },
        }
    }

    /// The result of an optional query, given the outcome of the release.
    pub fn finish_optional(self, release: Result<(), Error>) -> (result: Result<Option<T>, Error>)
        requires
            self.wf(),
            self.next() == RowQueryStep::Finish,
        ensures
            self.outcome() matches Some(outcome) && result == (match outcome {
                Err(e) => Err::<Option<T>, Error>(e),
                Ok(v) => match release {
                    Ok(()) => Ok::<Option<T>, Error>(v),
                    Err(r) => Err::<Option<T>, Error>(r),
                },
            }),
    {
        match self.outcome {
            Some(outcome) => finish_result(outcome, release),
            None => Err(Error::Internal("one-row query finished before it was decided".to_owned())),
        }
    }

    /// The result of a query that needs exactly one row, given the outcome of
    /// the release.
    pub fn finish_one(self, release: Result<(), Error>) -> (result: Result<T, Error>)
        requires
            self.wf(),
            self.next() == RowQueryStep::Finish,
            !self.spec_optional(),
        ensures
            self.outcome() matches Some(outcome) && result == (match outcome {
                Err(e) => Err::<T, Error>(e),
                Ok(v) => match release {
                    Ok(()) => Ok::<T, Error>(v->Some_0),
                    Err(r) => Err::<T, Error>(r),
                },
            }),
            self.outcome() matches Some(Ok(v)) ==> v is Some,
    {
        match self.outcome {
            Some(Ok(Some(value))) => finish_result(Ok(value), release),
            Some(Err(e)) => Err(e),
            _ => Err(Error::Internal("one-row query finished before it was decided".to_owned())),
        }
    }
}

} // verus!

verus! {

/// The result of executing a statement without a result set.
#[derive(Clone, Copy, Debug, PartialEq, Eq, Structural)]
pub struct ExecResult {
    rows_affected: u64,
}

impl ExecResult {
    /// The affected-row count as a plain number.
    pub closed spec fn spec_rows(&self) -> u64 {
        self.rows_affected
    }

    /// The result for an execution that affected `rows_affected` rows.
    pub fn new(rows_affected: u64) -> (result: ExecResult)
        ensures
            result.spec_rows() == rows_affected,
    {
        ExecResult { rows_affected }
    }

    /// Number of rows affected by the statement.
    pub fn rows_affected(&self) -> (result: u64)
        ensures
            result == self.spec_rows(),
    {
        self.rows_affected
    }
}

/// A native call made while executing SQL that returns no rows.
#[derive(Clone, Copy, Debug, PartialEq, Eq, Structural)]
pub enum ExecCall {
    /// Allocate a statement handle on the connection.
    AllocStmt,
    /// Execute the SQL text directly on the statement.
    DirectExecute,
    /// Read the affected-row count of the statement.
    RowsAffected,
    /// Release the statement handle (best effort; its outcome is not reported).
    FreeStmt,
}

#[derive(Clone, Copy, Debug, PartialEq, Eq, Structural)]
enum ExecPhase {
    Alloc,
    Execute,
    Count,
    Free,
    Done,
}

/// Executing SQL that returns no rows on a temporary statement.
///
/// The statement is released exactly when it was allocated, whatever
/// happens after the allocation.
#[derive(Debug)]
pub struct Execution {
    phase: ExecPhase,
    outcome: Option<Result<ExecResult, Error>>,
}

impl Execution {
    /// The call the execution waits for.
    pub closed spec fn pending(&self) -> Option<ExecCall> {
        match self.phase {
            ExecPhase::Alloc => Some(ExecCall::AllocStmt),
            ExecPhase::Execute => Some(ExecCall::DirectExecute),
            ExecPhase::Count => Some(ExecCall::RowsAffected),
            ExecPhase::Free => Some(ExecCall::FreeStmt),
            ExecPhase::Done => None,
        }
    }

    /// The result decided so far, once it is known.
    pub closed spec fn outcome(&self) -> Option<Result<ExecResult, Error>> {
        self.outcome
    }

    /// The internal consistency of the execution.
    pub closed spec fn wf(&self) -> bool {
        (self.phase == ExecPhase::Free) <==> self.outcome is Some
    }

    /// The call the execution waits for, or `None` once it is over.
    pub fn next_call(&self) -> (result: Option<ExecCall>)
        ensures
            result == self.pending(),
    {
        match self.phase {
            ExecPhase::Alloc => Some(ExecCall::AllocStmt),
            ExecPhase::Execute => Some(ExecCall::DirectExecute),
            ExecPhase::Count => Some(ExecCall::RowsAffected),
            ExecPhase::Free => Some(ExecCall::FreeStmt),
            ExecPhase::Done => None,
        }
    }

    /// An execution that waits for its statement allocation.
    pub fn new() -> (result: Execution)
        ensures
            result.wf(),
            result.pending() == Some(ExecCall::AllocStmt),
    {
        Execution { phase: ExecPhase::Alloc, outcome: None }
    }

    /// Continue with the reply to the pending call. For
    /// [`ExecCall::RowsAffected`] the reply carries the count; for the other
    /// calls it carries `0`. The reply to [`ExecCall::FreeStmt`] is not
    /// reported to the caller.
    ///
    /// Returns the next call, or the final result once nothing is pending.
    pub fn resume(&mut self, reply: Result<u64, Error>) -> (result: Option<Result<ExecResult, Error>>)
        requires
            old(self).wf(),
            old(self).pending() is Some,
        ensures
            final(self).wf(),
            result is Some <==> final(self).pending() is None,
            old(self).pending() == Some(ExecCall::AllocStmt) ==> match reply {
                Ok(_) => final(self).pending() == Some(ExecCall::DirectExecute),
                Err(e) => result == Some(Err::<ExecResult, Error>(e)),
            },
            old(self).pending() == Some(ExecCall::DirectExecute) ==> match reply {
                Ok(_) => final(self).pending() == Some(ExecCall::RowsAffected),
                Err(e) => final(self).pending() == Some(ExecCall::FreeStmt) && final(self).outcome()
                    == Some(Err::<ExecResult, Error>(e)),
            },
            old(self).pending() == Some(ExecCall::RowsAffected) ==> final(self).pending() == Some(
                ExecCall::FreeStmt,
            ) && match reply {
                Ok(n) => final(self).outcome() matches Some(Ok(r)) && r.spec_rows() == n,
                Err(e) => final(self).outcome() == Some(Err::<ExecResult, Error>(e)),
            },
            old(self).pending() == Some(ExecCall::FreeStmt) ==> result == old(self).outcome(),
    {
        match self.phase {
            ExecPhase::Alloc => match reply {
                Ok(_) => {
                    self.phase = ExecPhase::Execute;
                    None
                },
                Err(e) => {
                    self.phase = ExecPhase::Done;
                    Some(Err(e))
                },
            },
            ExecPhase::Execute => match reply {
                Ok(_) => {
                    self.phase = ExecPhase::Count;
                    None
                },
                Err(e) => {
                    self.outcome = Some(Err(e));
                    self.phase = ExecPhase::Free;
                    None
                },
            },
            ExecPhase::Count => {
                self.outcome = Some(
                    match reply {
                        Ok(n) => Ok(ExecResult { rows_affected: n }),
                        Err(e) => Err(e),
                    },
                );
                self.phase = ExecPhase::Free;
                None
            },
            _ => {
                self.phase = ExecPhase::Done;
                match self.outcome.take() {
                    Some(outcome) => Some(outcome),
                    None => Some(Err(Error::Internal("execution released before it was decided".to_owned()))),
                }
            },
        }
    }
}

} // verus!

//! Prepared statements: readiness, result cleanup, parameter execution and
//! result column metadata.
//!
//! A statement owns a native statement handle (of the caller's type `S`).
//! Which native calls are made, in which order, and what their replies mean
//! is decided here; the caller performs the calls.

use vstd::prelude::*;
use vstd::string::*;

use crate::column::{client_type, general_type, ColumnInfo, DataType, DataTypeInfo};
use crate::error::Error;
use crate::ffi::YacType;
use crate::query::ExecResult;
use crate::text::{decimal, escaped_bytes, push_char, push_escaped_bytes, push_unsigned, utf8_string};
use vstd::utf8::*;

verus! {

/// Whether a statement can be executed.
#[derive(Clone, Copy, Debug, PartialEq, Eq, Structural)]
pub enum StatementState {
    /// The statement can be prepared or executed.
    Ready,
    /// A query has an active result set that must be drained before reuse.
    Active,
    /// Result cleanup failed, so the native statement must not be reused.
    Poisoned,
}

/// The error for executing a statement whose result set is still active.
pub open spec fn active_error(e: Error) -> bool {
    e matches Error::Internal(m) && m@ == "prepared statement has an active result set"@
}

/// The error for executing a statement whose result cleanup failed.
pub open spec fn poisoned_error(e: Error) -> bool {
    e matches Error::Internal(m) && m@
        == "prepared statement cannot be reused after result cleanup failed"@
}

/// The message for a fetch that reported more than one row.
pub open spec fn rowset_text(rows: int) -> Seq<char> {
    "client returned "@ + decimal(rows) + " rows for rowset size 1"@
}

/// The error for a fetch that reported `rows` rows with a rowset size of one.
pub fn rowset_error(rows: u32) -> (result: Error)
    ensures
        result matches Error::Internal(m) && m@ == rowset_text(rows as int),
{
    let mut msg = "client returned ".to_owned();
    push_unsigned(&mut msg, rows as u64);
    msg.append(" rows for rowset size 1");
    Error::Internal(msg)
}

/// A statement allocated from a connection.
#[derive(Debug)]
pub struct Statement<S> {
    stmt: S,
    state: StatementState,
}

impl<S> Statement<S> {
    /// Whether the statement can be executed.
    pub closed spec fn spec_state(&self) -> StatementState {
        self.state
    }

    /// The native statement handle.
    pub closed spec fn spec_handle(&self) -> S {
        self.stmt
    }

    /// A ready statement owning a freshly allocated handle.
    pub fn new(stmt: S) -> (result: Statement<S>)
        ensures
            result.spec_state() == StatementState::Ready,
            result.spec_handle() == stmt,
    {
        Statement { stmt, state: StatementState::Ready }
    }

    /// The native statement handle.
    pub fn handle(&self) -> (result: &S)
        ensures
            *result == self.spec_handle(),
    {
        &self.stmt
    }

    /// Whether the statement can be executed.
    pub fn state(&self) -> (result: StatementState)
        ensures
            result == self.spec_state(),
    {
        self.state
    }

    /// Release this statement: the handle to free.
    pub fn finish(self) -> (result: S)
        ensures
            result == self.spec_handle(),
    {
        self.stmt
    }

    /// Check that the statement can be executed.
    pub fn ensure_ready(&self) -> (result: Result<(), Error>)
        ensures
            self.spec_state() == StatementState::Ready ==> result is Ok,
            self.spec_state() == StatementState::Active ==> (result matches Err(e) && active_error(
                e,
            )),
            self.spec_state() == StatementState::Poisoned ==> (result matches Err(e)
                && poisoned_error(e)),
    {
        match self.state {
            StatementState::Ready => Ok(()),
            StatementState::Active => Err(
                Error::Internal("prepared statement has an active result set".to_owned()),
            ),
            StatementState::Poisoned => Err(
                Error::Internal(
                    "prepared statement cannot be reused after result cleanup failed".to_owned(),
                ),
            ),
        }
    }

    /// Whether ending the current result stream needs fetches: only an
    /// active result set is drained; otherwise ending it succeeds at once.
    pub fn needs_drain(&self) -> (result: bool)
        ensures
            result == (self.spec_state() == StatementState::Active),
    {
        match self.state {
            StatementState::Active => true,
            _ => false,
        }
    }

    /// Continue draining an active result set with the reply to a fetch (the
    /// number of rows fetched). Returns `None` while more rows remain, or the
    /// outcome of the cleanup: the statement is ready again after the end of
    /// the rows, and can no longer be reused after a failure.
    pub fn drained(&mut self, reply: Result<u32, Error>) -> (result: Option<Result<(), Error>>)
        requires
            old(self).spec_state() == StatementState::Active,
        ensures
            final(self).spec_handle() == old(self).spec_handle(),
            reply matches Ok(n) && n == 0 ==> result == Some(Ok::<(), Error>(()))
                && final(self).spec_state() == StatementState::Ready,
            reply matches Ok(n) && n == 1 ==> result is None && final(self).spec_state()
                == StatementState::Active,
            reply is Ok && reply->Ok_0 > 1 ==> final(self).spec_state() == StatementState::Poisoned
                && (result matches Some(Err(Error::Internal(m))) && m@ == rowset_text(
                reply->Ok_0 as int,
            )),
            reply matches Err(e) ==> final(self).spec_state() == StatementState::Poisoned && result
                == Some(Err::<(), Error>(e)),
            // Draining ends exactly when the statement leaves its active
            // state: ready after success, poisoned after a failure.
            result is Some <==> final(self).spec_state() != StatementState::Active,
            result == Some(Ok::<(), Error>(())) <==> final(self).spec_state()
                == StatementState::Ready,
    {
        match reply {
            Ok(rows) => {
                if rows == 0 {
                    self.state = StatementState::Ready;
                    Some(Ok(()))
                } else if rows == 1 {
                    None
                } else {
                    self.state = StatementState::Poisoned;
                    Some(Err(rowset_error(rows)))
                }
            },
            Err(error) => {
                self.state = StatementState::Poisoned;
                Some(Err(error))
            },
        }
    }
}


/// The message for a parameter list of the wrong length.
pub open spec fn count_text(expected: int, received: int) -> Seq<char> {
    "prepared statement expects "@ + decimal(expected) + " parameters, received "@ + decimal(
        received,
    )
}

fn count_mismatch(expected: u64, received: usize) -> (result: Error)
    ensures
        result matches Error::InvalidArgument(m) && m@ == count_text(
            expected as int,
            received as int,
        ),
{
    let mut msg = "prepared statement expects ".to_owned();
    push_unsigned(&mut msg, expected);
    msg.append(" parameters, received ");
    push_unsigned(&mut msg, received as u64);
    Error::InvalidArgument(msg)
}

/// A native call made while executing a prepared statement with parameters.
#[derive(Clone, Copy, Debug, PartialEq, Eq, Structural)]
pub enum ParamCall {
    /// Ask the client how many parameters the prepared statement has; the
    /// reply carries the count.
    CountParams,
    /// Bind the parameter at `position` of the list to the one-based
    /// placeholder `id`.
    BindPosition {
        /// One-based placeholder number.
        id: u16,
        /// Zero-based position in the parameter list.
        position: usize,
    },
    /// Bind the parameter at `position` of the list by its name.
    BindName {
        /// Zero-based position in the parameter list.
        position: usize,
    },
    /// Execute the statement.
    Execute,
    /// Write the outcome of the parameter at `position` back to its target.
    Complete {
        /// Zero-based position in the parameter list.
        position: usize,
    },
    /// Fetch a row of the result set being drained after a failed write-back;
    /// the reply carries the number of rows fetched.
    DrainFetch,
    /// Read the affected-row count; the reply carries the count.
    RowsAffected,
}

/// What executing a statement with parameters needs next.
#[derive(Debug)]
pub enum ParamStep {
    /// Perform this call and hand its reply to [`ParamExecution::resume`].
    Call(ParamCall),
    /// The execution is over, with this result.
    Done(Result<ExecResult, Error>),
}

#[derive(Clone, Copy, Debug, PartialEq, Eq, Structural)]
enum ParamPhase {
    Count,
    Bind,
    Execute,
    Complete,
    Drain,
    Rows,
    Done,
}

/// The bind call for the parameter at position `p`.
pub open spec fn bind_call(named: bool, p: int) -> ParamCall {
    if named {
        ParamCall::BindName { position: p as usize }
    } else {
        ParamCall::BindPosition { id: (p + 1) as u16, position: p as usize }
    }
}

/// Executing a prepared statement with a list of parameters.
///
/// The list must have exactly as many entries as the statement has
/// placeholders; the parameters are bound in list order (positionally to
/// placeholders `1..=n`, or by name), the statement is executed, and each
/// output target is written back in list order. For a query the result set
/// is active from the execution on; when a write-back fails it is drained
/// before the failure is reported, so the statement is never left active.
#[derive(Debug)]
pub struct ParamExecution {
    received: usize,
    query: bool,
    named: bool,
    phase: ParamPhase,
    position: usize,
    failure: Option<Error>,
}

impl ParamExecution {
    /// The number of parameters supplied.
    pub closed spec fn spec_received(&self) -> usize {
        self.received
    }

    /// Whether the execution produces a result set.
    pub closed spec fn spec_query(&self) -> bool {
        self.query
    }

    /// Whether parameters are bound by name.
    pub closed spec fn spec_named(&self) -> bool {
        self.named
    }

    /// The write-back failure being reported after the drain.
    pub closed spec fn spec_failure(&self) -> Option<Error> {
        self.failure
    }

    /// The call the execution waits for, or `None` once it is over.
    pub closed spec fn pending(&self) -> Option<ParamCall> {
        match self.phase {
            ParamPhase::Count => Some(ParamCall::CountParams),
            ParamPhase::Bind => Some(bind_call(self.named, self.position as int)),
            ParamPhase::Execute => Some(ParamCall::Execute),
            ParamPhase::Complete => Some(ParamCall::Complete { position: self.position }),
            ParamPhase::Drain => Some(ParamCall::DrainFetch),
            ParamPhase::Rows => Some(ParamCall::RowsAffected),
            ParamPhase::Done => None,
        }
    }

    /// The internal consistency of the execution.
    pub closed spec fn wf(&self) -> bool {
        &&& self.phase == ParamPhase::Bind ==> self.position < self.received && self.received
            <= u16::MAX
        &&& self.phase == ParamPhase::Complete ==> self.position < self.received
        &&& self.phase == ParamPhase::Drain ==> self.failure is Some && self.query
        &&& self.phase == ParamPhase::Rows ==> !self.query
    }

    /// Whether the statement's state agrees with the execution: from the
    /// execution of a query until its end the result set is active.
    pub closed spec fn consistent(&self, state: StatementState) -> bool {
        ((self.phase == ParamPhase::Complete && self.query) || self.phase == ParamPhase::Drain)
            ==> state == StatementState::Active
    }

    fn start(received: usize, query: bool, named: bool) -> (result: ParamExecution)
        ensures
            result.wf(),
            result.pending() == Some(ParamCall::CountParams),
            result.spec_received() == received,
            result.spec_query() == query,
            result.spec_named() == named,
            forall|s: StatementState| result.consistent(s),
    {
        ParamExecution {
            received,
            query,
            named,
            phase: ParamPhase::Count,
            position: 0,
            failure: None,
        }
    }

    fn bind_step(&self) -> (result: ParamCall)
        requires
            self.phase == ParamPhase::Bind,
            self.wf(),
        ensures
            Some(result) == self.pending(),
    {
        if self.named {
            ParamCall::BindName { position: self.position }
        } else {
            ParamCall::BindPosition { id: (self.position + 1) as u16, position: self.position }
        }
    }

    /// After the last write-back (or right after execution when there are no
    /// parameters): a query is done, a statement reads its count.
    fn after_writes(&mut self) -> (step: ParamStep)
        ensures
            final(self).received == old(self).received,
            final(self).query == old(self).query,
            final(self).named == old(self).named,
            final(self).failure == old(self).failure,
            old(self).query ==> final(self).phase == ParamPhase::Done && (step matches ParamStep::Done(
                Ok(r),
            ) && r.spec_rows() == 0),
            !old(self).query ==> final(self).phase == ParamPhase::Rows && step == ParamStep::Call(
                ParamCall::RowsAffected,
            ),
    {
        if self.query {
            self.phase = ParamPhase::Done;
            ParamStep::Done(Ok(ExecResult::new(0)))
        } else {
            self.phase = ParamPhase::Rows;
            ParamStep::Call(ParamCall::RowsAffected)
        }
    }

    /// Continue with the reply to the pending call. For
    /// [`ParamCall::CountParams`], [`ParamCall::DrainFetch`] and
    /// [`ParamCall::RowsAffected`] the reply carries the reported number; for
    /// the other calls it carries `0`.
    pub fn resume<S>(&mut self, stmt: &mut Statement<S>, reply: Result<u64, Error>) -> (step:
        ParamStep)
        requires
            old(self).wf(),
            old(self).pending() is Some,
            old(self).consistent(old(stmt).spec_state()),
            old(self).pending() == Some(ParamCall::CountParams) && reply is Ok ==> reply->Ok_0
                <= u16::MAX,
            old(self).pending() == Some(ParamCall::DrainFetch) && reply is Ok ==> reply->Ok_0
                <= u32::MAX,
        ensures
            final(self).wf(),
            final(self).consistent(final(stmt).spec_state()),
            final(stmt).spec_handle() == old(stmt).spec_handle(),
            final(self).spec_received() == old(self).spec_received(),
            final(self).spec_query() == old(self).spec_query(),
            final(self).spec_named() == old(self).spec_named(),
            step matches ParamStep::Call(c) ==> final(self).pending() == Some(c),
            step is Done ==> final(self).pending() is None,
            // Counting the placeholders.
            old(self).pending() == Some(ParamCall::CountParams) ==> *final(stmt) == *old(stmt)
                && match reply {
                Err(e) => step == ParamStep::Done(Err::<ExecResult, Error>(e)),
                Ok(n) => if n != old(self).spec_received() {
                    step matches ParamStep::Done(Err(Error::InvalidArgument(m))) && m@
                        == count_text(n as int, old(self).spec_received() as int)
                } else if n == 0 {
                    step == ParamStep::Call(ParamCall::Execute)
                } else {
                    step == ParamStep::Call(bind_call(old(self).spec_named(), 0))
                },
            },
            // Binding the parameter at a position.
            (old(self).pending() matches Some(ParamCall::BindPosition { position, .. })
                || old(self).pending() matches Some(ParamCall::BindName { position })) ==> *final(stmt)
                == *old(stmt) && match reply {
                Err(e) => step == ParamStep::Done(Err::<ExecResult, Error>(e)),
                Ok(_) => step == ParamStep::Call(
                    if old(self).pending().unwrap().bound_position() + 1 < old(
                        self,
                    ).spec_received() {
                        bind_call(
                            old(self).spec_named(),
                            old(self).pending().unwrap().bound_position() + 1,
                        )
                    } else {
                        ParamCall::Execute
                    },
                ),
            },
            // Executing.
            old(self).pending() == Some(ParamCall::Execute) ==> match reply {
                Err(e) => step == ParamStep::Done(Err::<ExecResult, Error>(e)) && *final(stmt)
                    == *old(stmt),
                Ok(_) => final(stmt).spec_state() == (if old(self).spec_query() {
                    StatementState::Active
                } else {
                    old(stmt).spec_state()
                }) && (if old(self).spec_received() > 0 {
                    step == ParamStep::Call(ParamCall::Complete { position: 0 })
                } else if old(self).spec_query() {
                    (step matches ParamStep::Done(Ok(r)) && r.spec_rows() == 0)
                } else {
                    step == ParamStep::Call(ParamCall::RowsAffected)
                }),
            },
            // Writing an output back.
            old(self).pending() matches Some(ParamCall::Complete { position }) ==> *final(stmt)
                == *old(stmt) && match reply {
                Err(e) => if old(self).spec_query() {
                    step == ParamStep::Call(ParamCall::DrainFetch) && final(self).spec_failure()
                        == Some(e)
                } else {
                    step == ParamStep::Done(Err::<ExecResult, Error>(e))
                },
                Ok(_) => if position + 1 < old(self).spec_received() {
                    step == ParamStep::Call(ParamCall::Complete { position: (position + 1) as usize })
                } else if old(self).spec_query() {
                    (step matches ParamStep::Done(Ok(r)) && r.spec_rows() == 0)
                } else {
                    step == ParamStep::Call(ParamCall::RowsAffected)
                },
            },
            // Draining after a failed write-back: the write-back failure is
            // reported, and the statement is left ready or unusable.
            old(self).pending() == Some(ParamCall::DrainFetch) ==> if reply is Ok && reply->Ok_0
                == 1 {
                step == ParamStep::Call(ParamCall::DrainFetch) && final(stmt).spec_state()
                    == StatementState::Active
            } else {
                old(self).spec_failure() matches Some(f) && step == ParamStep::Done(
                    Err::<ExecResult, Error>(f),
                ) && final(stmt).spec_state() != StatementState::Active
                    && ((final(stmt).spec_state() == StatementState::Ready) == (reply == Ok::<
                    u64,
                    Error,
                >(0)))
            },
            // Reading the affected-row count.
            old(self).pending() == Some(ParamCall::RowsAffected) ==> *final(stmt) == *old(stmt)
                && match reply {
                Err(e) => step == ParamStep::Done(Err::<ExecResult, Error>(e)),
                Ok(n) => (step matches ParamStep::Done(Ok(r)) && r.spec_rows() == n),
            },
    {
        match self.phase {
            ParamPhase::Count => match reply {
                Err(e) => {
                    self.phase = ParamPhase::Done;
                    ParamStep::Done(Err(e))
                },
                Ok(n) => {
                    if n != self.received as u64 {
                        self.phase = ParamPhase::Done;
                        ParamStep::Done(Err(count_mismatch(n, self.received)))
                    } else if n == 0 {
                        self.phase = ParamPhase::Execute;
                        ParamStep::Call(ParamCall::Execute)
                    } else {
                        self.phase = ParamPhase::Bind;
                        self.position = 0;
                        ParamStep::Call(self.bind_step())
                    }
                },
            },
            ParamPhase::Bind => match reply {
                Err(e) => {
                    self.phase = ParamPhase::Done;
                    ParamStep::Done(Err(e))
                },
                Ok(_) => {
                    if self.position + 1 < self.received {
                        self.position = self.position + 1;
                        ParamStep::Call(self.bind_step())
                    } else {
                        self.phase = ParamPhase::Execute;
                        ParamStep::Call(ParamCall::Execute)
                    }
                },
            },
            ParamPhase::Execute => match reply {
                Err(e) => {
                    self.phase = ParamPhase::Done;
                    ParamStep::Done(Err(e))
                },
                Ok(_) => {
                    if self.query {
                        stmt.state = StatementState::Active;
                    }
                    if self.received > 0 {
                        self.phase = ParamPhase::Complete;
                        self.position = 0;
                        ParamStep::Call(ParamCall::Complete { position: 0 })
                    } else {
                        self.after_writes()
                    }
                },
            },
            ParamPhase::Complete => match reply {
                Err(e) => {
                    if self.query {
                        self.failure = Some(e);
                        self.phase = ParamPhase::Drain;
                        ParamStep::Call(ParamCall::DrainFetch)
                    } else {
                        self.phase = ParamPhase::Done;
                        ParamStep::Done(Err(e))
                    }
                },
                Ok(_) => {
                    if self.position + 1 < self.received {
                        self.position = self.position + 1;
                        ParamStep::Call(ParamCall::Complete { position: self.position })
                    } else {
                        self.after_writes()
                    }
                },
            },
            ParamPhase::Drain => {
                let fetched: Result<u32, Error> = match reply {
                    Ok(n) => Ok(n as u32),
                    Err(e) => Err(e),
                };
                match stmt.drained(fetched) {
                    None => ParamStep::Call(ParamCall::DrainFetch),
                    Some(_) => {
                        self.phase = ParamPhase::Done;
                        match self.failure.take() {
                            Some(f) => ParamStep::Done(Err(f)),
                            None => ParamStep::Done(
                                Err(Error::Internal("write-back failure was lost".to_owned())),
                            ),
                        }
                    },
                }
            },
            ParamPhase::Rows => {
                self.phase = ParamPhase::Done;
                match reply {
                    Ok(n) => ParamStep::Done(Ok(ExecResult::new(n))),
                    Err(e) => ParamStep::Done(Err(e)),
                }
            },
            ParamPhase::Done => ParamStep::Done(
                Err(Error::Internal("parameter execution already finished".to_owned())),
            ),
        }
    }
}

impl ParamCall {
    /// The list position a bind call refers to.
    pub open spec fn bound_position(self) -> int {
        match self {
            ParamCall::BindPosition { position, .. } => position as int,
            ParamCall::BindName { position } => position as int,
            _ => 0,
        }
    }
}

impl<S> Statement<S> {
    /// Start executing this prepared statement with `received` positional
    /// parameters. A statement with an active or failed result set is refused.
    pub fn execute_params(&self, received: usize, query: bool) -> (result: Result<
        ParamExecution,
        Error,
    >)
        ensures
            self.spec_state() == StatementState::Ready ==> (result matches Ok(m) && m.wf()
                && m.pending() == Some(ParamCall::CountParams) && m.spec_received() == received
                && m.spec_query() == query && !m.spec_named() && m.consistent(self.spec_state())),
            self.spec_state() == StatementState::Active ==> (result matches Err(e) && active_error(
                e,
            )),
            self.spec_state() == StatementState::Poisoned ==> (result matches Err(e)
                && poisoned_error(e)),
    {
        match self.ensure_ready() {
            Ok(()) => Ok(ParamExecution::start(received, query, false)),
            Err(e) => Err(e),
        }
    }
}


/// How `Debug` shows a parameter name given as C-string bytes: in double
/// quotes, each byte escaped as by `<[u8]>::escape_ascii`.
pub open spec fn debug_name(name: Seq<u8>) -> Seq<char> {
    seq!['"'] + escaped_bytes(name) + seq!['"']
}

/// Renders a parameter name the way `Debug` renders a C string.
pub fn render_name(name: &[u8]) -> (result: String)
    ensures
        result@ == debug_name(name@),
{
    let mut out = String::new();
    push_char(&mut out, '"');
    push_escaped_bytes(&mut out, name);
    push_char(&mut out, '"');
    assert(out@ =~= debug_name(name@));
    out
}

/// Whether two byte strings are equal.
pub fn bytes_equal(a: &[u8], b: &[u8]) -> (result: bool)
    ensures
        result == (a@ == b@),
{
    if a.len() != b.len() {
        return false;
    }
    let mut i: usize = 0;
    while i < a.len()
        invariant
            a@.len() == b@.len(),
            i <= a@.len(),
            forall|k: int| 0 <= k < i ==> a@[k] == b@[k],
        decreases a@.len() - i,
    {
        if a[i] != b[i] {
            return false;
        }
        i = i + 1;
    }
    assert(a@ =~= b@);
    true
}

/// Whether the name at position `i` repeats an earlier name.
pub open spec fn repeats_earlier(names: Seq<Vec<u8>>, i: int) -> bool {
    exists|j: int| 0 <= j < i && #[trigger] names[j]@ == names[i]@
}

/// Whether position `i` holds the first repeated name of the list.
pub open spec fn first_repeat(names: Seq<Vec<u8>>, i: int) -> bool {
    &&& 0 <= i < names.len()
    &&& repeats_earlier(names, i)
    &&& forall|k: int| 0 <= k < i ==> !repeats_earlier(names, k)
}

/// The message for a parameter name given twice.
pub open spec fn duplicate_text(name: Seq<u8>) -> Seq<char> {
    "duplicate named parameter "@ + debug_name(name)
}

/// Check that no parameter name is given twice; the error names the first
/// name that repeats an earlier one.
pub fn check_unique_names(names: &Vec<Vec<u8>>) -> (result: Result<(), Error>)
    ensures
        (forall|i: int| 0 <= i < names@.len() ==> !repeats_earlier(names@, i)) ==> result is Ok,
        result is Err ==> exists|i: int|
            first_repeat(names@, i) && (result matches Err(Error::InvalidArgument(m)) && m@
                == duplicate_text(#[trigger] names@[i]@)),
        result is Ok ==> forall|i: int| 0 <= i < names@.len() ==> !repeats_earlier(names@, i),
{
    let mut i: usize = 0;
    while i < names.len()
        invariant
            i <= names@.len(),
            forall|k: int| 0 <= k < i ==> !repeats_earlier(names@, k),
        decreases names@.len() - i,
    {
        let mut j: usize = 0;
        while j < i
            invariant
                i < names@.len(),
                j <= i,
                forall|k: int| 0 <= k < j ==> names@[k]@ != names@[i as int]@,
                forall|k: int| 0 <= k < i ==> !repeats_earlier(names@, k),
            decreases i - j,
        {
            if bytes_equal(names[i].as_slice(), names[j].as_slice()) {
                proof {
                    assert(names@[j as int]@ == names@[i as int]@);
                    assert(repeats_earlier(names@, i as int));
                    assert(first_repeat(names@, i as int));
                }
                let mut msg = "duplicate named parameter ".to_owned();
                let rendered = render_name(names[i].as_slice());
                msg.append(rendered.as_str());
                return Err(Error::InvalidArgument(msg));
            }
            j = j + 1;
        }
        assert(!repeats_earlier(names@, i as int));
        i = i + 1;
    }
    Ok(())
}

impl<S> Statement<S> {
    /// Start executing this prepared statement with named parameters. A
    /// statement with an active or failed result set is refused, then a name
    /// given twice is refused.
    pub fn execute_named_params(&self, names: &Vec<Vec<u8>>, query: bool) -> (result: Result<
        ParamExecution,
        Error,
    >)
        ensures
            self.spec_state() == StatementState::Active ==> (result matches Err(e) && active_error(
                e,
            )),
            self.spec_state() == StatementState::Poisoned ==> (result matches Err(e)
                && poisoned_error(e)),
            self.spec_state() == StatementState::Ready ==> {
                &&& (forall|i: int| 0 <= i < names@.len() ==> !repeats_earlier(names@, i))
                    <==> result is Ok
                &&& result matches Ok(m) ==> m.wf() && m.pending() == Some(ParamCall::CountParams)
                    && m.spec_received() == names@.len() && m.spec_query() == query
                    && m.spec_named() && m.consistent(self.spec_state())
                &&& result is Err ==> exists|i: int|
                    first_repeat(names@, i) && (result matches Err(Error::InvalidArgument(m))
                        && m@ == duplicate_text(#[trigger] names@[i]@))
            },
    {
        match self.ensure_ready() {
            Ok(()) => {},
            Err(e) => {
                return Err(e);
            },
        }
        match check_unique_names(names) {
            Ok(()) => Ok(ParamExecution::start(names.len(), query, true)),
            Err(e) => Err(e),
        }
    }
}


/// Size in bytes of the buffer that receives a column name.
pub const COLUMN_NAME_BUFFER_SIZE: usize = 256;

/// A column attribute read from the client while describing a result column.
#[derive(Clone, Copy, Debug, PartialEq, Eq, Structural)]
pub enum ColumnAttr {
    /// The column name, as bytes.
    Name,
    /// The client type code.
    Type,
    /// The decimal precision.
    Precision,
    /// The decimal scale.
    Scale,
    /// The maximum byte length.
    Size,
    /// The maximum character length.
    CharSize,
    /// Whether the column admits NULL.
    Nullable,
}

/// The client's reply to a column attribute request.
#[derive(Debug)]
pub enum ColumnReply {
    /// The column name bytes.
    Name(Vec<u8>),
    /// The client type code.
    Type(u8),
    /// The decimal precision.
    Precision(u8),
    /// The decimal scale.
    Scale(i8),
    /// The maximum byte length.
    Size(u32),
    /// The maximum character length.
    CharSize(u32),
    /// Non-zero when the column admits NULL.
    Nullable(u8),
}

/// Whether a reply answers the given attribute request.
pub open spec fn answers(attr: ColumnAttr, reply: ColumnReply) -> bool {
    match reply {
        ColumnReply::Name(b) => attr == ColumnAttr::Name && b@.len() <= COLUMN_NAME_BUFFER_SIZE,
        ColumnReply::Type(_) => attr == ColumnAttr::Type,
        ColumnReply::Precision(_) => attr == ColumnAttr::Precision,
        ColumnReply::Scale(_) => attr == ColumnAttr::Scale,
        ColumnReply::Size(_) => attr == ColumnAttr::Size,
        ColumnReply::CharSize(_) => attr == ColumnAttr::CharSize,
        ColumnReply::Nullable(_) => attr == ColumnAttr::Nullable,
    }
}

/// What has been read of a column so far.
pub struct ColumnRecord {
    /// The decoded name.
    pub name: Seq<char>,
    /// The client type code.
    pub code: u8,
    /// The decimal precision.
    pub precision: u8,
    /// The decimal scale.
    pub scale: i8,
    /// The maximum byte length.
    pub size: u32,
    /// The maximum character length.
    pub char_size: u32,
}

/// Whether a client type is a character type (sized in bytes and characters).
pub open spec fn is_char_type(code: u8) -> bool {
    ||| code == YacType::Char.spec_code()
    ||| code == YacType::NChar.spec_code()
    ||| code == YacType::VarChar.spec_code()
    ||| code == YacType::NVarChar.spec_code()
}

/// The attribute read after the type: precision for a NUMBER, size for
/// character and binary types, otherwise nullability.
pub open spec fn attr_after_type(code: u8) -> ColumnAttr {
    if code == YacType::Number.spec_code() {
        ColumnAttr::Precision
    } else if is_char_type(code) || code == YacType::Binary.spec_code() {
        ColumnAttr::Size
    } else {
        ColumnAttr::Nullable
    }
}

/// The attribute read after the size: the character size for character types.
pub open spec fn attr_after_size(code: u8) -> ColumnAttr {
    if is_char_type(code) {
        ColumnAttr::CharSize
    } else {
        ColumnAttr::Nullable
    }
}

/// The type description of a column from its client type code and the
/// attributes read for it; client types without a description of their own
/// are kept as `Other` with their code.
pub open spec fn reported_type_info(r: ColumnRecord) -> DataTypeInfo {
    let c = r.code;
    if c == YacType::Bool.spec_code() {
        DataTypeInfo::Bool
    } else if c == YacType::TinyInt.spec_code() {
        DataTypeInfo::TinyInt
    } else if c == YacType::SmallInt.spec_code() {
        DataTypeInfo::SmallInt
    } else if c == YacType::Integer.spec_code() {
        DataTypeInfo::Integer
    } else if c == YacType::BigInt.spec_code() {
        DataTypeInfo::BigInt
    } else if c == YacType::Float.spec_code() {
        DataTypeInfo::Float
    } else if c == YacType::Double.spec_code() {
        DataTypeInfo::Double
    } else if c == YacType::Number.spec_code() {
        DataTypeInfo::Number { precision: r.precision, scale: r.scale }
    } else if c == YacType::Date.spec_code() {
        DataTypeInfo::Date
    } else if c == YacType::ShortTime.spec_code() {
        DataTypeInfo::Time
    } else if c == YacType::Timestamp.spec_code() {
        DataTypeInfo::Timestamp
    } else if c == YacType::TimestampLtz.spec_code() {
        DataTypeInfo::TimestampLtz
    } else if c == YacType::TimestampTz.spec_code() {
        DataTypeInfo::TimestampTz
    } else if c == YacType::YmInterval.spec_code() {
        DataTypeInfo::IntervalYM
    } else if c == YacType::DsInterval.spec_code() {
        DataTypeInfo::IntervalDS
    } else if c == YacType::Char.spec_code() {
        DataTypeInfo::Char { size: r.size, char_size: r.char_size }
    } else if c == YacType::NChar.spec_code() {
        DataTypeInfo::NChar { size: r.size, char_size: r.char_size }
    } else if c == YacType::VarChar.spec_code() {
        DataTypeInfo::VarChar { size: r.size, char_size: r.char_size }
    } else if c == YacType::NVarChar.spec_code() {
        DataTypeInfo::NVarChar { size: r.size, char_size: r.char_size }
    } else if c == YacType::Binary.spec_code() {
        DataTypeInfo::Binary { size: r.size }
    } else if c == YacType::Blob.spec_code() {
        DataTypeInfo::Blob
    } else if c == YacType::Clob.spec_code() {
        DataTypeInfo::Clob
    } else if c == YacType::NClob.spec_code() {
        DataTypeInfo::Nclob
    } else {
        DataTypeInfo::Other(c)
    }
}

/// A column is described as the database type that its client type code
/// names: when the described general type stands for a client type, that
/// type carries the reported code; a column is kept as `Other` only for a
/// code that no recognized database type carries, and then with that code.
/// So two columns with different codes never get the same general type.
pub proof fn description_follows_type_code(r: ColumnRecord)
    ensures
        client_type(general_type(reported_type_info(r))) matches Some(y) ==> y.spec_code()
            == r.code,
        reported_type_info(r) is Other <==> forall|t: DataType|
            #[trigger] client_type(t) matches Some(y) ==> y.spec_code() != r.code,
        reported_type_info(r) matches DataTypeInfo::Other(c) ==> c == r.code,
{
    if !(reported_type_info(r) is Other) {
        let t = general_type(reported_type_info(r));
        assert(client_type(t) matches Some(y) && y.spec_code() == r.code);
    }
}

/// Columns with different client type codes are described as different
/// general types.
pub proof fn distinct_codes_distinct_types(r1: ColumnRecord, r2: ColumnRecord)
    requires
        r1.code != r2.code,
    ensures
        general_type(reported_type_info(r1)) != general_type(reported_type_info(r2)),
{
    description_follows_type_code(r1);
    description_follows_type_code(r2);
}

fn type_info_of(code: u8, precision: u8, scale: i8, size: u32, char_size: u32) -> (result:
    DataTypeInfo)
    ensures
        result == reported_type_info(
            ColumnRecord { name: Seq::empty(), code, precision, scale, size, char_size },
        ),
{
    match YacType::from_code(code) {
        Some(YacType::Bool) => DataTypeInfo::Bool,
        Some(YacType::TinyInt) => DataTypeInfo::TinyInt,
        Some(YacType::SmallInt) => DataTypeInfo::SmallInt,
        Some(YacType::Integer) => DataTypeInfo::Integer,
        Some(YacType::BigInt) => DataTypeInfo::BigInt,
        Some(YacType::Float) => DataTypeInfo::Float,
        Some(YacType::Double) => DataTypeInfo::Double,
        Some(YacType::Number) => DataTypeInfo::Number { precision, scale },
        Some(YacType::Date) => DataTypeInfo::Date,
        Some(YacType::ShortTime) => DataTypeInfo::Time,
        Some(YacType::Timestamp) => DataTypeInfo::Timestamp,
        Some(YacType::TimestampLtz) => DataTypeInfo::TimestampLtz,
        Some(YacType::TimestampTz) => DataTypeInfo::TimestampTz,
        Some(YacType::YmInterval) => DataTypeInfo::IntervalYM,
        Some(YacType::DsInterval) => DataTypeInfo::IntervalDS,
        Some(YacType::Char) => DataTypeInfo::Char { size, char_size },
        Some(YacType::NChar) => DataTypeInfo::NChar { size, char_size },
        Some(YacType::VarChar) => DataTypeInfo::VarChar { size, char_size },
        Some(YacType::NVarChar) => DataTypeInfo::NVarChar { size, char_size },
        Some(YacType::Binary) => DataTypeInfo::Binary { size },
        Some(YacType::Blob) => DataTypeInfo::Blob,
        Some(YacType::Clob) => DataTypeInfo::Clob,
        Some(YacType::NClob) => DataTypeInfo::Nclob,
        _ => DataTypeInfo::Other(code),
    }
}

#[derive(Clone, Copy, Debug, PartialEq, Eq, Structural)]
enum DescribePhase {
    Name,
    Type,
    Precision,
    Scale,
    Size,
    CharSize,
    Nullable,
    Done,
}

/// Reading the metadata of one result column: its name, its type, the
/// attributes its type needs, and its nullability, in that order. The first
/// failing read ends the description with its error.
#[derive(Debug)]
pub struct ColumnDescribe {
    phase: DescribePhase,
    name: String,
    code: u8,
    precision: u8,
    scale: i8,
    size: u32,
    char_size: u32,
}

/// The error for a column name that is not valid UTF-8.
pub open spec fn name_encoding_error(e: Error) -> bool {
    e matches Error::InvalidEncoding { context } && context@ == "column name"@
}

impl ColumnDescribe {
    /// What has been read so far.
    pub closed spec fn record(&self) -> ColumnRecord {
        ColumnRecord {
            name: self.name@,
            code: self.code,
            precision: self.precision,
            scale: self.scale,
            size: self.size,
            char_size: self.char_size,
        }
    }

    /// The attribute to read next, or `None` once the description is over.
    pub closed spec fn pending(&self) -> Option<ColumnAttr> {
        match self.phase {
            DescribePhase::Name => Some(ColumnAttr::Name),
            DescribePhase::Type => Some(ColumnAttr::Type),
            DescribePhase::Precision => Some(ColumnAttr::Precision),
            DescribePhase::Scale => Some(ColumnAttr::Scale),
            DescribePhase::Size => Some(ColumnAttr::Size),
            DescribePhase::CharSize => Some(ColumnAttr::CharSize),
            DescribePhase::Nullable => Some(ColumnAttr::Nullable),
            DescribePhase::Done => None,
        }
    }

    /// A description that starts with the column name, with nothing read
    /// yet: an empty name, type code 0 and zero attributes.
    pub fn new() -> (result: ColumnDescribe)
        ensures
            result.pending() == Some(ColumnAttr::Name),
            result.record() == (ColumnRecord {
                name: Seq::<char>::empty(),
                code: 0,
                precision: 0,
                scale: 0,
                size: 0,
                char_size: 0,
            }),
    {
        ColumnDescribe {
            phase: DescribePhase::Name,
            name: String::new(),
            code: 0,
            precision: 0,
            scale: 0,
            size: 0,
            char_size: 0,
        }
    }

    /// The attribute to read next, or `None` once the description is over.
    pub fn next(&self) -> (result: Option<ColumnAttr>)
        ensures
            result == self.pending(),
    {
        match self.phase {
            DescribePhase::Name => Some(ColumnAttr::Name),
            DescribePhase::Type => Some(ColumnAttr::Type),
            DescribePhase::Precision => Some(ColumnAttr::Precision),
            DescribePhase::Scale => Some(ColumnAttr::Scale),
            DescribePhase::Size => Some(ColumnAttr::Size),
            DescribePhase::CharSize => Some(ColumnAttr::CharSize),
            DescribePhase::Nullable => Some(ColumnAttr::Nullable),
            DescribePhase::Done => None,
        }
    }

    fn after_type(&mut self) -> (result: Option<Result<ColumnInfo, Error>>)
        ensures
            result is None,
            final(self).record() == old(self).record(),
            final(self).pending() == Some(attr_after_type(old(self).record().code)),
    {
        let c = self.code;
        if c == YacType::Number.code() {
            self.phase = DescribePhase::Precision;
        } else if c == YacType::Char.code() || c == YacType::NChar.code() || c
            == YacType::VarChar.code() || c == YacType::NVarChar.code() || c
            == YacType::Binary.code() {
            self.phase = DescribePhase::Size;
        } else {
            self.phase = DescribePhase::Nullable;
        }
        None
    }

    /// Continue with the reply to the pending read. Returns `None` while
    /// more attributes are needed, then the column's metadata or the error
    /// that ended the description.
    pub fn resume(&mut self, reply: Result<ColumnReply, Error>) -> (result: Option<
        Result<ColumnInfo, Error>,
    >)
        requires
            old(self).pending() is Some,
            reply matches Ok(r) ==> answers(old(self).pending().unwrap(), r),
        ensures
            result is Some <==> final(self).pending() is None,
            reply matches Err(e) ==> result == Some(Err::<ColumnInfo, Error>(e)),
            reply matches Ok(ColumnReply::Name(b)) ==> if valid_utf8(b@) {
                result is None && final(self).pending() == Some(ColumnAttr::Type)
                    && final(self).record() == (ColumnRecord {
                    name: decode_utf8(b@),
                    ..old(self).record()
                })
            } else {
                result matches Some(Err(e)) && name_encoding_error(e)
            },
            reply matches Ok(ColumnReply::Type(c)) ==> result is None && final(self).pending()
                == Some(attr_after_type(c)) && final(self).record() == (ColumnRecord {
                code: c,
                ..old(self).record()
            }),
            reply matches Ok(ColumnReply::Precision(p)) ==> result is None && final(self).pending()
                == Some(ColumnAttr::Scale) && final(self).record() == (ColumnRecord {
                precision: p,
                ..old(self).record()
            }),
            reply matches Ok(ColumnReply::Scale(s)) ==> result is None && final(self).pending()
                == Some(ColumnAttr::Nullable) && final(self).record() == (ColumnRecord {
                scale: s,
                ..old(self).record()
            }),
            reply matches Ok(ColumnReply::Size(z)) ==> result is None && final(self).pending()
                == Some(attr_after_size(old(self).record().code)) && final(self).record() == (
            ColumnRecord { size: z, ..old(self).record() }),
            reply matches Ok(ColumnReply::CharSize(z)) ==> result is None && final(self).pending()
                == Some(ColumnAttr::Nullable) && final(self).record() == (ColumnRecord {
                char_size: z,
                ..old(self).record()
            }),
            reply matches Ok(ColumnReply::Nullable(v)) ==> (result matches Some(Ok(info))
                && info.name_spec() == old(self).record().name && info.info_spec()
                == reported_type_info(old(self).record()) && info.nullable_spec() == (v != 0)),
    {
        match reply {
            Err(e) => {
                self.phase = DescribePhase::Done;
                Some(Err(e))
            },
            Ok(ColumnReply::Name(bytes)) => match utf8_string(bytes) {
                Some(name) => {
                    self.name = name;
                    self.phase = DescribePhase::Type;
                    None
                },
                None => {
                    self.phase = DescribePhase::Done;
                    Some(Err(Error::InvalidEncoding { context: "column name" }))
                },
            },
            Ok(ColumnReply::Type(code)) => {
                self.code = code;
                self.after_type()
            },
            Ok(ColumnReply::Precision(p)) => {
                self.precision = p;
                self.phase = DescribePhase::Scale;
                None
            },
            Ok(ColumnReply::Scale(s)) => {
                self.scale = s;
                self.phase = DescribePhase::Nullable;
                None
            },
            Ok(ColumnReply::Size(z)) => {
                self.size = z;
                let c = self.code;
                if c == YacType::Char.code() || c == YacType::NChar.code() || c
                    == YacType::VarChar.code() || c == YacType::NVarChar.code() {
                    self.phase = DescribePhase::CharSize;
                } else {
                    self.phase = DescribePhase::Nullable;
                }
                None
            },
            Ok(ColumnReply::CharSize(z)) => {
                self.char_size = z;
                self.phase = DescribePhase::Nullable;
                None
            },
            Ok(ColumnReply::Nullable(v)) => {
                self.phase = DescribePhase::Done;
                let info = type_info_of(
                    self.code,
                    self.precision,
                    self.scale,
                    self.size,
                    self.char_size,
                );
                let name = self.name.clone();
                Some(Ok(ColumnInfo::new(name, info, v != 0)))
            },
        }
    }
}

} // verus!

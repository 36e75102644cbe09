//! Scoped transaction guard.

use vstd::prelude::*;

use crate::ffi::YacTempLobType;
use crate::lob::LobRequest;
use crate::query::{Execution, RowQuery};

verus! {

/// A session call issued when a transaction guard ends.
#[derive(Clone, Copy, Debug, PartialEq, Eq, Structural)]
pub enum SessionCall {
    /// Commit the current connection transaction.
    Commit,
    /// Roll back the current connection transaction.
    Rollback,
    /// Set the connection's auto-commit mode.
    SetAutoCommit(bool),
}

/// The calls that end a guard: the ending call, then the restoration of
/// auto-commit when the guard disabled it.
pub open spec fn ending_calls(restore_auto_commit: bool, ending: SessionCall) -> Seq<SessionCall> {
    if restore_auto_commit {
        seq![ending, SessionCall::SetAutoCommit(true)]
    } else {
        seq![ending]
    }
}

/// The auto-commit mode after a sequence of session calls, starting from
/// `mode`.
pub open spec fn auto_commit_after(mode: bool, calls: Seq<SessionCall>) -> bool
    decreases calls.len(),
{
    if calls.len() == 0 {
        mode
    } else {
        let rest = calls.drop_first();
        match calls[0] {
            SessionCall::SetAutoCommit(enabled) => auto_commit_after(enabled, rest),
            _ => auto_commit_after(mode, rest),
        }
    }
}

/// The number of transaction-ending calls (commit or rollback) in a sequence.
pub open spec fn endings(calls: Seq<SessionCall>) -> nat
    decreases calls.len(),
{
    if calls.len() == 0 {
        0
    } else {
        let rest = calls.drop_first();
        match calls[0] {
            SessionCall::SetAutoCommit(_) => endings(rest),
            _ => 1 + endings(rest),
        }
    }
}

/// A scoped transaction on a connection.
///
/// When created from an auto-commit connection, it disables auto-commit while
/// alive and restores it after an explicit commit, rollback, or abandonment.
/// When created from a manual-commit connection, it guards the entire current
/// connection transaction. Unless it is explicitly committed or rolled back,
/// abandoning the guard rolls the current transaction back.
#[derive(Debug)]
pub struct Transaction {
    restore_auto_commit: bool,
    completed: bool,
}

impl Transaction {
    /// Whether auto-commit is restored when the guard ends.
    pub closed spec fn restores(&self) -> bool {
        self.restore_auto_commit
    }

    /// Whether the guard was committed or rolled back explicitly.
    pub closed spec fn completed(&self) -> bool {
        self.completed
    }

    /// A guard that restores auto-commit on completion when `restore_auto_commit`.
    pub fn new(restore_auto_commit: bool) -> (result: Transaction)
        ensures
            result.restores() == restore_auto_commit,
            !result.completed(),
    {
        Transaction { restore_auto_commit, completed: false }
    }

    /// Execute SQL that returns no rows on this transaction's connection.
    pub fn execute(&self) -> (result: Execution)
        ensures
            result.wf(),
            result.pending() == Some(crate::query::ExecCall::AllocStmt),
    {
        Execution::new()
    }

    /// A query on this transaction's connection that must return exactly one row.
    pub fn query_one_map<T>(&self) -> (result: RowQuery<T>)
        ensures
            result.wf(),
            !result.spec_optional(),
            result.at_first_fetch(),
            result.next() == crate::query::RowQueryStep::Fetch,
    {
        RowQuery::new(false)
    }

    /// A query on this transaction's connection that returns zero or one row.
    pub fn query_opt_map<T>(&self) -> (result: RowQuery<T>)
        ensures
            result.wf(),
            result.spec_optional(),
            result.at_first_fetch(),
            result.next() == crate::query::RowQueryStep::Fetch,
    {
        RowQuery::new(true)
    }

    /// Create an empty temporary binary LOB on this transaction's connection.
    pub fn temporary_blob(&self) -> (result: LobRequest)
        ensures
            result == (LobRequest { lob_type: YacTempLobType::Blob, create_temporary: true }),
    {
        LobRequest { lob_type: YacTempLobType::Blob, create_temporary: true }
    }

    /// Create an empty temporary character LOB on this transaction's connection.
    pub fn temporary_clob(&self) -> (result: LobRequest)
        ensures
            result == (LobRequest { lob_type: YacTempLobType::Clob, create_temporary: true }),
    {
        LobRequest { lob_type: YacTempLobType::Clob, create_temporary: true }
    }

    /// Allocate a BLOB locator for a non-nullable output parameter.
    pub fn output_blob(&self) -> (result: LobRequest)
        ensures
            result == (LobRequest { lob_type: YacTempLobType::Blob, create_temporary: false }),
    {
        LobRequest { lob_type: YacTempLobType::Blob, create_temporary: false }
    }

    /// Allocate a CLOB locator for a non-nullable output parameter.
    pub fn output_clob(&self) -> (result: LobRequest)
        ensures
            result == (LobRequest { lob_type: YacTempLobType::Clob, create_temporary: false }),
    {
        LobRequest { lob_type: YacTempLobType::Clob, create_temporary: false }
    }

    fn finish(&mut self, ending: SessionCall) -> (calls: Vec<SessionCall>)
        requires
            ending == SessionCall::Commit || ending == SessionCall::Rollback,
        ensures
            calls@ == ending_calls(old(self).restores(), ending),
            final(self).completed(),
            final(self).restores() == old(self).restores(),
    {
        let mut calls = Vec::new();
        calls.push(ending);
        self.completed = true;
        if self.restore_auto_commit {
            calls.push(SessionCall::SetAutoCommit(true));
        }
        calls
    }

    /// Commit the current connection transaction and end this guard.
    ///
    /// Returns the calls to issue, in order; the result reported to the
    /// caller is the result of the first (the commit). If the connection used
    /// auto-commit when this guard was created, auto-commit is restored after
    /// committing.
    pub fn commit(self) -> (calls: Vec<SessionCall>)
        ensures
            calls@ == ending_calls(self.restores(), SessionCall::Commit),
    {
        let mut guard = self;
        guard.finish(SessionCall::Commit)
    }

    /// Roll back the current connection transaction and end this guard.
    ///
    /// Returns the calls to issue, in order; the result reported to the
    /// caller is the result of the first (the rollback).
    pub fn rollback(self) -> (calls: Vec<SessionCall>)
        ensures
            calls@ == ending_calls(self.restores(), SessionCall::Rollback),
    {
        let mut guard = self;
        guard.finish(SessionCall::Rollback)
    }

    /// The calls issued when the guard goes out of scope: a rollback and the
    /// restoration of auto-commit, unless it was already completed. Their
    /// failures are ignored.
    pub fn abandon(self) -> (calls: Vec<SessionCall>)
        ensures
            self.completed() ==> calls@.len() == 0,
            !self.completed() ==> calls@ == ending_calls(self.restores(), SessionCall::Rollback),
    {
        if self.completed {
            Vec::new()
        } else {
            let mut guard = self;
            guard.finish(SessionCall::Rollback)
        }
    }
}

/// However a guard ends (commit, rollback or abandonment), exactly one
/// transaction-ending call is issued, and the connection's auto-commit mode
/// is afterwards what it was when the guard was created: the guard disables
/// auto-commit (when it was on) at creation and restores it at the end.
pub proof fn guard_restores_auto_commit(initial_auto_commit: bool, ending: SessionCall)
    requires
        ending == SessionCall::Commit || ending == SessionCall::Rollback,
    ensures
        ({
            let start = if initial_auto_commit {
                seq![SessionCall::SetAutoCommit(false)]
            } else {
                Seq::<SessionCall>::empty()
            };
            let calls = start + ending_calls(initial_auto_commit, ending);
            &&& auto_commit_after(initial_auto_commit, calls) == initial_auto_commit
            &&& endings(calls) == 1
            &&& auto_commit_after(initial_auto_commit, start) == false
        }),
{
    let start = if initial_auto_commit {
        seq![SessionCall::SetAutoCommit(false)]
    } else {
        Seq::<SessionCall>::empty()
    };
    let calls = start + ending_calls(initial_auto_commit, ending);
    reveal_with_fuel(auto_commit_after, 4);
    reveal_with_fuel(endings, 4);
    if initial_auto_commit {
        assert(calls =~= seq![SessionCall::SetAutoCommit(false), ending, SessionCall::SetAutoCommit(true)]);
        assert(calls.drop_first() =~= seq![ending, SessionCall::SetAutoCommit(true)]);
        assert(calls.drop_first().drop_first() =~= seq![SessionCall::SetAutoCommit(true)]);
        assert(start.drop_first() =~= Seq::<SessionCall>::empty());
    } else {
        assert(calls =~= seq![ending]);
        assert(calls.drop_first() =~= Seq::<SessionCall>::empty());
    }
}

} // verus!

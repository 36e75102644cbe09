//! Connection configuration, establishment and session attributes.

use vstd::prelude::*;
use vstd::string::*;

use crate::error::Error;
use crate::ffi::{YacConnAttr, YacTxnIsolation};
use crate::connect::{initial_state, lengths_checked, ConnectCall, Connecting, ConnectStep};
use crate::ffi::YacTempLobType;
use crate::lob::{Blob, Clob, LobRequest};
use crate::query::{ExecCall, Execution, RowQuery, RowQueryStep};
use crate::transaction::{SessionCall, Transaction};

verus! {

/// Transaction isolation level for a session.
#[derive(Clone, Copy, Debug, PartialEq, Eq, Structural)]
pub enum TransactionIsolation {
    /// Read committed.
    ReadCommitted,
    /// Current committed, a YashanDB-specific level.
    CurrentCommitted,
    /// Serializable.
    Serializable,
}

/// The client library's level for a session isolation level.
pub open spec fn native_level(isolation: TransactionIsolation) -> YacTxnIsolation {
    match isolation {
        TransactionIsolation::ReadCommitted => YacTxnIsolation::ReadCommitted,
        TransactionIsolation::CurrentCommitted => YacTxnIsolation::CurrCommitted,
        TransactionIsolation::Serializable => YacTxnIsolation::Serializable,
    }
}

/// The session isolation level for a client library level.
pub open spec fn session_level(level: YacTxnIsolation) -> TransactionIsolation {
    match level {
        YacTxnIsolation::ReadCommitted => TransactionIsolation::ReadCommitted,
        YacTxnIsolation::CurrCommitted => TransactionIsolation::CurrentCommitted,
        YacTxnIsolation::Serializable => TransactionIsolation::Serializable,
    }
}

impl TransactionIsolation {
    /// The client library's level for this isolation level.
    pub fn to_native(self) -> (result: YacTxnIsolation)
        ensures
            result == native_level(self),
    {
        match self {
            TransactionIsolation::ReadCommitted => YacTxnIsolation::ReadCommitted,
            TransactionIsolation::CurrentCommitted => YacTxnIsolation::CurrCommitted,
            TransactionIsolation::Serializable => YacTxnIsolation::Serializable,
        }
    }

    /// The isolation level for a level reported by the client library.
    pub fn from_native(level: YacTxnIsolation) -> (result: TransactionIsolation)
        ensures
            result == session_level(level),
    {
        match level {
            YacTxnIsolation::ReadCommitted => TransactionIsolation::ReadCommitted,
            YacTxnIsolation::CurrCommitted => TransactionIsolation::CurrentCommitted,
            YacTxnIsolation::Serializable => TransactionIsolation::Serializable,
        }
    }
}

/// Converting an isolation level to the client's level and back gives the
/// same isolation level.
pub proof fn isolation_round_trip(isolation: TransactionIsolation)
    ensures
        session_level(native_level(isolation)) == isolation,
{
}

/// Converting a client level to an isolation level and back gives the same
/// client level, so the two sets of levels correspond one to one.
pub proof fn native_level_round_trip(level: YacTxnIsolation)
    ensures
        native_level(session_level(level)) == level,
{
}

/// The smallest packet size the client accepts, in bytes (64 KiB).
pub const MIN_PACKET_SIZE: u32 = 65536;

/// The largest packet size the client accepts, in bytes (32 MiB).
pub const MAX_PACKET_SIZE: u32 = 33554432;

/// Whether a packet size lies in the accepted range.
pub open spec fn packet_size_ok(bytes: u32) -> bool {
    MIN_PACKET_SIZE <= bytes <= MAX_PACKET_SIZE
}

/// The attribute values requested before connecting.
#[derive(Clone, Copy, Debug, PartialEq, Eq, Structural)]
pub struct ConnectSettings {
    /// Login timeout in seconds.
    pub login_timeout: Option<u32>,
    /// Packet size in bytes.
    pub packet_size: Option<u32>,
    /// Auto-commit mode.
    pub auto_commit: Option<bool>,
    /// Transaction isolation level.
    pub transaction_isolation: Option<TransactionIsolation>,
    /// Heartbeat mode.
    pub heartbeat_enabled: Option<bool>,
}

/// The settings of a builder on which no attribute was set.
pub open spec fn default_settings() -> ConnectSettings {
    ConnectSettings {
        login_timeout: None,
        packet_size: None,
        auto_commit: None,
        transaction_isolation: None,
        heartbeat_enabled: None,
    }
}

/// Builder for a connection, allowing connection attributes to be set before
/// connecting.
#[derive(Debug)]
pub struct ConnectionBuilder {
    login_timeout: Option<u32>,
    packet_size: Option<u32>,
    auto_commit: Option<bool>,
    transaction_isolation: Option<TransactionIsolation>,
    heartbeat_enabled: Option<bool>,
}

impl ConnectionBuilder {
    /// The attribute values held by this builder.
    pub closed spec fn settings(&self) -> ConnectSettings {
        ConnectSettings {
            login_timeout: self.login_timeout,
            packet_size: self.packet_size,
            auto_commit: self.auto_commit,
            transaction_isolation: self.transaction_isolation,
            heartbeat_enabled: self.heartbeat_enabled,
        }
    }

    pub(crate) fn settings_value(&self) -> (result: ConnectSettings)
        ensures
            result == self.settings(),
    {
        ConnectSettings {
            login_timeout: self.login_timeout,
            packet_size: self.packet_size,
            auto_commit: self.auto_commit,
            transaction_isolation: self.transaction_isolation,
            heartbeat_enabled: self.heartbeat_enabled,
        }
    }

    /// A builder with no attribute set.
    pub fn new() -> (result: ConnectionBuilder)
        ensures
            result.settings() == (ConnectSettings {
                login_timeout: None,
                packet_size: None,
                auto_commit: None,
                transaction_isolation: None,
                heartbeat_enabled: None,
            }),
    {
        ConnectionBuilder {
            login_timeout: None,
            packet_size: None,
            auto_commit: None,
            transaction_isolation: None,
            heartbeat_enabled: None,
        }
    }

    /// Set the login timeout in seconds.
    ///
    /// Only applies to the login process. Some client library versions reject
    /// this attribute, so the error is returned at connect time.
    pub fn login_timeout(self, seconds: u32) -> (result: ConnectionBuilder)
        ensures
            result.settings() == (ConnectSettings { login_timeout: Some(seconds), ..self.settings() }),
    {
        ConnectionBuilder { login_timeout: Some(seconds), ..self }
    }

    /// Set the packet size in bytes.
    ///
    /// Must be within the range [64 KiB, 32 MiB]; otherwise
    /// [`Error::InvalidArgument`] is returned at connect time.
    pub fn packet_size(self, bytes: u32) -> (result: ConnectionBuilder)
        ensures
            result.settings() == (ConnectSettings { packet_size: Some(bytes), ..self.settings() }),
    {
        ConnectionBuilder { packet_size: Some(bytes), ..self }
    }

    /// Set the auto-commit mode used by the new connection.
    ///
    /// The default is manual commit (`false`).
    pub fn auto_commit(self, enabled: bool) -> (result: ConnectionBuilder)
        ensures
            result.settings() == (ConnectSettings { auto_commit: Some(enabled), ..self.settings() }),
    {
        ConnectionBuilder { auto_commit: Some(enabled), ..self }
    }

    /// Set the transaction isolation level.
    pub fn transaction_isolation(self, isolation: TransactionIsolation) -> (result:
        ConnectionBuilder)
        ensures
            result.settings() == (ConnectSettings {
                transaction_isolation: Some(isolation),
                ..self.settings()
            }),
    {
        ConnectionBuilder { transaction_isolation: Some(isolation), ..self }
    }

    /// Set whether heartbeat is enabled.
    pub fn heartbeat_enabled(self, enabled: bool) -> (result: ConnectionBuilder)
        ensures
            result.settings() == (ConnectSettings { heartbeat_enabled: Some(enabled), ..self.settings() }),
    {
        ConnectionBuilder { heartbeat_enabled: Some(enabled), ..self }
    }
}

/// Largest byte length of a connection parameter (the client's 16-bit length field).
pub const MAX_CONN_PARAM_LEN: usize = 32767;

/// Convert a connection parameter length to the client's 16-bit length
/// field, rejecting strings that do not fit.
pub fn conn_param_len(s: &str) -> (result: Result<i16, Error>)
    ensures
        s.len() <= MAX_CONN_PARAM_LEN ==> result == Ok::<i16, Error>(s.len() as i16),
        s.len() > MAX_CONN_PARAM_LEN ==> (result matches Err(Error::InvalidArgument(
            msg,
        )) && msg@ == "connection parameter exceeds the maximum of 32767 bytes"@),
{
    let len = s.len();
    if len <= MAX_CONN_PARAM_LEN {
        Ok(len as i16)
    } else {
        Err(
            Error::InvalidArgument(
                "connection parameter exceeds the maximum of 32767 bytes".to_owned(),
            ),
        )
    }
}

/// Combine the result of an operation with the result of releasing its
/// resources: an operation error wins, and a release error is reported only
/// after a successful operation.
pub fn finish_result<T>(operation: Result<T, Error>, finish: Result<(), Error>) -> (result: Result<
    T,
    Error,
>)
    ensures
        operation is Err ==> result == operation,
        operation is Ok && finish is Ok ==> result == operation,
        operation is Ok && finish is Err ==> result == Err::<T, Error>(finish->Err_0),
{
    match operation {
        Ok(value) => match finish {
            Ok(()) => Ok(value),
            Err(error) => Err(error),
        },
        Err(error) => Err(error),
    }
}


/// A connection to a YashanDB instance, owning its native handles (of the
/// caller's type `N`).
///
/// A connection is created once establishing it reported
/// [`crate::connect::ConnectStep::Connected`]; its session calls are
/// described here and performed by the caller.
#[derive(Debug)]
pub struct Connection<N> {
    handles: N,
}

impl<N> Connection<N> {
    /// The native handles.
    pub closed spec fn spec_handles(&self) -> N {
        self.handles
    }

    /// A connection owning established handles.
    pub fn new(handles: N) -> (result: Connection<N>)
        ensures
            result.spec_handles() == handles,
    {
        Connection { handles }
    }

    /// The native handles.
    pub fn handles(&self) -> (result: &N)
        ensures
            *result == self.spec_handles(),
    {
        &self.handles
    }

    /// Close the connection: the handles, and the calls that release them in
    /// order (end the session, free the connection handle, free the
    /// environment handle).
    pub fn close(self) -> (result: (N, Vec<ConnectCall>))
        ensures
            result.0 == self.spec_handles(),
            result.1@ == seq![ConnectCall::Disconnect, ConnectCall::FreeDbc, ConnectCall::FreeEnv],
    {
        let mut calls = Vec::new();
        calls.push(ConnectCall::Disconnect);
        calls.push(ConnectCall::FreeDbc);
        calls.push(ConnectCall::FreeEnv);
        (self.handles, calls)
    }

    /// Start connecting with default attributes: the same attempt as
    /// [`ConnectionBuilder::connect`] on a builder with no attribute set.
    pub fn connect(url: &str, username: &str, password: &str) -> (result: (Connecting, ConnectStep))
        ensures
            result.0.wf(),
            result.0.state().params matches Some(r) && lengths_checked(url, username, password, r),
            result.0.state() == initial_state(default_settings(), result.0.state().params->0, None),
            result.1 == ConnectStep::Call(ConnectCall::AllocEnv),
    {
        Connection::<N>::builder().connect(url, username, password)
    }

    /// Start building a connection with configurable attributes.
    pub fn builder() -> (result: ConnectionBuilder)
        ensures
            result.settings() == default_settings(),
    {
        ConnectionBuilder::new()
    }

    /// Create an empty temporary binary LOB owned by this connection.
    pub fn temporary_blob(&self) -> (result: LobRequest)
        ensures
            result == (LobRequest { lob_type: YacTempLobType::Blob, create_temporary: true }),
    {
        Blob::<N>::temporary()
    }

    /// Create an empty temporary character LOB owned by this connection.
    pub fn temporary_clob(&self) -> (result: LobRequest)
        ensures
            result == (LobRequest { lob_type: YacTempLobType::Clob, create_temporary: true }),
    {
        Clob::<N>::temporary()
    }

    /// Allocate a BLOB locator for a non-nullable output parameter: only a
    /// client-side descriptor, no temporary server LOB.
    pub fn output_blob(&self) -> (result: LobRequest)
        ensures
            result == (LobRequest { lob_type: YacTempLobType::Blob, create_temporary: false }),
    {
        Blob::<N>::output()
    }

    /// Allocate a CLOB locator for a non-nullable output parameter: only a
    /// client-side descriptor, no temporary server LOB.
    pub fn output_clob(&self) -> (result: LobRequest)
        ensures
            result == (LobRequest { lob_type: YacTempLobType::Clob, create_temporary: false }),
    {
        Clob::<N>::output()
    }

    /// The connection's auto-commit mode, from the attribute value the
    /// client reported.
    pub fn auto_commit(&self, reported: i32) -> (result: bool)
        ensures
            result == (reported != 0),
    {
        reported != 0
    }

    /// Set the connection's auto-commit mode: the call to make.
    pub fn set_auto_commit(&mut self, enabled: bool) -> (result: SessionCall)
        ensures
            result == SessionCall::SetAutoCommit(enabled),
            final(self).spec_handles() == old(self).spec_handles(),
    {
        SessionCall::SetAutoCommit(enabled)
    }

    /// Commit the current transaction without changing auto-commit mode.
    pub fn commit(&self) -> (result: SessionCall)
        ensures
            result == SessionCall::Commit,
    {
        SessionCall::Commit
    }

    /// Roll back the current transaction without changing auto-commit mode.
    pub fn rollback(&self) -> (result: SessionCall)
        ensures
            result == SessionCall::Rollback,
    {
        SessionCall::Rollback
    }

    /// Start a scoped guard for the current connection transaction, given
    /// the auto-commit mode the client reported. When auto-commit is on, the
    /// guard disables it first (the call returned) and restores it when it
    /// ends; otherwise it guards the current transaction as it is.
    pub fn transaction(&mut self, reported_auto_commit: i32) -> (result: (
        Transaction,
        Option<SessionCall>,
    ))
        ensures
            final(self).spec_handles() == old(self).spec_handles(),
            result.0.restores() == (reported_auto_commit != 0),
            !result.0.completed(),
            reported_auto_commit != 0 ==> result.1 == Some(SessionCall::SetAutoCommit(false)),
            reported_auto_commit == 0 ==> result.1 is None,
    {
        let restore = self.auto_commit(reported_auto_commit);
        let call = if restore {
            Some(SessionCall::SetAutoCommit(false))
        } else {
            None
        };
        (Transaction::new(restore), call)
    }

    /// The transaction isolation level, from the level the client reported
    /// (one of the client's isolation levels).
    pub fn transaction_isolation(&self, reported: i32) -> (result: TransactionIsolation)
        requires
            exists|level: YacTxnIsolation| level.spec_code() == reported,
        ensures
            forall|level: YacTxnIsolation|
                level.spec_code() == reported ==> result == session_level(level),
    {
        match YacTxnIsolation::from_code(reported) {
            Some(level) => TransactionIsolation::from_native(level),
            None => TransactionIsolation::ReadCommitted,
        }
    }

    /// Set the transaction isolation level: the attribute call to make (it
    /// may fail when the session is in a transaction).
    pub fn set_transaction_isolation(&mut self, isolation: TransactionIsolation) -> (result:
        ConnectCall)
        ensures
            final(self).spec_handles() == old(self).spec_handles(),
            result == (ConnectCall::SetAttr {
                attr: YacConnAttr::TransactionIsolation,
                value: native_level(isolation).spec_code() as u32,
            }),
    {
        let level = isolation.to_native();
        ConnectCall::SetAttr { attr: YacConnAttr::TransactionIsolation, value: level.code() as u32 }
    }

    /// Whether heartbeat is enabled, from the attribute value the client
    /// reported.
    pub fn heartbeat_enabled(&self, reported: i32) -> (result: bool)
        ensures
            result == (reported != 0),
    {
        reported != 0
    }

    /// The packet size in bytes, fixed at connect time, as the client
    /// reported it.
    pub fn packet_size(&self, reported: u32) -> (result: u32)
        ensures
            result == reported,
    {
        reported
    }

    /// Execute non-parameterized SQL that does not return a result set, on a
    /// temporary statement.
    pub fn execute(&self) -> (result: Execution)
        ensures
            result.wf(),
            result.pending() == Some(ExecCall::AllocStmt),
    {
        Execution::new()
    }

    /// Execute a query that must return exactly one row and map it.
    pub fn query_one_map<T>(&self) -> (result: RowQuery<T>)
        ensures
            result.wf(),
            !result.spec_optional(),
            result.at_first_fetch(),
            result.next() == RowQueryStep::Fetch,
            result.outcome() is None,
    {
        RowQuery::new(false)
    }

    /// Execute a query that returns zero or one row and map it.
    pub fn query_opt_map<T>(&self) -> (result: RowQuery<T>)
        ensures
            result.wf(),
            result.spec_optional(),
            result.at_first_fetch(),
            result.next() == RowQueryStep::Fetch,
            result.outcome() is None,
    {
        RowQuery::new(true)
    }
}

} // verus!

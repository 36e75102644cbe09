//! Establishing a connection: the ordered native calls and their cleanup.
//!
//! A connection is established by a fixed sequence of client calls. Each
//! allocated handle must be released exactly once when a later step fails,
//! and a connected session is disconnected before its handle is freed. The
//! [`Connecting`] state machine decides the next call from the reply to the
//! previous one; the caller performs the calls.

use vstd::prelude::*;
use vstd::string::*;

use crate::conn::{
    conn_param_len, default_settings, native_level, packet_size_ok, ConnectSettings, ConnectionBuilder,
    TransactionIsolation, MAX_CONN_PARAM_LEN, MAX_PACKET_SIZE, MIN_PACKET_SIZE,
};
use crate::error::Error;
use crate::ffi::{YacCharsetCode, YacConnAttr};
use crate::text::{decimal, push_unsigned};

verus! {

/// A native call made while establishing a connection.
#[derive(Debug, PartialEq, Eq, Structural)]
pub enum ConnectCall {
    /// Allocate the environment handle.
    AllocEnv,
    /// Configure the environment with [`env_settings`]. The client accepts
    /// these on every supported version.
    ConfigureEnv,
    /// Allocate the connection handle under the environment handle.
    AllocDbc,
    /// Set a connection attribute to an integer value.
    SetAttr {
        /// The attribute.
        attr: YacConnAttr,
        /// The value.
        value: u32,
    },
    /// Log in with the given parameter byte lengths.
    Connect {
        /// Byte length of the URL.
        url_len: i16,
        /// Byte length of the user name.
        username_len: i16,
        /// Byte length of the password.
        password_len: i16,
    },
    /// End the session.
    Disconnect,
    /// Free the connection handle.
    FreeDbc,
    /// Free the environment handle.
    FreeEnv,
}

/// An environment attribute set by [`ConnectCall::ConfigureEnv`].
#[derive(Clone, Copy, Debug, PartialEq, Eq)]
pub enum EnvSetting {
    /// The character set text is exchanged in.
    Charset(YacCharsetCode),
    /// The client driver name reported to the server.
    ClientDriver(&'static str),
    /// The driver version reported to the server.
    SoftwareVersion(&'static str),
}

/// The environment attributes that identify this client, in the order they
/// are set: text is exchanged as UTF-8, and the driver reports its name and
/// version.
pub fn env_settings() -> (result: Vec<EnvSetting>)
    ensures
        result@.len() == 3,
        result@[0] == EnvSetting::Charset(YacCharsetCode::UTF8),
        result@[1] matches EnvSetting::ClientDriver(n) && n@ == "YashanDB Rust Driver"@,
        result@[2] matches EnvSetting::SoftwareVersion(v) && v@ == "0.1.0"@,
{
    proof {
        reveal_strlit("YashanDB Rust Driver");
        reveal_strlit("0.1.0");
    }
    let mut settings = Vec::new();
    settings.push(EnvSetting::Charset(YacCharsetCode::UTF8));
    settings.push(EnvSetting::ClientDriver("YashanDB Rust Driver"));
    settings.push(EnvSetting::SoftwareVersion("0.1.0"));
    settings
}

/// What establishing a connection needs next.
#[derive(Debug)]
pub enum ConnectStep {
    /// Perform this call and hand its result to [`Connecting::resume`].
    Call(ConnectCall),
    /// The session is established; both handles are live and owned by the
    /// new connection.
    Connected,
    /// Establishing failed and every handle allocated on the way has been
    /// released.
    Failed(Error),
}

/// The call whose reply a connection attempt is waiting for.
#[derive(Clone, Copy, Debug, PartialEq, Eq, Structural)]
pub enum ConnectPhase {
    /// Allocating the environment handle.
    AllocEnv,
    /// Configuring the environment.
    ConfigureEnv,
    /// Allocating the connection handle.
    AllocDbc,
    /// Setting the login timeout.
    LoginTimeout,
    /// Setting the packet size.
    PacketSize,
    /// Setting the auto-commit mode.
    AutoCommit,
    /// Setting the heartbeat mode.
    Heartbeat,
    /// Logging in.
    Connect,
    /// Setting the transaction isolation level on the new session.
    Isolation,
    /// Releasing a handle after a failure.
    Cleanup,
    /// None: the attempt has produced its final step.
    Finished,
}

/// Everything a connection attempt keeps between two calls.
#[derive(Debug)]
pub struct ConnectState {
    /// The attribute values to apply.
    pub settings: ConnectSettings,
    /// The byte lengths of the URL, user name and password, or the error
    /// that checking them gave; kept until login.
    pub params: Option<Result<(i16, i16, i16), Error>>,
    /// The error for a packet size out of range, kept until the packet size
    /// would be applied.
    pub packet_error: Option<Error>,
    /// The call whose reply is awaited.
    pub phase: ConnectPhase,
    /// Whether the environment handle is allocated and not yet freed.
    pub env: bool,
    /// Whether the connection handle is allocated and not yet freed.
    pub dbc: bool,
    /// Whether a session is established and not yet ended.
    pub connected: bool,
    /// The error to report once every handle is released.
    pub failure: Option<Error>,
}

/// The value of a boolean attribute.
pub open spec fn flag(b: bool) -> u32 {
    if b {
        1
    } else {
        0
    }
}

/// The auto-commit value applied on every connection: on only when asked
/// for, so a new connection commits manually by default.
pub open spec fn auto_commit_value(s: ConnectSettings) -> u32 {
    flag(s.auto_commit == Some(true))
}

/// The attribute value for an isolation level.
pub open spec fn isolation_value(i: TransactionIsolation) -> u32 {
    native_level(i).spec_code() as u32
}

/// Whether a packet size, if one was asked for, is acceptable.
pub open spec fn settings_packet_ok(s: ConnectSettings) -> bool {
    s.packet_size matches Some(b) ==> packet_size_ok(b)
}

/// The message of the error for an out-of-range packet size.
pub open spec fn packet_size_message(bytes: u32) -> Seq<char> {
    "packet size "@ + decimal(bytes as int) + " is out of range [65536, 33554432]"@
}

/// Whether `error` is the error the settings' packet size gives: none for
/// an acceptable or absent size, an invalid-argument error naming the range
/// otherwise.
pub open spec fn packet_error_for(s: ConnectSettings, error: Option<Error>) -> bool {
    if settings_packet_ok(s) {
        error is None
    } else {
        error matches Some(Error::InvalidArgument(m)) && m@ == packet_size_message(
            s.packet_size->0,
        )
    }
}

/// Whether `r` is the outcome of checking the connection parameters: their
/// byte lengths when each fits the client's 16-bit length field, an
/// invalid-argument error otherwise.
pub open spec fn lengths_checked(
    url: &str,
    username: &str,
    password: &str,
    r: Result<(i16, i16, i16), Error>,
) -> bool {
    if url.len() <= MAX_CONN_PARAM_LEN && username.len() <= MAX_CONN_PARAM_LEN && password.len()
        <= MAX_CONN_PARAM_LEN {
        r == Ok::<(i16, i16, i16), Error>(
            (url.len() as i16, username.len() as i16, password.len() as i16),
        )
    } else {
        r matches Err(Error::InvalidArgument(m))
            && m@ == "connection parameter exceeds the maximum of 32767 bytes"@
    }
}

/// The state in which an attempt with these settings and parameter check
/// starts: nothing allocated, the environment allocation pending.
pub open spec fn initial_state(
    s: ConnectSettings,
    params: Result<(i16, i16, i16), Error>,
    packet_error: Option<Error>,
) -> ConnectState {
    ConnectState {
        settings: s,
        params: Some(params),
        packet_error,
        phase: ConnectPhase::AllocEnv,
        env: false,
        dbc: false,
        connected: false,
        failure: None,
    }
}

/// Whether the reply to the call pending in `phase` cannot be a failure on
/// any supported client (the client reports such failures only on a broken
/// installation).
pub open spec fn infallible(phase: ConnectPhase) -> bool {
    ||| phase == ConnectPhase::ConfigureEnv
    ||| phase == ConnectPhase::PacketSize
    ||| phase == ConnectPhase::AutoCommit
    ||| phase == ConnectPhase::Heartbeat
    ||| phase == ConnectPhase::Cleanup
}

/// The internal consistency of a connection attempt.
pub open spec fn consistent(st: ConnectState) -> bool {
    let p = st.phase;
    let s = st.settings;
    &&& st.connected ==> st.dbc
    &&& st.dbc ==> st.env
    &&& p == ConnectPhase::AllocEnv ==> !st.env
    &&& (p == ConnectPhase::ConfigureEnv || p == ConnectPhase::AllocDbc) ==> st.env && !st.dbc
    &&& (p == ConnectPhase::LoginTimeout || p == ConnectPhase::PacketSize || p
        == ConnectPhase::AutoCommit || p == ConnectPhase::Heartbeat || p == ConnectPhase::Connect)
        ==> st.dbc && !st.connected
    &&& p == ConnectPhase::LoginTimeout ==> s.login_timeout is Some
    &&& p == ConnectPhase::PacketSize ==> s.packet_size is Some
    &&& p == ConnectPhase::Heartbeat ==> s.heartbeat_enabled is Some
    &&& p == ConnectPhase::Isolation ==> st.connected && s.transaction_isolation is Some
    &&& (p == ConnectPhase::PacketSize || p == ConnectPhase::AutoCommit || p
        == ConnectPhase::Heartbeat || p == ConnectPhase::Connect || p == ConnectPhase::Isolation)
        ==> settings_packet_ok(s)
    &&& (p == ConnectPhase::AllocEnv || p == ConnectPhase::ConfigureEnv || p
        == ConnectPhase::AllocDbc || p == ConnectPhase::LoginTimeout) ==> (st.packet_error is Some
        <==> !settings_packet_ok(s))
    &&& (p == ConnectPhase::AllocEnv || p == ConnectPhase::ConfigureEnv || p
        == ConnectPhase::AllocDbc || p == ConnectPhase::LoginTimeout || p
        == ConnectPhase::PacketSize || p == ConnectPhase::AutoCommit || p
        == ConnectPhase::Heartbeat) ==> st.params is Some
    &&& p == ConnectPhase::Connect ==> (st.params matches Some(Ok(_)))
    &&& p == ConnectPhase::Cleanup ==> st.failure is Some
    &&& p == ConnectPhase::Finished ==> !st.env || st.connected
}

/// The call that comes after `after` when every call succeeds: the
/// attributes that were asked for in a fixed order (auto-commit always),
/// the login, then the isolation level if one was asked for.
pub open spec fn following(s: ConnectSettings, after: ConnectPhase) -> ConnectPhase {
    match after {
        ConnectPhase::AllocDbc => if s.login_timeout is Some {
            ConnectPhase::LoginTimeout
        } else if s.packet_size is Some {
            ConnectPhase::PacketSize
        } else {
            ConnectPhase::AutoCommit
        },
        ConnectPhase::LoginTimeout => if s.packet_size is Some {
            ConnectPhase::PacketSize
        } else {
            ConnectPhase::AutoCommit
        },
        ConnectPhase::PacketSize => ConnectPhase::AutoCommit,
        ConnectPhase::AutoCommit => if s.heartbeat_enabled is Some {
            ConnectPhase::Heartbeat
        } else {
            ConnectPhase::Connect
        },
        ConnectPhase::Heartbeat => ConnectPhase::Connect,
        ConnectPhase::Connect => if s.transaction_isolation is Some {
            ConnectPhase::Isolation
        } else {
            ConnectPhase::Finished
        },
        _ => ConnectPhase::Finished,
    }
}

/// Release the innermost live handle, or, with nothing left, report the
/// recorded failure.
pub open spec fn release_step(st: ConnectState) -> (ConnectState, ConnectStep) {
    if st.connected {
        (ConnectState { connected: false, ..st }, ConnectStep::Call(ConnectCall::Disconnect))
    } else if st.dbc {
        (ConnectState { dbc: false, ..st }, ConnectStep::Call(ConnectCall::FreeDbc))
    } else if st.env {
        (ConnectState { env: false, ..st }, ConnectStep::Call(ConnectCall::FreeEnv))
    } else {
        (
            ConnectState { phase: ConnectPhase::Finished, failure: None, ..st },
            ConnectStep::Failed(st.failure->0),
        )
    }
}

/// Record `error` as the failure and start releasing what was allocated.
pub open spec fn fail_step(st: ConnectState, error: Error) -> (ConnectState, ConnectStep) {
    release_step(ConnectState { phase: ConnectPhase::Cleanup, failure: Some(error), ..st })
}

/// Issue the call of phase `p`, or fail with the error that the library's
/// own checks recorded for it.
pub open spec fn arrive_step(st: ConnectState, p: ConnectPhase) -> (ConnectState, ConnectStep) {
    let s = st.settings;
    match p {
        ConnectPhase::LoginTimeout => (
            ConnectState { phase: p, ..st },
            ConnectStep::Call(
                ConnectCall::SetAttr { attr: YacConnAttr::LoginTimeout, value: s.login_timeout->0 },
            ),
        ),
        ConnectPhase::PacketSize => match st.packet_error {
            Some(e) => fail_step(ConnectState { packet_error: None, ..st }, e),
            None => (
                ConnectState { phase: p, ..st },
                ConnectStep::Call(
                    ConnectCall::SetAttr { attr: YacConnAttr::PacketSize, value: s.packet_size->0 },
                ),
            ),
        },
        ConnectPhase::AutoCommit => (
            ConnectState { phase: p, ..st },
            ConnectStep::Call(
                ConnectCall::SetAttr { attr: YacConnAttr::AutoCommit, value: auto_commit_value(s) },
            ),
        ),
        ConnectPhase::Heartbeat => (
            ConnectState { phase: p, ..st },
            ConnectStep::Call(
                ConnectCall::SetAttr {
                    attr: YacConnAttr::HeartbeatEnabled,
                    value: flag(s.heartbeat_enabled->0),
                },
            ),
        ),
        ConnectPhase::Connect => match st.params {
            Some(Err(e)) => fail_step(ConnectState { params: None, ..st }, e),
            _ => (
                ConnectState { phase: p, ..st },
                ConnectStep::Call(
                    ConnectCall::Connect {
                        url_len: (st.params->0->Ok_0).0,
                        username_len: (st.params->0->Ok_0).1,
                        password_len: (st.params->0->Ok_0).2,
                    },
                ),
            ),
        },
        ConnectPhase::Isolation => (
            ConnectState { phase: p, ..st },
            ConnectStep::Call(
                ConnectCall::SetAttr {
                    attr: YacConnAttr::TransactionIsolation,
                    value: isolation_value(s.transaction_isolation->0),
                },
            ),
        ),
        _ => (ConnectState { phase: ConnectPhase::Finished, ..st }, ConnectStep::Connected),
    }
}

/// The state and step after the reply to the pending call.
///
/// A successful environment allocation is followed by its configuration and
/// the connection handle's allocation; then come the attributes that were
/// asked for, the login and the isolation level, as [`following`] orders
/// them. A failing reply is the error finally reported: a failed
/// environment allocation leaves nothing to release, any other failure
/// first releases every live handle, innermost first.
pub open spec fn next_step(st: ConnectState, reply: Result<(), Error>) -> (
    ConnectState,
    ConnectStep,
) {
    let s = st.settings;
    match st.phase {
        ConnectPhase::AllocEnv => match reply {
            Ok(_) => (
                ConnectState { env: true, phase: ConnectPhase::ConfigureEnv, ..st },
                ConnectStep::Call(ConnectCall::ConfigureEnv),
            ),
            Err(e) => (ConnectState { phase: ConnectPhase::Finished, ..st }, ConnectStep::Failed(e)),
        },
        ConnectPhase::ConfigureEnv => (
            ConnectState { phase: ConnectPhase::AllocDbc, ..st },
            ConnectStep::Call(ConnectCall::AllocDbc),
        ),
        ConnectPhase::AllocDbc => match reply {
            Ok(_) => arrive_step(
                ConnectState { dbc: true, ..st },
                following(s, ConnectPhase::AllocDbc),
            ),
            Err(e) => fail_step(st, e),
        },
        ConnectPhase::LoginTimeout => match reply {
            Ok(_) => arrive_step(st, following(s, ConnectPhase::LoginTimeout)),
            Err(e) => fail_step(st, e),
        },
        ConnectPhase::PacketSize | ConnectPhase::AutoCommit | ConnectPhase::Heartbeat => arrive_step(
            st,
            following(s, st.phase),
        ),
        ConnectPhase::Connect => match reply {
            Ok(_) => arrive_step(
                ConnectState { connected: true, ..st },
                following(s, ConnectPhase::Connect),
            ),
            Err(e) => fail_step(st, e),
        },
        ConnectPhase::Isolation => match reply {
            Ok(_) => arrive_step(st, ConnectPhase::Finished),
            Err(e) => fail_step(st, e),
        },
        _ => release_step(st),
    }
}

/// The steps of an attempt from `st`, the pending call answered by `first`
/// and every later call succeeding, up to `n` of them and ending at the
/// first final step.
pub open spec fn run(st: ConnectState, first: Result<(), Error>, n: nat) -> Seq<ConnectStep>
    decreases n,
{
    if n == 0 {
        Seq::empty()
    } else {
        let (after, step) = next_step(st, first);
        if step is Call {
            seq![step] + run(after, Ok(()), (n - 1) as nat)
        } else {
            seq![step]
        }
    }
}

/// A step issuing `call`, if there is one.
pub open spec fn optional_call(call: Option<ConnectCall>) -> Seq<ConnectStep> {
    match call {
        Some(c) => seq![ConnectStep::Call(c)],
        None => Seq::empty(),
    }
}

/// The attribute call for the login timeout, if one was asked for.
pub open spec fn login_timeout_call(s: ConnectSettings) -> Option<ConnectCall> {
    match s.login_timeout {
        Some(t) => Some(ConnectCall::SetAttr { attr: YacConnAttr::LoginTimeout, value: t }),
        None => None,
    }
}

/// The environment set-up and the attribute calls made before login: the
/// login timeout and packet size if asked for, the auto-commit mode always,
/// the heartbeat mode if asked for.
pub open spec fn pre_login_steps(s: ConnectSettings) -> Seq<ConnectStep> {
    seq![ConnectStep::Call(ConnectCall::ConfigureEnv), ConnectStep::Call(ConnectCall::AllocDbc)]
        + optional_call(login_timeout_call(s)) + optional_call(
        match s.packet_size {
            Some(b) => Some(ConnectCall::SetAttr { attr: YacConnAttr::PacketSize, value: b }),
            None => None,
        },
    ) + seq![
        ConnectStep::Call(
            ConnectCall::SetAttr { attr: YacConnAttr::AutoCommit, value: auto_commit_value(s) },
        ),
    ] + optional_call(
        match s.heartbeat_enabled {
            Some(h) => Some(
                ConnectCall::SetAttr { attr: YacConnAttr::HeartbeatEnabled, value: flag(h) },
            ),
            None => None,
        },
    )
}

/// The release calls for the handles live in `st`, innermost first.
pub open spec fn release_calls(st: ConnectState) -> Seq<ConnectStep> {
    (if st.connected {
        seq![ConnectStep::Call(ConnectCall::Disconnect)]
    } else {
        Seq::empty()
    }) + (if st.dbc {
        seq![ConnectStep::Call(ConnectCall::FreeDbc)]
    } else {
        Seq::empty()
    }) + (if st.env {
        seq![ConnectStep::Call(ConnectCall::FreeEnv)]
    } else {
        Seq::empty()
    })
}

/// When every call succeeds, an attempt with an acceptable packet size and
/// parameters that fit makes exactly these calls: the environment set-up,
/// the attributes asked for in order (auto-commit always, on only when
/// asked for), the login with the parameters' byte lengths, the isolation
/// level if one was asked for; then it is connected.
#[verifier::rlimit(100)]
pub proof fn successful_attempt(s: ConnectSettings, lens: (i16, i16, i16))
    requires
        settings_packet_ok(s),
    ensures
        run(initial_state(s, Ok(lens), None), Ok(()), 10) == pre_login_steps(s) + seq![
            ConnectStep::Call(
                ConnectCall::Connect {
                    url_len: lens.0,
                    username_len: lens.1,
                    password_len: lens.2,
                },
            ),
        ] + optional_call(
            match s.transaction_isolation {
                Some(i) => Some(
                    ConnectCall::SetAttr {
                        attr: YacConnAttr::TransactionIsolation,
                        value: isolation_value(i),
                    },
                ),
                None => None,
            },
        ) + seq![ConnectStep::Connected],
{
    reveal_with_fuel(run, 10);
}


/// A connection attempt with no attribute set, when every call succeeds,
/// sets only the auto-commit mode, to off, before logging in: a new
/// connection commits manually.
pub proof fn default_attempt(lens: (i16, i16, i16))
    ensures
        run(initial_state(default_settings(), Ok(lens), None), Ok(()), 10) == seq![
            ConnectStep::Call(ConnectCall::ConfigureEnv),
            ConnectStep::Call(ConnectCall::AllocDbc),
            ConnectStep::Call(ConnectCall::SetAttr { attr: YacConnAttr::AutoCommit, value: 0 }),
            ConnectStep::Call(
                ConnectCall::Connect {
                    url_len: lens.0,
                    username_len: lens.1,
                    password_len: lens.2,
                },
            ),
            ConnectStep::Connected,
        ],
{
    successful_attempt(default_settings(), lens);
}

/// A failing reply to a call that can fail ends the attempt with that very
/// error, after releasing every live handle innermost first (a failed
/// environment allocation leaves nothing to release). So a refused login
/// reports the client's error, and a refused isolation level ends the new
/// session before its handles are freed.
pub proof fn failure_is_reported(st: ConnectState, e: Error)
    requires
        consistent(st),
        st.phase != ConnectPhase::Finished,
        !infallible(st.phase),
    ensures
        run(st, Err(e), 4) == release_calls(st) + seq![ConnectStep::Failed(e)],
{
    reveal_with_fuel(run, 4);
}

/// Once a failure is recorded, the release calls end with that failure.
pub proof fn cleanup_reports_recorded_failure(st: ConnectState)
    requires
        consistent(st),
        st.phase == ConnectPhase::Cleanup,
    ensures
        run(st, Ok(()), 4) == release_calls(st) + seq![ConnectStep::Failed(st.failure->0)],
{
    reveal_with_fuel(run, 4);
}

/// An out-of-range packet size ends the attempt with its error once the
/// handles are released; the login is never attempted.
#[verifier::rlimit(50)]
pub proof fn packet_size_refused(
    s: ConnectSettings,
    params: Result<(i16, i16, i16), Error>,
    e: Error,
)
    requires
        !settings_packet_ok(s),
    ensures
        run(initial_state(s, params, Some(e)), Ok(()), 10) == seq![
            ConnectStep::Call(ConnectCall::ConfigureEnv),
            ConnectStep::Call(ConnectCall::AllocDbc),
        ] + optional_call(login_timeout_call(s)) + seq![
            ConnectStep::Call(ConnectCall::FreeDbc),
            ConnectStep::Call(ConnectCall::FreeEnv),
            ConnectStep::Failed(e),
        ],
{
    reveal_with_fuel(run, 10);
}

/// Connection parameters that do not fit end the attempt with their error
/// once the attributes are applied and the handles released; the login is
/// never attempted.
#[verifier::rlimit(100)]
pub proof fn parameters_refused(s: ConnectSettings, e: Error)
    requires
        settings_packet_ok(s),
    ensures
        run(initial_state(s, Err(e), None), Ok(()), 10) == pre_login_steps(s) + seq![
            ConnectStep::Call(ConnectCall::FreeDbc),
            ConnectStep::Call(ConnectCall::FreeEnv),
            ConnectStep::Failed(e),
        ],
{
    reveal_with_fuel(run, 10);
}

/// The handle discipline of one step from `old` to `new`, answering the
/// pending call with `reply` and producing `step`.
pub open spec fn handles_kept(
    old: ConnectState,
    reply: Result<(), Error>,
    new: ConnectState,
    step: ConnectStep,
) -> bool {
    &&& (new.env && !old.env ==> reply is Ok && step == ConnectStep::Call(ConnectCall::ConfigureEnv))
    &&& (new.dbc && !old.dbc ==> reply is Ok)
    &&& (new.connected && !old.connected ==> reply is Ok)
    &&& (old.env && !new.env <==> step == ConnectStep::Call(ConnectCall::FreeEnv))
    &&& (old.dbc && !new.dbc ==> step == ConnectStep::Call(ConnectCall::FreeDbc))
    &&& (old.connected && !new.connected <==> step == ConnectStep::Call(ConnectCall::Disconnect))
    &&& (step == ConnectStep::Call(ConnectCall::FreeEnv) ==> !new.dbc)
    &&& (step == ConnectStep::Call(ConnectCall::FreeDbc) ==> !new.dbc && !new.connected && new.env
        && (old.dbc || reply is Ok))
    &&& (step is Connected ==> new.env && new.dbc && new.connected && new.phase
        == ConnectPhase::Finished)
    &&& (step is Failed ==> !new.env && !new.dbc && !new.connected && new.phase
        == ConnectPhase::Finished)
    &&& (step is Call ==> new.phase != ConnectPhase::Finished)
}

/// Each step keeps the attempt consistent and its settings unchanged, and
/// keeps the handles' discipline: a handle becomes live only through a
/// successful reply, stops being live only through its own release call,
/// a release call is issued only for a live handle (a connection handle may
/// be released right after the reply that allocated it), a session is ended
/// before its connection handle is freed and that handle before the
/// environment; a connected attempt owns all three, a failed one none.
pub proof fn step_keeps_handles(st: ConnectState, reply: Result<(), Error>)
    requires
        consistent(st),
        st.phase != ConnectPhase::Finished,
        infallible(st.phase) ==> reply is Ok,
    ensures
        consistent(next_step(st, reply).0),
        next_step(st, reply).0.settings == st.settings,
        handles_kept(st, reply, next_step(st, reply).0, next_step(st, reply).1),
{
}

/// A connection being established.
#[derive(Debug)]
pub struct Connecting {
    st: ConnectState,
}

impl Connecting {
    /// The attempt's state.
    pub closed spec fn state(&self) -> ConnectState {
        self.st
    }

    /// The internal consistency of the attempt.
    pub open spec fn wf(&self) -> bool {
        consistent(self.state())
    }

    /// Whether the attempt has produced its final step.
    pub open spec fn finished(&self) -> bool {
        self.state().phase == ConnectPhase::Finished
    }

    fn release(&mut self) -> (step: ConnectStep)
        requires
            old(self).st.failure is Some,
        ensures
            (final(self).st, step) == release_step(old(self).st),
    {
        if self.st.connected {
            self.st.connected = false;
            ConnectStep::Call(ConnectCall::Disconnect)
        } else if self.st.dbc {
            self.st.dbc = false;
            ConnectStep::Call(ConnectCall::FreeDbc)
        } else if self.st.env {
            self.st.env = false;
            ConnectStep::Call(ConnectCall::FreeEnv)
        } else {
            self.st.phase = ConnectPhase::Finished;
            let error = self.st.failure.take().unwrap();
            ConnectStep::Failed(error)
        }
    }

    fn fail(&mut self, error: Error) -> (step: ConnectStep)
        ensures
            (final(self).st, step) == fail_step(old(self).st, error),
    {
        self.st.phase = ConnectPhase::Cleanup;
        self.st.failure = Some(error);
        self.release()
    }

    fn arrive(&mut self, p: ConnectPhase) -> (step: ConnectStep)
        requires
            p == ConnectPhase::LoginTimeout ==> old(self).st.settings.login_timeout is Some,
            p == ConnectPhase::PacketSize ==> old(self).st.settings.packet_size is Some,
            p == ConnectPhase::Heartbeat ==> old(self).st.settings.heartbeat_enabled is Some,
            p == ConnectPhase::Connect ==> old(self).st.params is Some,
            p == ConnectPhase::Isolation ==> old(self).st.settings.transaction_isolation is Some,
        ensures
            (final(self).st, step) == arrive_step(old(self).st, p),
    {
        match p {
            ConnectPhase::LoginTimeout => {
                let seconds = self.st.settings.login_timeout.unwrap();
                self.st.phase = p;
                ConnectStep::Call(ConnectCall::SetAttr { attr: YacConnAttr::LoginTimeout, value: seconds })
            },
            ConnectPhase::PacketSize => match self.st.packet_error.take() {
                Some(error) => self.fail(error),
                None => {
                    let bytes = self.st.settings.packet_size.unwrap();
                    self.st.phase = p;
                    ConnectStep::Call(ConnectCall::SetAttr { attr: YacConnAttr::PacketSize, value: bytes })
                },
            },
            ConnectPhase::AutoCommit => {
                let value: u32 = match self.st.settings.auto_commit {
                    Some(true) => 1,
                    _ => 0,
                };
                self.st.phase = p;
                ConnectStep::Call(ConnectCall::SetAttr { attr: YacConnAttr::AutoCommit, value })
            },
            ConnectPhase::Heartbeat => {
                let value: u32 = if self.st.settings.heartbeat_enabled.unwrap() {
                    1
                } else {
                    0
                };
                self.st.phase = p;
                ConnectStep::Call(ConnectCall::SetAttr { attr: YacConnAttr::HeartbeatEnabled, value })
            },
            ConnectPhase::Connect => match self.st.params.take().unwrap() {
                Ok((url_len, username_len, password_len)) => {
                    self.st.params = Some(Ok((url_len, username_len, password_len)));
                    self.st.phase = p;
                    ConnectStep::Call(ConnectCall::Connect { url_len, username_len, password_len })
                },
                Err(error) => self.fail(error),
            },
            ConnectPhase::Isolation => {
                let level = self.st.settings.transaction_isolation.unwrap().to_native();
                let value: u32 = level.code() as u32;
                self.st.phase = p;
                ConnectStep::Call(ConnectCall::SetAttr { attr: YacConnAttr::TransactionIsolation, value })
            },
            _ => {
                self.st.phase = ConnectPhase::Finished;
                ConnectStep::Connected
            },
        }
    }

    /// Continue with the reply to the call most recently returned.
    ///
    /// Replies to calls that the client accepts on every supported version
    /// (environment configuration, packet size, auto-commit, heartbeat and
    /// releases) must be successful.
    pub fn resume(&mut self, reply: Result<(), Error>) -> (step: ConnectStep)
        requires
            old(self).wf(),
            !old(self).finished(),
            infallible(old(self).state().phase) ==> reply is Ok,
        ensures
            (final(self).state(), step) == next_step(old(self).state(), reply),
            final(self).wf(),
    {
        match self.st.phase {
            ConnectPhase::AllocEnv => match reply {
                Ok(()) => {
                    self.st.env = true;
                    self.st.phase = ConnectPhase::ConfigureEnv;
                    ConnectStep::Call(ConnectCall::ConfigureEnv)
                },
                Err(error) => {
                    self.st.phase = ConnectPhase::Finished;
                    ConnectStep::Failed(error)
                },
            },
            ConnectPhase::ConfigureEnv => {
                self.st.phase = ConnectPhase::AllocDbc;
                ConnectStep::Call(ConnectCall::AllocDbc)
            },
            ConnectPhase::AllocDbc => match reply {
                Ok(()) => {
                    self.st.dbc = true;
                    let p = following_phase(&self.st.settings, ConnectPhase::AllocDbc);
                    self.arrive(p)
                },
                Err(error) => self.fail(error),
            },
            ConnectPhase::LoginTimeout => match reply {
                Ok(()) => {
                    let p = following_phase(&self.st.settings, ConnectPhase::LoginTimeout);
                    self.arrive(p)
                },
                Err(error) => self.fail(error),
            },
            ConnectPhase::PacketSize | ConnectPhase::AutoCommit | ConnectPhase::Heartbeat => {
                let p = following_phase(&self.st.settings, self.st.phase);
                self.arrive(p)
            },
            ConnectPhase::Connect => match reply {
                Ok(()) => {
                    self.st.connected = true;
                    let p = following_phase(&self.st.settings, ConnectPhase::Connect);
                    self.arrive(p)
                },
                Err(error) => self.fail(error),
            },
            ConnectPhase::Isolation => match reply {
                Ok(()) => self.arrive(ConnectPhase::Finished),
                Err(error) => self.fail(error),
            },
            ConnectPhase::Cleanup | ConnectPhase::Finished => self.release(),
        }
    }
}

fn following_phase(s: &ConnectSettings, after: ConnectPhase) -> (p: ConnectPhase)
    ensures
        p == following(*s, after),
{
    match after {
        ConnectPhase::AllocDbc => if s.login_timeout.is_some() {
            ConnectPhase::LoginTimeout
        } else if s.packet_size.is_some() {
            ConnectPhase::PacketSize
        } else {
            ConnectPhase::AutoCommit
        },
        ConnectPhase::LoginTimeout => if s.packet_size.is_some() {
            ConnectPhase::PacketSize
        } else {
            ConnectPhase::AutoCommit
        },
        ConnectPhase::PacketSize => ConnectPhase::AutoCommit,
        ConnectPhase::AutoCommit => if s.heartbeat_enabled.is_some() {
            ConnectPhase::Heartbeat
        } else {
            ConnectPhase::Connect
        },
        ConnectPhase::Heartbeat => ConnectPhase::Connect,
        ConnectPhase::Connect => if s.transaction_isolation.is_some() {
            ConnectPhase::Isolation
        } else {
            ConnectPhase::Finished
        },
        _ => ConnectPhase::Finished,
    }
}

/// The error for the settings' packet size, if it is out of range.
fn packet_error(s: &ConnectSettings) -> (result: Option<Error>)
    ensures
        packet_error_for(*s, result),
{
    match s.packet_size {
        Some(bytes) => if bytes < MIN_PACKET_SIZE || bytes > MAX_PACKET_SIZE {
            let mut msg = "packet size ".to_owned();
            push_unsigned(&mut msg, bytes as u64);
            msg.append(" is out of range [65536, 33554432]");
            Some(Error::InvalidArgument(msg))
        } else {
            None
        },
        None => None,
    }
}

impl ConnectionBuilder {
    /// Start establishing a connection with the configured attributes.
    ///
    /// The packet size range and the parameter lengths are checked before
    /// any call; an attempt that fails either check reports
    /// [`Error::InvalidArgument`] once the handles are released, without
    /// logging in. The first step is always the environment allocation.
    pub fn connect(self, url: &str, username: &str, password: &str) -> (result: (
        Connecting,
        ConnectStep,
    ))
        ensures
            result.0.wf(),
            result.0.state().settings == self.settings(),
            result.0.state().params matches Some(r) && lengths_checked(url, username, password, r),
            packet_error_for(self.settings(), result.0.state().packet_error),
            result.0.state() == initial_state(
                self.settings(),
                result.0.state().params->0,
                result.0.state().packet_error,
            ),
            result.1 == ConnectStep::Call(ConnectCall::AllocEnv),
    {
        let settings = self.settings_value();
        let params = match conn_param_len(url) {
            Err(e) => Err(e),
            Ok(url_len) => match conn_param_len(username) {
                Err(e) => Err(e),
                Ok(username_len) => match conn_param_len(password) {
                    Err(e) => Err(e),
                    Ok(password_len) => Ok((url_len, username_len, password_len)),
                },
            },
        };
        let packet_error = packet_error(&settings);
        let st = ConnectState {
            settings,
            params: Some(params),
            packet_error,
            phase: ConnectPhase::AllocEnv,
            env: false,
            dbc: false,
            connected: false,
            failure: None,
        };
        (Connecting { st }, ConnectStep::Call(ConnectCall::AllocEnv))
    }
}

} // verus!

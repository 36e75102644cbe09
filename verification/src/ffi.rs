//! Numeric codes and plain records of the client library interface.

#![allow(non_camel_case_types)]

use vstd::prelude::*;
use vstd::string::*;
use vstd::utf8::*;

use decimal_rs::{Decimal, DecimalConvertError};
use sqldatetime::Timestamp;

use crate::error::Error;

verus! {

/// Indicator value that marks SQL `NULL` data.
pub const NULL_DATA: i32 = -1;

/// Return status of a client call.
#[derive(Clone, Copy, Debug, PartialEq, Eq, Structural)]
pub enum YacResult {
    /// The call succeeded.
    Success,
    /// The call succeeded with diagnostic information.
    SuccessWithInfo,
    /// The call failed.
    Error,
}

impl YacResult {
    /// The value that the client library uses for this return status of a client call.
    pub open spec fn spec_code(self) -> i32 {
        match self {
            YacResult::Success => 0i32,
            YacResult::SuccessWithInfo => 1i32,
            YacResult::Error => -1i32,
        }
    }

    /// The numeric value used by the client library.
    pub fn code(&self) -> (result: i32)
        ensures
            result == self.spec_code(),
    {
        match self {
            YacResult::Success => 0,
            YacResult::SuccessWithInfo => 1,
            YacResult::Error => -1,
        }
    }

    /// The variant with the given client value, or `None` for a value that
    /// no variant has.
    pub fn from_code(code: i32) -> (result: Option<YacResult>)
        ensures
            result matches Some(v) ==> v.spec_code() == code,
            result is None ==> forall|v: YacResult| v.spec_code() != code,
    {
        if code == 0 {
            Some(YacResult::Success)
        } else if code == 1 {
            Some(YacResult::SuccessWithInfo)
        } else if code == -1 {
            Some(YacResult::Error)
        } else {
            None
        }
    }
}

/// Kind of native handle.
#[derive(Clone, Copy, Debug, PartialEq, Eq, Structural)]
pub enum YacHandleType {
    /// Unknown handle kind.
    Unknown,
    /// Environment handle.
    Env,
    /// Connection handle.
    Dbc,
    /// Statement handle.
    Stmt,
}

impl YacHandleType {
    /// The value that the client library uses for this kind of native handle.
    pub open spec fn spec_code(self) -> i32 {
        match self {
            YacHandleType::Unknown => 0i32,
            YacHandleType::Env => 1i32,
            YacHandleType::Dbc => 2i32,
            YacHandleType::Stmt => 3i32,
        }
    }

    /// The numeric value used by the client library.
    pub fn code(&self) -> (result: i32)
        ensures
            result == self.spec_code(),
    {
        match self {
            YacHandleType::Unknown => 0,
            YacHandleType::Env => 1,
            YacHandleType::Dbc => 2,
            YacHandleType::Stmt => 3,
        }
    }
}

/// Database column type reported by the client.
#[derive(Clone, Copy, Debug, PartialEq, Eq, Structural)]
pub enum YacType {
    /// Type code 0.
    Unknown,
    /// Type code 1.
    Bool,
    /// Type code 2.
    TinyInt,
    /// Type code 3.
    SmallInt,
    /// Type code 4.
    Integer,
    /// Type code 5.
    BigInt,
    /// Type code 6.
    UTinyInt,
    /// Type code 7.
    USmallInt,
    /// Type code 8.
    UInteger,
    /// Type code 9.
    UBigInt,
    /// Type code 10.
    Float,
    /// Type code 11.
    Double,
    /// Type code 12.
    Number,
    /// Type code 13.
    Date,
    /// Type code 15.
    ShortTime,
    /// Type code 16.
    Timestamp,
    /// Type code 17.
    TimestampLtz,
    /// Type code 18.
    TimestampTz,
    /// Type code 19.
    YmInterval,
    /// Type code 20.
    DsInterval,
    /// Type code 24.
    Char,
    /// Type code 25.
    NChar,
    /// Type code 26.
    VarChar,
    /// Type code 27.
    NVarChar,
    /// Type code 28.
    Binary,
    /// Type code 29.
    Clob,
    /// Type code 30.
    Blob,
    /// Type code 31.
    Bit,
    /// Type code 32.
    RowId,
    /// Type code 33.
    NClob,
    /// Type code 34.
    Cursor,
    /// Type code 35.
    Json,
    /// Type code 39.
    Xml,
    /// Type code 40.
    NumericFloat,
}

impl YacType {
    /// The value that the client library uses for this database column type reported by the client.
    pub open spec fn spec_code(self) -> u8 {
        match self {
            YacType::Unknown => 0u8,
            YacType::Bool => 1u8,
            YacType::TinyInt => 2u8,
            YacType::SmallInt => 3u8,
            YacType::Integer => 4u8,
            YacType::BigInt => 5u8,
            YacType::UTinyInt => 6u8,
            YacType::USmallInt => 7u8,
            YacType::UInteger => 8u8,
            YacType::UBigInt => 9u8,
            YacType::Float => 10u8,
            YacType::Double => 11u8,
            YacType::Number => 12u8,
            YacType::Date => 13u8,
            YacType::ShortTime => 15u8,
            YacType::Timestamp => 16u8,
            YacType::TimestampLtz => 17u8,
            YacType::TimestampTz => 18u8,
            YacType::YmInterval => 19u8,
            YacType::DsInterval => 20u8,
            YacType::Char => 24u8,
            YacType::NChar => 25u8,
            YacType::VarChar => 26u8,
            YacType::NVarChar => 27u8,
            YacType::Binary => 28u8,
            YacType::Clob => 29u8,
            YacType::Blob => 30u8,
            YacType::Bit => 31u8,
            YacType::RowId => 32u8,
            YacType::NClob => 33u8,
            YacType::Cursor => 34u8,
            YacType::Json => 35u8,
            YacType::Xml => 39u8,
            YacType::NumericFloat => 40u8,
        }
    }

    /// The numeric value used by the client library.
    pub fn code(&self) -> (result: u8)
        ensures
            result == self.spec_code(),
    {
        match self {
            YacType::Unknown => 0,
            YacType::Bool => 1,
            YacType::TinyInt => 2,
            YacType::SmallInt => 3,
            YacType::Integer => 4,
            YacType::BigInt => 5,
            YacType::UTinyInt => 6,
            YacType::USmallInt => 7,
            YacType::UInteger => 8,
            YacType::UBigInt => 9,
            YacType::Float => 10,
            YacType::Double => 11,
            YacType::Number => 12,
            YacType::Date => 13,
            YacType::ShortTime => 15,
            YacType::Timestamp => 16,
            YacType::TimestampLtz => 17,
            YacType::TimestampTz => 18,
            YacType::YmInterval => 19,
            YacType::DsInterval => 20,
            YacType::Char => 24,
            YacType::NChar => 25,
            YacType::VarChar => 26,
            YacType::NVarChar => 27,
            YacType::Binary => 28,
            YacType::Clob => 29,
            YacType::Blob => 30,
            YacType::Bit => 31,
            YacType::RowId => 32,
            YacType::NClob => 33,
            YacType::Cursor => 34,
            YacType::Json => 35,
            YacType::Xml => 39,
            YacType::NumericFloat => 40,
        }
    }

    /// The variant with the given client value, or `None` for a value that
    /// no variant has.
    pub fn from_code(code: u8) -> (result: Option<YacType>)
        ensures
            result matches Some(v) ==> v.spec_code() == code,
            result is None ==> forall|v: YacType| v.spec_code() != code,
    {
        if code == 0 {
            Some(YacType::Unknown)
        } else if code == 1 {
            Some(YacType::Bool)
        } else if code == 2 {
            Some(YacType::TinyInt)
        } else if code == 3 {
            Some(YacType::SmallInt)
        } else if code == 4 {
            Some(YacType::Integer)
        } else if code == 5 {
            Some(YacType::BigInt)
        } else if code == 6 {
            Some(YacType::UTinyInt)
        } else if code == 7 {
            Some(YacType::USmallInt)
        } else if code == 8 {
            Some(YacType::UInteger)
        } else if code == 9 {
            Some(YacType::UBigInt)
        } else if code == 10 {
            Some(YacType::Float)
        } else if code == 11 {
            Some(YacType::Double)
        } else if code == 12 {
            Some(YacType::Number)
        } else if code == 13 {
            Some(YacType::Date)
        } else if code == 15 {
            Some(YacType::ShortTime)
        } else if code == 16 {
            Some(YacType::Timestamp)
        } else if code == 17 {
            Some(YacType::TimestampLtz)
        } else if code == 18 {
            Some(YacType::TimestampTz)
        } else if code == 19 {
            Some(YacType::YmInterval)
        } else if code == 20 {
            Some(YacType::DsInterval)
        } else if code == 24 {
            Some(YacType::Char)
        } else if code == 25 {
            Some(YacType::NChar)
        } else if code == 26 {
            Some(YacType::VarChar)
        } else if code == 27 {
            Some(YacType::NVarChar)
        } else if code == 28 {
            Some(YacType::Binary)
        } else if code == 29 {
            Some(YacType::Clob)
        } else if code == 30 {
            Some(YacType::Blob)
        } else if code == 31 {
            Some(YacType::Bit)
        } else if code == 32 {
            Some(YacType::RowId)
        } else if code == 33 {
            Some(YacType::NClob)
        } else if code == 34 {
            Some(YacType::Cursor)
        } else if code == 35 {
            Some(YacType::Json)
        } else if code == 39 {
            Some(YacType::Xml)
        } else if code == 40 {
            Some(YacType::NumericFloat)
        } else {
            None
        }
    }
}

/// Direction of a bound parameter.
#[derive(Clone, Copy, Debug, PartialEq, Eq, Structural)]
pub enum YacParamDirection {
    /// Input parameter.
    Input,
    /// Output parameter.
    Output,
    /// Input/output parameter.
    InOut,
}

impl YacParamDirection {
    /// The value that the client library uses for this direction of a bound parameter.
    pub open spec fn spec_code(self) -> i32 {
        match self {
            YacParamDirection::Input => 1i32,
            YacParamDirection::Output => 2i32,
            YacParamDirection::InOut => 3i32,
        }
    }

    /// The numeric value used by the client library.
    pub fn code(&self) -> (result: i32)
        ensures
            result == self.spec_code(),
    {
        match self {
            YacParamDirection::Input => 1,
            YacParamDirection::Output => 2,
            YacParamDirection::InOut => 3,
        }
    }
}

/// External (application-side) type of a bound buffer.
#[derive(Clone, Copy, Debug, PartialEq, Eq, Structural)]
pub enum YacExtType {
    /// External type code 0.
    Unknown,
    /// External type code 1.
    Bool,
    /// External type code 2.
    TinyInt,
    /// External type code 3.
    SmallInt,
    /// External type code 4.
    Integer,
    /// External type code 5.
    BigInt,
    /// External type code 10.
    Float,
    /// External type code 11.
    Double,
    /// External type code 12.
    Number,
    /// External type code 13.
    Date,
    /// External type code 15.
    ShortTime,
    /// External type code 16.
    Timestamp,
    /// External type code 19.
    YmInterval,
    /// External type code 20.
    DsInterval,
    /// External type code 24.
    Char,
    /// External type code 26.
    VarChar,
    /// External type code 28.
    Binary,
    /// External type code 29.
    Clob,
    /// External type code 30.
    Blob,
    /// External type code 35.
    Json,
    /// External type code 100.
    Char2,
    /// External type code 101.
    Varchar2,
    /// External type code 102.
    Binary2,
}

impl YacExtType {
    /// The value that the client library uses for this external (application-side) type of a bound buffer.
    pub open spec fn spec_code(self) -> u32 {
        match self {
            YacExtType::Unknown => 0u32,
            YacExtType::Bool => 1u32,
            YacExtType::TinyInt => 2u32,
            YacExtType::SmallInt => 3u32,
            YacExtType::Integer => 4u32,
            YacExtType::BigInt => 5u32,
            YacExtType::Float => 10u32,
            YacExtType::Double => 11u32,
            YacExtType::Number => 12u32,
            YacExtType::Date => 13u32,
            YacExtType::ShortTime => 15u32,
            YacExtType::Timestamp => 16u32,
            YacExtType::YmInterval => 19u32,
            YacExtType::DsInterval => 20u32,
            YacExtType::Char => 24u32,
            YacExtType::VarChar => 26u32,
            YacExtType::Binary => 28u32,
            YacExtType::Clob => 29u32,
            YacExtType::Blob => 30u32,
            YacExtType::Json => 35u32,
            YacExtType::Char2 => 100u32,
            YacExtType::Varchar2 => 101u32,
            YacExtType::Binary2 => 102u32,
        }
    }

    /// The numeric value used by the client library.
    pub fn code(&self) -> (result: u32)
        ensures
            result == self.spec_code(),
    {
        match self {
            YacExtType::Unknown => 0,
            YacExtType::Bool => 1,
            YacExtType::TinyInt => 2,
            YacExtType::SmallInt => 3,
            YacExtType::Integer => 4,
            YacExtType::BigInt => 5,
            YacExtType::Float => 10,
            YacExtType::Double => 11,
            YacExtType::Number => 12,
            YacExtType::Date => 13,
            YacExtType::ShortTime => 15,
            YacExtType::Timestamp => 16,
            YacExtType::YmInterval => 19,
            YacExtType::DsInterval => 20,
            YacExtType::Char => 24,
            YacExtType::VarChar => 26,
            YacExtType::Binary => 28,
            YacExtType::Clob => 29,
            YacExtType::Blob => 30,
            YacExtType::Json => 35,
            YacExtType::Char2 => 100,
            YacExtType::Varchar2 => 101,
            YacExtType::Binary2 => 102,
        }
    }
}

/// Statement attribute identifier.
#[derive(Clone, Copy, Debug, PartialEq, Eq, Structural)]
pub enum YacStmtAttr {
    /// Rows fetched per call.
    RowsetSize,
    /// Rows affected by the last execution.
    RowsAffected,
    /// Whether the cursor reached its end.
    CursorEof,
}

impl YacStmtAttr {
    /// The value that the client library uses for this statement attribute identifier.
    pub open spec fn spec_code(self) -> i32 {
        match self {
            YacStmtAttr::RowsetSize => 101i32,
            YacStmtAttr::RowsAffected => 103i32,
            YacStmtAttr::CursorEof => 104i32,
        }
    }

    /// The numeric value used by the client library.
    pub fn code(&self) -> (result: i32)
        ensures
            result == self.spec_code(),
    {
        match self {
            YacStmtAttr::RowsetSize => 101,
            YacStmtAttr::RowsAffected => 103,
            YacStmtAttr::CursorEof => 104,
        }
    }
}

/// Result column attribute identifier.
#[derive(Clone, Copy, Debug, PartialEq, Eq, Structural)]
pub enum YacColAttr {
    /// Column name.
    Name,
    /// Column byte size.
    Size,
    /// Column type.
    Type,
    /// Numeric precision.
    Precision,
    /// Numeric scale.
    Scale,
    /// Whether NULL is permitted.
    Nullable,
    /// Column character size.
    CharSize,
}

impl YacColAttr {
    /// The value that the client library uses for this result column attribute identifier.
    pub open spec fn spec_code(self) -> i32 {
        match self {
            YacColAttr::Name => 1i32,
            YacColAttr::Size => 2i32,
            YacColAttr::Type => 3i32,
            YacColAttr::Precision => 4i32,
            YacColAttr::Scale => 5i32,
            YacColAttr::Nullable => 6i32,
            YacColAttr::CharSize => 7i32,
        }
    }

    /// The numeric value used by the client library.
    pub fn code(&self) -> (result: i32)
        ensures
            result == self.spec_code(),
    {
        match self {
            YacColAttr::Name => 1,
            YacColAttr::Size => 2,
            YacColAttr::Type => 3,
            YacColAttr::Precision => 4,
            YacColAttr::Scale => 5,
            YacColAttr::Nullable => 6,
            YacColAttr::CharSize => 7,
        }
    }
}

/// Environment attribute identifier.
#[derive(Clone, Copy, Debug, PartialEq, Eq, Structural)]
pub enum YacEnvAttr {
    /// Client character set.
    CharsetCode,
    /// Whether informational success is reported.
    ReturnSuccessWithInfo,
    /// Client software version.
    SoftwareVersion,
    /// Client driver name.
    ClientDriver,
}

impl YacEnvAttr {
    /// The value that the client library uses for this environment attribute identifier.
    pub open spec fn spec_code(self) -> i32 {
        match self {
            YacEnvAttr::CharsetCode => 62i32,
            YacEnvAttr::ReturnSuccessWithInfo => 64i32,
            YacEnvAttr::SoftwareVersion => 65i32,
            YacEnvAttr::ClientDriver => 66i32,
        }
    }

    /// The numeric value used by the client library.
    pub fn code(&self) -> (result: i32)
        ensures
            result == self.spec_code(),
    {
        match self {
            YacEnvAttr::CharsetCode => 62,
            YacEnvAttr::ReturnSuccessWithInfo => 64,
            YacEnvAttr::SoftwareVersion => 65,
            YacEnvAttr::ClientDriver => 66,
        }
    }
}

/// Connection attribute identifier.
#[derive(Clone, Copy, Debug, PartialEq, Eq, Structural)]
pub enum YacConnAttr {
    /// Auto-commit mode.
    AutoCommit,
    /// Login timeout.
    LoginTimeout,
    /// Packet size.
    PacketSize,
    /// Transaction isolation level.
    TransactionIsolation,
    /// Credential attribute.
    Credt,
    /// Maximum bytes per database character.
    MaxCharsetRatio,
    /// Transparent failover enabled.
    TafEnabled,
    /// Transparent failover callback.
    TafCallback,
    /// Maximum bytes per national character.
    MaxNcharsetRatio,
    /// Heartbeat enabled.
    HeartbeatEnabled,
}

impl YacConnAttr {
    /// The value that the client library uses for this connection attribute identifier.
    pub open spec fn spec_code(self) -> i32 {
        match self {
            YacConnAttr::AutoCommit => 3i32,
            YacConnAttr::LoginTimeout => 4i32,
            YacConnAttr::PacketSize => 6i32,
            YacConnAttr::TransactionIsolation => 7i32,
            YacConnAttr::Credt => 11i32,
            YacConnAttr::MaxCharsetRatio => 12i32,
            YacConnAttr::TafEnabled => 14i32,
            YacConnAttr::TafCallback => 15i32,
            YacConnAttr::MaxNcharsetRatio => 17i32,
            YacConnAttr::HeartbeatEnabled => 18i32,
        }
    }

    /// The numeric value used by the client library.
    pub fn code(&self) -> (result: i32)
        ensures
            result == self.spec_code(),
    {
        match self {
            YacConnAttr::AutoCommit => 3,
            YacConnAttr::LoginTimeout => 4,
            YacConnAttr::PacketSize => 6,
            YacConnAttr::TransactionIsolation => 7,
            YacConnAttr::Credt => 11,
            YacConnAttr::MaxCharsetRatio => 12,
            YacConnAttr::TafEnabled => 14,
            YacConnAttr::TafCallback => 15,
            YacConnAttr::MaxNcharsetRatio => 17,
            YacConnAttr::HeartbeatEnabled => 18,
        }
    }
}

/// Client character set code.
#[derive(Clone, Copy, Debug, PartialEq, Eq, Structural)]
pub enum YacCharsetCode {
    /// ASCII.
    ASCII,
    /// GBK.
    GBK,
    /// UTF-8.
    UTF8,
    /// ISO-8859-1.
    ISO88591,
    /// UTF-16.
    UTF16,
    /// GB18030.
    GB18030,
}

impl YacCharsetCode {
    /// The value that the client library uses for this client character set code.
    pub open spec fn spec_code(self) -> i32 {
        match self {
            YacCharsetCode::ASCII => 0i32,
            YacCharsetCode::GBK => 1i32,
            YacCharsetCode::UTF8 => 2i32,
            YacCharsetCode::ISO88591 => 3i32,
            YacCharsetCode::UTF16 => 4i32,
            YacCharsetCode::GB18030 => 5i32,
        }
    }

    /// The numeric value used by the client library.
    pub fn code(&self) -> (result: i32)
        ensures
            result == self.spec_code(),
    {
        match self {
            YacCharsetCode::ASCII => 0,
            YacCharsetCode::GBK => 1,
            YacCharsetCode::UTF8 => 2,
            YacCharsetCode::ISO88591 => 3,
            YacCharsetCode::UTF16 => 4,
            YacCharsetCode::GB18030 => 5,
        }
    }
}

/// Connection transaction isolation level.
#[derive(Clone, Copy, Debug, PartialEq, Eq, Structural)]
pub enum YacTxnIsolation {
    /// Read committed.
    ReadCommitted,
    /// Current committed.
    CurrCommitted,
    /// Serializable.
    Serializable,
}

impl YacTxnIsolation {
    /// The value that the client library uses for this connection transaction isolation level.
    pub open spec fn spec_code(self) -> i32 {
        match self {
            YacTxnIsolation::ReadCommitted => 0i32,
            YacTxnIsolation::CurrCommitted => 1i32,
            YacTxnIsolation::Serializable => 2i32,
        }
    }

    /// The numeric value used by the client library.
    pub fn code(&self) -> (result: i32)
        ensures
            result == self.spec_code(),
    {
        match self {
            YacTxnIsolation::ReadCommitted => 0,
            YacTxnIsolation::CurrCommitted => 1,
            YacTxnIsolation::Serializable => 2,
        }
    }

    /// The variant with the given client value, or `None` for a value that
    /// no variant has.
    pub fn from_code(code: i32) -> (result: Option<YacTxnIsolation>)
        ensures
            result matches Some(v) ==> v.spec_code() == code,
            result is None ==> forall|v: YacTxnIsolation| v.spec_code() != code,
    {
        if code == 0 {
            Some(YacTxnIsolation::ReadCommitted)
        } else if code == 1 {
            Some(YacTxnIsolation::CurrCommitted)
        } else if code == 2 {
            Some(YacTxnIsolation::Serializable)
        } else {
            None
        }
    }
}

/// Kind of temporary LOB, identified by its column type code.
#[derive(Clone, Copy, Debug, PartialEq, Eq, Structural)]
pub enum YacTempLobType {
    /// Binary LOB.
    Blob,
    /// Character LOB.
    Clob,
    /// National character LOB.
    NClob,
}

impl YacTempLobType {
    /// The value that the client library uses for this kind of temporary LOB.
    pub open spec fn spec_code(self) -> i32 {
        match self {
            YacTempLobType::Blob => 30i32,
            YacTempLobType::Clob => 29i32,
            YacTempLobType::NClob => 33i32,
        }
    }

    /// The numeric value used by the client library.
    pub fn code(&self) -> (result: i32)
        ensures
            result == self.spec_code(),
    {
        match self {
            YacTempLobType::Blob => 30,
            YacTempLobType::Clob => 29,
            YacTempLobType::NClob => 33,
        }
    }
}

/// Line and column of a diagnostic position.
#[derive(Clone, Copy, Debug, PartialEq, Eq, Structural)]
pub struct YacTextPos {
    /// Line number.
    pub line: i32,
    /// Column number.
    pub column: i32,
}

/// Raw row identifier bytes.
#[derive(Clone, Copy, Debug)]
pub struct YacRowId {
    /// The identifier bytes.
    pub row_id_part: [u8; 16],
}


/// Whether a client call succeeded: its status is success, with or without
/// diagnostic information.
pub fn call_succeeded(status: i32) -> (result: bool)
    ensures
        result == (status == YacResult::Success.spec_code() || status
            == YacResult::SuccessWithInfo.spec_code()),
{
    match YacResult::from_code(status) {
        Some(YacResult::Success) | Some(YacResult::SuccessWithInfo) => true,
        _ => false,
    }
}

/// Size of the buffer that receives a diagnostic message.
pub const MESSAGE_BUF_LEN: usize = 8192;

/// How std's `String::from_utf8_lossy` decodes bytes: valid UTF-8 sequences
/// become their characters and each invalid sequence becomes U+FFFD.
pub uninterp spec fn lossy_utf8(bytes: Seq<u8>) -> Seq<char>;

/// Decodes bytes as UTF-8, replacing invalid sequences.
///
/// Calls std's `String::from_utf8_lossy`; its documentation says that valid
/// UTF-8 is kept as it is, and the contract states that much beside naming
/// the result.
#[verifier::external_body]
fn lossy_text(bytes: &[u8]) -> (result: String)
    ensures
        result@ == lossy_utf8(bytes@),
        valid_utf8(bytes@) ==> result@ == decode_utf8(bytes@),
{
    String::from_utf8_lossy(bytes).into_owned()
}

/// The number of message bytes to read: the reported length, which may
/// exceed the buffer when the message was truncated, kept within the buffer.
pub open spec fn message_len(indicator: i32, buffer_len: int) -> int {
    if indicator < 0 {
        0
    } else if indicator > buffer_len {
        buffer_len
    } else {
        indicator as int
    }
}

/// The position of the first NUL byte, if any.
pub open spec fn first_nul(bytes: Seq<u8>, p: int) -> bool {
    &&& 0 <= p < bytes.len()
    &&& bytes[p] == 0
    &&& forall|k: int| 0 <= k < p ==> bytes[k] != 0
}

/// The message text bytes: the bytes within the reported length, up to the
/// first NUL if there is one.
pub open spec fn message_bytes(buffer: Seq<u8>, indicator: i32) -> Seq<u8> {
    let b = buffer.take(message_len(indicator, buffer.len() as int));
    if exists|p: int| first_nul(b, p) {
        b.take(choose|p: int| first_nul(b, p))
    } else {
        b
    }
}

/// The error for a failed client call, from the diagnostic record the client
/// returned with status `status`: the record's code, position and message
/// (decoded as UTF-8, invalid sequences replaced), or a fixed error when the
/// record could not be retrieved.
pub fn diagnostic_error(
    status: i32,
    code: i32,
    buffer: &[u8],
    indicator: i32,
    position: YacTextPos,
) -> (result: Error)
    ensures
        call_succeeded_spec(status) ==> (result matches Error::Database {
            code: c,
            message: m,
            line: l,
            column: col,
        } && c == code && m@ == lossy_utf8(message_bytes(buffer@, indicator)) && l == position.line
            && col == position.column),
        !call_succeeded_spec(status) ==> (result matches Error::Database {
            code: c,
            message: m,
            line: l,
            column: col,
        } && c == -1 && m@ == "failed to retrieve diagnostic info"@ && l == 0 && col == 0),
{
    if !call_succeeded(status) {
        return Error::Database {
            code: -1,
            message: "failed to retrieve diagnostic info".to_owned(),
            line: 0,
            column: 0,
        };
    }
    let len: usize = if indicator < 0 {
        0
    } else if indicator as usize > buffer.len() {
        buffer.len()
    } else {
        indicator as usize
    };
    let ghost b = buffer@.take(len as int);
    let mut end: usize = 0;
    while end < len && buffer[end] != 0
        invariant
            len <= buffer@.len(),
            end <= len,
            b == buffer@.take(len as int),
            forall|k: int| 0 <= k < end ==> b[k] != 0,
        decreases len - end,
    {
        end = end + 1;
    }
    let text = slice_prefix(buffer, end);
    proof {
        if end < len {
            assert(first_nul(b, end as int));
            assert forall|p: int| first_nul(b, p) implies p == end as int by {
                if p < end as int {
                    assert(b[p] != 0);
                } else if p > end as int {
                    assert(b[end as int] != 0);
                }
            }
            assert(b.take(end as int) =~= text@);
        } else {
            assert forall|p: int| !first_nul(b, p) by {
                if 0 <= p < b.len() {
                    assert(b[p] != 0);
                }
            }
            assert(b =~= text@);
        }
    }
    Error::Database {
        code,
        message: lossy_text(text),
        line: position.line,
        column: position.column,
    }
}

/// Whether a client status is a success (as a specification).
pub open spec fn call_succeeded_spec(status: i32) -> bool {
    status == YacResult::Success.spec_code() || status == YacResult::SuccessWithInfo.spec_code()
}

fn slice_prefix(buffer: &[u8], end: usize) -> (result: &[u8])
    requires
        end <= buffer@.len(),
    ensures
        result@ == buffer@.take(end as int),
{
    let (prefix, _) = buffer.split_at(end);
    prefix
}


#[verifier::external_type_specification]
#[verifier::external_body]
pub struct ExDecimal(Decimal);

#[verifier::external_type_specification]
#[verifier::external_body]
pub struct ExDecimalConvertError(DecimalConvertError);

/// The largest integer value of a NUMBER: 38 decimal nines.
pub const MAX_NUMBER_VALUE: u128 = 99999999999999999999999999999999999999u128;

/// The smallest scale of a NUMBER.
pub const MIN_NUMBER_SCALE: i16 = -126;

/// One past the largest scale of a NUMBER.
pub const NUMBER_SCALE_END: i16 = 168;

/// The integer value, scale and sign held by a decimal number.
pub uninterp spec fn decimal_parts(number: Decimal) -> (u128, i16, bool);

/// The parts a decimal built from `(value, scale, negative)` holds: those
/// parts, except that a zero value is always the plain zero.
pub open spec fn normalized_parts(value: u128, scale: i16, negative: bool) -> (u128, i16, bool) {
    if value != 0 {
        (value, scale, negative)
    } else {
        (0u128, 0i16, false)
    }
}

/// Builds a decimal number from its integer value, scale and sign.
///
/// Calls `decimal_rs::Decimal::from_parts`, whose source accepts exactly an
/// integer value of at most 38 digits and a scale in `[-126, 168)`, and
/// stores the given parts (a zero value as the constant zero, whose parts
/// are `(0, 0, false)`).
#[verifier::external_body]
fn decimal_from_parts(value: u128, scale: i16, negative: bool) -> (result: Result<
    Decimal,
    DecimalConvertError,
>)
    ensures
        result is Ok <==> (value <= MAX_NUMBER_VALUE && MIN_NUMBER_SCALE <= scale
            < NUMBER_SCALE_END),
        result matches Ok(d) ==> decimal_parts(d) == normalized_parts(value, scale, negative),
{
    Decimal::from_parts(value, scale, negative)
}

/// The integer value, scale and sign of a decimal number.
///
/// Calls `decimal_rs::Decimal::into_parts`, which returns the three stored
/// fields.
#[verifier::external_body]
fn decimal_into_parts(number: Decimal) -> (result: (u128, i16, bool))
    ensures
        result == decimal_parts(number),
{
    number.into_parts()
}

/// The client's NUMBER representation: an unsigned integer value, a sign
/// flag, and a decimal exponent; the number is `value * 10^exp`, negative
/// when the sign is set.
#[derive(Clone, Copy, Debug, PartialEq, Eq, Structural)]
pub struct YacNumber {
    value: u128,
    sign: i8,
    exp: i16,
}

/// The error for a NUMBER the client returned outside the decimal range.
pub open spec fn number_range_error(e: Error) -> bool {
    e matches Error::Internal(m) && m@ == "client returned a NUMBER outside the decimal range"@
}

impl YacNumber {
    /// The integer value.
    pub closed spec fn spec_value(&self) -> u128 {
        self.value
    }

    /// The sign flag (non-zero for a negative number).
    pub closed spec fn spec_sign(&self) -> i8 {
        self.sign
    }

    /// The decimal exponent.
    pub closed spec fn spec_exp(&self) -> i16 {
        self.exp
    }

    /// The number zero, as bound for a NULL or not yet written value.
    pub fn zero() -> (result: YacNumber)
        ensures
            result.spec_value() == 0 && result.spec_sign() == 0 && result.spec_exp() == 0,
    {
        YacNumber { value: 0, sign: 0, exp: 0 }
    }

    /// A NUMBER from the client's fields.
    pub fn new(value: u128, sign: i8, exp: i16) -> (result: YacNumber)
        ensures
            result.spec_value() == value && result.spec_sign() == sign && result.spec_exp() == exp,
    {
        YacNumber { value, sign, exp }
    }

    /// The integer value.
    pub fn value(&self) -> (result: u128)
        ensures
            result == self.spec_value(),
    {
        self.value
    }

    /// The sign flag.
    pub fn sign(&self) -> (result: i8)
        ensures
            result == self.spec_sign(),
    {
        self.sign
    }

    /// The decimal exponent.
    pub fn exp(&self) -> (result: i16)
        ensures
            result == self.spec_exp(),
    {
        self.exp
    }

    /// The client representation of a decimal given by its parts: the
    /// exponent has the opposite sign of the scale, and the sign flag is 1
    /// for a negative number.
    pub fn from_parts(value: u128, scale: i16, negative: bool) -> (result: YacNumber)
        requires
            scale > i16::MIN,
        ensures
            result.spec_value() == value,
            result.spec_exp() == -scale,
            result.spec_sign() == (if negative {
                1i8
            } else {
                0i8
            }),
    {
        YacNumber {
            value,
            sign: if negative {
                1
            } else {
                0
            },
            exp: -scale,
        }
    }

    /// The client representation of a decimal number, from its parts (see
    /// [`Self::from_parts`]); `None` for a scale whose negation does not fit
    /// the exponent.
    pub fn from_number(number: Decimal) -> (result: Option<YacNumber>)
        ensures
            decimal_parts(number).1 == i16::MIN ==> result is None,
            decimal_parts(number).1 != i16::MIN ==> (result matches Some(n) && n.spec_value()
                == decimal_parts(number).0 && n.spec_exp() == -decimal_parts(number).1
                && n.spec_sign() == (if decimal_parts(number).2 {
                1i8
            } else {
                0i8
            })),
    {
        let (value, scale, negative) = decimal_into_parts(number);
        if scale == i16::MIN {
            None
        } else {
            Some(YacNumber::from_parts(value, scale, negative))
        }
    }

    /// The decimal number this represents: the scale is the negated
    /// exponent, and a non-zero sign flag makes it negative. A value with
    /// more than 38 digits or a scale outside `[-126, 168)` is refused.
    pub fn into_number(self) -> (result: Result<Decimal, Error>)
        ensures
            result is Ok <==> (self.spec_value() <= MAX_NUMBER_VALUE && MIN_NUMBER_SCALE
                <= -self.spec_exp() < NUMBER_SCALE_END),
            result matches Err(e) ==> number_range_error(e),
            result matches Ok(d) ==> decimal_parts(d) == normalized_parts(
                self.spec_value(),
                (-self.spec_exp()) as i16,
                self.spec_sign() != 0,
            ),
    {
        if self.exp == i16::MIN {
            return Err(
                Error::Internal("client returned a NUMBER outside the decimal range".to_owned()),
            );
        }
        match decimal_from_parts(self.value, -self.exp, self.sign != 0) {
            Ok(number) => Ok(number),
            Err(_) => Err(
                Error::Internal("client returned a NUMBER outside the decimal range".to_owned()),
            ),
        }
    }
}

/// Number of functions the client library must export.
pub const REQUIRED_SYMBOL_COUNT: usize = 33;

/// The names of the functions the client library must export.
pub open spec fn required_symbol_names() -> Seq<Seq<char>> {
    seq![
        "yacAllocHandle"@,
        "yacFreeHandle"@,
        "yacConnect"@,
        "yacDisconnect"@,
        "yacCommit"@,
        "yacRollback"@,
        "yacSetEnvAttr"@,
        "yacGetEnvAttr"@,
        "yacSetConnAttr"@,
        "yacGetConnAttr"@,
        "yacGetDiagRec"@,
        "yacDirectExecute"@,
        "yacPrepare"@,
        "yacExecute"@,
        "yacBindParameter"@,
        "yacBindParameterByName"@,
        "yacNumParams"@,
        "yacFetch"@,
        "yacGetStmtAttr"@,
        "yacBindColumn"@,
        "yacNumResultCols"@,
        "yacColAttribute"@,
        "yacLobDescAlloc2"@,
        "yacLobDescFree2"@,
        "yacLobGetChunkSize"@,
        "yacLobGetLength"@,
        "yacLobFreeTemporary"@,
        "yacLobIsTemporary"@,
        "yacLobTrim"@,
        "yacLobCreateTemporary2"@,
        "yacLobWriteAppend"@,
        "yacLobWrite2"@,
        "yacLobRead2"@
    ]
}

/// The names of the functions resolved from the client library, in the
/// order they are resolved; a missing one fails the load.
pub fn required_symbols() -> (result: Vec<&'static str>)
    ensures
        result@.len() == REQUIRED_SYMBOL_COUNT,
        forall|i: int| 0 <= i < result@.len() ==> #[trigger] result@[i]@ == required_symbol_names()[i],
{
    proof {
        reveal_strlit("yacAllocHandle");
        reveal_strlit("yacFreeHandle");
        reveal_strlit("yacConnect");
        reveal_strlit("yacDisconnect");
        reveal_strlit("yacCommit");
        reveal_strlit("yacRollback");
        reveal_strlit("yacSetEnvAttr");
        reveal_strlit("yacGetEnvAttr");
        reveal_strlit("yacSetConnAttr");
        reveal_strlit("yacGetConnAttr");
        reveal_strlit("yacGetDiagRec");
        reveal_strlit("yacDirectExecute");
        reveal_strlit("yacPrepare");
        reveal_strlit("yacExecute");
        reveal_strlit("yacBindParameter");
        reveal_strlit("yacBindParameterByName");
        reveal_strlit("yacNumParams");
        reveal_strlit("yacFetch");
        reveal_strlit("yacGetStmtAttr");
        reveal_strlit("yacBindColumn");
        reveal_strlit("yacNumResultCols");
        reveal_strlit("yacColAttribute");
        reveal_strlit("yacLobDescAlloc2");
        reveal_strlit("yacLobDescFree2");
        reveal_strlit("yacLobGetChunkSize");
        reveal_strlit("yacLobGetLength");
        reveal_strlit("yacLobFreeTemporary");
        reveal_strlit("yacLobIsTemporary");
        reveal_strlit("yacLobTrim");
        reveal_strlit("yacLobCreateTemporary2");
        reveal_strlit("yacLobWriteAppend");
        reveal_strlit("yacLobWrite2");
        reveal_strlit("yacLobRead2");
    }
    let mut names: Vec<&'static str> = Vec::new();
    names.push("yacAllocHandle");
    names.push("yacFreeHandle");
    names.push("yacConnect");
    names.push("yacDisconnect");
    names.push("yacCommit");
    names.push("yacRollback");
    names.push("yacSetEnvAttr");
    names.push("yacGetEnvAttr");
    names.push("yacSetConnAttr");
    names.push("yacGetConnAttr");
    names.push("yacGetDiagRec");
    names.push("yacDirectExecute");
    names.push("yacPrepare");
    names.push("yacExecute");
    names.push("yacBindParameter");
    names.push("yacBindParameterByName");
    names.push("yacNumParams");
    names.push("yacFetch");
    names.push("yacGetStmtAttr");
    names.push("yacBindColumn");
    names.push("yacNumResultCols");
    names.push("yacColAttribute");
    names.push("yacLobDescAlloc2");
    names.push("yacLobDescFree2");
    names.push("yacLobGetChunkSize");
    names.push("yacLobGetLength");
    names.push("yacLobFreeTemporary");
    names.push("yacLobIsTemporary");
    names.push("yacLobTrim");
    names.push("yacLobCreateTemporary2");
    names.push("yacLobWriteAppend");
    names.push("yacLobWrite2");
    names.push("yacLobRead2");
    names
}

/// The error for a required function the library does not export.
pub open spec fn symbol_error_text(name: Seq<char>, reason: Seq<char>) -> Seq<char> {
    "failed to resolve symbol "@ + name + ": "@ + reason
}

/// The position of the first required function that the client library
/// lacks, given whether each was found in resolving order; `None` when all
/// are found. The load reports the error of that function.
pub fn first_missing_symbol(found: &Vec<bool>) -> (result: Option<usize>)
    requires
        found@.len() == REQUIRED_SYMBOL_COUNT,
    ensures
        result is None <==> forall|i: int| 0 <= i < found@.len() ==> #[trigger] found@[i],
        result matches Some(i) ==> i < found@.len() && !found@[i as int] && forall|k: int|
            0 <= k < i ==> #[trigger] found@[k],
{
    let mut i: usize = 0;
    while i < found.len()
        invariant
            i <= found@.len(),
            forall|k: int| 0 <= k < i ==> #[trigger] found@[k],
        decreases found@.len() - i,
    {
        if !found[i] {
            return Some(i);
        }
        i = i + 1;
    }
    None
}

/// The error for a required function that could not be resolved, with the
/// loader's reason.
pub fn symbol_error(name: &str, reason: &str) -> (result: Error)
    ensures
        result matches Error::ClientLibrary(m) && m@ == symbol_error_text(name@, reason@),
{
    let mut msg = "failed to resolve symbol ".to_owned();
    msg.append(name);
    msg.append(": ");
    msg.append(reason);
    Error::ClientLibrary(msg)
}


impl YacNumber {
    /// The decimal parts this represents: the integer value, the scale (the
    /// negated exponent) and whether it is negative; `None` when the
    /// exponent cannot be negated.
    pub fn parts(&self) -> (result: Option<(u128, i16, bool)>)
        ensures
            self.spec_exp() == i16::MIN ==> result is None,
            self.spec_exp() != i16::MIN ==> result == Some(
                (self.spec_value(), (-self.spec_exp()) as i16, self.spec_sign() != 0),
            ),
    {
        if self.exp == i16::MIN {
            None
        } else {
            Some((self.value, -self.exp, self.sign != 0))
        }
    }
}

/// Converting decimal parts to the client representation and back gives the
/// same parts, for every scale whose negation fits the exponent.
pub proof fn number_parts_round_trip(value: u128, scale: i16, negative: bool, n: YacNumber)
    requires
        scale > i16::MIN,
        n.spec_value() == value,
        n.spec_exp() == -scale,
        n.spec_sign() == (if negative {
            1i8
        } else {
            0i8
        }),
    ensures
        n.spec_exp() != i16::MIN,
        ((n.spec_value(), (-n.spec_exp()) as i16, n.spec_sign() != 0)) == (value, scale, negative),
{
}

#[verifier::external_type_specification]
#[verifier::external_body]
pub struct ExTimestamp(Timestamp);

/// The client's TIMESTAMP representation: the timestamp and a time zone
/// bias in minutes.
#[derive(Clone, Copy, Debug)]
pub struct YacTimestamp {
    timestamp: Timestamp,
    bias: i16,
}

impl YacTimestamp {
    /// The timestamp.
    pub closed spec fn spec_timestamp(&self) -> Timestamp {
        self.timestamp
    }

    /// The time zone bias.
    pub closed spec fn spec_bias(&self) -> i16 {
        self.bias
    }

    /// A timestamp without a time zone bias, as bound for a TIMESTAMP value.
    pub fn with_timestamp(timestamp: Timestamp) -> (result: YacTimestamp)
        ensures
            result.spec_timestamp() == timestamp,
            result.spec_bias() == 0,
    {
        YacTimestamp { timestamp, bias: 0 }
    }

    /// The timestamp.
    pub fn timestamp(&self) -> (result: Timestamp)
        ensures
            result == self.spec_timestamp(),
    {
        self.timestamp
    }

    /// The time zone bias.
    pub fn bias(&self) -> (result: i16)
        ensures
            result == self.spec_bias(),
    {
        self.bias
    }
}

} // verus!

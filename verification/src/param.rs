//! Parameter values for prepared statements: external types, indicators,
//! and how an output target is updated after execution.
//!
//! The caller owns the value storage handed to the client; the external type,
//! the indicator, and the interpretation of the indicator the client reports
//! back are decided here.

use vstd::prelude::*;
use vstd::string::*;
use vstd::utf8::*;

use crate::error::Error;
use crate::ffi::{YacExtType, YacTempLobType, YacType, NULL_DATA};
use crate::lob::{blob_append_plan, Blob, LobIo, LobRequest};
use crate::text::utf8_string;

verus! {

/// The database type a parameter value is bound as.
#[derive(Clone, Copy, Debug, PartialEq, Eq, Structural)]
pub enum ValueType {
    /// `BOOL`
    Bool,
    /// `TINYINT`
    I8,
    /// `SMALLINT`
    I16,
    /// `INTEGER`
    I32,
    /// `BIGINT`
    I64,
    /// `FLOAT`
    F32,
    /// `DOUBLE`
    F64,
    /// `NUMBER`
    Number,
    /// `DATE`
    Date,
    /// `SHORTTIME`
    Time,
    /// `TIMESTAMP`
    Timestamp,
    /// `INTERVAL YEAR TO MONTH`
    IntervalYM,
    /// `INTERVAL DAY TO SECOND`
    IntervalDS,
    /// `VARCHAR` text.
    Text,
    /// `BINARY` data.
    Binary,
    /// A BLOB locator.
    Blob,
    /// A CLOB locator.
    Clob,
    /// A JSON value in its binary form, handed over in a temporary BLOB.
    Json,
}

/// The external type a value of the given type is bound as.
pub open spec fn ext_type_of(t: ValueType) -> YacExtType {
    match t {
        ValueType::Bool => YacExtType::Bool,
        ValueType::I8 => YacExtType::TinyInt,
        ValueType::I16 => YacExtType::SmallInt,
        ValueType::I32 => YacExtType::Integer,
        ValueType::I64 => YacExtType::BigInt,
        ValueType::F32 => YacExtType::Float,
        ValueType::F64 => YacExtType::Double,
        ValueType::Number => YacExtType::Number,
        ValueType::Date => YacExtType::Date,
        ValueType::Time => YacExtType::ShortTime,
        ValueType::Timestamp => YacExtType::Timestamp,
        ValueType::IntervalYM => YacExtType::YmInterval,
        ValueType::IntervalDS => YacExtType::DsInterval,
        ValueType::Text => YacExtType::Varchar2,
        ValueType::Binary => YacExtType::Binary2,
        ValueType::Blob => YacExtType::Blob,
        ValueType::Clob => YacExtType::Clob,
        ValueType::Json => YacExtType::Json,
    }
}

/// The database type a value type stands for, when the client has a type of
/// its own for it; text and binary values are sent in the client's
/// variable-length forms instead.
pub open spec fn column_type_of(t: ValueType) -> Option<YacType> {
    match t {
        ValueType::Bool => Some(YacType::Bool),
        ValueType::I8 => Some(YacType::TinyInt),
        ValueType::I16 => Some(YacType::SmallInt),
        ValueType::I32 => Some(YacType::Integer),
        ValueType::I64 => Some(YacType::BigInt),
        ValueType::F32 => Some(YacType::Float),
        ValueType::F64 => Some(YacType::Double),
        ValueType::Number => Some(YacType::Number),
        ValueType::Date => Some(YacType::Date),
        ValueType::Time => Some(YacType::ShortTime),
        ValueType::Timestamp => Some(YacType::Timestamp),
        ValueType::IntervalYM => Some(YacType::YmInterval),
        ValueType::IntervalDS => Some(YacType::DsInterval),
        ValueType::Blob => Some(YacType::Blob),
        ValueType::Clob => Some(YacType::Clob),
        ValueType::Json => Some(YacType::Json),
        ValueType::Text | ValueType::Binary => None,
    }
}

/// Each value type is bound as its own external type: one that carries the
/// client code of the database type it stands for, and different value
/// types never share an external type (a BLOB is never bound as a CLOB).
pub proof fn values_bind_as_their_own_type(t: ValueType, u: ValueType)
    ensures
        column_type_of(t) matches Some(y) ==> ext_type_of(t).spec_code() == y.spec_code(),
        t != u ==> ext_type_of(t) != ext_type_of(u),
{
}

impl ValueType {
    /// The external type a value of this type is bound as.
    pub fn ext_type(&self) -> (result: YacExtType)
        ensures
            result == ext_type_of(*self),
    {
        match self {
            ValueType::Bool => YacExtType::Bool,
            ValueType::I8 => YacExtType::TinyInt,
            ValueType::I16 => YacExtType::SmallInt,
            ValueType::I32 => YacExtType::Integer,
            ValueType::I64 => YacExtType::BigInt,
            ValueType::F32 => YacExtType::Float,
            ValueType::F64 => YacExtType::Double,
            ValueType::Number => YacExtType::Number,
            ValueType::Date => YacExtType::Date,
            ValueType::Time => YacExtType::ShortTime,
            ValueType::Timestamp => YacExtType::Timestamp,
            ValueType::IntervalYM => YacExtType::YmInterval,
            ValueType::IntervalDS => YacExtType::DsInterval,
            ValueType::Text => YacExtType::Varchar2,
            ValueType::Binary => YacExtType::Binary2,
            ValueType::Blob => YacExtType::Blob,
            ValueType::Clob => YacExtType::Clob,
            ValueType::Json => YacExtType::Json,
        }
    }
}

/// A value length as a bind indicator.
pub fn indicator(len: usize) -> (result: i32)
    requires
        len <= i32::MAX,
    ensures
        result == len,
{
    len as i32
}

/// The direction of a parameter.
#[derive(Clone, Copy, Debug, PartialEq, Eq, Structural)]
pub enum Direction {
    /// Sent to the database.
    Input,
    /// Received from the database.
    Output,
    /// Sent, then received.
    InOut,
}

/// How an output target is stored and updated.
#[derive(Clone, Copy, Debug, PartialEq, Eq, Structural)]
pub enum OutputKind {
    /// A fixed-size target the client writes in place.
    Fixed,
    /// A fixed-size target that is decoded from a client representation
    /// (a NUMBER or TIMESTAMP).
    Decoded,
    /// An `Option` of a fixed-size value.
    FixedNullable,
    /// A text target whose existing capacity bounds the output.
    Text,
    /// A binary target whose existing capacity bounds the output.
    Binary,
    /// An `Option` of text with a buffer of a minimum capacity.
    TextNullable,
    /// An `Option` of binary data with a buffer of a minimum capacity.
    BinaryNullable,
}

/// The storage kind of an output target of the given type.
pub open spec fn output_kind_of(t: ValueType, nullable: bool) -> OutputKind {
    match t {
        ValueType::Text => if nullable {
            OutputKind::TextNullable
        } else {
            OutputKind::Text
        },
        ValueType::Binary => if nullable {
            OutputKind::BinaryNullable
        } else {
            OutputKind::Binary
        },
        ValueType::Number | ValueType::Timestamp => if nullable {
            OutputKind::FixedNullable
        } else {
            OutputKind::Decoded
        },
        _ => if nullable {
            OutputKind::FixedNullable
        } else {
            OutputKind::Fixed
        },
    }
}

/// A parameter of a prepared statement.
#[derive(Clone, Copy, Debug, PartialEq, Eq, Structural)]
pub struct BindParam {
    direction: Direction,
    value_type: ValueType,
    nullable: bool,
    indicator: i32,
}

impl BindParam {
    /// Sent, received, or both.
    pub closed spec fn spec_direction(&self) -> Direction {
        self.direction
    }

    /// The database type.
    pub closed spec fn spec_value_type(&self) -> ValueType {
        self.value_type
    }

    /// Whether the Rust value or target is an `Option`.
    pub closed spec fn spec_nullable(&self) -> bool {
        self.nullable
    }

    /// The indicator handed to the client with the value.
    pub closed spec fn spec_indicator(&self) -> i32 {
        self.indicator
    }

    /// An input value of `value_type`: `len` is the byte length of the value
    /// (its size for a fixed-size value, zero for a LOB locator), or `None`
    /// for SQL NULL.
    pub fn input(value_type: ValueType, nullable: bool, len: Option<usize>) -> (result: BindParam)
        requires
            len matches Some(n) ==> n <= i32::MAX,
            !nullable ==> len is Some,
        ensures
            result.spec_direction() == Direction::Input,
            result.spec_value_type() == value_type,
            result.spec_nullable() == nullable,
            result.spec_indicator() == match len {
                Some(n) => n as i32,
                None => NULL_DATA,
            },
    {
        let ind = match len {
            Some(n) => indicator(n),
            None => NULL_DATA,
        };
        BindParam { direction: Direction::Input, value_type, nullable, indicator: ind }
    }

    /// An output target of `value_type`; the client reports the value's
    /// length or NULL in the indicator. JSON is bound as input only.
    pub fn output(value_type: ValueType, nullable: bool) -> (result: BindParam)
        requires
            value_type != ValueType::Json,
        ensures
            result.spec_direction() == Direction::Output,
            result.spec_value_type() == value_type,
            result.spec_nullable() == nullable,
            result.spec_indicator() == 0,
    {
        BindParam { direction: Direction::Output, value_type, nullable, indicator: 0 }
    }

    /// An input/output target of `value_type` whose initial value has `len`
    /// bytes, or is SQL NULL (`None`, for an `Option` target). LOB and JSON
    /// input/output parameters are not supported.
    pub fn in_out(value_type: ValueType, nullable: bool, len: Option<usize>) -> (result: BindParam)
        requires
            len matches Some(n) ==> n <= i32::MAX,
            !nullable ==> len is Some,
            value_type != ValueType::Blob && value_type != ValueType::Clob,
            value_type != ValueType::Json,
        ensures
            result.spec_direction() == Direction::InOut,
            result.spec_value_type() == value_type,
            result.spec_nullable() == nullable,
            result.spec_indicator() == match len {
                Some(n) => n as i32,
                None => NULL_DATA,
            },
    {
        let ind = match len {
            Some(n) => indicator(n),
            None => NULL_DATA,
        };
        BindParam { direction: Direction::InOut, value_type, nullable, indicator: ind }
    }

    /// The external type the value is bound as.
    pub fn ext_type(&self) -> (result: YacExtType)
        ensures
            result == ext_type_of(self.spec_value_type()),
    {
        self.value_type.ext_type()
    }

    /// The indicator handed to the client with the value.
    pub fn indicator(&self) -> (result: i32)
        ensures
            result == self.spec_indicator(),
    {
        self.indicator
    }

    /// Direction of the parameter.
    pub fn direction(&self) -> (result: Direction)
        ensures
            result == self.spec_direction(),
    {
        self.direction
    }

    /// How the target is updated after execution, from the indicator the
    /// client reported and the capacity of the target's buffer (for text and
    /// binary targets). An input value is left as it is.
    pub fn complete(&self, reported: i32, capacity: usize) -> (result: Result<OutputUpdate, Error>)
        requires
            capacity <= isize::MAX,
        ensures
            self.spec_direction() == Direction::Input ==> result == Ok::<OutputUpdate, Error>(
                OutputUpdate::Keep,
            ),
            self.spec_direction() != Direction::Input ==> same_outcome(
                result,
                output_update(
                    output_kind_of(self.spec_value_type(), self.spec_nullable()),
                    reported,
                    capacity,
                ),
            ),
    {
        match self.direction {
            Direction::Input => Ok(OutputUpdate::Keep),
            _ => complete_output(output_kind(self.value_type, self.nullable), reported, capacity),
        }
    }
}

/// The storage kind of an output target of the given type.
pub fn output_kind(t: ValueType, nullable: bool) -> (result: OutputKind)
    ensures
        result == output_kind_of(t, nullable),
{
    match t {
        ValueType::Text => if nullable {
            OutputKind::TextNullable
        } else {
            OutputKind::Text
        },
        ValueType::Binary => if nullable {
            OutputKind::BinaryNullable
        } else {
            OutputKind::Binary
        },
        ValueType::Number | ValueType::Timestamp => if nullable {
            OutputKind::FixedNullable
        } else {
            OutputKind::Decoded
        },
        _ => if nullable {
            OutputKind::FixedNullable
        } else {
            OutputKind::Fixed
        },
    }
}

/// How a JSON input value reaches the client.
#[derive(Clone, Copy, Debug, PartialEq, Eq, Structural)]
pub enum JsonInput {
    /// SQL NULL: the JSON type is bound with no value.
    Null,
    /// The value's binary bytes are copied into a new temporary BLOB, whose
    /// locator is bound (and which is dropped with the parameter).
    TemporaryBlob {
        /// How to create the BLOB.
        create: LobRequest,
        /// The append of the value's bytes; `None` for an empty value.
        append: Option<LobIo>,
    },
}

/// A JSON input parameter, given by the binary bytes of the value or `None`
/// for SQL NULL (`nullable` for an `Option` value): the parameter, whose
/// indicator is the value's byte length, and how the value is handed over.
pub fn json_input(value: Option<&[u8]>, nullable: bool) -> (result: (BindParam, JsonInput))
    requires
        value matches Some(b) ==> b@.len() <= i32::MAX,
        !nullable ==> value is Some,
    ensures
        result.0.spec_direction() == Direction::Input,
        result.0.spec_value_type() == ValueType::Json,
        result.0.spec_nullable() == nullable,
        result.0.spec_indicator() == match value {
            Some(b) => b@.len() as i32,
            None => NULL_DATA,
        },
        value is None ==> result.1 == JsonInput::Null,
        value matches Some(b) ==> result.1 == (JsonInput::TemporaryBlob {
            create: LobRequest { lob_type: YacTempLobType::Blob, create_temporary: true },
            append: if b@.len() == 0 {
                None
            } else {
                Some(LobIo { offset: 0, byte_size: b@.len() as u64, char_size: 0 })
            },
        }),
{
    match value {
        None => (BindParam::input(ValueType::Json, nullable, None), JsonInput::Null),
        Some(bytes) => {
            let param = BindParam::input(ValueType::Json, nullable, Some(bytes.len()));
            let plan = JsonInput::TemporaryBlob {
                create: Blob::<()>::temporary(),
                append: blob_append_plan(bytes),
            };
            (param, plan)
        },
    }
}

/// How an output target is updated after execution.
#[derive(Clone, Copy, Debug, PartialEq, Eq, Structural)]
pub enum OutputUpdate {
    /// Leave the target as the client wrote it.
    Keep,
    /// Set an `Option` target to `None` (SQL NULL).
    SetNull,
    /// Set the target from the value the client wrote into the native buffer.
    SetValue,
    /// The client wrote this many bytes into the target's buffer.
    SetLength(usize),
}

/// The error kinds an output completion reports.
#[derive(Clone, Copy, Debug, PartialEq, Eq, Structural)]
pub enum OutputFailure {
    /// The client reported an indicator below NULL.
    InvalidIndicator,
    /// SQL NULL for a target that is not an `Option`.
    NullForRequired,
    /// More text than the target can hold.
    TextTooLong,
    /// More binary data than the target can hold.
    BinaryTooLong,
}

/// The outcome of completing an output target of kind `kind`, given the
/// reported indicator and the capacity of the target's buffer.
///
/// An indicator below NULL is refused first. An `Option` target receives
/// `None` for NULL, and every other target refuses NULL. A text or binary
/// target whose reported length does not fit its capacity is refused; a
/// NUMBER or TIMESTAMP target is set from its native buffer.
pub open spec fn output_update(kind: OutputKind, reported: i32, capacity: usize) -> Result<
    OutputUpdate,
    OutputFailure,
> {
    if reported < NULL_DATA {
        Err(OutputFailure::InvalidIndicator)
    } else {
        match kind {
            OutputKind::FixedNullable => if reported == NULL_DATA {
                Ok(OutputUpdate::SetNull)
            } else {
                Ok(OutputUpdate::SetValue)
            },
            OutputKind::Decoded => if reported == NULL_DATA {
                Err(OutputFailure::NullForRequired)
            } else {
                Ok(OutputUpdate::SetValue)
            },
            OutputKind::Text => if reported == NULL_DATA {
                Err(OutputFailure::NullForRequired)
            } else if 0 <= reported <= capacity {
                Ok(OutputUpdate::SetLength(reported as usize))
            } else {
                Err(OutputFailure::TextTooLong)
            },
            OutputKind::Binary => if reported == NULL_DATA {
                Err(OutputFailure::NullForRequired)
            } else if 0 <= reported <= capacity {
                Ok(OutputUpdate::SetLength(reported as usize))
            } else {
                Err(OutputFailure::BinaryTooLong)
            },
            OutputKind::TextNullable => if reported == NULL_DATA {
                Ok(OutputUpdate::SetNull)
            } else if reported <= capacity {
                Ok(OutputUpdate::SetLength(reported as usize))
            } else {
                Err(OutputFailure::TextTooLong)
            },
            OutputKind::BinaryNullable => if reported == NULL_DATA {
                Ok(OutputUpdate::SetNull)
            } else if reported <= capacity {
                Ok(OutputUpdate::SetLength(reported as usize))
            } else {
                Err(OutputFailure::BinaryTooLong)
            },
            OutputKind::Fixed => if reported == NULL_DATA {
                Err(OutputFailure::NullForRequired)
            } else {
                Ok(OutputUpdate::Keep)
            },
        }
    }
}

/// How an output target follows the indicator the client reported: it
/// becomes NULL only for the NULL indicator, and then exactly when it is an
/// `Option` (any other target refuses NULL); a text or binary output whose
/// reported length fits its buffer receives exactly that many bytes, and
/// only text and binary outputs receive a length; any other output given a
/// value takes it (an `Option` always from the native buffer); an indicator
/// below NULL is always refused.
pub proof fn output_follows_indicator(t: ValueType, nullable: bool, reported: i32, capacity: usize)
    ensures
        output_update(output_kind_of(t, nullable), reported, capacity) == Ok::<
            OutputUpdate,
            OutputFailure,
        >(OutputUpdate::SetNull) ==> reported == NULL_DATA && nullable,
        reported == NULL_DATA && nullable ==> output_update(
            output_kind_of(t, nullable),
            reported,
            capacity,
        ) == Ok::<OutputUpdate, OutputFailure>(OutputUpdate::SetNull),
        reported == NULL_DATA && !nullable ==> output_update(
            output_kind_of(t, nullable),
            reported,
            capacity,
        ) == Err::<OutputUpdate, OutputFailure>(OutputFailure::NullForRequired),
        (t is Text || t is Binary) && 0 <= reported <= capacity ==> output_update(
            output_kind_of(t, nullable),
            reported,
            capacity,
        ) == Ok::<OutputUpdate, OutputFailure>(OutputUpdate::SetLength(reported as usize)),
        output_update(output_kind_of(t, nullable), reported, capacity) matches Ok(
            OutputUpdate::SetLength(n),
        ) ==> n == reported && (t is Text || t is Binary),
        reported < NULL_DATA ==> output_update(output_kind_of(t, nullable), reported, capacity)
            == Err::<OutputUpdate, OutputFailure>(OutputFailure::InvalidIndicator),
        !(t is Text || t is Binary) && reported > NULL_DATA ==> (output_update(
            output_kind_of(t, nullable),
            reported,
            capacity,
        ) == Ok::<OutputUpdate, OutputFailure>(OutputUpdate::SetValue) || (!nullable
            && output_update(output_kind_of(t, nullable), reported, capacity) == Ok::<
            OutputUpdate,
            OutputFailure,
        >(OutputUpdate::Keep))),
{
}

/// The error reported for each output failure.
pub open spec fn failure_error(f: OutputFailure, e: Error) -> bool {
    match f {
        OutputFailure::InvalidIndicator => e matches Error::Internal(m) && m@
            == "client returned an invalid output parameter indicator"@,
        OutputFailure::NullForRequired => e matches Error::InvalidArgument(m) && m@
            == "SQL NULL cannot be written to a non-optional output parameter"@,
        OutputFailure::TextTooLong => e matches Error::InvalidArgument(m) && m@
            == "text output exceeds its capacity"@,
        OutputFailure::BinaryTooLong => e matches Error::InvalidArgument(m) && m@
            == "binary output exceeds its capacity"@,
    }
}

/// Whether a completion result is the given outcome.
pub open spec fn same_outcome(
    result: Result<OutputUpdate, Error>,
    outcome: Result<OutputUpdate, OutputFailure>,
) -> bool {
    match outcome {
        Ok(u) => result == Ok::<OutputUpdate, Error>(u),
        Err(f) => result matches Err(e) && failure_error(f, e),
    }
}

/// The length of text or binary output, refused when it does not fit the
/// target's capacity.
fn output_len(reported: i32, capacity: usize, text: bool) -> (result: Result<usize, Error>)
    requires
        capacity <= isize::MAX,
    ensures
        0 <= reported <= capacity ==> result == Ok::<usize, Error>(reported as usize),
        !(0 <= reported <= capacity) ==> (result matches Err(e) && failure_error(
            if text {
                OutputFailure::TextTooLong
            } else {
                OutputFailure::BinaryTooLong
            },
            e,
        )),
{
    if reported < 0 || reported as usize > capacity {
        if text {
            Err(Error::InvalidArgument("text output exceeds its capacity".to_owned()))
        } else {
            Err(Error::InvalidArgument("binary output exceeds its capacity".to_owned()))
        }
    } else {
        Ok(reported as usize)
    }
}

/// How an output target of kind `kind` is updated after execution.
pub fn complete_output(kind: OutputKind, reported: i32, capacity: usize) -> (result: Result<
    OutputUpdate,
    Error,
>)
    requires
        capacity <= isize::MAX,
    ensures
        same_outcome(result, output_update(kind, reported, capacity)),
{
    if reported < NULL_DATA {
        return Err(
            Error::Internal("client returned an invalid output parameter indicator".to_owned()),
        );
    }
    let required = match kind {
        OutputKind::FixedNullable | OutputKind::TextNullable | OutputKind::BinaryNullable => false,
        _ => true,
    };
    if required && reported == NULL_DATA {
        return Err(
            Error::InvalidArgument(
                "SQL NULL cannot be written to a non-optional output parameter".to_owned(),
            ),
        );
    }
    match kind {
        OutputKind::FixedNullable => if reported == NULL_DATA {
            Ok(OutputUpdate::SetNull)
        } else {
            Ok(OutputUpdate::SetValue)
        },
        OutputKind::Decoded => Ok(OutputUpdate::SetValue),
        OutputKind::Text => match output_len(reported, capacity, true) {
            Ok(n) => Ok(OutputUpdate::SetLength(n)),
            Err(e) => Err(e),
        },
        OutputKind::Binary => match output_len(reported, capacity, false) {
            Ok(n) => Ok(OutputUpdate::SetLength(n)),
            Err(e) => Err(e),
        },
        OutputKind::TextNullable => if reported == NULL_DATA {
            Ok(OutputUpdate::SetNull)
        } else {
            match output_len(reported, capacity, true) {
                Ok(n) => Ok(OutputUpdate::SetLength(n)),
                Err(e) => Err(e),
            }
        },
        OutputKind::BinaryNullable => if reported == NULL_DATA {
            Ok(OutputUpdate::SetNull)
        } else {
            match output_len(reported, capacity, false) {
                Ok(n) => Ok(OutputUpdate::SetLength(n)),
                Err(e) => Err(e),
            }
        },
        OutputKind::Fixed => Ok(OutputUpdate::Keep),
    }
}

/// How much more capacity to reserve in the buffer of a nullable text or
/// binary output that already holds `len` bytes, so that it can receive at
/// least `capacity` bytes: the existing allocation is reused when it is
/// large enough.
pub fn extra_capacity(len: usize, capacity: usize) -> (result: usize)
    ensures
        len + result == if capacity > len {
            capacity as int
        } else {
            len as int
        },
{
    capacity.saturating_sub(len)
}

/// The error for text output that is not valid UTF-8.
pub open spec fn output_encoding_error(e: Error) -> bool {
    e matches Error::InvalidEncoding { context } && context@ == "text output"@
}

/// Decode the text the client wrote into a nullable text output.
pub fn decode_output_text(bytes: Vec<u8>) -> (result: Result<String, Error>)
    ensures
        valid_utf8(bytes@) ==> (result matches Ok(s) && s@ == decode_utf8(bytes@)),
        !valid_utf8(bytes@) ==> (result matches Err(e) && output_encoding_error(e)),
{
    match utf8_string(bytes) {
        Some(s) => Ok(s),
        None => Err(Error::InvalidEncoding { context: "text output" }),
    }
}

} // verus!

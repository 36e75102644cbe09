//! Result column metadata.

use vstd::prelude::*;

use crate::ffi::YacType;

verus! {

/// The database type reported for a result column.
#[derive(Clone, Copy, Debug, PartialEq, Eq, Structural)]
#[non_exhaustive]
pub enum DataType {
    /// Boolean value.
    Bool,
    /// Signed 8-bit integer.
    TinyInt,
    /// Signed 16-bit integer.
    SmallInt,
    /// Signed 32-bit integer.
    Integer,
    /// Signed 64-bit integer.
    BigInt,
    /// Single-precision floating-point number.
    Float,
    /// Double-precision floating-point number.
    Double,
    /// Decimal number.
    Number,
    /// Calendar date.
    Date,
    /// Time of day without a date.
    Time,
    /// Timestamp without a time zone.
    Timestamp,
    /// Timestamp in the session time zone, retained as metadata only.
    TimestampLtz,
    /// Timestamp with a time zone, retained as metadata only.
    TimestampTz,
    /// Year-to-month interval.
    IntervalYM,
    /// Day-to-second interval.
    IntervalDS,
    /// Fixed-width character data.
    Char,
    /// Fixed-width national character data.
    NChar,
    /// Variable-width character data.
    VarChar,
    /// Variable-width national character data.
    NVarChar,
    /// Binary data.
    Binary,
    /// Binary large object.
    Blob,
    /// Character large object.
    Clob,
    /// National character large object.
    Nclob,
    /// A database type not recognized by this driver, retained as metadata only.
    Other(u8),
}

/// Type-specific metadata reported for a result column.
#[derive(Clone, Copy, Debug, PartialEq, Eq, Structural)]
#[non_exhaustive]
pub enum DataTypeInfo {
    /// Boolean value.
    Bool,
    /// Signed 8-bit integer.
    TinyInt,
    /// Signed 16-bit integer.
    SmallInt,
    /// Signed 32-bit integer.
    Integer,
    /// Signed 64-bit integer.
    BigInt,
    /// Single-precision floating-point number.
    Float,
    /// Double-precision floating-point number.
    Double,
    /// Decimal number.
    Number {
        /// Maximum number of significant decimal digits.
        precision: u8,
        /// Number of digits to the right of the decimal point.
        scale: i8,
    },
    /// Calendar date.
    Date,
    /// Time of day without a date.
    Time,
    /// Timestamp without a time zone.
    Timestamp,
    /// Timestamp in the session time zone, retained as metadata only.
    TimestampLtz,
    /// Timestamp with a time zone, retained as metadata only.
    TimestampTz,
    /// Year-to-month interval.
    IntervalYM,
    /// Day-to-second interval.
    IntervalDS,
    /// Fixed-width character data.
    Char {
        /// Maximum byte length.
        size: u32,
        /// Maximum character length.
        char_size: u32,
    },
    /// Fixed-width national character data.
    NChar {
        /// Maximum byte length.
        size: u32,
        /// Maximum character length.
        char_size: u32,
    },
    /// Variable-width character data.
    VarChar {
        /// Maximum byte length.
        size: u32,
        /// Maximum character length.
        char_size: u32,
    },
    /// Variable-width national character data.
    NVarChar {
        /// Maximum byte length.
        size: u32,
        /// Maximum character length.
        char_size: u32,
    },
    /// Binary data.
    Binary {
        /// Maximum byte length.
        size: u32,
    },
    /// Binary large object.
    Blob,
    /// Character large object.
    Clob,
    /// National character large object.
    Nclob,
    /// A database type not recognized by this driver, retained as metadata only.
    Other(u8),
}

/// The general type that a type description belongs to.
pub open spec fn general_type(info: DataTypeInfo) -> DataType {
    match info {
        DataTypeInfo::Bool => DataType::Bool,
        DataTypeInfo::TinyInt => DataType::TinyInt,
        DataTypeInfo::SmallInt => DataType::SmallInt,
        DataTypeInfo::Integer => DataType::Integer,
        DataTypeInfo::BigInt => DataType::BigInt,
        DataTypeInfo::Float => DataType::Float,
        DataTypeInfo::Double => DataType::Double,
        DataTypeInfo::Number { .. } => DataType::Number,
        DataTypeInfo::Date => DataType::Date,
        DataTypeInfo::Time => DataType::Time,
        DataTypeInfo::Timestamp => DataType::Timestamp,
        DataTypeInfo::TimestampLtz => DataType::TimestampLtz,
        DataTypeInfo::TimestampTz => DataType::TimestampTz,
        DataTypeInfo::IntervalYM => DataType::IntervalYM,
        DataTypeInfo::IntervalDS => DataType::IntervalDS,
        DataTypeInfo::Char { .. } => DataType::Char,
        DataTypeInfo::NChar { .. } => DataType::NChar,
        DataTypeInfo::VarChar { .. } => DataType::VarChar,
        DataTypeInfo::NVarChar { .. } => DataType::NVarChar,
        DataTypeInfo::Binary { .. } => DataType::Binary,
        DataTypeInfo::Blob => DataType::Blob,
        DataTypeInfo::Clob => DataType::Clob,
        DataTypeInfo::Nclob => DataType::Nclob,
        DataTypeInfo::Other(value) => DataType::Other(value),
    }
}

/// The client's own type that a database type stands for; `None` for a type
/// the driver does not recognize.
pub open spec fn client_type(t: DataType) -> Option<YacType> {
    match t {
        DataType::Bool => Some(YacType::Bool),
        DataType::TinyInt => Some(YacType::TinyInt),
        DataType::SmallInt => Some(YacType::SmallInt),
        DataType::Integer => Some(YacType::Integer),
        DataType::BigInt => Some(YacType::BigInt),
        DataType::Float => Some(YacType::Float),
        DataType::Double => Some(YacType::Double),
        DataType::Number => Some(YacType::Number),
        DataType::Date => Some(YacType::Date),
        DataType::Time => Some(YacType::ShortTime),
        DataType::Timestamp => Some(YacType::Timestamp),
        DataType::TimestampLtz => Some(YacType::TimestampLtz),
        DataType::TimestampTz => Some(YacType::TimestampTz),
        DataType::IntervalYM => Some(YacType::YmInterval),
        DataType::IntervalDS => Some(YacType::DsInterval),
        DataType::Char => Some(YacType::Char),
        DataType::NChar => Some(YacType::NChar),
        DataType::VarChar => Some(YacType::VarChar),
        DataType::NVarChar => Some(YacType::NVarChar),
        DataType::Binary => Some(YacType::Binary),
        DataType::Blob => Some(YacType::Blob),
        DataType::Clob => Some(YacType::Clob),
        DataType::Nclob => Some(YacType::NClob),
        DataType::Other(_) => None,
    }
}

impl DataTypeInfo {
    /// General database type for this type information.
    pub fn data_type(&self) -> (result: DataType)
        ensures
            result == general_type(*self),
    {
        match self {
            DataTypeInfo::Bool => DataType::Bool,
            DataTypeInfo::TinyInt => DataType::TinyInt,
            DataTypeInfo::SmallInt => DataType::SmallInt,
            DataTypeInfo::Integer => DataType::Integer,
            DataTypeInfo::BigInt => DataType::BigInt,
            DataTypeInfo::Float => DataType::Float,
            DataTypeInfo::Double => DataType::Double,
            DataTypeInfo::Number { .. } => DataType::Number,
            DataTypeInfo::Date => DataType::Date,
            DataTypeInfo::Time => DataType::Time,
            DataTypeInfo::Timestamp => DataType::Timestamp,
            DataTypeInfo::TimestampLtz => DataType::TimestampLtz,
            DataTypeInfo::TimestampTz => DataType::TimestampTz,
            DataTypeInfo::IntervalYM => DataType::IntervalYM,
            DataTypeInfo::IntervalDS => DataType::IntervalDS,
            DataTypeInfo::Char { .. } => DataType::Char,
            DataTypeInfo::NChar { .. } => DataType::NChar,
            DataTypeInfo::VarChar { .. } => DataType::VarChar,
            DataTypeInfo::NVarChar { .. } => DataType::NVarChar,
            DataTypeInfo::Binary { .. } => DataType::Binary,
            DataTypeInfo::Blob => DataType::Blob,
            DataTypeInfo::Clob => DataType::Clob,
            DataTypeInfo::Nclob => DataType::Nclob,
            DataTypeInfo::Other(value) => DataType::Other(*value),
        }
    }
}

/// Immutable metadata for one result column.
#[derive(Debug)]
pub struct ColumnInfo {
    pub(crate) name: String,
    pub(crate) data_type_info: DataTypeInfo,
    pub(crate) nullable: bool,
}

impl ColumnInfo {
    /// The column name as a character sequence.
    pub closed spec fn name_spec(&self) -> Seq<char> {
        self.name@
    }

    /// The column's type description.
    pub closed spec fn info_spec(&self) -> DataTypeInfo {
        self.data_type_info
    }

    /// Whether the column admits NULL.
    pub closed spec fn nullable_spec(&self) -> bool {
        self.nullable
    }

    /// Metadata built from the values that the client reported for a column.
    pub fn new(name: String, data_type_info: DataTypeInfo, nullable: bool) -> (result: ColumnInfo)
        ensures
            result.name_spec() == name@,
            result.info_spec() == data_type_info,
            result.nullable_spec() == nullable,
    {
        ColumnInfo { name, data_type_info, nullable }
    }

    /// Column name as returned by the client.
    ///
    /// Name lookups through a row use an exact, case-sensitive match against
    /// this value.
    pub fn name(&self) -> (result: &str)
        ensures
            result@ == self.name_spec(),
    {
        self.name.as_str()
    }

    pub(crate) fn name_string(&self) -> (result: &String)
        ensures
            result@ == self.name_spec(),
    {
        &self.name
    }

    /// Type-specific metadata for this column.
    pub fn data_type_info(&self) -> (result: DataTypeInfo)
        ensures
            result == self.info_spec(),
    {
        self.data_type_info
    }

    /// Whether the database permits NULL.
    pub fn nullable(&self) -> (result: bool)
        ensures
            result == self.nullable_spec(),
    {
        self.nullable
    }
}

} // verus!

//! Error types for the YashanDB driver.

use vstd::prelude::*;
use vstd::string::*;

use crate::column::DataType;
use crate::text::{decimal, push_signed, push_unsigned, quote, quoted};

verus! {

/// Errors returned by the YashanDB driver.
#[derive(Debug)]
#[non_exhaustive]
pub enum Error {
    /// Library file not found, failed to load, or a required symbol missing.
    ClientLibrary(String),
    /// A caller-supplied argument is invalid (e.g. a connection parameter too long).
    InvalidArgument(String),
    /// The driver encountered an internal inconsistency or a broken client contract.
    Internal(String),
    /// The client library reported a failure; the details come from its
    /// diagnostic record.
    Database {
        /// Error code.
        code: i32,
        /// Error message.
        message: String,
        /// Line number where the error occurred.
        line: i32,
        /// Column number where the error occurred.
        column: i32,
    },
    /// A requested column index is outside the result set.
    ColumnIndexOutOfBounds {
        /// The requested zero-based column index.
        index: usize,
        /// The number of columns in the result set.
        column_count: usize,
    },
    /// A requested column name does not exist in the result set.
    ColumnNotFound {
        /// The requested column name.
        name: String,
    },
    /// A NULL database value was read through a non-optional target type.
    NullValue {
        /// The zero-based column index containing NULL.
        index: usize,
    },
    /// The requested Rust type does not match the database column type.
    ColumnTypeMismatch {
        /// The zero-based column index with the mismatch.
        index: usize,
        /// The Rust type expected by the conversion.
        expected: &'static str,
        /// The database type reported for the column.
        actual: DataType,
    },
    /// Bytes returned by the client library are not valid UTF-8 in the
    /// indicated context.
    InvalidEncoding {
        /// The value context in which decoding failed.
        context: &'static str,
    },
    /// A result column cannot be represented by this version of the driver.
    UnsupportedColumnType {
        /// The zero-based column index with the unsupported type.
        index: usize,
        /// The column name reported by the database.
        name: String,
        /// The database type reported for the column.
        data_type: DataType,
    },
    /// A one-row query returned no rows.
    RowNotFound,
    /// A one-row query returned more than one row.
    TooManyRows,
    /// A LOB is too large to be materialized in memory.
    LobTooLarge {
        /// The LOB length that was requested.
        length: u64,
    },
    /// A LOB column value of the current row was already taken out of the row.
    ColumnValueTransferred {
        /// The zero-based column index.
        index: usize,
    },
}

/// The name under which `Debug` shows a data type.
pub open spec fn data_type_text(t: DataType) -> Seq<char> {
    match t {
        DataType::Bool => "Bool"@,
        DataType::TinyInt => "TinyInt"@,
        DataType::SmallInt => "SmallInt"@,
        DataType::Integer => "Integer"@,
        DataType::BigInt => "BigInt"@,
        DataType::Float => "Float"@,
        DataType::Double => "Double"@,
        DataType::Number => "Number"@,
        DataType::Date => "Date"@,
        DataType::Time => "Time"@,
        DataType::Timestamp => "Timestamp"@,
        DataType::TimestampLtz => "TimestampLtz"@,
        DataType::TimestampTz => "TimestampTz"@,
        DataType::IntervalYM => "IntervalYM"@,
        DataType::IntervalDS => "IntervalDS"@,
        DataType::Char => "Char"@,
        DataType::NChar => "NChar"@,
        DataType::VarChar => "VarChar"@,
        DataType::NVarChar => "NVarChar"@,
        DataType::Binary => "Binary"@,
        DataType::Blob => "Blob"@,
        DataType::Clob => "Clob"@,
        DataType::Nclob => "Nclob"@,
        DataType::Other(v) => "Other("@ + decimal(v as int) + ")"@,
    }
}

/// The human-readable text of an error.
pub open spec fn error_text(e: Error) -> Seq<char> {
    match e {
        Error::ClientLibrary(msg) => "client library error: "@ + msg@,
        Error::InvalidArgument(msg) => "invalid argument: "@ + msg@,
        Error::Internal(msg) => "internal driver error: "@ + msg@,
        Error::Database { code, message, line, column } => "database error ["@ + decimal(
            code as int,
        ) + "] at "@ + decimal(line as int) + ":"@ + decimal(column as int) + ": "@ + message@,
        Error::ColumnIndexOutOfBounds { index, column_count } => "column index "@ + decimal(
            index as int,
        ) + " is out of bounds for "@ + decimal(column_count as int) + " columns"@,
        Error::ColumnNotFound { name } => "column named "@ + quoted(name@) + " was not found"@,
        Error::NullValue { index } => "column "@ + decimal(index as int) + " is NULL"@,
        Error::ColumnTypeMismatch { index, expected, actual } => "column "@ + decimal(index as int)
            + " has type "@ + data_type_text(actual) + ", not "@ + expected@,
        Error::InvalidEncoding { context } => "invalid UTF-8 in "@ + context@,
        Error::UnsupportedColumnType { index, name, data_type } => "unsupported column type "@
            + data_type_text(data_type) + " for column "@ + decimal(index as int) + " ("@ + name@ + ")"@,
        Error::RowNotFound => "query returned no rows"@,
        Error::TooManyRows => "query returned more than one row"@,
        Error::LobTooLarge { length } => "LOB length "@ + decimal(length as int)
            + " exceeds the addressable size"@,
        Error::ColumnValueTransferred { index } => "column "@ + decimal(index as int)
            + " value was already transferred out of the row"@,
    }
}

/// Appends the `Debug` name of a data type.
pub fn push_data_type_text(out: &mut String, t: DataType)
    ensures
        final(out)@ == old(out)@ + data_type_text(t),
{
    match t {
        DataType::Bool => out.append("Bool"),
        DataType::TinyInt => out.append("TinyInt"),
        DataType::SmallInt => out.append("SmallInt"),
        DataType::Integer => out.append("Integer"),
        DataType::BigInt => out.append("BigInt"),
        DataType::Float => out.append("Float"),
        DataType::Double => out.append("Double"),
        DataType::Number => out.append("Number"),
        DataType::Date => out.append("Date"),
        DataType::Time => out.append("Time"),
        DataType::Timestamp => out.append("Timestamp"),
        DataType::TimestampLtz => out.append("TimestampLtz"),
        DataType::TimestampTz => out.append("TimestampTz"),
        DataType::IntervalYM => out.append("IntervalYM"),
        DataType::IntervalDS => out.append("IntervalDS"),
        DataType::Char => out.append("Char"),
        DataType::NChar => out.append("NChar"),
        DataType::VarChar => out.append("VarChar"),
        DataType::NVarChar => out.append("NVarChar"),
        DataType::Binary => out.append("Binary"),
        DataType::Blob => out.append("Blob"),
        DataType::Clob => out.append("Clob"),
        DataType::Nclob => out.append("Nclob"),
        DataType::Other(v) => {
            out.append("Other(");
            push_unsigned(out, v as u64);
            out.append(")");
            assert(final(out)@ =~= old(out)@ + data_type_text(t));
        },
    }
}

impl Error {
    /// The human-readable text of this error.
    pub fn to_string(&self) -> (result: String)
        ensures
            result@ == error_text(*self),
    {
        let mut out = String::new();
        match self {
            Error::ClientLibrary(msg) => {
                out.append("client library error: ");
                out.append(msg.as_str());
            },
            Error::InvalidArgument(msg) => {
                out.append("invalid argument: ");
                out.append(msg.as_str());
            },
            Error::Internal(msg) => {
                out.append("internal driver error: ");
                out.append(msg.as_str());
            },
            Error::Database { code, message, line, column } => {
                out.append("database error [");
                push_signed(&mut out, *code as i64);
                out.append("] at ");
                push_signed(&mut out, *line as i64);
                out.append(":");
                push_signed(&mut out, *column as i64);
                out.append(": ");
                out.append(message.as_str());
            },
            Error::ColumnIndexOutOfBounds { index, column_count } => {
                out.append("column index ");
                push_unsigned(&mut out, *index as u64);
                out.append(" is out of bounds for ");
                push_unsigned(&mut out, *column_count as u64);
                out.append(" columns");
            },
            Error::ColumnNotFound { name } => {
                out.append("column named ");
                let q = quote(name.as_str());
                out.append(q.as_str());
                out.append(" was not found");
            },
            Error::NullValue { index } => {
                out.append("column ");
                push_unsigned(&mut out, *index as u64);
                out.append(" is NULL");
            },
            Error::ColumnTypeMismatch { index, expected, actual } => {
                out.append("column ");
                push_unsigned(&mut out, *index as u64);
                out.append(" has type ");
                push_data_type_text(&mut out, *actual);
                out.append(", not ");
                out.append(expected);
            },
            Error::InvalidEncoding { context } => {
                out.append("invalid UTF-8 in ");
                out.append(context);
            },
            Error::UnsupportedColumnType { index, name, data_type } => {
                out.append("unsupported column type ");
                push_data_type_text(&mut out, *data_type);
                out.append(" for column ");
                push_unsigned(&mut out, *index as u64);
                out.append(" (");
                out.append(name.as_str());
                out.append(")");
            },
            Error::RowNotFound => {
                out.append("query returned no rows");
            },
            Error::TooManyRows => {
                out.append("query returned more than one row");
            },
            Error::LobTooLarge { length } => {
                out.append("LOB length ");
                push_unsigned(&mut out, *length);
                out.append(" exceeds the addressable size");
            },
            Error::ColumnValueTransferred { index } => {
                out.append("column ");
                push_unsigned(&mut out, *index as u64);
                out.append(" value was already transferred out of the row");
            },
        }
        assert(out@ =~= error_text(*self));
        out
    }
}

} // verus!

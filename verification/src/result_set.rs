//! Result sets: how each column is bound, fetching rows, and strict column
//! reads.
//!
//! The caller owns the native buffers bound to the columns and the LOB
//! locators (of its type `L`); what each column is bound as, how large its
//! buffer is, what a fetch reply means, whether a requested read is allowed,
//! and which transferred LOB locators must be rebound are decided here.

use vstd::prelude::*;
use vstd::string::*;
use vstd::utf8::*;

use crate::column::{general_type, ColumnInfo, DataTypeInfo};
use crate::error::Error;
use crate::ffi::{YacExtType, YacTempLobType, YacType, NULL_DATA};
use crate::lob::Lob;
use crate::stmt::{is_char_type, reported_type_info, rowset_error, rowset_text, ColumnRecord};
use crate::text::utf8_string;

verus! {

/// How a result column is bound for fetching.
#[derive(Clone, Copy, Debug, PartialEq, Eq, Structural)]
pub enum ColumnBinding {
    /// Not bound: reading the column reports an unsupported type.
    Unsupported,
    /// A fixed-size value received as the given external type.
    Fixed(YacExtType),
    /// Text received as the given external type into a buffer of `len` bytes.
    Text {
        /// The external type.
        ext_type: YacExtType,
        /// The buffer length in bytes.
        len: usize,
    },
    /// Binary data received into a buffer of the given length in bytes.
    Binary(usize),
    /// A LOB locator received as the given external type.
    Lob(YacExtType),
}

/// A multiple of four at least `n`.
pub open spec fn round_up4(n: int) -> int {
    ((n + 3) / 4) * 4
}

/// The buffer length for text of at most `size` bytes in the database
/// character set, with at most `ratio` client bytes per database byte, plus
/// room for a terminator.
pub open spec fn text_len(size: u32, ratio: u32) -> int {
    round_up4(size as int) * ratio + 1
}

/// Whether the buffers a column needs can be allocated at all.
pub open spec fn binding_fits(info: DataTypeInfo, ratio: u32, nratio: u32) -> bool {
    match info {
        DataTypeInfo::Char { size, .. } => text_len(size, ratio) <= usize::MAX,
        DataTypeInfo::VarChar { size, .. } => text_len(size, ratio) <= usize::MAX,
        DataTypeInfo::NChar { size, .. } => text_len(size, nratio) <= usize::MAX,
        DataTypeInfo::NVarChar { size, .. } => text_len(size, nratio) <= usize::MAX,
        DataTypeInfo::Binary { size } => size + 1 <= usize::MAX,
        _ => true,
    }
}

/// How a column of the given type is bound, with the database (`ratio`)
/// and national (`nratio`) character set ratios of the connection.
///
/// Fixed-width types are received in their own representation, character
/// types as UTF-8 text (fixed-width ones as `Char2`, variable ones as
/// `Varchar2`), binary data as `Binary2`, a BLOB as a BLOB locator and a CLOB
/// or NCLOB as a CLOB locator (the client converts NCLOB text to UTF-8).
/// Time zone timestamps and unrecognized types are not bound.
pub open spec fn planned_binding(info: DataTypeInfo, ratio: u32, nratio: u32) -> ColumnBinding {
    match info {
        DataTypeInfo::Bool => ColumnBinding::Fixed(YacExtType::Bool),
        DataTypeInfo::TinyInt => ColumnBinding::Fixed(YacExtType::TinyInt),
        DataTypeInfo::SmallInt => ColumnBinding::Fixed(YacExtType::SmallInt),
        DataTypeInfo::Integer => ColumnBinding::Fixed(YacExtType::Integer),
        DataTypeInfo::BigInt => ColumnBinding::Fixed(YacExtType::BigInt),
        DataTypeInfo::Float => ColumnBinding::Fixed(YacExtType::Float),
        DataTypeInfo::Double => ColumnBinding::Fixed(YacExtType::Double),
        DataTypeInfo::Number { .. } => ColumnBinding::Fixed(YacExtType::Number),
        DataTypeInfo::Date => ColumnBinding::Fixed(YacExtType::Date),
        DataTypeInfo::Time => ColumnBinding::Fixed(YacExtType::ShortTime),
        DataTypeInfo::Timestamp => ColumnBinding::Fixed(YacExtType::Timestamp),
        DataTypeInfo::IntervalYM => ColumnBinding::Fixed(YacExtType::YmInterval),
        DataTypeInfo::IntervalDS => ColumnBinding::Fixed(YacExtType::DsInterval),
        DataTypeInfo::Char { size, .. } => ColumnBinding::Text {
            ext_type: YacExtType::Char2,
            len: text_len(size, ratio) as usize,
        },
        DataTypeInfo::NChar { size, .. } => ColumnBinding::Text {
            ext_type: YacExtType::Char2,
            len: text_len(size, nratio) as usize,
        },
        DataTypeInfo::VarChar { size, .. } => ColumnBinding::Text {
            ext_type: YacExtType::Varchar2,
            len: text_len(size, ratio) as usize,
        },
        DataTypeInfo::NVarChar { size, .. } => ColumnBinding::Text {
            ext_type: YacExtType::Varchar2,
            len: text_len(size, nratio) as usize,
        },
        DataTypeInfo::Binary { size } => ColumnBinding::Binary((size + 1) as usize),
        DataTypeInfo::Blob => ColumnBinding::Lob(YacExtType::Blob),
        DataTypeInfo::Clob => ColumnBinding::Lob(YacExtType::Clob),
        DataTypeInfo::Nclob => ColumnBinding::Lob(YacExtType::Clob),
        _ => ColumnBinding::Unsupported,
    }
}

/// A described column is received in the form its client type code names:
/// a fixed-size column as the external type carrying the same code, a BLOB
/// or CLOB as the LOB type of the same code (an NCLOB as a CLOB), a
/// character column as text and a binary column as bytes; only unrecognized
/// types and the time-zone timestamps are left unbound.
pub proof fn binding_follows_type_code(r: ColumnRecord, ratio: u32, nratio: u32)
    ensures
        planned_binding(reported_type_info(r), ratio, nratio) matches ColumnBinding::Fixed(e)
            ==> e.spec_code() == r.code,
        planned_binding(reported_type_info(r), ratio, nratio) matches ColumnBinding::Lob(e)
            ==> e.spec_code() == r.code || (r.code == YacType::NClob.spec_code() && e
            == YacExtType::Clob),
        planned_binding(reported_type_info(r), ratio, nratio) is Text <==> is_char_type(r.code),
        planned_binding(reported_type_info(r), ratio, nratio) is Binary <==> r.code
            == YacType::Binary.spec_code(),
        planned_binding(reported_type_info(r), ratio, nratio) is Unsupported <==> (
        reported_type_info(r) is Other || r.code == YacType::TimestampLtz.spec_code() || r.code
            == YacType::TimestampTz.spec_code()),
{
}

/// The text buffer length for `size` bytes at `ratio` client bytes per byte.
pub fn text_buffer_len(size: u32, ratio: u32) -> (result: usize)
    requires
        text_len(size, ratio) <= usize::MAX,
    ensures
        result == text_len(size, ratio),
{
    let rounded: u64 = ((size as u64 + 3) / 4) * 4;
    assert(rounded <= 4294967296u64);
    assert(rounded * (ratio as u64) <= 4294967296u64 * 4294967295u64) by (nonlinear_arith)
        requires
            rounded <= 4294967296u64,
            ratio <= 4294967295u64,
    ;
    let bytes: u64 = rounded * (ratio as u64) + 1;
    bytes as usize
}

/// How a column of the given type is bound.
pub fn plan_binding(info: DataTypeInfo, ratio: u32, nratio: u32) -> (result: ColumnBinding)
    requires
        binding_fits(info, ratio, nratio),
    ensures
        result == planned_binding(info, ratio, nratio),
{
    match info {
        DataTypeInfo::Bool => ColumnBinding::Fixed(YacExtType::Bool),
        DataTypeInfo::TinyInt => ColumnBinding::Fixed(YacExtType::TinyInt),
        DataTypeInfo::SmallInt => ColumnBinding::Fixed(YacExtType::SmallInt),
        DataTypeInfo::Integer => ColumnBinding::Fixed(YacExtType::Integer),
        DataTypeInfo::BigInt => ColumnBinding::Fixed(YacExtType::BigInt),
        DataTypeInfo::Float => ColumnBinding::Fixed(YacExtType::Float),
        DataTypeInfo::Double => ColumnBinding::Fixed(YacExtType::Double),
        DataTypeInfo::Number { .. } => ColumnBinding::Fixed(YacExtType::Number),
        DataTypeInfo::Date => ColumnBinding::Fixed(YacExtType::Date),
        DataTypeInfo::Time => ColumnBinding::Fixed(YacExtType::ShortTime),
        DataTypeInfo::Timestamp => ColumnBinding::Fixed(YacExtType::Timestamp),
        DataTypeInfo::IntervalYM => ColumnBinding::Fixed(YacExtType::YmInterval),
        DataTypeInfo::IntervalDS => ColumnBinding::Fixed(YacExtType::DsInterval),
        DataTypeInfo::Char { size, .. } => ColumnBinding::Text {
            ext_type: YacExtType::Char2,
            len: text_buffer_len(size, ratio),
        },
        DataTypeInfo::NChar { size, .. } => ColumnBinding::Text {
            ext_type: YacExtType::Char2,
            len: text_buffer_len(size, nratio),
        },
        DataTypeInfo::VarChar { size, .. } => ColumnBinding::Text {
            ext_type: YacExtType::Varchar2,
            len: text_buffer_len(size, ratio),
        },
        DataTypeInfo::NVarChar { size, .. } => ColumnBinding::Text {
            ext_type: YacExtType::Varchar2,
            len: text_buffer_len(size, nratio),
        },
        DataTypeInfo::Binary { size } => ColumnBinding::Binary(size as usize + 1),
        DataTypeInfo::Blob => ColumnBinding::Lob(YacExtType::Blob),
        DataTypeInfo::Clob => ColumnBinding::Lob(YacExtType::Clob),
        DataTypeInfo::Nclob => ColumnBinding::Lob(YacExtType::Clob),
        _ => ColumnBinding::Unsupported,
    }
}

/// Whether the buffers of every column can be allocated.
pub fn schema_fits(schema: &Vec<ColumnInfo>, ratio: u32, nratio: u32) -> (result: bool)
    ensures
        result == forall|i: int|
            0 <= i < schema@.len() ==> binding_fits(#[trigger] schema@[i].info_spec(), ratio, nratio),
{
    let mut i: usize = 0;
    while i < schema.len()
        invariant
            i <= schema@.len(),
            forall|k: int|
                0 <= k < i ==> binding_fits(#[trigger] schema@[k].info_spec(), ratio, nratio),
        decreases schema@.len() - i,
    {
        if !fits(schema[i].data_type_info(), ratio, nratio) {
            return false;
        }
        i = i + 1;
    }
    true
}

fn text_fits(size: u32, ratio: u32) -> (result: bool)
    ensures
        result == (text_len(size, ratio) <= usize::MAX),
{
    let rounded: u64 = ((size as u64 + 3) / 4) * 4;
    assert(rounded * (ratio as u64) <= 4294967296u64 * 4294967295u64) by (nonlinear_arith)
        requires
            rounded <= 4294967296u64,
            ratio <= 4294967295u64,
    ;
    let bytes: u64 = rounded * (ratio as u64) + 1;
    bytes <= usize::MAX as u64
}

fn fits(info: DataTypeInfo, ratio: u32, nratio: u32) -> (result: bool)
    ensures
        result == binding_fits(info, ratio, nratio),
{
    match info {
        DataTypeInfo::Char { size, .. } => text_fits(size, ratio),
        DataTypeInfo::VarChar { size, .. } => text_fits(size, ratio),
        DataTypeInfo::NChar { size, .. } => text_fits(size, nratio),
        DataTypeInfo::NVarChar { size, .. } => text_fits(size, nratio),
        DataTypeInfo::Binary { size } => (size as u64) < usize::MAX as u64,
        _ => true,
    }
}

/// How every column of a result is bound, and whether any column holds a
/// LOB locator that must be rebound after it is transferred out of a row.
pub fn bind_columns(schema: &Vec<ColumnInfo>, ratio: u32, nratio: u32) -> (result: (
    Vec<ColumnBinding>,
    bool,
))
    requires
        forall|i: int|
            0 <= i < schema@.len() ==> binding_fits(#[trigger] schema@[i].info_spec(), ratio, nratio),
    ensures
        result.0@.len() == schema@.len(),
        forall|i: int|
            0 <= i < schema@.len() ==> result.0@[i] == planned_binding(
                #[trigger] schema@[i].info_spec(),
                ratio,
                nratio,
            ),
        result.1 == exists|i: int| 0 <= i < schema@.len() && #[trigger] result.0@[i] is Lob,
{
    let mut bindings: Vec<ColumnBinding> = Vec::new();
    let mut rebindable = false;
    let mut i: usize = 0;
    while i < schema.len()
        invariant
            i <= schema@.len(),
            bindings@.len() == i,
            forall|k: int|
                0 <= k < schema@.len() ==> binding_fits(
                    #[trigger] schema@[k].info_spec(),
                    ratio,
                    nratio,
                ),
            forall|k: int|
                0 <= k < i ==> bindings@[k] == planned_binding(
                    #[trigger] schema@[k].info_spec(),
                    ratio,
                    nratio,
                ),
            rebindable == exists|k: int| 0 <= k < i && #[trigger] bindings@[k] is Lob,
        decreases schema@.len() - i,
    {
        let binding = plan_binding(schema[i].data_type_info(), ratio, nratio);
        let ghost was = rebindable;
        let ghost before = bindings@;
        if let ColumnBinding::Lob(_) = binding {
            rebindable = true;
        }
        bindings.push(binding);
        proof {
            assert(bindings@ == before.push(binding));
            if binding is Lob {
                assert(bindings@[i as int] is Lob);
            } else if was {
                let k = choose|k: int| 0 <= k < i && #[trigger] before[k] is Lob;
                assert(bindings@[k] is Lob);
            } else {
                assert forall|k: int| 0 <= k < i + 1 implies !(#[trigger] bindings@[k] is Lob) by {
                    if k < i {
                        assert(bindings@[k] == before[k]);
                    }
                }
            }
        }
        i = i + 1;
    }
    (bindings, rebindable)
}


/// A column position or database-reported column name.
pub trait ColumnIndex {
    /// Whether `result` is what resolving this index against the columns gives.
    spec fn resolves(&self, columns: Seq<ColumnInfo>, result: Result<usize, Error>) -> bool;

    /// Resolve this index against result column metadata.
    fn index(&self, columns: &Vec<ColumnInfo>) -> (result: Result<usize, Error>)
        ensures
            self.resolves(columns@, result),
            result matches Ok(p) ==> p < columns@.len(),
    ;
}

/// The error for a column position past the last column.
pub open spec fn out_of_bounds(index: usize, count: nat) -> Error {
    Error::ColumnIndexOutOfBounds { index, column_count: count as usize }
}

impl ColumnIndex for usize {
    /// A position resolves to itself when it names a column.
    open spec fn resolves(&self, columns: Seq<ColumnInfo>, result: Result<usize, Error>) -> bool {
        if (*self as int) < columns.len() {
            result == Ok::<usize, Error>(*self)
        } else {
            result == Err::<usize, Error>(out_of_bounds(*self, columns.len()))
        }
    }

    fn index(&self, columns: &Vec<ColumnInfo>) -> (result: Result<usize, Error>) {
        if *self < columns.len() {
            Ok(*self)
        } else {
            Err(Error::ColumnIndexOutOfBounds { index: *self, column_count: columns.len() })
        }
    }
}

/// Whether `p` is the first position whose column has the given name.
pub open spec fn first_named(columns: Seq<ColumnInfo>, name: Seq<char>, p: int) -> bool {
    &&& 0 <= p < columns.len()
    &&& columns[p].name_spec() == name
    &&& forall|k: int| 0 <= k < p ==> #[trigger] columns[k].name_spec() != name
}

impl<'a> ColumnIndex for &'a str {
    /// A name resolves to the first column with exactly that name.
    open spec fn resolves(&self, columns: Seq<ColumnInfo>, result: Result<usize, Error>) -> bool {
        if exists|p: int| first_named(columns, self@, p) {
            result matches Ok(p) && first_named(columns, self@, p as int)
        } else {
            result matches Err(Error::ColumnNotFound { name }) && name@ == self@
        }
    }

    fn index(&self, columns: &Vec<ColumnInfo>) -> (result: Result<usize, Error>) {
        let wanted: String = (*self).to_owned();
        let mut p: usize = 0;
        while p < columns.len()
            invariant
                p <= columns@.len(),
                wanted@ == self@,
                forall|k: int| 0 <= k < p ==> #[trigger] columns@[k].name_spec() != self@,
            decreases columns@.len() - p,
        {
            let name = columns[p].name_string();
            if *name == wanted {
                assert(first_named(columns@, self@, p as int));
                return Ok(p);
            }
            p = p + 1;
        }
        assert forall|q: int| !first_named(columns@, self@, q) by {
            if 0 <= q < columns@.len() {
                assert(columns@[q].name_spec() != self@);
            }
        }
        Err(Error::ColumnNotFound { name: wanted })
    }
}

/// A Rust type a column value can be read as.
#[derive(Clone, Copy, Debug, PartialEq, Eq, Structural)]
pub enum Target {
    /// `bool`
    Bool,
    /// `i8`
    I8,
    /// `i16`
    I16,
    /// `i32`
    I32,
    /// `i64`
    I64,
    /// `f32`
    F32,
    /// `f64`
    F64,
    /// The decimal number type.
    Number,
    /// The date type.
    Date,
    /// The time-of-day type.
    Time,
    /// The timestamp type.
    Timestamp,
    /// The year-to-month interval type.
    IntervalYM,
    /// The day-to-second interval type.
    IntervalDS,
    /// `&str`
    Str,
    /// `String`
    String,
    /// `&[u8]`
    Bytes,
    /// `Vec<u8>`
    ByteVec,
    /// A BLOB locator.
    Blob,
    /// A CLOB or NCLOB locator.
    Clob,
}

/// Whether a column of the given type can be read as the target: only the
/// exact mapping, with no numeric, text or other conversion.
pub open spec fn accepts(target: Target, info: DataTypeInfo) -> bool {
    match target {
        Target::Bool => info is Bool,
        Target::I8 => info is TinyInt,
        Target::I16 => info is SmallInt,
        Target::I32 => info is Integer,
        Target::I64 => info is BigInt,
        Target::F32 => info is Float,
        Target::F64 => info is Double,
        Target::Number => info is Number,
        Target::Date => info is Date,
        Target::Time => info is Time,
        Target::Timestamp => info is Timestamp,
        Target::IntervalYM => info is IntervalYM,
        Target::IntervalDS => info is IntervalDS,
        Target::Str | Target::String => info is Char || info is VarChar || info is NChar
            || info is NVarChar,
        Target::Bytes | Target::ByteVec => info is Binary,
        Target::Blob => info is Blob,
        Target::Clob => info is Clob || info is Nclob,
    }
}

/// The external type whose value has the in-memory form of a target's own
/// type, for the fixed-size and LOB targets; text and byte targets receive
/// buffers instead.
pub open spec fn native_ext_type(target: Target) -> Option<YacExtType> {
    match target {
        Target::Bool => Some(YacExtType::Bool),
        Target::I8 => Some(YacExtType::TinyInt),
        Target::I16 => Some(YacExtType::SmallInt),
        Target::I32 => Some(YacExtType::Integer),
        Target::I64 => Some(YacExtType::BigInt),
        Target::F32 => Some(YacExtType::Float),
        Target::F64 => Some(YacExtType::Double),
        Target::Number => Some(YacExtType::Number),
        Target::Date => Some(YacExtType::Date),
        Target::Time => Some(YacExtType::ShortTime),
        Target::Timestamp => Some(YacExtType::Timestamp),
        Target::IntervalYM => Some(YacExtType::YmInterval),
        Target::IntervalDS => Some(YacExtType::DsInterval),
        Target::Blob => Some(YacExtType::Blob),
        Target::Clob => Some(YacExtType::Clob),
        _ => None,
    }
}

/// A column is read as a target exactly when the column is received in the
/// target's own form: a fixed-size or LOB target accepts exactly the
/// columns bound as its own external type, a text target exactly the
/// columns received as text, a byte target exactly the columns received as
/// bytes. So no value is read through another type's representation.
pub proof fn reads_match_bindings(target: Target, info: DataTypeInfo, ratio: u32, nratio: u32)
    ensures
        native_ext_type(target) matches Some(e) ==> (accepts(target, info) <==> (planned_binding(
            info,
            ratio,
            nratio,
        ) == ColumnBinding::Fixed(e) || planned_binding(info, ratio, nratio)
            == ColumnBinding::Lob(e))),
        (target is Str || target is String) ==> (accepts(target, info) <==> planned_binding(
            info,
            ratio,
            nratio,
        ) is Text),
        (target is Bytes || target is ByteVec) ==> (accepts(target, info) <==> planned_binding(
            info,
            ratio,
            nratio,
        ) is Binary),
{
}

/// The name of the target type used in type mismatch errors.
pub open spec fn target_text(target: Target) -> Seq<char> {
    match target {
        Target::Bool => "bool"@,
        Target::I8 => "i8"@,
        Target::I16 => "i16"@,
        Target::I32 => "i32"@,
        Target::I64 => "i64"@,
        Target::F32 => "f32"@,
        Target::F64 => "f64"@,
        Target::Number => "Number"@,
        Target::Date => "Date"@,
        Target::Time => "Time"@,
        Target::Timestamp => "Timestamp"@,
        Target::IntervalYM => "IntervalYM"@,
        Target::IntervalDS => "IntervalDS"@,
        Target::Str => "&str"@,
        Target::String => "String"@,
        Target::Bytes => "&[u8]"@,
        Target::ByteVec => "Vec<u8>"@,
        Target::Blob => "Blob"@,
        Target::Clob => "Clob"@,
    }
}

impl Target {
    /// Whether a column of the given type can be read as this target.
    pub fn accepts(&self, info: DataTypeInfo) -> (result: bool)
        ensures
            result == accepts(*self, info),
    {
        match self {
            Target::Bool => matches!(info, DataTypeInfo::Bool),
            Target::I8 => matches!(info, DataTypeInfo::TinyInt),
            Target::I16 => matches!(info, DataTypeInfo::SmallInt),
            Target::I32 => matches!(info, DataTypeInfo::Integer),
            Target::I64 => matches!(info, DataTypeInfo::BigInt),
            Target::F32 => matches!(info, DataTypeInfo::Float),
            Target::F64 => matches!(info, DataTypeInfo::Double),
            Target::Number => matches!(info, DataTypeInfo::Number { .. }),
            Target::Date => matches!(info, DataTypeInfo::Date),
            Target::Time => matches!(info, DataTypeInfo::Time),
            Target::Timestamp => matches!(info, DataTypeInfo::Timestamp),
            Target::IntervalYM => matches!(info, DataTypeInfo::IntervalYM),
            Target::IntervalDS => matches!(info, DataTypeInfo::IntervalDS),
            Target::Str | Target::String => matches!(
                info,
                DataTypeInfo::Char { .. } | DataTypeInfo::VarChar { .. } | DataTypeInfo::NChar { .. }
                    | DataTypeInfo::NVarChar { .. }
            ),
            Target::Bytes | Target::ByteVec => matches!(info, DataTypeInfo::Binary { .. }),
            Target::Blob => matches!(info, DataTypeInfo::Blob),
            Target::Clob => matches!(info, DataTypeInfo::Clob | DataTypeInfo::Nclob),
        }
    }

    /// The name of this target type.
    pub fn name(&self) -> (result: &'static str)
        ensures
            result@ == target_text(*self),
    {
        match self {
            Target::Bool => {
                proof { reveal_strlit("bool"); }
                "bool"
            },
            Target::I8 => {
                proof { reveal_strlit("i8"); }
                "i8"
            },
            Target::I16 => {
                proof { reveal_strlit("i16"); }
                "i16"
            },
            Target::I32 => {
                proof { reveal_strlit("i32"); }
                "i32"
            },
            Target::I64 => {
                proof { reveal_strlit("i64"); }
                "i64"
            },
            Target::F32 => {
                proof { reveal_strlit("f32"); }
                "f32"
            },
            Target::F64 => {
                proof { reveal_strlit("f64"); }
                "f64"
            },
            Target::Number => {
                proof { reveal_strlit("Number"); }
                "Number"
            },
            Target::Date => {
                proof { reveal_strlit("Date"); }
                "Date"
            },
            Target::Time => {
                proof { reveal_strlit("Time"); }
                "Time"
            },
            Target::Timestamp => {
                proof { reveal_strlit("Timestamp"); }
                "Timestamp"
            },
            Target::IntervalYM => {
                proof { reveal_strlit("IntervalYM"); }
                "IntervalYM"
            },
            Target::IntervalDS => {
                proof { reveal_strlit("IntervalDS"); }
                "IntervalDS"
            },
            Target::Str => {
                proof { reveal_strlit("&str"); }
                "&str"
            },
            Target::String => {
                proof { reveal_strlit("String"); }
                "String"
            },
            Target::Bytes => {
                proof { reveal_strlit("&[u8]"); }
                "&[u8]"
            },
            Target::ByteVec => {
                proof { reveal_strlit("Vec<u8>"); }
                "Vec<u8>"
            },
            Target::Blob => {
                proof { reveal_strlit("Blob"); }
                "Blob"
            },
            Target::Clob => {
                proof { reveal_strlit("Clob"); }
                "Clob"
            },
        }
    }
}

/// Decide a column read of a column of type `info` at position `index`,
/// whose fetched indicator is `indicator`, as `target` (wrapped in `Option`
/// when `optional`): `Ok(true)` when a value is to be decoded, `Ok(false)`
/// for SQL NULL read into an `Option`. SQL NULL is reported before a type
/// mismatch, and an optional target receives NULL whatever its type.
pub fn check_read(index: usize, info: DataTypeInfo, indicator: i32, target: Target, optional: bool) -> (result: Result<bool, Error>)
    ensures
        indicator == NULL_DATA && optional ==> result == Ok::<bool, Error>(false),
        indicator == NULL_DATA && !optional ==> (result matches Err(Error::NullValue { index: i })
            && i == index),
        indicator != NULL_DATA && !accepts(target, info) ==> (result matches Err(
            Error::ColumnTypeMismatch { index: i, expected, actual },
        ) && i == index && expected@ == target_text(target) && actual == general_type(info)),
        indicator != NULL_DATA && accepts(target, info) ==> result == Ok::<bool, Error>(true),
{
    if indicator == NULL_DATA {
        if optional {
            Ok(false)
        } else {
            Err(Error::NullValue { index })
        }
    } else if !target.accepts(info) {
        Err(Error::ColumnTypeMismatch { index, expected: target.name(), actual: info.data_type() })
    } else {
        Ok(true)
    }
}


/// The length of a fetched text or binary value: its indicator, which the
/// client keeps within the bound buffer.
pub fn value_len(indicator: i32, buffer_len: usize) -> (result: usize)
    requires
        0 <= indicator,
        indicator <= buffer_len,
    ensures
        result == indicator,
{
    indicator as usize
}

/// The error for fetched text that is not valid UTF-8.
pub open spec fn text_encoding_error(e: Error) -> bool {
    e matches Error::InvalidEncoding { context } && context@ == "column text"@
}

/// Decode a fetched text value.
pub fn decode_text(bytes: Vec<u8>) -> (result: Result<String, Error>)
    ensures
        valid_utf8(bytes@) ==> (result matches Ok(s) && s@ == decode_utf8(bytes@)),
        !valid_utf8(bytes@) ==> (result matches Err(e) && text_encoding_error(e)),
{
    match utf8_string(bytes) {
        Some(s) => Ok(s),
        None => Err(Error::InvalidEncoding { context: "column text" }),
    }
}

/// The kind of character LOB held by a CLOB or NCLOB column.
pub open spec fn clob_kind(info: DataTypeInfo) -> YacTempLobType {
    if info is Nclob {
        YacTempLobType::NClob
    } else {
        YacTempLobType::Clob
    }
}

/// The kind of character LOB held by a column of the given type.
pub fn clob_type(info: DataTypeInfo) -> (result: YacTempLobType)
    ensures
        result == clob_kind(info),
{
    match info {
        DataTypeInfo::Nclob => YacTempLobType::NClob,
        _ => YacTempLobType::Clob,
    }
}

/// Whether column position `i` is listed.
pub open spec fn lists(positions: Seq<usize>, i: int) -> bool {
    exists|k: int| 0 <= k < positions.len() && positions[k] as int == i
}

/// What fetching the next row needs first.
#[derive(Clone, Copy, Debug, PartialEq, Eq, Structural)]
pub enum FetchStep {
    /// The end of the rows was reached earlier: report no row without
    /// calling the client.
    AtEnd,
    /// Allocate a new locator for the LOB column at `index`, bind it as
    /// `ext_type`, and hand it to [`ResultSet::rebound`].
    Rebind {
        /// The column position.
        index: usize,
        /// The external type to bind.
        ext_type: YacExtType,
    },
    /// Fetch a row and hand the reply to [`ResultSet::fetched`].
    Fetch,
}

/// A single-row, streaming result set.
///
/// LOB columns hold a locator (of the caller's type `L`) for the current
/// row. Reading a LOB value transfers its locator out of the row; the column
/// is then rebound with a fresh locator before the next fetch, so every LOB
/// column holds a locator whenever a row is fetched.
#[derive(Debug)]
pub struct ResultSet<L> {
    schema: Vec<ColumnInfo>,
    bindings: Vec<ColumnBinding>,
    lobs: Vec<Option<L>>,
    pending_rebinds: Vec<usize>,
    eof: bool,
}

impl<L> ResultSet<L> {
    /// The column metadata.
    pub closed spec fn spec_schema(&self) -> Seq<ColumnInfo> {
        self.schema@
    }

    /// How each column is bound.
    pub closed spec fn spec_bindings(&self) -> Seq<ColumnBinding> {
        self.bindings@
    }

    /// The locator held by each column (for LOB columns).
    pub closed spec fn spec_lobs(&self) -> Seq<Option<L>> {
        self.lobs@
    }

    /// The LOB columns whose locators were transferred out and await a rebind,
    /// in the order of the transfers.
    pub closed spec fn spec_pending(&self) -> Seq<usize> {
        self.pending_rebinds@
    }

    /// Whether the end of the rows was reached.
    pub closed spec fn spec_eof(&self) -> bool {
        self.eof
    }

    /// The internal consistency of a result set: one binding and one locator
    /// slot per column, only LOB columns hold locators, and the columns
    /// awaiting a rebind are exactly the LOB columns without a locator, each
    /// listed once.
    pub closed spec fn wf(&self) -> bool {
        let n = self.schema@.len();
        &&& self.bindings@.len() == n
        &&& self.lobs@.len() == n
        &&& forall|i: int| 0 <= i < n && #[trigger] self.lobs@[i] is Some ==> self.bindings@[i] is Lob
        &&& forall|k: int|
            0 <= k < self.pending_rebinds@.len() ==> {
                let c = #[trigger] self.pending_rebinds@[k] as int;
                0 <= c < n && self.bindings@[c] is Lob && self.lobs@[c] is None
            }
        &&& forall|i: int|
            0 <= i < n && #[trigger] self.bindings@[i] is Lob && self.lobs@[i] is None
                ==> lists(self.pending_rebinds@, i)
        &&& forall|a: int, b: int|
            0 <= a < b < self.pending_rebinds@.len() ==> self.pending_rebinds@[a]
                != self.pending_rebinds@[b]
    }

    /// A consistent result set has one binding and one locator slot per
    /// column, only LOB columns hold a locator, and every column awaiting a
    /// rebind is a LOB column without its locator.
    pub proof fn wf_shape(&self)
        requires
            self.wf(),
        ensures
            self.spec_bindings().len() == self.spec_schema().len(),
            self.spec_lobs().len() == self.spec_schema().len(),
            forall|i: int|
                0 <= i < self.spec_schema().len() && #[trigger] self.spec_lobs()[i] is Some
                    ==> self.spec_bindings()[i] is Lob,
            forall|k: int|
                0 <= k < self.spec_pending().len() ==> {
                    let c = #[trigger] self.spec_pending()[k] as int;
                    0 <= c < self.spec_schema().len() && self.spec_bindings()[c] is Lob
                        && self.spec_lobs()[c] is None
                },
    {
    }

    /// A result set over freshly bound columns: each LOB column holds its
    /// initial locator and no other column holds one.
    pub fn new(schema: Vec<ColumnInfo>, bindings: Vec<ColumnBinding>, lobs: Vec<Option<L>>) -> (result: ResultSet<L>)
        requires
            bindings@.len() == schema@.len(),
            lobs@.len() == schema@.len(),
            forall|i: int| 0 <= i < schema@.len() ==> (#[trigger] lobs@[i] is Some <==> bindings@[i] is Lob),
        ensures
            result.wf(),
            result.spec_schema() == schema@,
            result.spec_bindings() == bindings@,
            result.spec_lobs() == lobs@,
            result.spec_pending().len() == 0,
            !result.spec_eof(),
    {
        ResultSet { schema, bindings, lobs, pending_rebinds: Vec::new(), eof: false }
    }

    /// Metadata for all result columns.
    pub fn columns(&self) -> (result: &Vec<ColumnInfo>)
        ensures
            result@ == self.spec_schema(),
    {
        &self.schema
    }

    /// Number of columns.
    pub fn column_count(&self) -> (result: usize)
        ensures
            result == self.spec_schema().len(),
    {
        self.schema.len()
    }

    /// How the column at `index` is bound.
    pub fn binding(&self, index: usize) -> (result: ColumnBinding)
        requires
            self.wf(),
            index < self.spec_schema().len(),
        ensures
            result == self.spec_bindings()[index as int],
    {
        self.bindings[index]
    }

    /// The locator the column at `index` holds, if any.
    pub fn locator(&self, index: usize) -> (result: Option<&L>)
        requires
            self.wf(),
            index < self.spec_schema().len(),
        ensures
            match self.spec_lobs()[index as int] {
                Some(l) => result == Some(&l),
                None => result is None,
            },
    {
        match &self.lobs[index] {
            Some(l) => Some(l),
            None => None,
        }
    }

    /// What fetching the next row needs first: nothing after the end of the
    /// rows, then the rebinding of transferred LOB columns in transfer
    /// order, then the fetch itself.
    pub fn fetch_step(&self) -> (result: FetchStep)
        requires
            self.wf(),
        ensures
            self.spec_eof() ==> result == FetchStep::AtEnd,
            !self.spec_eof() && self.spec_pending().len() > 0 ==> result == (FetchStep::Rebind {
                index: self.spec_pending()[0],
                ext_type: self.spec_bindings()[self.spec_pending()[0] as int]->Lob_0,
            }),
            !self.spec_eof() && self.spec_pending().len() == 0 ==> result == FetchStep::Fetch,
    {
        if self.eof {
            return FetchStep::AtEnd;
        }
        if self.pending_rebinds.len() > 0 {
            let index = self.pending_rebinds[0];
            assert(0 <= index < self.schema@.len());
            let ext_type = match self.bindings[index] {
                ColumnBinding::Lob(ext_type) => ext_type,
                _ => YacExtType::Clob,
            };
            return FetchStep::Rebind { index, ext_type };
        }
        FetchStep::Fetch
    }

    /// Record the outcome of rebinding the first column awaiting a rebind: on
    /// success the column holds the new locator and leaves the list; on
    /// failure the column stays listed (with the later ones) for a retry at
    /// the next fetch.
    pub fn rebound(&mut self, reply: Result<L, Error>) -> (result: Result<(), Error>)
        requires
            old(self).wf(),
            old(self).spec_pending().len() > 0,
        ensures
            final(self).wf(),
            final(self).spec_schema() == old(self).spec_schema(),
            final(self).spec_bindings() == old(self).spec_bindings(),
            final(self).spec_eof() == old(self).spec_eof(),
            match reply {
                Ok(l) => result is Ok && final(self).spec_pending() == old(self).spec_pending().drop_first()
                    && final(self).spec_lobs() == old(self).spec_lobs().update(
                    old(self).spec_pending()[0] as int,
                    Some(l),
                ),
                Err(e) => result == Err::<(), Error>(e) && final(self).spec_pending() == old(
                    self,
                ).spec_pending() && final(self).spec_lobs() == old(self).spec_lobs(),
            },
    {
        match reply {
            Ok(locator) => {
                let index = self.pending_rebinds.remove(0);
                let ghost old_pending = old(self).spec_pending();
                let ghost old_lobs = old(self).spec_lobs();
                self.lobs.set(index, Some(locator));
                proof {
                    assert(index == old_pending[0]);
                    assert(self.pending_rebinds@ =~= old_pending.drop_first());
                    let n = self.schema@.len();
                    assert forall|k: int| 0 <= k < self.pending_rebinds@.len() implies {
                        let c = #[trigger] self.pending_rebinds@[k] as int;
                        0 <= c < n && self.bindings@[c] is Lob && self.lobs@[c] is None
                    } by {
                        assert(self.pending_rebinds@[k] == old_pending[k + 1]);
                        assert(old_pending[k + 1] != old_pending[0]);
                    }
                    assert forall|i: int|
                        0 <= i < n && #[trigger] self.bindings@[i] is Lob && self.lobs@[i] is None
                        implies lists(self.pending_rebinds@, i) by {
                        assert(self.lobs@[index as int] is Some);
                        assert(i != index as int);
                        assert(old_lobs[i] is None);
                        assert(lists(old_pending, i));
                        let k = choose|k: int| 0 <= k < old_pending.len() && old_pending[k] as int == i;
                        assert(k != 0);
                        assert(self.pending_rebinds@[k - 1] as int == i);
                    }
                    assert forall|a: int, b: int|
                        0 <= a < b < self.pending_rebinds@.len() implies self.pending_rebinds@[a]
                            != self.pending_rebinds@[b] by {
                        assert(self.pending_rebinds@[a] == old_pending[a + 1]);
                        assert(self.pending_rebinds@[b] == old_pending[b + 1]);
                    }
                }
                Ok(())
            },
            Err(e) => Err(e),
        }
    }

    /// Continue with the reply to a fetch (the number of rows fetched):
    /// `Ok(true)` for a row, `Ok(false)` at the end of the rows, after which
    /// fetches report no row without calling the client.
    pub fn fetched(&mut self, reply: Result<u32, Error>) -> (result: Result<bool, Error>)
        requires
            old(self).wf(),
            !old(self).spec_eof(),
            old(self).spec_pending().len() == 0,
        ensures
            final(self).wf(),
            final(self).spec_schema() == old(self).spec_schema(),
            final(self).spec_bindings() == old(self).spec_bindings(),
            final(self).spec_lobs() == old(self).spec_lobs(),
            final(self).spec_pending() == old(self).spec_pending(),
            final(self).spec_eof() == (reply == Ok::<u32, Error>(0)),
            reply is Ok && reply->Ok_0 == 0 ==> result == Ok::<bool, Error>(false),
            reply is Ok && reply->Ok_0 == 1 ==> result == Ok::<bool, Error>(true),
            reply is Ok && reply->Ok_0 > 1 ==> (result matches Err(Error::Internal(m)) && m@
                == rowset_text(reply->Ok_0 as int)),
            reply is Err ==> result == Err::<bool, Error>(reply->Err_0),
    {
        match reply {
            Ok(rows) => {
                if rows == 0 {
                    self.eof = true;
                    Ok(false)
                } else if rows == 1 {
                    Ok(true)
                } else {
                    Err(rowset_error(rows))
                }
            },
            Err(e) => Err(e),
        }
    }

    /// Find a column of the current row: the position a column index or
    /// name resolves to, refusing a column whose type is not bound.
    pub fn column<I: ColumnIndex>(&self, index: &I) -> (result: Result<usize, Error>)
        requires
            self.wf(),
        ensures
            exists|resolved: Result<usize, Error>|
                #[trigger] index.resolves(self.spec_schema(), resolved) && match resolved {
                    Err(e) => result == Err::<usize, Error>(e),
                    Ok(p) => p < self.spec_schema().len() && if self.spec_bindings()[p as int] is Unsupported {
                        result matches Err(Error::UnsupportedColumnType { index: i, name, data_type })
                            && i == p && name@ == self.spec_schema()[p as int].name_spec()
                            && data_type == general_type(self.spec_schema()[p as int].info_spec())
                    } else {
                        result == Ok::<usize, Error>(p)
                    },
                },
    {
        let resolved = index.index(&self.schema);
        proof {
            assert(index.resolves(self.spec_schema(), resolved));
        }
        let position = match resolved {
            Ok(p) => p,
            Err(e) => {
                return Err(e);
            },
        };
        match self.bindings[position] {
            ColumnBinding::Unsupported => {
                let info = &self.schema[position];
                Err(
                    Error::UnsupportedColumnType {
                        index: position,
                        name: info.name_string().clone(),
                        data_type: info.data_type_info().data_type(),
                    },
                )
            },
            _ => Ok(position),
        }
    }

    /// Read a column of the current row as `target` (wrapped in `Option`
    /// when `optional`), given the indicators the fetch wrote for the
    /// columns: the position of the column whose value is to be decoded, or
    /// `None` for SQL NULL read into an `Option`. The index is resolved
    /// first, then an unbound column type is refused, then NULL and the
    /// target type are checked.
    pub fn get<I: ColumnIndex>(&self, index: &I, indicators: &Vec<i32>, target: Target, optional: bool) -> (result: Result<Option<usize>, Error>)
        requires
            self.wf(),
            indicators@.len() == self.spec_schema().len(),
        ensures
            exists|resolved: Result<usize, Error>|
                #[trigger] index.resolves(self.spec_schema(), resolved) && match resolved {
                    Err(e) => result == Err::<Option<usize>, Error>(e),
                    Ok(p) => p < self.spec_schema().len() && if self.spec_bindings()[p as int] is Unsupported {
                        result matches Err(Error::UnsupportedColumnType { index: i, .. }) && i == p
                    } else {
                        let info = self.spec_schema()[p as int].info_spec();
                        let indicator = indicators@[p as int];
                        &&& indicator == NULL_DATA && optional ==> result == Ok::<Option<usize>, Error>(None)
                        &&& indicator == NULL_DATA && !optional ==> (result matches Err(Error::NullValue { index: i }) && i == p)
                        &&& indicator != NULL_DATA && !accepts(target, info) ==> (result matches Err(
                            Error::ColumnTypeMismatch { index: i, expected, actual },
                        ) && i == p && expected@ == target_text(target) && actual == general_type(info))
                        &&& indicator != NULL_DATA && accepts(target, info) ==> result == Ok::<Option<usize>, Error>(Some(p))
                    },
                },
    {
        let position = match self.column(index) {
            Ok(p) => p,
            Err(e) => {
                return Err(e);
            },
        };
        let info = self.schema[position].data_type_info();
        match check_read(position, info, indicators[position], target, optional) {
            Ok(true) => Ok(Some(position)),
            Ok(false) => Ok(None),
            Err(e) => Err(e),
        }
    }

    /// Take the LOB locator of a LOB column out of the current row. A
    /// column's locator can be taken once per row; the column is listed for
    /// a rebind before the next fetch.
    pub fn take_lob(&mut self, index: usize) -> (result: Result<Lob<L>, Error>)
        requires
            old(self).wf(),
            index < old(self).spec_schema().len(),
            old(self).spec_bindings()[index as int] is Lob,
        ensures
            final(self).wf(),
            final(self).spec_schema() == old(self).spec_schema(),
            final(self).spec_bindings() == old(self).spec_bindings(),
            final(self).spec_eof() == old(self).spec_eof(),
            match old(self).spec_lobs()[index as int] {
                Some(l) => (result matches Ok(lob) && lob.spec_locator() == Some(l))
                    && final(self).spec_lobs() == old(self).spec_lobs().update(index as int, None)
                    && final(self).spec_pending() == old(self).spec_pending().push(index),
                None => result == Err::<Lob<L>, Error>(Error::ColumnValueTransferred { index })
                    && final(self).spec_lobs() == old(self).spec_lobs() && final(self).spec_pending()
                    == old(self).spec_pending(),
            },
    {
        let ghost old_pending = old(self).spec_pending();
        let ghost old_lobs = old(self).spec_lobs();
        let mut slot: Option<L> = None;
        std::mem::swap(&mut slot, &mut self.lobs[index]);
        match slot {
            Some(locator) => {
                self.pending_rebinds.push(index);
                proof {
                    assert(self.lobs@ =~= old_lobs.update(index as int, None));
                    assert(!lists(old_pending, index as int)) by {
                        if lists(old_pending, index as int) {
                            let k = choose|k: int| 0 <= k < old_pending.len() && old_pending[k] as int == index as int;
                            assert(old_lobs[old_pending[k] as int] is None);
                        }
                    }
                    let n = self.schema@.len();
                    assert forall|i: int|
                        0 <= i < n && #[trigger] self.bindings@[i] is Lob && self.lobs@[i] is None
                        implies lists(self.pending_rebinds@, i) by {
                        if i == index as int {
                            assert(self.pending_rebinds@[old_pending.len() as int] == index);
                        } else {
                            assert(lists(old_pending, i));
                            let k = choose|k: int| 0 <= k < old_pending.len() && old_pending[k] as int == i;
                            assert(self.pending_rebinds@[k] == old_pending[k]);
                        }
                    }
                    assert forall|k: int| 0 <= k < self.pending_rebinds@.len() implies {
                        let c = #[trigger] self.pending_rebinds@[k] as int;
                        0 <= c < n && self.bindings@[c] is Lob && self.lobs@[c] is None
                    } by {
                        if k < old_pending.len() {
                            assert(self.pending_rebinds@[k] == old_pending[k]);
                        }
                    }
                    assert forall|a: int, b: int|
                        0 <= a < b < self.pending_rebinds@.len() implies self.pending_rebinds@[a]
                            != self.pending_rebinds@[b] by {
                        if b == old_pending.len() {
                            assert(self.pending_rebinds@[a] == old_pending[a]);
                        }
                    }
                }
                Ok(Lob::new(locator))
            },
            None => {
                proof {
                    assert(self.lobs@ =~= old_lobs);
                }
                Err(Error::ColumnValueTransferred { index })
            },
        }
    }
}

/// Before every fetch that reaches the client, every LOB column of the result
/// holds a locator: the columns whose locators were transferred out are
/// exactly the ones awaiting a rebind.
pub proof fn lob_columns_hold_locators_when_fetching<L>(rs: ResultSet<L>)
    requires
        rs.wf(),
        rs.spec_pending().len() == 0,
    ensures
        forall|i: int|
            0 <= i < rs.spec_schema().len() && #[trigger] rs.spec_bindings()[i] is Lob
                ==> rs.spec_lobs()[i] is Some,
{
    assert forall|i: int|
        0 <= i < rs.spec_schema().len() && #[trigger] rs.spec_bindings()[i] is Lob
            implies rs.spec_lobs()[i] is Some by {
        if rs.spec_lobs()[i] is None {
            assert(lists(rs.spec_pending(), i));
        }
    }
}

} // verus!

use yashandb::{DataType, Error};

#[test]
fn display_client_library() {
    let e = Error::ClientLibrary("boom".into());
    assert_eq!(e.to_string(), "client library error: boom");
}

#[test]
fn display_invalid_argument() {
    let e = Error::InvalidArgument("bad".into());
    assert_eq!(e.to_string(), "invalid argument: bad");
}

#[test]
fn display_internal() {
    let e = Error::Internal("broken invariant".into());
    assert_eq!(e.to_string(), "internal driver error: broken invariant");
}

#[test]
fn display_database() {
    let e = Error::Database {
        code: 42,
        message: "oops".into(),
        line: 3,
        column: 7,
    };
    assert_eq!(e.to_string(), "database error [42] at 3:7: oops");
}

#[test]
fn display_column_and_query_errors() {
    assert_eq!(
        Error::ColumnIndexOutOfBounds {
            index: 3,
            column_count: 2
        }
        .to_string(),
        "column index 3 is out of bounds for 2 columns"
    );
    assert_eq!(
        Error::ColumnNotFound { name: "missing".into() }.to_string(),
        "column named \"missing\" was not found"
    );
    assert_eq!(Error::NullValue { index: 1 }.to_string(), "column 1 is NULL");
    assert_eq!(
        Error::InvalidEncoding { context: "column name" }.to_string(),
        "invalid UTF-8 in column name"
    );
    assert_eq!(Error::RowNotFound.to_string(), "query returned no rows");
    assert_eq!(Error::TooManyRows.to_string(), "query returned more than one row");
    assert_eq!(
        Error::ColumnTypeMismatch {
            index: 0,
            expected: "i32",
            actual: DataType::VarChar
        }
        .to_string(),
        "column 0 has type VarChar, not i32"
    );
    assert_eq!(
        Error::UnsupportedColumnType {
            index: 0,
            name: "payload".into(),
            data_type: DataType::Other(99)
        }
        .to_string(),
        "unsupported column type Other(99) for column 0 (payload)"
    );
}

#[test]
fn display_negative_database_values() {
    let e = Error::Database {
        code: -1,
        message: "failed".into(),
        line: -20,
        column: 0,
    };
    assert_eq!(e.to_string(), "database error [-1] at -20:0: failed");
}

#[test]
fn display_lob_errors() {
    assert_eq!(
        Error::LobTooLarge { length: 18446744073709551615 }.to_string(),
        "LOB length 18446744073709551615 exceeds the addressable size"
    );
    assert_eq!(
        Error::ColumnValueTransferred { index: 4 }.to_string(),
        "column 4 value was already transferred out of the row"
    );
}

#[test]
fn display_quotes_and_escapes_column_names() {
    assert_eq!(
        Error::ColumnNotFound { name: "a\"b".into() }.to_string(),
        "column named \"a\\\"b\" was not found"
    );
}

use yashandb::ffi::{YacExtType, YacTempLobType, NULL_DATA};
use yashandb::result_set::{
    bind_columns, check_read, clob_type, decode_text, plan_binding, text_buffer_len, value_len,
    ColumnBinding, FetchStep, Target,
};
use yashandb::{ColumnIndex, ColumnInfo, DataType, DataTypeInfo, Error, ResultSet};

fn schema() -> Vec<ColumnInfo> {
    vec![
        ColumnInfo::new("ID".into(), DataTypeInfo::Integer, false),
        ColumnInfo::new("NAME".into(), DataTypeInfo::VarChar { size: 10, char_size: 10 }, true),
        ColumnInfo::new("DOC".into(), DataTypeInfo::Blob, true),
        ColumnInfo::new("TZ".into(), DataTypeInfo::TimestampTz, true),
        ColumnInfo::new("NAME".into(), DataTypeInfo::Bool, true),
    ]
}

#[test]
fn text_buffers_round_up_to_four_and_scale_by_ratio() {
    assert_eq!(text_buffer_len(10, 4), 49);
    assert_eq!(text_buffer_len(0, 3), 1);
    assert_eq!(text_buffer_len(8, 1), 9);
}

#[test]
fn column_bindings_follow_the_column_types() {
    assert_eq!(plan_binding(DataTypeInfo::Bool, 1, 1), ColumnBinding::Fixed(YacExtType::Bool));
    assert_eq!(
        plan_binding(DataTypeInfo::Time, 1, 1),
        ColumnBinding::Fixed(YacExtType::ShortTime)
    );
    assert_eq!(
        plan_binding(DataTypeInfo::Char { size: 5, char_size: 5 }, 3, 2),
        ColumnBinding::Text { ext_type: YacExtType::Char2, len: 25 }
    );
    assert_eq!(
        plan_binding(DataTypeInfo::NVarChar { size: 5, char_size: 5 }, 3, 2),
        ColumnBinding::Text { ext_type: YacExtType::Varchar2, len: 17 }
    );
    assert_eq!(plan_binding(DataTypeInfo::Binary { size: 16 }, 1, 1), ColumnBinding::Binary(17));
    assert_eq!(plan_binding(DataTypeInfo::Nclob, 1, 1), ColumnBinding::Lob(YacExtType::Clob));
    assert_eq!(plan_binding(DataTypeInfo::Other(3), 1, 1), ColumnBinding::Unsupported);
    let (bindings, rebindable) = bind_columns(&schema(), 4, 2);
    assert_eq!(bindings.len(), 5);
    assert!(rebindable);
    assert_eq!(bindings[3], ColumnBinding::Unsupported);
    let (_, rebindable) = bind_columns(&schema()[..2].iter().map(|c| ColumnInfo::new(c.name().into(), c.data_type_info(), c.nullable())).collect(), 4, 2);
    assert!(!rebindable);
}

#[test]
fn column_index_resolves_positions_and_first_names() {
    let s = schema();
    assert_eq!(1usize.index(&s).unwrap(), 1);
    assert!(matches!(
        9usize.index(&s),
        Err(Error::ColumnIndexOutOfBounds { index: 9, column_count: 5 })
    ));
    assert_eq!("NAME".index(&s).unwrap(), 1);
    assert!(matches!("name".index(&s), Err(Error::ColumnNotFound { name }) if name == "name"));
}

fn result_set() -> ResultSet<u32> {
    let s = schema();
    let (bindings, _) = bind_columns(&s, 4, 2);
    let lobs = vec![None, None, Some(100u32), None, None];
    ResultSet::new(s, bindings, lobs)
}

#[test]
fn unsupported_columns_are_refused_when_read() {
    let rs = result_set();
    assert_eq!(rs.column(&0usize).unwrap(), 0);
    let err = rs.column(&"TZ").unwrap_err();
    assert!(matches!(
        err,
        Error::UnsupportedColumnType { index: 3, name, data_type: DataType::TimestampTz } if name == "TZ"
    ));
}

#[test]
fn reads_check_null_before_type() {
    assert!(matches!(check_read(2, DataTypeInfo::Integer, NULL_DATA, Target::Str, true), Ok(false)));
    assert!(matches!(
        check_read(2, DataTypeInfo::Integer, NULL_DATA, Target::Str, false),
        Err(Error::NullValue { index: 2 })
    ));
    assert!(matches!(
        check_read(0, DataTypeInfo::VarChar { size: 1, char_size: 1 }, 4, Target::I32, false),
        Err(Error::ColumnTypeMismatch { index: 0, expected: "i32", actual: DataType::VarChar })
    ));
    assert!(matches!(check_read(0, DataTypeInfo::Integer, 4, Target::I32, false), Ok(true)));
    assert!(matches!(check_read(0, DataTypeInfo::Nclob, 0, Target::Clob, false), Ok(true)));
    assert!(matches!(
        check_read(0, DataTypeInfo::Blob, 0, Target::Clob, false),
        Err(Error::ColumnTypeMismatch { expected: "Clob", actual: DataType::Blob, .. })
    ));
    assert_eq!(Target::ByteVec.name(), "Vec<u8>");
    assert_eq!(Target::Bytes.name(), "&[u8]");
}

#[test]
fn fetch_rebinds_transferred_lobs_before_fetching() {
    let mut rs = result_set();
    assert_eq!(rs.fetch_step(), FetchStep::Fetch);
    assert!(matches!(rs.fetched(Ok(1)), Ok(true)));
    let lob = rs.take_lob(2).unwrap();
    assert_eq!(lob.into_locator(), Some(100));
    assert!(matches!(rs.take_lob(2), Err(Error::ColumnValueTransferred { index: 2 })));
    assert_eq!(rs.fetch_step(), FetchStep::Rebind { index: 2, ext_type: YacExtType::Blob });
    assert!(rs.rebound(Err(Error::Internal("alloc".into()))).is_err());
    assert_eq!(rs.fetch_step(), FetchStep::Rebind { index: 2, ext_type: YacExtType::Blob });
    assert!(rs.rebound(Ok(101)).is_ok());
    assert_eq!(rs.fetch_step(), FetchStep::Fetch);
    assert!(matches!(rs.fetched(Ok(0)), Ok(false)));
    assert_eq!(rs.fetch_step(), FetchStep::AtEnd);
}

#[test]
fn fetch_rejects_multi_row_replies() {
    let mut rs = result_set();
    let err = rs.fetched(Ok(2)).unwrap_err();
    assert!(matches!(err, Error::Internal(m) if m == "client returned 2 rows for rowset size 1"));
}

#[test]
fn fetched_values_are_decoded() {
    assert_eq!(value_len(3, 9), 3);
    assert_eq!(decode_text("héllo".as_bytes().to_vec()).unwrap(), "héllo");
    assert!(matches!(
        decode_text(vec![0xc3]),
        Err(Error::InvalidEncoding { context: "column text" })
    ));
    assert_eq!(clob_type(DataTypeInfo::Nclob), YacTempLobType::NClob);
    assert_eq!(clob_type(DataTypeInfo::Clob), YacTempLobType::Clob);
}

#[test]
fn row_get_resolves_then_checks() {
    let rs = result_set();
    let indicators = vec![4, NULL_DATA, 0, 0, 1];
    assert_eq!(rs.get(&0usize, &indicators, Target::I32, false).unwrap(), Some(0));
    assert_eq!(rs.get(&"NAME", &indicators, Target::String, true).unwrap(), None);
    assert!(matches!(
        rs.get(&"NAME", &indicators, Target::String, false),
        Err(Error::NullValue { index: 1 })
    ));
    assert!(matches!(
        rs.get(&7usize, &indicators, Target::I32, false),
        Err(Error::ColumnIndexOutOfBounds { index: 7, column_count: 5 })
    ));
    assert!(matches!(
        rs.get(&3usize, &indicators, Target::Timestamp, true),
        Err(Error::UnsupportedColumnType { index: 3, .. })
    ));
    assert!(matches!(
        rs.get(&0usize, &indicators, Target::I64, false),
        Err(Error::ColumnTypeMismatch { index: 0, expected: "i64", actual: DataType::Integer })
    ));
}

use yashandb::{ColumnInfo, DataType, DataTypeInfo};

#[test]
fn data_type_info_maps_to_data_type() {
    let cases = [
        (DataTypeInfo::Bool, DataType::Bool),
        (DataTypeInfo::TinyInt, DataType::TinyInt),
        (DataTypeInfo::SmallInt, DataType::SmallInt),
        (DataTypeInfo::Integer, DataType::Integer),
        (DataTypeInfo::BigInt, DataType::BigInt),
        (DataTypeInfo::Float, DataType::Float),
        (DataTypeInfo::Double, DataType::Double),
        (
            DataTypeInfo::Number {
                precision: 10,
                scale: 2,
            },
            DataType::Number,
        ),
        (DataTypeInfo::Date, DataType::Date),
        (DataTypeInfo::Time, DataType::Time),
        (DataTypeInfo::Timestamp, DataType::Timestamp),
        (DataTypeInfo::TimestampLtz, DataType::TimestampLtz),
        (DataTypeInfo::TimestampTz, DataType::TimestampTz),
        (DataTypeInfo::IntervalYM, DataType::IntervalYM),
        (DataTypeInfo::IntervalDS, DataType::IntervalDS),
        (DataTypeInfo::Char { size: 8, char_size: 8 }, DataType::Char),
        (DataTypeInfo::NChar { size: 8, char_size: 8 }, DataType::NChar),
        (DataTypeInfo::VarChar { size: 8, char_size: 8 }, DataType::VarChar),
        (DataTypeInfo::NVarChar { size: 8, char_size: 8 }, DataType::NVarChar),
        (DataTypeInfo::Binary { size: 8 }, DataType::Binary),
        (DataTypeInfo::Other(255), DataType::Other(255)),
    ];

    for (info, expected) in cases {
        assert_eq!(info.data_type(), expected);
    }
}

#[test]
fn lob_type_infos_map_to_lob_types() {
    assert_eq!(DataTypeInfo::Blob.data_type(), DataType::Blob);
    assert_eq!(DataTypeInfo::Clob.data_type(), DataType::Clob);
    assert_eq!(DataTypeInfo::Nclob.data_type(), DataType::Nclob);
}

#[test]
fn column_info_keeps_reported_values() {
    let info = ColumnInfo::new("ID".to_string(), DataTypeInfo::Integer, false);
    assert_eq!(info.name(), "ID");
    assert_eq!(info.data_type_info(), DataTypeInfo::Integer);
    assert!(!info.nullable());
}

use yashandb::ffi::{YacExtType, YacTempLobType, NULL_DATA};
use yashandb::lob::{LobIo, LobRequest};
use yashandb::param::{
    complete_output, decode_output_text, extra_capacity, indicator, json_input, output_kind,
    Direction, JsonInput, OutputKind, OutputUpdate, ValueType,
};
use yashandb::{BindParam, Error};

#[test]
fn input_values_carry_their_length_or_null() {
    let p = BindParam::input(ValueType::I64, false, Some(8));
    assert_eq!(p.indicator(), 8);
    assert_eq!(p.ext_type(), YacExtType::BigInt);
    assert_eq!(p.direction(), Direction::Input);
    let p = BindParam::input(ValueType::Text, true, None);
    assert_eq!(p.indicator(), NULL_DATA);
    assert_eq!(p.ext_type(), YacExtType::Varchar2);
    let p = BindParam::input(ValueType::Blob, true, Some(0));
    assert_eq!(p.indicator(), 0);
    assert_eq!(indicator(5), 5);
}

#[test]
fn value_types_bind_as_their_external_types() {
    let cases = [
        (ValueType::Bool, YacExtType::Bool),
        (ValueType::I8, YacExtType::TinyInt),
        (ValueType::I16, YacExtType::SmallInt),
        (ValueType::I32, YacExtType::Integer),
        (ValueType::F32, YacExtType::Float),
        (ValueType::F64, YacExtType::Double),
        (ValueType::Number, YacExtType::Number),
        (ValueType::Date, YacExtType::Date),
        (ValueType::Time, YacExtType::ShortTime),
        (ValueType::Timestamp, YacExtType::Timestamp),
        (ValueType::IntervalYM, YacExtType::YmInterval),
        (ValueType::IntervalDS, YacExtType::DsInterval),
        (ValueType::Binary, YacExtType::Binary2),
        (ValueType::Clob, YacExtType::Clob),
    ];
    for (t, ext) in cases {
        assert_eq!(t.ext_type(), ext);
    }
}

#[test]
fn outputs_start_without_a_value_and_in_outs_send_theirs() {
    let p = BindParam::output(ValueType::I32, true);
    assert_eq!(p.indicator(), 0);
    let p = BindParam::in_out(ValueType::Text, false, Some(5));
    assert_eq!(p.indicator(), 5);
    assert_eq!(p.direction(), Direction::InOut);
    let p = BindParam::in_out(ValueType::I32, true, None);
    assert_eq!(p.indicator(), NULL_DATA);
}

#[test]
fn nullable_outputs_receive_null() {
    let p = BindParam::output(ValueType::I64, true);
    assert_eq!(p.complete(NULL_DATA, 0).unwrap(), OutputUpdate::SetNull);
    assert_eq!(p.complete(8, 0).unwrap(), OutputUpdate::SetValue);
}

#[test]
fn required_outputs_refuse_null() {
    let p = BindParam::output(ValueType::I64, false);
    let err = p.complete(NULL_DATA, 0).unwrap_err();
    assert!(matches!(err, Error::InvalidArgument(m) if m == "SQL NULL cannot be written to a non-optional output parameter"));
    assert_eq!(p.complete(8, 0).unwrap(), OutputUpdate::Keep);
    for value_type in [ValueType::Number, ValueType::Timestamp, ValueType::Text, ValueType::Binary] {
        let p = BindParam::output(value_type, false);
        let err = p.complete(NULL_DATA, 16).unwrap_err();
        assert!(matches!(err, Error::InvalidArgument(m) if m == "SQL NULL cannot be written to a non-optional output parameter"));
    }
    let p = BindParam::output(ValueType::Number, false);
    assert_eq!(p.complete(22, 0).unwrap(), OutputUpdate::SetValue);
    let p = BindParam::output(ValueType::Timestamp, true);
    assert_eq!(p.complete(NULL_DATA, 0).unwrap(), OutputUpdate::SetNull);
}

#[test]
fn text_output_is_bounded_by_capacity() {
    assert_eq!(complete_output(OutputKind::Text, 5, 8).unwrap(), OutputUpdate::SetLength(5));
    let err = complete_output(OutputKind::Text, 9, 8).unwrap_err();
    assert!(matches!(err, Error::InvalidArgument(m) if m == "text output exceeds its capacity"));
    let err = complete_output(OutputKind::Binary, 9, 8).unwrap_err();
    assert!(matches!(err, Error::InvalidArgument(m) if m == "binary output exceeds its capacity"));
    let err = complete_output(OutputKind::Binary, NULL_DATA, 8).unwrap_err();
    assert!(matches!(err, Error::InvalidArgument(m) if m == "SQL NULL cannot be written to a non-optional output parameter"));
    assert_eq!(complete_output(OutputKind::TextNullable, NULL_DATA, 8).unwrap(), OutputUpdate::SetNull);
    assert_eq!(complete_output(OutputKind::BinaryNullable, 8, 8).unwrap(), OutputUpdate::SetLength(8));
}

#[test]
fn invalid_indicator_is_an_internal_error() {
    let err = complete_output(OutputKind::FixedNullable, -2, 0).unwrap_err();
    assert!(matches!(err, Error::Internal(m) if m == "client returned an invalid output parameter indicator"));
}

#[test]
fn inputs_are_left_unchanged() {
    let p = BindParam::input(ValueType::I32, false, Some(4));
    assert_eq!(p.complete(-7, 0).unwrap(), OutputUpdate::Keep);
}

#[test]
fn output_kinds_follow_the_target() {
    assert_eq!(output_kind(ValueType::Text, true), OutputKind::TextNullable);
    assert_eq!(output_kind(ValueType::Binary, false), OutputKind::Binary);
    assert_eq!(output_kind(ValueType::Timestamp, false), OutputKind::Decoded);
    assert_eq!(output_kind(ValueType::Date, false), OutputKind::Fixed);
    assert_eq!(output_kind(ValueType::Date, true), OutputKind::FixedNullable);
}

#[test]
fn nullable_buffers_reuse_larger_allocations() {
    assert_eq!(extra_capacity(4, 16), 12);
    assert_eq!(extra_capacity(32, 16), 0);
}

#[test]
fn nullable_text_output_is_decoded() {
    assert_eq!(decode_output_text(b"hello".to_vec()).unwrap(), "hello");
    assert!(matches!(
        decode_output_text(vec![0xff]),
        Err(Error::InvalidEncoding { context: "text output" })
    ));
}

#[test]
fn nullable_text_target_is_unchanged_before_native_binding() {
    let target = Some(String::from("keep"));
    let param = BindParam::output(ValueType::Text, true);
    let reserve = extra_capacity(target.as_ref().map_or(0, |s| s.len()), 16);
    assert_eq!(reserve, 12);
    assert_eq!(param.indicator(), 0);
    assert_eq!(target.as_deref(), Some("keep"));
}

#[test]
fn nullable_binary_target_is_unchanged_before_native_binding() {
    let target = Some(vec![1u8, 2, 3]);
    let param = BindParam::output(ValueType::Binary, true);
    let reserve = extra_capacity(target.as_ref().map_or(0, |v| v.len()), 16);
    assert_eq!(reserve, 13);
    assert_eq!(param.ext_type(), YacExtType::Binary2);
    assert_eq!(target, Some(vec![1, 2, 3]));
}

#[test]
fn json_input_goes_through_a_temporary_blob() {
    let bytes = [1u8, 2, 3, 4, 5];
    let (param, plan) = json_input(Some(&bytes), false);
    assert_eq!(param.ext_type(), YacExtType::Json);
    assert_eq!(param.ext_type().code(), 35);
    assert_eq!(param.indicator(), 5);
    assert_eq!(param.direction(), Direction::Input);
    assert_eq!(
        plan,
        JsonInput::TemporaryBlob {
            create: LobRequest { lob_type: YacTempLobType::Blob, create_temporary: true },
            append: Some(LobIo { offset: 0, byte_size: 5, char_size: 0 }),
        }
    );
    let (empty, empty_plan) = json_input(Some(&[]), false);
    assert_eq!(empty.indicator(), 0);
    assert!(matches!(empty_plan, JsonInput::TemporaryBlob { append: None, .. }));
}

#[test]
fn null_json_input_binds_no_value() {
    let (param, plan) = json_input(None, true);
    assert_eq!(param.ext_type(), YacExtType::Json);
    assert_eq!(param.indicator(), NULL_DATA);
    assert_eq!(plan, JsonInput::Null);
}

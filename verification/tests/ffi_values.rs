use yashandb::ffi::{
    call_succeeded, diagnostic_error, first_missing_symbol, required_symbols, symbol_error, YacNumber, YacTextPos,
    MESSAGE_BUF_LEN, REQUIRED_SYMBOL_COUNT,
};
use yashandb::Error;

#[test]
fn success_statuses() {
    assert!(call_succeeded(0));
    assert!(call_succeeded(1));
    assert!(!call_succeeded(-1));
    assert!(!call_succeeded(7));
}

#[test]
fn diagnostic_message_stops_at_nul_and_clamps_length() {
    let mut buffer = vec![0u8; MESSAGE_BUF_LEN];
    buffer[..5].copy_from_slice(b"oops\0");
    let e = diagnostic_error(0, 42, &buffer, 5, YacTextPos { line: 3, column: 7 });
    assert!(matches!(e, Error::Database { code: 42, message, line: 3, column: 7 } if message == "oops"));
    let e = diagnostic_error(1, 1, b"abcdef", 100, YacTextPos { line: 0, column: 0 });
    assert!(matches!(e, Error::Database { message, .. } if message == "abcdef"));
    let e = diagnostic_error(0, 1, b"abcdef", -4, YacTextPos { line: 0, column: 0 });
    assert!(matches!(e, Error::Database { message, .. } if message.is_empty()));
    let e = diagnostic_error(0, 1, &[b'a', 0xff], 2, YacTextPos { line: 0, column: 0 });
    assert!(matches!(e, Error::Database { message, .. } if message == "a\u{fffd}"));
}

#[test]
fn missing_diagnostics_are_reported() {
    let e = diagnostic_error(-1, 42, b"x", 1, YacTextPos { line: 3, column: 7 });
    assert!(matches!(
        e,
        Error::Database { code: -1, message, line: 0, column: 0 } if message == "failed to retrieve diagnostic info"
    ));
}

#[test]
fn required_symbols_are_listed() {
    let names = required_symbols();
    assert_eq!(names.len(), 33);
    assert_eq!(names[0], "yacAllocHandle");
    assert_eq!(names[32], "yacLobRead2");
    let e = symbol_error("yacFetch", "undefined symbol");
    assert!(matches!(e, Error::ClientLibrary(m) if m == "failed to resolve symbol yacFetch: undefined symbol"));
}

#[test]
fn number_parts_negate_the_scale() {
    let n = YacNumber::from_parts(12345, 2, true);
    assert_eq!(n.value(), 12345);
    assert_eq!(n.exp(), -2);
    assert_eq!(n.sign(), 1);
    let z = YacNumber::zero();
    assert_eq!((z.value(), z.sign(), z.exp()), (0, 0, 0));
}

#[test]
fn numbers_round_trip_through_decimals() {
    let n = YacNumber::new(12345, 1, -2);
    let d = n.into_number().unwrap();
    assert_eq!(d.to_string(), "-123.45");
    let back = YacNumber::from_number(d).unwrap();
    assert_eq!(back, n);
}

#[test]
fn out_of_range_numbers_are_refused() {
    let n = YacNumber::new(u128::MAX, 0, 0);
    let err = n.into_number().unwrap_err();
    assert!(matches!(err, Error::Internal(m) if m == "client returned a NUMBER outside the decimal range"));
    let n = YacNumber::new(1, 0, 127);
    assert!(n.into_number().is_err());
}

#[test]
fn zero_numbers_take_the_plain_zero_form() {
    let d = YacNumber::new(0, 1, -5).into_number().unwrap();
    let back = YacNumber::from_number(d).unwrap();
    assert_eq!((back.value(), back.sign(), back.exp()), (0, 0, 0));
}

#[test]
fn decimal_parts_become_client_fields() {
    let d = decimal_rs::Decimal::from_parts(7, 3, false).unwrap();
    let n = YacNumber::from_number(d).unwrap();
    assert_eq!((n.value(), n.sign(), n.exp()), (7, 0, -3));
    let neg = decimal_rs::Decimal::from_parts(42, -2, true).unwrap();
    let m = YacNumber::from_number(neg).unwrap();
    assert_eq!((m.value(), m.sign(), m.exp()), (42, 1, 2));
}

#[test]
fn the_first_missing_symbol_is_reported() {
    let mut found = vec![true; REQUIRED_SYMBOL_COUNT];
    assert_eq!(first_missing_symbol(&found), None);
    found[20] = false;
    found[7] = false;
    assert_eq!(first_missing_symbol(&found), Some(7));
}

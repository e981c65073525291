use wikifunctions::ffi::Bytes;
use wikifunctions::ffi::OwnedBytes;
use wikifunctions::runtime::Value;
use wikifunctions::runtime::bytes_to_values;
use wikifunctions::runtime::decode_outcome;
use wikifunctions::runtime::encode_outcome;
use wikifunctions::runtime::encode_values;
use wikifunctions::runtime::take_string_args;
use wikifunctions::runtime::decode_call_input;
use wikifunctions::runtime::ExpectedFound;

#[test]
fn bytes_view_reports_same_length_and_bytes() {
    let buf: Vec<u8> = vec![7, 0, 255, 42, 1];
    let view = Bytes::from_slice(&buf);
    assert_eq!(view.len(), buf.len());
    assert_eq!(view.as_slice(), buf.as_slice());
}

#[test]
fn owned_bytes_single_transfer_round_trip() {
    let buf: Vec<u8> = vec![1, 2, 3, 4];
    let owned = OwnedBytes::from_vec(buf.clone());
    assert_eq!(owned.as_bytes().as_slice(), buf.as_slice());
    let back = owned.into_vec();
    assert_eq!(back, buf);
}

#[test]
fn value_sequence_round_trips_through_encoding() {
    let values = vec![
        Value::String("5".to_string()),
        Value::String("8".to_string()),
        Value::String(String::new()),
    ];
    let bytes = encode_values(&values).unwrap();
    let view = Bytes::from_slice(&bytes);
    let back = bytes_to_values(view).unwrap();
    assert_eq!(back, values);
}

#[test]
fn outcome_round_trips_through_encoding() {
    let ok: Result<Value, String> = Ok(Value::String("58".to_string()));
    let bytes = encode_outcome(&ok).unwrap();
    let back = decode_outcome(&bytes).unwrap();
    assert_eq!(back, ok);
}

#[test]
fn fault_outcome_survives_the_return_crossing() {
    let fault: Result<Value, String> = Err("function panicked".to_string());
    let bytes = encode_outcome(&fault).unwrap();
    let back = decode_outcome(&bytes).unwrap();
    assert_eq!(back, Err("function panicked".to_string()));
}

#[test]
fn garbage_bytes_fail_to_decode() {
    let garbage: Vec<u8> = vec![255, 255, 255, 255, 255, 255, 255, 255, 255];
    assert!(decode_outcome(&garbage).is_err());
    assert!(bytes_to_values(Bytes::from_slice(&garbage)).is_err());
}

#[test]
fn take_args_pulls_in_order() {
    let values = vec![Value::String("a".to_string()), Value::String("b".to_string())];
    let args = take_string_args(&values, 2).unwrap();
    assert_eq!(args, vec!["a".to_string(), "b".to_string()]);
    let none = take_string_args(&values, 0).unwrap();
    assert!(none.is_empty());
}

#[test]
fn take_args_runs_out_of_values() {
    let values = vec![Value::String("a".to_string())];
    let e = take_string_args(&values, 2).unwrap_err();
    assert_eq!(e, "out of values");
}

#[test]
fn value_converts_to_host_string() {
    let v = Value::String("abc".to_string());
    assert_eq!(v.try_into_string().unwrap(), "abc");
}

#[test]
fn call_input_decodes_and_pulls_arguments() {
    let values = vec![Value::String("5".to_string()), Value::String("8".to_string())];
    let bytes = encode_values(&values).unwrap();
    let args = decode_call_input(Bytes::from_slice(&bytes), 2).unwrap();
    assert_eq!(args, vec!["5".to_string(), "8".to_string()]);
    let e = decode_call_input(Bytes::from_slice(&bytes), 3).unwrap_err();
    assert_eq!(e, "out of values");
}

#[test]
fn mismatch_message_names_both_kinds() {
    let m = ExpectedFound { expected: "String", found: "Unit" };
    assert_eq!(m.message(), "expected String, found Unit");
}

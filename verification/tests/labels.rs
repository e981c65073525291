use wikifunctions::label::Z6;
use wikifunctions::label::Z881;
use wikifunctions::label::ZLabel;
use wikifunctions::label::decode_label;
use wikifunctions::label::encode_label;

#[test]
fn label_decodes_from_its_identifier() {
    let r: Result<Z6, _> = decode_label("Z6");
    assert!(r.is_ok());
    let r: Result<Z881, _> = decode_label("Z881");
    assert!(r.is_ok());
}

#[test]
fn label_rejects_other_strings_naming_both() {
    let r: Result<Z6, _> = decode_label("Z9");
    let e = r.unwrap_err();
    assert_eq!(e.expected, "Z6");
    assert_eq!(e.found, "Z9");

    let r: Result<Z881, _> = decode_label("");
    let e = r.unwrap_err();
    assert_eq!(e.expected, "Z881");
    assert_eq!(e.found, "");
}

#[test]
fn label_encodes_its_identifier() {
    assert_eq!(encode_label(&Z6), "Z6");
    assert_eq!(encode_label(&Z881), "Z881");
    assert_eq!(Z6::label(), "Z6");
}

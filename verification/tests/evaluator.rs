use wikifunctions::Wire;
use wikifunctions::evaluator::ArgumentError;
use wikifunctions::evaluator::decode_arguments;
use wikifunctions::runtime::Value;
use wikifunctions::runtime::take_string_args;
use wikifunctions::template::render_unit;
use wikifunctions::template::shim_args;
use wikifunctions::ty::Type;

fn obj(entries: Vec<(&str, Wire)>) -> Wire {
    Wire::Obj(entries.into_iter().map(|(k, v)| (k.to_string(), v)).collect())
}

fn leaf(s: &str) -> Wire {
    Wire::Str(s.to_string())
}

fn string_arg(text: &str) -> Wire {
    obj(vec![("Z1K1", leaf("Z6")), ("Z6K1", leaf(text))])
}

#[test]
fn string_concat_arguments_decode_in_declared_order() {
    let args = vec![
        ("a".to_string(), string_arg("5")),
        ("b".to_string(), string_arg("8")),
    ];
    let values = decode_arguments(&args).unwrap();
    assert_eq!(
        values,
        vec![Value::String("5".to_string()), Value::String("8".to_string())]
    );
    let pulled = take_string_args(&values, 2).unwrap();
    let joined = format!("{}{}", pulled[0], pulled[1]);
    assert_eq!(joined, "58");
}

#[test]
fn unrecognized_type_tag_fails_before_any_work() {
    let args = vec![
        ("a".to_string(), string_arg("5")),
        ("b".to_string(), obj(vec![("Z1K1", leaf("Z999")), ("Z6K1", leaf("8"))])),
    ];
    let e = decode_arguments(&args).unwrap_err();
    assert_eq!(e, ArgumentError::UnknownTypeTag);
}

#[test]
fn argument_without_tag_is_rejected() {
    let args = vec![("a".to_string(), obj(vec![("Z6K1", leaf("5"))]))];
    let e = decode_arguments(&args).unwrap_err();
    assert_eq!(e, ArgumentError::MissingTypeTag);
}

#[test]
fn recognized_tag_with_unwired_decoder_is_rejected() {
    let args = vec![(
        "a".to_string(),
        obj(vec![("Z1K1", obj(vec![("Z1K1", leaf("Z9")), ("Z9K1", leaf("Z21"))]))]),
    )];
    let e = decode_arguments(&args).unwrap_err();
    assert_eq!(e, ArgumentError::UndecodableValue);
}

#[test]
fn type_dispatch_reads_descriptors() {
    assert_eq!(Type::from_json(&leaf("Z6")), Some(Type::String));
    assert_eq!(Type::from_json(&leaf("Z7")), None);
    let unit = obj(vec![("Z1K1", leaf("Z9")), ("Z9K1", leaf("Z21"))]);
    assert_eq!(Type::from_json(&unit), Some(Type::Unit));
    let call_tag = || obj(vec![("Z1K1", leaf("Z9")), ("Z9K1", leaf("Z7"))]);
    let list = obj(vec![
        ("Z1K1", call_tag()),
        ("Z7K1", obj(vec![("Z1K1", leaf("Z9")), ("Z9K1", leaf("Z881"))])),
    ]);
    assert_eq!(Type::from_json(&list), Some(Type::List));
    let pair = obj(vec![
        ("Z1K1", call_tag()),
        ("Z7K1", obj(vec![("Z1K1", leaf("Z9")), ("Z9K1", leaf("Z882"))])),
    ]);
    assert_eq!(Type::from_json(&pair), Some(Type::Pair));
}

#[test]
fn string_type_decodes_its_text() {
    let v = Type::String.to_value(&string_arg("hi")).unwrap();
    assert_eq!(v, Value::String("hi".to_string()));
    assert_eq!(Type::Unit.to_value(&string_arg("hi")), None);
}

#[test]
fn shim_args_repeats_one_call_per_argument() {
    assert_eq!(shim_args(0), "");
    assert_eq!(shim_args(1), "get_next(&mut values)?,");
    assert_eq!(
        shim_args(3),
        "get_next(&mut values)?,get_next(&mut values)?,get_next(&mut values)?,"
    );
}

#[test]
fn render_unit_splices_source_name_and_args() {
    let r = render_unit("H|", "fn f() {}", "|M|", "f", "(", 2, ");|T");
    assert_eq!(r, "H|fn f() {}|M|f(get_next(&mut values)?,get_next(&mut values)?,);|T");
    let zero = render_unit("A", "src", "B", "g", "(", 0, ")C");
    assert_eq!(zero, "AsrcBg()C");
}

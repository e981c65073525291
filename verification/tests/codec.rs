use wikifunctions::Wire;
use wikifunctions::model::FunctionCall;
use wikifunctions::model::Implementation;
use wikifunctions::model::MonolingualText;
use wikifunctions::model::MultilingualText;
use wikifunctions::model::NaturalLanguage;
use wikifunctions::model::Pair;
use wikifunctions::model::Reference;
use wikifunctions::model::ZString;
use wikifunctions::model::list::TypedList;
use wikifunctions::model::object::Object;
use wikifunctions::model::object::WireError;
use wikifunctions::model::object::ZObject;
use wikifunctions::wire::wire_eq;

fn zstr(s: &str) -> ZString {
    ZString::from_str_slice(s)
}

fn obj(entries: Vec<(&str, Wire)>) -> Wire {
    Wire::Obj(entries.into_iter().map(|(k, v)| (k.to_string(), v)).collect())
}

fn leaf(s: &str) -> Wire {
    Wire::Str(s.to_string())
}

fn string_tag() -> Wire {
    leaf("Z6")
}

fn string_env(s: &str) -> Wire {
    obj(vec![("Z1K1", string_tag()), ("Z6K1", leaf(s))])
}

fn list_of_string_tag() -> Wire {
    obj(vec![
        ("Z1K1", obj(vec![("Z1K1", leaf("Z9")), ("Z9K1", leaf("Z7"))])),
        ("Z7K1", obj(vec![("Z1K1", leaf("Z9")), ("Z9K1", leaf("Z881"))])),
        ("Z881K1", obj(vec![("Z1K1", leaf("Z9")), ("Z9K1", leaf("Z6"))])),
    ])
}

#[test]
fn serialize_list() {
    let list = TypedList::<ZString> { inner: vec![zstr("1"), zstr("2")] };
    let o = Object::new(list);
    let w = o.to_wire();
    let expected = obj(vec![
        ("Z1K1", list_of_string_tag()),
        ("K1", string_env("1")),
        (
            "K2",
            obj(vec![
                ("Z1K1", list_of_string_tag()),
                ("K1", string_env("2")),
                ("K2", obj(vec![("Z1K1", list_of_string_tag())])),
            ]),
        ),
    ]);
    assert_eq!(w, expected);
    println!("{:?}", w);
}

#[test]
fn deserialize_list() {
    let w = obj(vec![
        ("Z1K1", list_of_string_tag()),
        ("K1", string_env("first")),
        (
            "K2",
            obj(vec![
                ("Z1K1", list_of_string_tag()),
                ("K1", string_env("second")),
                ("K2", obj(vec![("Z1K1", list_of_string_tag())])),
            ]),
        ),
    ]);
    let o: Object<TypedList<ZString>> = Object::from_wire(&w).unwrap();
    let texts: Vec<&str> = o.value.inner.iter().map(|z| z.value.as_str()).collect();
    assert_eq!(texts, vec!["first", "second"]);
}

#[test]
fn deserialize() {
    let w = obj(vec![
        ("Z1K1", obj(vec![("Z1K1", leaf("Z9")), ("Z9K1", leaf("Z22"))])),
        ("Z22K1", string_env("13")),
        ("Z22K2", obj(vec![("Z1K1", leaf("Z9")), ("Z9K1", leaf("Z24"))])),
    ]);
    let o: Object<Pair<ZString, Reference>> = Object::from_wire(&w).unwrap();
    assert_eq!(o.value.left.value, "13");
    assert_eq!(o.value.right.id, "Z24");
}

#[test]
fn list_round_trip_lengths() {
    for n in [0usize, 1, 50] {
        let items: Vec<ZString> = (0..n).map(|i| zstr(&i.to_string())).collect();
        let expected: Vec<String> = items.iter().map(|z| z.value.clone()).collect();
        let list = TypedList::<ZString> { inner: items };
        let w = wikifunctions::model::object::serialize(&list);
        let back: TypedList<ZString> = wikifunctions::model::object::deserialize(&w).unwrap();
        let texts: Vec<String> = back.inner.into_iter().map(|z| z.value).collect();
        assert_eq!(texts, expected);
    }
}

#[test]
fn list_bare_empty_record() {
    let empty: &[(String, Wire)] = &[];
    let list = TypedList::<ZString>::from_fields(empty).unwrap();
    assert!(list.inner.is_empty());
}

#[test]
fn envelope_always_carries_static_tag() {
    for text in ["", "abc", "Z9"] {
        let w = wikifunctions::model::object::serialize(&zstr(text));
        match &w {
            Wire::Obj(entries) => {
                assert_eq!(entries[0].0, "Z1K1");
                assert_eq!(entries[0].1, leaf("Z6"));
            },
            _ => panic!("envelope must be a record"),
        }
    }
}

#[test]
fn envelope_wrong_tag_rejected() {
    let w = obj(vec![("Z1K1", leaf("Z9")), ("Z6K1", leaf("x"))]);
    let r: Result<ZString, _> = wikifunctions::model::object::deserialize(&w);
    assert!(r.is_err());
}

#[test]
fn list_missing_remainder_rejected() {
    let w = obj(vec![("Z1K1", list_of_string_tag()), ("K1", string_env("x"))]);
    let r: Result<TypedList<ZString>, _> = wikifunctions::model::object::deserialize(&w);
    assert!(r.is_err());
}

#[test]
fn list_wrong_keys_rejected() {
    let w = obj(vec![
        ("Z1K1", list_of_string_tag()),
        ("K9", string_env("x")),
        ("K2", obj(vec![("Z1K1", list_of_string_tag())])),
    ]);
    let r: Result<TypedList<ZString>, _> = wikifunctions::model::object::deserialize(&w);
    assert!(r.is_err());
}

#[test]
fn multilingual_text_round_trips() {
    let english = NaturalLanguage {
        code: zstr("en"),
        code_aliases: TypedList { inner: vec![zstr("eng"), zstr("english")] },
    };
    let hello = MonolingualText { language: english, text: zstr("hello") };
    let german = NaturalLanguage { code: zstr("de"), code_aliases: TypedList { inner: vec![] } };
    let hallo = MonolingualText { language: german, text: zstr("hallo") };
    let multi = MultilingualText { texts: TypedList { inner: vec![hello, hallo] } };
    let w = wikifunctions::model::object::serialize(&multi);
    let back: MultilingualText = wikifunctions::model::object::deserialize(&w).unwrap();
    assert_eq!(back, multi);
}

#[test]
fn function_call_flattens_its_arguments() {
    let call = FunctionCall {
        function: Reference { id: "Z802".to_string() },
        args: Pair { left: zstr("x"), right: zstr("y") },
    };
    let w = wikifunctions::model::object::serialize(&call);
    match &w {
        Wire::Obj(entries) => {
            let keys: Vec<&str> = entries.iter().map(|(k, _)| k.as_str()).collect();
            assert_eq!(keys, vec!["Z1K1", "Z7K1", "Z22K1", "Z22K2"]);
        },
        _ => panic!("a call must serialize as a record"),
    }
    let back: FunctionCall<Reference, Pair<ZString, ZString>> =
        wikifunctions::model::object::deserialize(&w).unwrap();
    assert_eq!(back, call);
}

#[test]
fn implementation_round_trips() {
    let imp = Implementation {
        function: Reference { id: "Z801".to_string() },
        code: wikifunctions::model::Code {
            language: wikifunctions::model::ProgrammingLanguage { code: zstr("rust") },
            code: zstr("fn f() {}"),
        },
    };
    let w = wikifunctions::model::object::serialize(&imp);
    let back: Implementation<Reference> = wikifunctions::model::object::deserialize(&w).unwrap();
    assert_eq!(back, imp);
}

#[test]
fn wire_lookup_finds_first_match() {
    let w = obj(vec![("a", leaf("1")), ("b", leaf("2")), ("a", leaf("3"))]);
    assert_eq!(w.get("a"), Some(&leaf("1")));
    assert_eq!(w.get("b"), Some(&leaf("2")));
    assert_eq!(w.get("c"), None);
    assert_eq!(leaf("x").get("a"), None);
}

#[test]
fn wire_equality_is_structural() {
    let a = obj(vec![("k", leaf("v")), ("m", obj(vec![("n", leaf("w"))]))]);
    let b = obj(vec![("k", leaf("v")), ("m", obj(vec![("n", leaf("w"))]))]);
    let c = obj(vec![("k", leaf("v")), ("m", obj(vec![("n", leaf("x"))]))]);
    assert!(wire_eq(&a, &b));
    assert!(!wire_eq(&a, &c));
    assert!(!wire_eq(&a, &leaf("k")));
}

#[test]
fn wrong_label_names_expected_and_found() {
    let w = obj(vec![("Z1K1", leaf("Z9")), ("Z6K1", leaf("13"))]);
    let r: Result<ZString, _> = wikifunctions::model::object::deserialize(&w);
    match r.unwrap_err() {
        WireError::LabelMismatch(m) => {
            assert_eq!(m.expected, "Z6");
            assert_eq!(m.found, "Z9");
        },
        other => panic!("expected a named label mismatch, got {other:?}"),
    }
}

#[test]
fn unit_reference_id_is_checkable() {
    let unit = Reference { id: "Z24".to_string() };
    assert!(unit.expect_id("Z24").is_ok());
    let wrong = Reference { id: "Z9".to_string() };
    let e = wrong.expect_id("Z24").unwrap_err();
    assert_eq!(e.expected, "Z24");
    assert_eq!(e.found, "Z9");
}

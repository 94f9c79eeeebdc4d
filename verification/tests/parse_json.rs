use std::rc::Rc;

use interpreter2::data_types::{
    MaybeEvaluated, WfBoolean, WfData, WfDataType, WfReference, WfString, WfTypedList,
};
use interpreter2::parsing::parse_json::{
    parse_array, parse_object, parse_str, parse_text, parse_value,
};
use interpreter2::parsing::{JsonValue, LoadError};
use interpreter2::{
    ExecutionContext, GlobalContext, KeyIndex, KeyIndexParseError, Zid, ZidParseError,
};

fn loaded_zid(z: u32) -> Zid {
    Zid::from_u32s_panic(Some(z), None)
}

fn loaded_key(z: u32, k: u32) -> KeyIndex {
    KeyIndex::from_u32s_panic(Some(z), Some(k))
}

fn text(s: &str) -> JsonValue {
    JsonValue::String(s.to_string())
}

#[test]
fn test_load_strings() {
    assert_eq!(
        parse_text(r#"{"Z1K1": "Z6", "Z6K1": "Z4"}"#).unwrap(),
        WfString::new("Z4").into_wf_data()
    );
    assert_eq!(
        parse_object(&vec![
            ("Z1K1".to_string(), text("Z6")),
            ("Z6K1".to_string(), text("Z4")),
        ])
        .unwrap(),
        WfString::new("Z4").into_wf_data()
    );
    assert_eq!(
        parse_str("Z4K1").unwrap(),
        WfString::new("Z4K1").into_wf_data()
    );
    assert_eq!(parse_str("p4").unwrap(), WfString::new("p4").into_wf_data());
    assert_eq!(parse_str("").unwrap(), WfString::new("").into_wf_data());
}

#[test]
fn test_load_reference() {
    assert_eq!(
        parse_str("Z4").unwrap(),
        WfReference::new(loaded_zid(4)).into_wf_data()
    );
}

#[test]
fn test_array() {
    assert_eq!(
        parse_text(r#"["Z6", "hello", "world"]"#).unwrap(),
        WfData::WfTypedList(WfTypedList::new(
            MaybeEvaluated::Unchecked(WfData::new_reference(loaded_zid(6))),
            vec![
                WfString::new("hello").into_wf_data(),
                WfString::new("world").into_wf_data()
            ]
        ))
    );
    assert_eq!(
        parse_array(&vec![text("Z6"), text("hello"), text("world")]).unwrap(),
        WfData::WfTypedList(WfTypedList::new(
            MaybeEvaluated::Unchecked(WfData::new_reference(loaded_zid(6))),
            vec![
                WfString::new("hello").into_wf_data(),
                WfString::new("world").into_wf_data()
            ]
        ))
    );

    parse_text(r#"[]"#).unwrap_err();
    parse_array(&vec![]).unwrap_err();
}

#[test]
fn load_raw_record_sorted_by_key() {
    let loaded = parse_text(r#"{"Z7K1": "Z844", "Z844K2": "b", "Z1K1": "Z7", "Z844K1": "a"}"#)
        .unwrap();
    assert_eq!(
        loaded.list_keys(),
        vec![
            loaded_key(1, 1),
            loaded_key(7, 1),
            loaded_key(844, 1),
            loaded_key(844, 2)
        ]
    );
    assert_eq!(
        loaded.get_key(loaded_key(7, 1)),
        Some(WfData::new_reference(loaded_zid(844)))
    );
    assert_eq!(
        loaded.get_key(loaded_key(844, 2)),
        Some(WfString::new("b").into_wf_data())
    );
    assert_eq!(loaded.get_key(loaded_key(844, 3)), None);
    assert_eq!(
        loaded,
        WfData::from_map(vec![
            (loaded_key(844, 2), WfString::new("b").into_wf_data()),
            (loaded_key(844, 1), WfString::new("a").into_wf_data()),
            (loaded_key(7, 1), WfData::new_reference(loaded_zid(844))),
            (loaded_key(1, 1), WfData::new_reference(loaded_zid(7))),
        ])
    );
    // a later entry replaces an earlier one under the same key
    let twice = parse_text(r#"{"Z1K1": "Z7", "Z01K1": "Z8"}"#).unwrap();
    assert_eq!(twice.list_keys(), vec![loaded_key(1, 1)]);
    assert_eq!(
        twice.get_key(loaded_key(1, 1)),
        Some(WfData::new_reference(loaded_zid(8)))
    );
}

#[test]
fn load_nested_documents() {
    let loaded = parse_text(r#"{"Z1K1": "Z7", "Z7K1": {"Z1K1": "Z6", "Z6K1": "Z844"}, "K1": ["Z40", "Z41"]}"#)
        .unwrap();
    assert_eq!(
        loaded.get_key(loaded_key(7, 1)),
        Some(WfString::new("Z844").into_wf_data())
    );
    assert_eq!(
        loaded.get_key(KeyIndex::from_u32s_panic(None, Some(1))),
        Some(WfData::WfTypedList(WfTypedList::new(
            MaybeEvaluated::Unchecked(WfData::new_reference(loaded_zid(40))),
            vec![WfData::new_reference(loaded_zid(41))]
        )))
    );
}

#[test]
fn load_errors() {
    assert!(matches!(parse_text("{"), Err(LoadError::InvalidJson)));
    assert!(matches!(parse_text("nothing"), Err(LoadError::InvalidJson)));
    assert!(matches!(
        parse_text("12"),
        Err(LoadError::InvalidDataType(JsonValue::Number(_)))
    ));
    assert!(matches!(
        parse_text("true"),
        Err(LoadError::InvalidDataType(JsonValue::Bool(true)))
    ));
    assert!(matches!(
        parse_value(&JsonValue::Null),
        Err(LoadError::InvalidDataType(JsonValue::Null))
    ));
    assert!(matches!(parse_text("[]"), Err(LoadError::EmptyArray)));
    match parse_text(r#"["Z6", "a", 3]"#) {
        Err(LoadError::InsideArray(2, inner)) => {
            assert!(matches!(*inner, LoadError::InvalidDataType(_)))
        }
        other => panic!("unexpected: {:?}", other),
    }
    match parse_text(r#"[null]"#) {
        Err(LoadError::InsideArray(0, inner)) => {
            assert!(matches!(*inner, LoadError::InvalidDataType(JsonValue::Null)))
        }
        other => panic!("unexpected: {:?}", other),
    }
    match parse_text(r#"{"Z1K1": "Z7", "zz": "a"}"#) {
        Err(LoadError::CantParseKeyIndex(key, e)) => {
            assert_eq!(key, "zz");
            assert_eq!(e, KeyIndexParseError::FirstNotZOrK);
        }
        other => panic!("unexpected: {:?}", other),
    }
    match parse_text(r#"{"Z1K1": "Z7", "Z7K1": false}"#) {
        Err(LoadError::InsideMap(key, inner)) => {
            assert_eq!(key, loaded_key(7, 1));
            assert!(matches!(*inner, LoadError::InvalidDataType(_)));
        }
        other => panic!("unexpected: {:?}", other),
    }
    match parse_text(r#"{"Z1K1": "Z6", "Z6K1": "a", "Z6K2": "b"}"#) {
        Err(LoadError::ExtraFieldInString(key)) => assert_eq!(key, "Z6K2"),
        other => panic!("unexpected: {:?}", other),
    }
    // a record of type Z6 whose text is no string is a raw record
    let raw = parse_text(r#"{"Z1K1": "Z6", "Z6K1": ["Z6"]}"#).unwrap();
    assert_eq!(raw.list_keys(), vec![loaded_key(1, 1), loaded_key(6, 1)]);
}

#[test]
fn pages_enter_the_store() {
    let mut store = GlobalContext::default_for_test();
    store
        .add_from_json(
            "Z10000",
            r#"{"Z1K1": "Z2", "Z2K1": {"Z1K1": "Z6", "Z6K1": "Z10000"}, "Z2K2": {"Z1K1": "Z40", "Z40K1": "Z41"}}"#,
        )
        .unwrap();
    store
        .add_from_value(
            "Z10001",
            &JsonValue::Object(vec![("Z2K2".to_string(), text("Z10000"))]),
        )
        .unwrap();
    assert_eq!(
        store.get_object_value(&loaded_zid(10001)).unwrap(),
        WfData::new_reference(loaded_zid(10000))
    );
    match store.add_from_json("page", r#"{"Z2K2": "Z1"}"#) {
        Err(LoadError::CantParseZID(title, e)) => {
            assert_eq!(title, "page");
            assert_eq!(e, ZidParseError::FirstNotZOrK);
        }
        other => panic!("unexpected: {:?}", other),
    }
    assert!(matches!(
        store.add_from_json("Z10002", "{"),
        Err(LoadError::InvalidJson)
    ));
    assert!(matches!(
        store.add_from_json("Z10002", r#"["Z1"]"#),
        Err(LoadError::InvalidJson)
    ));
    assert!(matches!(
        store.add_from_json("Z10002", r#"{"Z2K1": "Z1"}"#),
        Err(LoadError::NoPersistentValue)
    ));
    assert!(matches!(
        store.add_from_json("Z10002", r#"{"Z2K2": 1}"#),
        Err(LoadError::InvalidDataType(_))
    ));
    assert!(store.get_object_value(&loaded_zid(10002)).is_err());
    let context = ExecutionContext::default_for_global(Rc::new(store));
    assert_eq!(
        WfData::new_reference(loaded_zid(10001))
            .evaluate(&context)
            .unwrap(),
        WfBoolean::new(true).into_wf_data()
    );
}

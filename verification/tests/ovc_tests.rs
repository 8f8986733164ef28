use ov_config::{
    Configuration, FieldSchema, OVConfigError, Pred, RawEntry, RawMap, RawSection, Schema,
    SectionSchema, TypeTag, Value,
};

fn test_schema() -> Schema {
    Schema {
        sections: vec![
            SectionSchema {
                name: "SECTION1".to_string(),
                fields: vec![
                    FieldSchema {
                        name: "a_string".to_string(),
                        tag: TypeTag::TText,
                        default: Value::VText("key1".to_string()),
                        pred: Pred::TextLenGt(0),
                    },
                    FieldSchema {
                        name: "a_vector".to_string(),
                        tag: TypeTag::TIntList,
                        default: Value::VIntList(vec![1, 2, 3]),
                        pred: Pred::ListLenLt(4),
                    },
                ],
            },
            SectionSchema {
                name: "SECTION2".to_string(),
                fields: vec![
                    FieldSchema {
                        name: "a_i32".to_string(),
                        tag: TypeTag::TInt,
                        default: Value::VInt(15),
                        pred: Pred::IntLt(20),
                    },
                    FieldSchema {
                        name: "a_bool".to_string(),
                        tag: TypeTag::TBool,
                        default: Value::VBool(true),
                        pred: Pred::Always,
                    },
                ],
            },
        ],
    }
}

fn entry(key: &str, value: &str) -> RawEntry {
    RawEntry { key: key.to_string(), value: value.to_string() }
}

fn test_raw(a_i32: &str) -> RawMap {
    RawMap {
        sections: vec![
            RawSection {
                name: "SECTION1".to_string(),
                entries: vec![entry("a_string", "i_am_a_string"), entry("a_vector", "[1, 2, 3]")],
            },
            RawSection {
                name: "SECTION2".to_string(),
                entries: vec![entry("a_i32", a_i32), entry("a_bool", "true")],
            },
        ],
    }
}

#[test]
fn ovc_test_error() {
    let section = "section";
    let key = "key";
    let value = "bad_value";

    assert_eq!(
        format!("OVConfigError: Bad [{}]::{}. Found: {}", section, key, value),
        OVConfigError::BadValue {
            section: section.to_string(),
            key: key.to_string(),
            value: value.to_string(),
        }
        .message()
    );
}

#[test]
fn ovc_test_default() {
    let d = Configuration::default_config(test_schema());

    assert_eq!(d.sections[0].values[0], Value::VText("key1".to_string()));
    assert_eq!(d.sections[0].values[1], Value::VIntList(vec![1, 2, 3]));
    assert_eq!(d.sections[1].values[0], Value::VInt(15));
    assert_eq!(d.sections[1].values[1], Value::VBool(true));
    d.verify().unwrap();
}

#[test]
fn ovc_test_verify() {
    let mut d = Configuration::default_config(test_schema());
    d.sections[1].values[0] = Value::VInt(50);
    match d.verify() {
        Ok(_) => panic!("Should not be OK"),
        Err(e) => assert_eq!("OVConfigError: Bad [SECTION2]::a_i32. Found: 50", e.message()),
    }
}

#[test]
fn ovc_test_get_config() {
    let raw = test_raw("12");

    let config = Configuration::get_config(test_schema(), &raw, "ovc_test_get_config.ini")
        .unwrap();

    assert_eq!(config.sections[0].values[0], Value::VText("i_am_a_string".to_string()));
    assert_eq!(config.sections[0].values[1], Value::VIntList(vec![1, 2, 3]));
    assert_eq!(config.sections[1].values[0], Value::VInt(12));
    assert_eq!(config.sections[1].values[1], Value::VBool(true));
}

#[test]
fn ovc_test_get_config_verify_failed() {
    let raw = test_raw("128");

    match Configuration::get_config(test_schema(), &raw, "ovc_test_get_config_verify_failed.ini") {
        Ok(_) => panic!("Should not be OK"),
        Err(e) => assert_eq!("OVConfigError: Bad [SECTION2]::a_i32. Found: 128", e.message()),
    };
}

#[test]
fn ovc_test_get_config_no_verify() {
    let raw = test_raw("128");

    let config = Configuration::get_config_no_verify(
        test_schema(),
        &raw,
        "ovc_test_get_config_no_verify.ini",
    )
    .unwrap();

    assert_eq!(config.sections[0].values[0], Value::VText("i_am_a_string".to_string()));
    assert_eq!(config.sections[0].values[1], Value::VIntList(vec![1, 2, 3]));
    assert_eq!(config.sections[1].values[0], Value::VInt(128));
    assert_eq!(config.sections[1].values[1], Value::VBool(true));
}

#[test]
fn ovc_test_refresh() {
    let raw = test_raw("12");

    let mut config = Configuration::get_config(test_schema(), &raw, "ovc_test_refresh.ini")
        .unwrap();

    assert_eq!(config.sections[0].values[0], Value::VText("i_am_a_string".to_string()));
    assert_eq!(config.sections[0].values[1], Value::VIntList(vec![1, 2, 3]));
    assert_eq!(config.sections[1].values[0], Value::VInt(12));
    assert_eq!(config.sections[1].values[1], Value::VBool(true));

    let raw2 = test_raw("13");
    config.refresh(&raw2).unwrap();
    assert_eq!(config.sections[1].values[0], Value::VInt(13));
}

#[test]
fn ovc_test_refresh_verify_error() {
    let raw = test_raw("12");

    let mut config = Configuration::get_config(
        test_schema(),
        &raw,
        "ovc_test_refresh_verify_error.ini",
    )
    .unwrap();

    assert_eq!(config.sections[0].values[0], Value::VText("i_am_a_string".to_string()));
    assert_eq!(config.sections[0].values[1], Value::VIntList(vec![1, 2, 3]));
    assert_eq!(config.sections[1].values[0], Value::VInt(12));
    assert_eq!(config.sections[1].values[1], Value::VBool(true));

    let raw2 = test_raw("139");
    match config.refresh(&raw2) {
        Ok(_) => panic!("Should not be OK."),
        Err(e) => assert_eq!("OVConfigError: Bad [SECTION2]::a_i32. Found: 139", e.message()),
    };
}

#[test]
fn ovc_test_refresh_no_verify() {
    let raw = test_raw("12");

    let mut config = Configuration::get_config(
        test_schema(),
        &raw,
        "ovc_test_refresh_no_verify.ini",
    )
    .unwrap();

    assert_eq!(config.sections[0].values[0], Value::VText("i_am_a_string".to_string()));
    assert_eq!(config.sections[0].values[1], Value::VIntList(vec![1, 2, 3]));
    assert_eq!(config.sections[1].values[0], Value::VInt(12));
    assert_eq!(config.sections[1].values[1], Value::VBool(true));

    let raw2 = test_raw("130");
    config.refresh_no_verify(&raw2).unwrap();
    assert_eq!(config.sections[1].values[0], Value::VInt(130));
}

#[test]
fn ovc_test_flush() {
    let mut d = Configuration::default_config(test_schema());
    d.path = "ovc_test_flush.ini".to_string();

    let image = d.flush().unwrap();
    let config = Configuration::get_config(test_schema(), &image, "ovc_test_flush.ini").unwrap();
    assert_eq!(d.sections[0].values, config.sections[0].values);
    assert_eq!(d.sections[1].values, config.sections[1].values);
    assert_eq!(d.path, config.path);
}

#[test]
fn ovc_test_flush_failed() {
    let mut d = Configuration::default_config(test_schema());
    d.sections[1].values[0] = Value::VInt(50);
    d.path = "ovc_test_flush_failed.ini".to_string();
    match d.flush() {
        Ok(_) => panic!("Should not be OK"),
        Err(e) => assert_eq!("OVConfigError: Bad [SECTION2]::a_i32. Found: 50", e.message()),
    };
}

#[test]
fn ovc_test_flush_no_verfiy() {
    let mut d = Configuration::default_config(test_schema());
    d.sections[1].values[0] = Value::VInt(50);
    d.path = "ovc_test_flush_no_verfiy.ini".to_string();
    let image = d.flush_no_verify();
    let config = Configuration::get_config_no_verify(
        test_schema(),
        &image,
        "ovc_test_flush_no_verfiy.ini",
    )
    .unwrap();
    assert_eq!(d.sections[0].values, config.sections[0].values);
    assert_eq!(d.sections[1].values, config.sections[1].values);
    assert_eq!(d.path, config.path);
}

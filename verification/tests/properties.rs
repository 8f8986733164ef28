use ov_config::{
    Configuration, FieldSchema, OVConfigError, Pred, RawEntry, RawMap, RawSection, Schema,
    SectionSchema, TypeTag, Value,
};

fn entry(key: &str, value: &str) -> RawEntry {
    RawEntry { key: key.to_string(), value: value.to_string() }
}

fn one_field_schema(
    section: &str,
    key: &str,
    tag: TypeTag,
    default: Value,
    pred: Pred,
) -> Schema {
    Schema {
        sections: vec![
            SectionSchema {
                name: section.to_string(),
                fields: vec![
                    FieldSchema { name: key.to_string(), tag, default, pred },
                ],
            },
        ],
    }
}

#[test]
fn string_field_read_and_rejected_when_emptied() {
    let schema = one_field_schema(
        "S1",
        "a",
        TypeTag::TText,
        Value::VText("x".to_string()),
        Pred::TextLenGt(0),
    );
    let raw = RawMap {
        sections: vec![
            RawSection { name: "S1".to_string(), entries: vec![entry("a", "hello")] },
        ],
    };

    let mut config = Configuration::get_config(schema, &raw, "p").unwrap();
    assert_eq!(config.sections[0].values[0], Value::VText("hello".to_string()));

    config.sections[0].values[0] = Value::VText("".to_string());
    match config.verify() {
        Ok(_) => panic!("an empty string must be rejected"),
        Err(OVConfigError::BadValue { section, key, value }) => {
            assert_eq!(section, "S1");
            assert_eq!(key, "a");
            assert_eq!(value, "");
        },
        Err(_) => panic!("expected a rejected value"),
    }
}

#[test]
fn absent_integer_takes_default_and_verifies() {
    let schema = one_field_schema(
        "Section",
        "n",
        TypeTag::TInt,
        Value::VInt(15),
        Pred::IntLt(20),
    );
    let raw = RawMap {
        sections: vec![
            RawSection { name: "Section".to_string(), entries: vec![] },
        ],
    };

    let config = Configuration::get_config(schema, &raw, "p").unwrap();
    assert_eq!(config.sections[0].values[0], Value::VInt(15));
    config.verify().unwrap();
}

#[test]
fn out_of_bound_integer_fails_verifying_get_but_not_plain_get() {
    let schema = || {
        one_field_schema("Section", "n", TypeTag::TInt, Value::VInt(15), Pred::IntLt(20))
    };
    let raw = RawMap {
        sections: vec![
            RawSection { name: "Section".to_string(), entries: vec![entry("n", "128")] },
        ],
    };

    match Configuration::get_config(schema(), &raw, "p") {
        Ok(_) => panic!("128 must be rejected by the verifying get"),
        Err(OVConfigError::BadValue { section: _, key, value }) => {
            assert_eq!(key, "n");
            assert_eq!(value, "128");
        },
        Err(_) => panic!("expected a rejected value"),
    }

    let config = Configuration::get_config_no_verify(schema(), &raw, "p").unwrap();
    assert_eq!(config.sections[0].values[0], Value::VInt(128));
}

#[test]
fn verify_reports_first_of_two_invalid_fields() {
    let schema = Schema {
        sections: vec![
            SectionSchema {
                name: "S".to_string(),
                fields: vec![
                    FieldSchema {
                        name: "f1".to_string(),
                        tag: TypeTag::TInt,
                        default: Value::VInt(99),
                        pred: Pred::IntLt(0),
                    },
                    FieldSchema {
                        name: "f2".to_string(),
                        tag: TypeTag::TInt,
                        default: Value::VInt(99),
                        pred: Pred::IntLt(0),
                    },
                ],
            },
        ],
    };
    let config = Configuration::default_config(schema);
    match config.verify() {
        Ok(_) => panic!("both fields are invalid"),
        Err(OVConfigError::BadValue { section, key, value }) => {
            assert_eq!(section, "S");
            assert_eq!(key, "f1");
            assert_eq!(value, "99");
        },
        Err(_) => panic!("expected a rejected value"),
    }
}

#[test]
fn flush_blocks_on_invalid_state_and_yields_no_image() {
    let schema = one_field_schema(
        "Section",
        "n",
        TypeTag::TInt,
        Value::VInt(50),
        Pred::IntLt(20),
    );
    let config = Configuration::default_config(schema);
    match config.flush() {
        Ok(_) => panic!("an invalid object must not produce an image"),
        Err(e) => assert_eq!("OVConfigError: Bad [Section]::n. Found: 50", e.message()),
    }
}

#[test]
fn flush_then_get_round_trips_extreme_values() {
    let schema = || Schema {
        sections: vec![
            SectionSchema {
                name: "edge".to_string(),
                fields: vec![
                    FieldSchema {
                        name: "max".to_string(),
                        tag: TypeTag::TInt,
                        default: Value::VInt(i64::MAX),
                        pred: Pred::Always,
                    },
                    FieldSchema {
                        name: "min".to_string(),
                        tag: TypeTag::TInt,
                        default: Value::VInt(i64::MIN),
                        pred: Pred::Always,
                    },
                    FieldSchema {
                        name: "zero".to_string(),
                        tag: TypeTag::TInt,
                        default: Value::VInt(0),
                        pred: Pred::Always,
                    },
                    FieldSchema {
                        name: "empty_list".to_string(),
                        tag: TypeTag::TIntList,
                        default: Value::VIntList(vec![]),
                        pred: Pred::Always,
                    },
                    FieldSchema {
                        name: "negatives".to_string(),
                        tag: TypeTag::TIntList,
                        default: Value::VIntList(vec![-1, 0, 7]),
                        pred: Pred::Always,
                    },
                    FieldSchema {
                        name: "off".to_string(),
                        tag: TypeTag::TBool,
                        default: Value::VBool(false),
                        pred: Pred::Always,
                    },
                    FieldSchema {
                        name: "empty_text".to_string(),
                        tag: TypeTag::TText,
                        default: Value::VText("".to_string()),
                        pred: Pred::Always,
                    },
                ],
            },
        ],
    };
    let d = Configuration::default_config(schema());
    let image = d.flush_no_verify();
    assert_eq!(image.sections[0].entries[0].value, "9223372036854775807");
    assert_eq!(image.sections[0].entries[1].value, "-9223372036854775808");
    assert_eq!(image.sections[0].entries[2].value, "0");
    assert_eq!(image.sections[0].entries[3].value, "[]");
    assert_eq!(image.sections[0].entries[4].value, "[-1,0,7]");
    assert_eq!(image.sections[0].entries[5].value, "false");

    let back = Configuration::get_config_no_verify(schema(), &image, "p").unwrap();
    assert_eq!(d.sections[0].values, back.sections[0].values);
}

#[test]
fn unreadable_raw_value_is_a_parse_value_error() {
    let schema = one_field_schema(
        "Section",
        "n",
        TypeTag::TInt,
        Value::VInt(15),
        Pred::IntLt(20),
    );
    let raw = RawMap {
        sections: vec![
            RawSection {
                name: "Section".to_string(),
                entries: vec![entry("n", "not_a_number")],
            },
        ],
    };
    match Configuration::get_config(schema, &raw, "p") {
        Ok(_) => panic!("a malformed literal must fail the load"),
        Err(OVConfigError::ParseValueError(_)) => {},
        Err(_) => panic!("expected a value parse failure"),
    }
}

#[test]
fn scalar_literal_for_list_field_is_a_parse_value_error() {
    let schema = one_field_schema(
        "Section",
        "l",
        TypeTag::TIntList,
        Value::VIntList(vec![]),
        Pred::Always,
    );
    let raw = RawMap {
        sections: vec![
            RawSection { name: "Section".to_string(), entries: vec![entry("l", "12")] },
        ],
    };
    match Configuration::get_config(schema, &raw, "p") {
        Ok(_) => panic!("a scalar literal must not fill a list field"),
        Err(OVConfigError::ParseValueError(_)) => {},
        Err(_) => panic!("expected a value parse failure"),
    }
}

#[test]
fn adapter_error_messages() {
    assert_eq!(
        "ParseConfigError: bad line",
        OVConfigError::ParseConfigError("bad line".to_string()).message()
    );
    assert_eq!("IoError: gone", OVConfigError::IoError("gone".to_string()).message());
    assert_eq!(
        "ParseValueError: trailing characters",
        OVConfigError::ParseValueError("trailing characters".to_string()).message()
    );
}

#[test]
fn whole_section_absent_reads_as_defaults() {
    let schema = one_field_schema(
        "Missing",
        "n",
        TypeTag::TInt,
        Value::VInt(7),
        Pred::IntLt(20),
    );
    let raw = RawMap { sections: vec![] };
    let config = Configuration::get_config(schema, &raw, "p").unwrap();
    assert_eq!(config.sections[0].values[0], Value::VInt(7));
}

#[test]
fn empty_schema_round_trips() {
    let schema = || Schema { sections: vec![] };
    let d = Configuration::default_config(schema());
    d.verify().unwrap();
    let image = d.flush().unwrap();
    assert_eq!(image.sections.len(), 0);
    let back = Configuration::get_config(schema(), &image, "p").unwrap();
    assert_eq!(back.sections.len(), 0);
}

#[test]
fn refresh_failure_on_unreadable_value_leaves_object_unchanged() {
    let schema = one_field_schema(
        "Section",
        "n",
        TypeTag::TInt,
        Value::VInt(15),
        Pred::IntLt(20),
    );
    let raw = RawMap {
        sections: vec![
            RawSection { name: "Section".to_string(), entries: vec![entry("n", "12")] },
        ],
    };
    let mut config = Configuration::get_config(schema, &raw, "p").unwrap();
    assert_eq!(config.sections[0].values[0], Value::VInt(12));

    let bad = RawMap {
        sections: vec![
            RawSection { name: "Section".to_string(), entries: vec![entry("n", "oops")] },
        ],
    };
    assert!(config.refresh(&bad).is_err());
    assert_eq!(config.sections[0].values[0], Value::VInt(12));
}

#[test]
fn alignment_check_sees_a_mismatched_object() {
    let schema = one_field_schema(
        "Section",
        "n",
        TypeTag::TInt,
        Value::VInt(15),
        Pred::IntLt(20),
    );
    let mut config = Configuration::default_config(schema);
    assert!(config.check_aligned());
    config.sections[0].values.push(Value::VInt(1));
    assert!(!config.check_aligned());
}

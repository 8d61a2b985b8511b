use zkp_service_helper::json::{find_field, JsonField, JsonValue};
use zkp_service_helper::text::u64_to_string;

#[test]
fn number_text_is_decimal() {
    let v = JsonValue::from_u64(7);
    assert_eq!(v.to_text(), "7");
}

#[test]
fn parse_reads_back_what_to_text_wrote() {
    let text = "{\"b\":[1,\"x\",null,true],\"a\":{\"k\":-2}}";
    let v = JsonValue::parse(text).unwrap();
    assert_eq!(v.to_text(), text);
}

#[test]
fn parse_refuses_broken_text() {
    assert!(JsonValue::parse("{\"a\":").is_none());
}

#[test]
fn fields_that_share_a_name_are_merged_in_text() {
    let v = JsonValue::Object(vec![
        JsonField { name: "a".to_string(), value: JsonValue::from_u64(1) },
        JsonField { name: "b".to_string(), value: JsonValue::from_u64(2) },
        JsonField { name: "a".to_string(), value: JsonValue::from_u64(3) },
    ]);
    assert_eq!(v.to_text(), "{\"a\":3,\"b\":2}");
}

#[test]
fn parse_keeps_the_order_of_fields() {
    let v = JsonValue::parse("{\"z\":1,\"a\":2}").unwrap();
    match v {
        JsonValue::Object(fields) => {
            assert_eq!(fields[0].name, "z");
            assert_eq!(fields[1].name, "a");
        },
        other => panic!("unexpected {:?}", other),
    }
}

#[test]
fn strings_are_escaped_in_text() {
    assert_eq!(JsonValue::from_str("a\"b\\c\n").to_text(), "\"a\\\"b\\\\c\\n\"");
    assert_eq!(JsonValue::parse("\"\\u00e9\"").unwrap(), JsonValue::from_str("é"));
}

#[test]
fn copy_is_equal() {
    let v = JsonValue::parse("{\"a\":[1,{\"b\":null}],\"c\":\"d\"}").unwrap();
    assert_eq!(v.copy(), v);
    assert_eq!(v.clone(), v);
}

#[test]
fn find_field_takes_the_first_of_a_name() {
    let v = JsonValue::parse("{\"a\":1,\"b\":2}").unwrap();
    if let JsonValue::Object(fields) = &v {
        assert_eq!(find_field(fields, "b"), Some(&JsonValue::from_u64(2)));
        assert_eq!(find_field(fields, "c"), None);
    }
}

#[test]
fn decimal_text() {
    assert_eq!(u64_to_string(0), "0");
    assert_eq!(u64_to_string(9), "9");
    assert_eq!(u64_to_string(10), "10");
    assert_eq!(u64_to_string(1234567890), "1234567890");
    assert_eq!(u64_to_string(u64::MAX), "18446744073709551615");
}

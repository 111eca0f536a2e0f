use bitter_truth::json::parse_json;
use bitter_truth::value::{indentation_text, json_to_xml, json_value_to_string, DynamicValue};

fn text(s: &str) -> DynamicValue {
    DynamicValue::String(s.to_string())
}

fn number(s: &str) -> DynamicValue {
    DynamicValue::Number(s.to_string())
}

#[test]
fn scalars_as_text() {
    assert_eq!(json_value_to_string(&text("a <b>")), "a <b>");
    assert_eq!(json_value_to_string(&number("-12.5")), "-12.5");
    assert_eq!(json_value_to_string(&DynamicValue::Bool(true)), "true");
    assert_eq!(json_value_to_string(&DynamicValue::Bool(false)), "false");
    assert_eq!(json_value_to_string(&DynamicValue::Null), "null");
}

#[test]
fn bare_scalars_render_as_value() {
    assert_eq!(json_to_xml(&text("a <b>"), 0), "<value>a &lt;b&gt;</value>\n");
    assert_eq!(json_to_xml(&number("7"), 2), "    <value>7</value>\n");
    assert_eq!(json_to_xml(&DynamicValue::Null, 1), "  <value>null</value>\n");
    assert_eq!(json_to_xml(&DynamicValue::Bool(false), 3), "      <value>false</value>\n");
}

#[test]
fn objects_render_in_member_order() {
    let value = DynamicValue::Object(vec![
        ("zeta".to_string(), number("1")),
        ("alpha".to_string(), text("x & y")),
        ("1st".to_string(), DynamicValue::Null),
        ("".to_string(), DynamicValue::Bool(true)),
        ("my key".to_string(), text("")),
    ]);
    assert_eq!(
        json_to_xml(&value, 1),
        "  <zeta>1</zeta>\n  <alpha>x &amp; y</alpha>\n  <_1st>null</_1st>\n  <field>true</field>\n  <my_key></my_key>\n"
    );
}

#[test]
fn nested_values_are_indented() {
    let value = DynamicValue::Object(vec![
        (
            "outer".to_string(),
            DynamicValue::Object(vec![("inner".to_string(), number("1"))]),
        ),
        ("list".to_string(), DynamicValue::Array(vec![text("a"), DynamicValue::Array(vec![])])),
        ("empty".to_string(), DynamicValue::Object(vec![])),
    ]);
    assert_eq!(
        json_to_xml(&value, 2),
        "    <outer>\n      <inner>1</inner>\n    </outer>\n    <list>\n      <item index=\"0\">\n        <value>a</value>\n      </item>\n      <item index=\"1\">\n      </item>\n    </list>\n    <empty>\n    </empty>\n"
    );
}

#[test]
fn arrays_number_their_items_from_zero() {
    let items: Vec<DynamicValue> = (0..12).map(|i| number(&i.to_string())).collect();
    let xml = json_to_xml(&DynamicValue::Array(items), 0);
    assert!(xml.starts_with("<item index=\"0\">\n  <value>0</value>\n</item>\n<item index=\"1\">\n"));
    assert!(xml.ends_with("<item index=\"11\">\n  <value>11</value>\n</item>\n"));
    assert_eq!(xml.matches("<item index=").count(), 12);
    assert_eq!(json_to_xml(&DynamicValue::Array(vec![]), 4), "");
    assert_eq!(json_to_xml(&DynamicValue::Object(vec![]), 4), "");
}

#[test]
fn array_of_objects() {
    let value = DynamicValue::Array(vec![DynamicValue::Object(vec![(
        "k".to_string(),
        text("v"),
    )])]);
    assert_eq!(json_to_xml(&value, 0), "<item index=\"0\">\n  <k>v</k>\n</item>\n");
}

#[test]
fn indentation_is_two_spaces_a_level() {
    assert_eq!(indentation_text(0), "");
    assert_eq!(indentation_text(1), "  ");
    assert_eq!(indentation_text(3), "      ");
}

#[test]
fn scalar_predicate() {
    assert!(text("x").is_scalar());
    assert!(DynamicValue::Null.is_scalar());
    assert!(!DynamicValue::Array(vec![]).is_scalar());
    assert!(!DynamicValue::Object(vec![]).is_scalar());
}

#[test]
fn parsing_keeps_the_order_of_members() {
    let value = parse_json("{\"b\": 1, \"a\": {\"z\": null, \"y\": [1.5, -2, \"s\", true]}}").unwrap();
    assert_eq!(
        json_to_xml(&value, 0),
        "<b>1</b>\n<a>\n  <z>null</z>\n  <y>\n    <item index=\"0\">\n      <value>1.5</value>\n    </item>\n    <item index=\"1\">\n      <value>-2</value>\n    </item>\n    <item index=\"2\">\n      <value>s</value>\n    </item>\n    <item index=\"3\">\n      <value>true</value>\n    </item>\n  </y>\n</a>\n"
    );
}

#[test]
fn parsing_gives_numbers_their_canonical_text() {
    for (input, expected) in [
        ("1", "1"),
        ("-0", "-0.0"),
        ("1.0", "1.0"),
        ("1e2", "100.0"),
        ("18446744073709551615", "18446744073709551615"),
        ("-9223372036854775808", "-9223372036854775808"),
        ("0.10", "0.1"),
    ] {
        match parse_json(input) {
            Some(DynamicValue::Number(text)) => assert_eq!(text, expected, "{}", input),
            other => panic!("{:?}", other),
        }
    }
}

#[test]
fn parsing_decodes_strings() {
    match parse_json("\"a\\n\\u00e9\\\"\"") {
        Some(DynamicValue::String(text)) => assert_eq!(text, "a\n\u{e9}\""),
        other => panic!("{:?}", other),
    }
}

#[test]
fn parsing_rejects_what_is_not_json() {
    assert!(parse_json("").is_none());
    assert!(parse_json("{").is_none());
    assert!(parse_json("{\"a\": }").is_none());
    assert!(parse_json("plain").is_none());
    assert!(parse_json("{} trailing").is_none());
    assert!(parse_json("  [ ]  ").is_some());
}

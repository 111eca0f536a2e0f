use bitter_truth::clean::{clean, extract_selected, frame_json, validated_output, CleanOptions};
use bitter_truth::extract::ExtractError;
use bitter_truth::json_extract::{extract_json, extract_json_traced, JsonSource};

#[test]
fn test_extract_json() {
    let input = r#"Here is the data:
```json
{"success": true, "data": {"value": 42}}
```
"#;
    let result = extract_json(input).unwrap();
    assert!(result.contains("success"));
}

#[test]
fn fenced_object_exact() {
    assert_eq!(extract_json("```json\n{\"a\":1}\n```").unwrap(), "{\"a\":1}");
    assert_eq!(
        extract_json("Here is the data:\n```json\n{\"success\": true, \"data\": {\"value\": 42}}\n```\n")
            .unwrap(),
        "{\"success\": true, \"data\": {\"value\": 42}}"
    );
    assert_eq!(extract_json("```\n{\"x\": 2}\n```").unwrap(), "{\"x\": 2}");
    assert_eq!(extract_json("```json {\"a\":1} ```").unwrap(), "{\"a\":1}");
    assert_eq!(extract_json("```json{\"a\":1}```").unwrap(), "{\"a\":1}");
}

#[test]
fn no_braces_no_json() {
    assert_eq!(extract_json("no json here at all"), Err(ExtractError::JsonNotFound));
    assert_eq!(extract_json(""), Err(ExtractError::JsonNotFound));
    assert_eq!(extract_json("```json\n[1, 2]\n```"), Err(ExtractError::JsonNotFound));
    assert_eq!(extract_json("closing only }"), Err(ExtractError::JsonNotFound));
}

#[test]
fn unbalanced_braces_no_json() {
    assert_eq!(extract_json("{ \"a\": 1"), Err(ExtractError::JsonNotFound));
    assert_eq!(extract_json("{{{"), Err(ExtractError::JsonNotFound));
    assert_eq!(extract_json("{ {"), Err(ExtractError::JsonNotFound));
}

#[test]
fn raw_object_anywhere() {
    assert_eq!(
        extract_json("The answer is {\"a\": {\"b\": 1}, \"c\": {}} ok").unwrap(),
        "{\"a\": {\"b\": 1}, \"c\": {}}"
    );
    assert_eq!(extract_json("x {} y {\"a\":1}").unwrap(), "{}");
    assert_eq!(extract_json("{ \"a\": 1 } trailing }").unwrap(), "{ \"a\": 1 }");
}

#[test]
fn nesting_is_followed_one_level_only() {
    assert_eq!(extract_json("{\"a\":{\"b\":{\"c\":1}}}").unwrap(), "{\"b\":{\"c\":1}}");
    assert_eq!(extract_json("{{{}}}").unwrap(), "{{}}");
    assert_eq!(extract_json("{ { {").is_err(), true);
}

#[test]
fn fenced_object_may_nest_deeper() {
    assert_eq!(
        extract_json("```json\n{\"a\":{\"b\":{\"c\":1}}}\n```").unwrap(),
        "{\"a\":{\"b\":{\"c\":1}}}"
    );
}

#[test]
fn fenced_object_ends_before_the_closing_fence() {
    assert_eq!(extract_json("```json\n{\"a\":\"}\"}\n```").unwrap(), "{\"a\":\"}\"}");
    assert_eq!(extract_json("```json\n{\"a\":1} \n\t ``` } ```").unwrap(), "{\"a\":1}");
    assert_eq!(extract_json("```json\n{\"a\":1}\ntrailing\n```").unwrap(), "{\"a\":1}");
    assert_eq!(
        extract_json("```json\n{\"a\":{\"b\":{\"c\":1}}}\ntrailing\n```").unwrap(),
        "{\"b\":{\"c\":1}}"
    );
}

#[test]
fn a_later_block_is_tried() {
    let input = "```python\nprint({})\n```\nand\n```json\n{\"k\": [1]}\n```";
    assert_eq!(extract_json(input).unwrap(), "{\"k\": [1]}");
    assert_eq!(extract_json("```jsonx\n{\"a\":1}\n```").unwrap(), "{\"a\":1}");
    assert_eq!(extract_json("```JSON\n{\"a\": {\"b\": {}}}\n```").unwrap(), "{\"b\": {}}");
}

#[test]
fn selection_of_the_extractor() {
    let input = "```json\n{\"a\":1}\n```";
    assert_eq!(extract_selected(input, Some("json"), false).unwrap(), "{\"a\":1}");
    assert_eq!(extract_selected(input, Some("json"), true).unwrap(), "{\"a\":1}");
    assert_eq!(extract_selected(input, None, true).unwrap(), "{\"a\":1}");
    assert_eq!(extract_selected(input, None, false).unwrap(), "{\"a\":1}");
    let bare = "result: {\"a\":1}";
    assert_eq!(extract_selected(bare, None, true).unwrap(), "{\"a\":1}");
    assert!(matches!(
        extract_selected(bare, None, false),
        Err(ExtractError::ExtractionNotFound { .. })
    ));
    assert_eq!(extract_selected("nothing", None, true), Err(ExtractError::JsonNotFound));
}

#[test]
fn clean_without_validation_prints_the_payload() {
    let options = CleanOptions { validate_json: false, kestra_log: false };
    assert_eq!(clean("```sh\necho hi\n```", None, options).unwrap(), "echo hi");
    let marked = CleanOptions { validate_json: false, kestra_log: true };
    assert_eq!(clean("```sh\necho hi\n```", Some("sh"), marked).unwrap(), "echo hi");
}

#[test]
fn clean_with_validation_writes_json_back() {
    let input = "Sure:\n```json\n{ \"b\" : 1,\n \"a\": [true, null, \"x\"] }\n```";
    let compact = CleanOptions { validate_json: true, kestra_log: true };
    assert_eq!(
        clean(input, None, compact).unwrap(),
        "::{\"b\":1,\"a\":[true,null,\"x\"]}::\n"
    );
    let pretty = CleanOptions { validate_json: true, kestra_log: false };
    assert_eq!(
        clean(input, Some("json"), pretty).unwrap(),
        "{\n  \"b\": 1,\n  \"a\": [\n    true,\n    null,\n    \"x\"\n  ]\n}\n"
    );
}

#[test]
fn clean_rejects_malformed_json() {
    let options = CleanOptions { validate_json: true, kestra_log: false };
    assert_eq!(clean("```json\n{not json}\n```", None, options), Err(ExtractError::MalformedJson));
    assert_eq!(
        clean("```python\nprint(1)\n```", Some("python"), options),
        Err(ExtractError::MalformedJson)
    );
    assert_eq!(clean("no json", None, options), Err(ExtractError::JsonNotFound));
    assert_eq!(clean("```json\n```", Some("json"), options), Err(ExtractError::EmptyBlock));
}

#[test]
fn validated_output_forms() {
    assert_eq!(validated_output(" [1,  2] ", true).unwrap(), "::[1,2]::\n");
    assert_eq!(validated_output("{}", false).unwrap(), "{}\n");
    assert_eq!(validated_output("1.50", true).unwrap(), "::1.5::\n");
    assert_eq!(validated_output("", true), Err(ExtractError::MalformedJson));
    assert_eq!(validated_output("{} {}", false), Err(ExtractError::MalformedJson));
}

#[test]
fn framing() {
    assert_eq!(frame_json(Some("{}"), true).unwrap(), "::{}::\n");
    assert_eq!(frame_json(Some("{}"), false).unwrap(), "{}\n");
    assert_eq!(frame_json(None, true), Err(ExtractError::MalformedJson));
    assert_eq!(frame_json(None, false), Err(ExtractError::MalformedJson));
}

#[test]
fn the_source_of_an_object_is_told() {
    assert_eq!(
        extract_json_traced("```json\n{\"a\":1}\n```"),
        Ok(("{\"a\":1}".to_string(), JsonSource::FencedBlock))
    );
    assert_eq!(
        extract_json_traced("so: {\"a\":1} then"),
        Ok(("{\"a\":1}".to_string(), JsonSource::RawObject))
    );
    assert_eq!(
        extract_json_traced("```json\n{\"a\":1}\ntrailing\n```"),
        Ok(("{\"a\":1}".to_string(), JsonSource::RawObject))
    );
    assert_eq!(extract_json_traced("nothing"), Err(ExtractError::JsonNotFound));
}

#[test]
fn every_parsed_payload_is_written_back() {
    for payload in ["null", "[]", "{\"a\":{\"b\":[1,2,{\"c\":null}]}}", "\"s\"", "-0.5e-3", "true"] {
        assert!(validated_output(payload, true).is_ok(), "{}", payload);
        assert!(validated_output(payload, false).is_ok(), "{}", payload);
    }
}

use ai_adapter::translate::openai::chat::{extract_xml_tool_calls, xml_tool_call_parts};
use serde_json::Value;

#[test]
fn test_extract_xml_tool_calls_single() {
    let input = "<tools>\n{\"type\": \"function\", \"function\": {\"name\": \"get_weather\"}}\n</tools>\n\n<function-call>\n{\"name\": \"get_weather\", \"arguments\": {\"city\": \"Beijing\"}}\n</function-call>";
    let (cleaned, tcs) = extract_xml_tool_calls(input);
    assert_eq!(cleaned, "");
    assert_eq!(tcs.len(), 1);
    assert_eq!(tcs[0].function.name, "get_weather");
    let args: Value = serde_json::from_str(&tcs[0].function.arguments).unwrap();
    assert_eq!(args["city"], "Beijing");
}

#[test]
fn test_no_xml() {
    let input = "Hello, how can I help?";
    let (cleaned, tcs) = extract_xml_tool_calls(input);
    assert_eq!(cleaned, "Hello, how can I help?");
    assert!(tcs.is_empty());
}

#[test]
fn xml_call_ids_are_fresh_and_prefixed() {
    let input = "<function-call>{\"name\":\"a\"}</function-call><function-call>{\"name\":\"b\"}</function-call>";
    let (cleaned, tcs) = extract_xml_tool_calls(input);
    assert_eq!(cleaned, "");
    assert_eq!(tcs.len(), 2);
    assert!(tcs[0].id.starts_with("call_"));
    assert_eq!(tcs[0].id.len(), 41);
    assert_ne!(tcs[0].id, tcs[1].id);
    assert_eq!(tcs[0].function.arguments, "{}");
    assert_eq!(tcs[1].index, Some(1));
}

#[test]
fn xml_unparsable_block_is_cut_without_call() {
    let (cleaned, parts) = xml_tool_call_parts("before <tools>not json</tools> after");
    assert_eq!(cleaned, "before  after");
    assert!(parts.is_empty());
}

#[test]
fn xml_missing_name_is_unknown() {
    let (cleaned, parts) = xml_tool_call_parts("  <function-call>{\"arguments\":{\"x\":1}}</function-call> done ");
    assert_eq!(cleaned, "done");
    assert_eq!(parts, vec![("unknown".to_string(), "{\"x\":1}".to_string())]);
}

use tirds::parser::extract_json;

#[test]
fn extract_clean_json() {
    let input = r#"{"confidence": 0.75, "reasoning": "test"}"#;
    let result = extract_json(input).unwrap();
    assert_eq!(result, input);
}

#[test]
fn extract_from_markdown() {
    let input = "Here is my analysis:\n```json\n{\"confidence\": 0.75}\n```\nDone.";
    let result = extract_json(input).unwrap();
    assert_eq!(result, r#"{"confidence": 0.75}"#);
}

#[test]
fn extract_from_markdown_no_lang() {
    let input = "Result:\n```\n{\"confidence\": 0.75}\n```";
    let result = extract_json(input).unwrap();
    assert_eq!(result, r#"{"confidence": 0.75}"#);
}

#[test]
fn extract_with_prefix_text() {
    let input =
        "Based on my analysis, here is the result:\n{\"confidence\": 0.75, \"reasoning\": \"bullish\"}";
    let result = extract_json(input).unwrap();
    assert!(result.contains("confidence"));
}

#[test]
fn extract_nested_json() {
    let input = r#"{"outer": {"inner": "value"}, "list": [1, 2, 3]}"#;
    let result = extract_json(input).unwrap();
    assert_eq!(result, input);
}

#[test]
fn extract_with_escaped_braces_in_strings() {
    let input = r#"{"reasoning": "price went from {low} to {high}", "confidence": 0.5}"#;
    let result = extract_json(input).unwrap();
    let parsed: serde_json::Value = serde_json::from_str(&result).unwrap();
    assert_eq!(parsed["confidence"], serde_json::from_str::<serde_json::Value>("0.5").unwrap());
}

#[test]
fn extract_no_json() {
    let input = "This is just plain text with no JSON at all.";
    let result = extract_json(input);
    assert!(result.is_err());
}

#[test]
fn extract_error_reports_input_length() {
    let input = "nothing here";
    match extract_json(input) {
        Err(tirds::errors::AgentError::Parse(msg)) => {
            assert_eq!(
                msg,
                "No valid JSON object found in response (length=12)"
            );
        }
        other => panic!("expected a parse error, got {other:?}"),
    }
}

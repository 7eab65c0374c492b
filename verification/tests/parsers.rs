use tokuin::parsers::json::JsonParser;
use tokuin::parsers::TextParser;

#[test]
fn test_json_parser_single_message() {
    let parser = JsonParser::new();
    let input = r#"{"role": "user", "content": "Hello!"}"#;
    let messages = parser.parse(input).unwrap();
    assert_eq!(messages.len(), 1);
    assert_eq!(messages[0].role, "user");
    assert_eq!(messages[0].content, "Hello!");
}

#[test]
fn test_json_parser_array() {
    let parser = JsonParser::new();
    let input = r#"[{"role": "system", "content": "You are a helpful assistant."}, {"role": "user", "content": "Hello!"}]"#;
    let messages = parser.parse(input).unwrap();
    assert_eq!(messages.len(), 2);
    assert_eq!(messages[0].role, "system");
    assert_eq!(messages[1].role, "user");
}

#[test]
fn test_json_parser_invalid() {
    let parser = JsonParser::new();
    let input = "not json";
    assert!(parser.parse(input).is_err());
}

#[test]
fn test_json_parser_array_with_bad_element() {
    let parser = JsonParser::new();
    let input = r#"[{"role": "user", "content": "hi"}, {"role": "user"}]"#;
    assert!(parser.parse(input).is_err());
}

#[test]
fn test_json_parser_non_string_role() {
    let parser = JsonParser::new();
    let input = r#"{"role": 3, "content": "hi"}"#;
    assert!(parser.parse(input).is_err());
}

#[test]
fn test_json_parser_extra_fields_tolerated() {
    let parser = JsonParser::new();
    let input = r#"{"role": "assistant", "content": "ok", "name": "bot"}"#;
    let messages = parser.parse(input).unwrap();
    assert_eq!(messages.len(), 1);
    assert_eq!(messages[0].role, "assistant");
    assert_eq!(messages[0].content, "ok");
}

#[test]
fn test_text_parser() {
    let parser = TextParser::new();
    let messages = parser.parse("Hello, world!").unwrap();
    assert_eq!(messages.len(), 1);
    assert_eq!(messages[0].role, "user");
    assert_eq!(messages[0].content, "Hello, world!");
}

#[test]
fn test_text_parser_empty() {
    let parser = TextParser::new();
    let messages = parser.parse("").unwrap();
    assert_eq!(messages.len(), 1);
    assert_eq!(messages[0].content, "");
}

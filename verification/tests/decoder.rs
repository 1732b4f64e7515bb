use codex_cli::decode::{event_from_fields, parse_line, read_fields, RecordFields};
use codex_cli::event::{LanguageModelCompletionEvent, LanguageModelToolUse};

fn text(s: &str) -> LanguageModelCompletionEvent {
    LanguageModelCompletionEvent::Text(s.to_string())
}

fn empty_object() -> serde_json::Value {
    serde_json::Value::Object(serde_json::Map::new())
}

#[test]
fn content_record_is_its_text() {
    assert_eq!(parse_line("{\"content\":\"hello\"}"), text("hello"));
    assert_eq!(parse_line("{\"content\": \"two words\"}"), text("two words"));
}

#[test]
fn text_record_is_its_text() {
    assert_eq!(parse_line("{\"text\":\"hello\"}"), text("hello"));
}

#[test]
fn content_comes_before_text() {
    assert_eq!(parse_line("{\"text\":\"second\",\"content\":\"first\"}"), text("first"));
}

#[test]
fn content_that_is_not_text_is_passed_over() {
    assert_eq!(parse_line("{\"content\":5,\"text\":\"words\"}"), text("words"));
    let line = "{\"content\":5}";
    assert_eq!(parse_line(line), text(line));
}

#[test]
fn escapes_in_a_record_are_decoded() {
    assert_eq!(parse_line("{\"content\":\"a\\nb \\\"c\\\" \\u00e9\"}"), text("a\nb \"c\" \u{e9}"));
}

#[test]
fn a_line_that_is_no_record_is_itself() {
    for line in ["plain words", "", "{", "{\"content\":\"x\"} trailing", "content: hello", "  "] {
        assert_eq!(parse_line(line), text(line));
    }
}

#[test]
fn a_value_that_is_no_object_is_its_line() {
    for line in ["42", "\"content\"", "[\"content\", \"text\"]", "null", "true"] {
        assert_eq!(parse_line(line), text(line));
    }
}

#[test]
fn a_record_of_unknown_shape_is_its_line() {
    let line = "{\"message\":\"hello\",\"level\":3}";
    assert_eq!(parse_line(line), text(line));
    assert_eq!(parse_line("{}"), text("{}"));
}

#[test]
fn complete_tool_record_is_a_tool_use() {
    let event = parse_line("{\"type\":\"tool_use\",\"id\":\"t1\",\"name\":\"run\",\"input\":{}}");
    assert_eq!(
        event,
        LanguageModelCompletionEvent::ToolUse(LanguageModelToolUse {
            id: "t1".to_string(),
            name: "run".to_string(),
            raw_input: String::new(),
            input: empty_object(),
            is_input_complete: true,
        })
    );
}

#[test]
fn tool_record_may_use_the_short_type_and_the_long_name() {
    let event = parse_line(
        "{\"type\":\"tool\",\"id\":\"7\",\"tool_name\":\"grep\",\"input\":[1,\"a\"],\"raw_input\":\"[1,\",\"is_input_complete\":false}",
    );
    let input = serde_json::Value::Array(vec![
        serde_json::Value::Number(serde_json::Number::from(1u64)),
        serde_json::Value::String("a".to_string()),
    ]);
    assert_eq!(
        event,
        LanguageModelCompletionEvent::ToolUse(LanguageModelToolUse {
            id: "7".to_string(),
            name: "grep".to_string(),
            raw_input: "[1,".to_string(),
            input,
            is_input_complete: false,
        })
    );
}

#[test]
fn tool_record_takes_a_null_input() {
    let event = parse_line("{\"type\":\"tool\",\"id\":\"a\",\"name\":\"b\",\"input\":null}");
    assert_eq!(
        event,
        LanguageModelCompletionEvent::ToolUse(LanguageModelToolUse {
            id: "a".to_string(),
            name: "b".to_string(),
            raw_input: String::new(),
            input: serde_json::Value::Null,
            is_input_complete: true,
        })
    );
}

#[test]
fn a_name_that_is_not_text_hides_the_long_name() {
    let line = "{\"type\":\"tool\",\"id\":\"a\",\"name\":1,\"tool_name\":\"b\",\"input\":{}}";
    assert_eq!(parse_line(line), text(line));
}

#[test]
fn incomplete_tool_record_falls_back_to_its_text() {
    assert_eq!(
        parse_line("{\"type\":\"tool_use\",\"id\":\"t1\",\"name\":\"run\",\"content\":\"no input\"}"),
        text("no input")
    );
    assert_eq!(
        parse_line("{\"type\":\"tool_use\",\"name\":\"run\",\"input\":{},\"text\":\"no id\"}"),
        text("no id")
    );
    assert_eq!(
        parse_line("{\"type\":\"tool_use\",\"id\":3,\"name\":\"run\",\"input\":{},\"text\":\"id is a number\"}"),
        text("id is a number")
    );
    let line = "{\"type\":\"tool_use\",\"id\":\"t1\",\"input\":{}}";
    assert_eq!(parse_line(line), text(line));
}

#[test]
fn another_type_is_no_tool_record() {
    assert_eq!(
        parse_line("{\"type\":\"message\",\"id\":\"t1\",\"name\":\"run\",\"input\":{},\"content\":\"said\"}"),
        text("said")
    );
    assert_eq!(
        parse_line("{\"type\":\"TOOL\",\"id\":\"t1\",\"name\":\"run\",\"input\":{},\"content\":\"said\"}"),
        text("said")
    );
}

#[test]
fn flags_and_raw_input_of_another_type_take_their_defaults() {
    let event = parse_line(
        "{\"type\":\"tool\",\"id\":\"a\",\"name\":\"b\",\"input\":{},\"raw_input\":{},\"is_input_complete\":\"false\"}",
    );
    assert_eq!(
        event,
        LanguageModelCompletionEvent::ToolUse(LanguageModelToolUse {
            id: "a".to_string(),
            name: "b".to_string(),
            raw_input: String::new(),
            input: empty_object(),
            is_input_complete: true,
        })
    );
}

#[test]
fn fields_are_read_from_a_record() {
    let record: serde_json::Value = serde_json::from_str(
        "{\"type\":\"tool\",\"id\":\"a\",\"tool_name\":\"long\",\"input\":true,\"raw_input\":\"tr\",\"is_input_complete\":false,\"content\":\"c\",\"text\":\"t\"}",
    )
    .unwrap();
    let fields = read_fields(&record);
    assert_eq!(fields.kind, Some("tool"));
    assert_eq!(fields.id, Some("a"));
    assert_eq!(fields.name, Some("long"));
    assert_eq!(fields.input, Some(&serde_json::Value::Bool(true)));
    assert_eq!(fields.raw_input, Some("tr"));
    assert_eq!(fields.is_input_complete, Some(false));
    assert_eq!(fields.content, Some("c"));
    assert_eq!(fields.text, Some("t"));
}

#[test]
fn fields_of_a_value_without_members_are_absent() {
    let record = serde_json::Value::String("content".to_string());
    let fields = read_fields(&record);
    assert_eq!(fields.kind, None);
    assert_eq!(fields.id, None);
    assert_eq!(fields.name, None);
    assert_eq!(fields.input, None);
    assert_eq!(fields.raw_input, None);
    assert_eq!(fields.is_input_complete, None);
    assert_eq!(fields.content, None);
    assert_eq!(fields.text, None);
}

#[test]
fn event_is_decided_by_the_fields() {
    let input = empty_object();
    let fields = RecordFields {
        kind: Some("tool_use"),
        id: Some("t1"),
        name: Some("run"),
        input: Some(&input),
        raw_input: None,
        is_input_complete: None,
        content: Some("ignored"),
        text: None,
    };
    assert_eq!(
        event_from_fields("line", Some(fields)),
        LanguageModelCompletionEvent::ToolUse(LanguageModelToolUse {
            id: "t1".to_string(),
            name: "run".to_string(),
            raw_input: String::new(),
            input: empty_object(),
            is_input_complete: true,
        })
    );
    let none = RecordFields {
        kind: None,
        id: None,
        name: None,
        input: None,
        raw_input: None,
        is_input_complete: None,
        content: None,
        text: None,
    };
    assert_eq!(event_from_fields("line", Some(none)), text("line"));
    assert_eq!(event_from_fields("line", None), text("line"));
}

use openai_unofficial::response::response_from_document;
use openai_unofficial::stream::{delta_from_document, payload_of};
use openai_unofficial::text::{char_is_whitespace, find, text_eq, trimmed};
use openai_unofficial::{ContentDelta, ErrorCode, OpenAIProvider, ToolCall};
use serde_json::Value;

fn chunk(text: &str) -> Option<ContentDelta> {
    OpenAIProvider::handle_stream_chunk(text.to_string())
}

fn call(id: &str, name: &str, arguments: &str) -> ToolCall {
    ToolCall { id: id.to_string(), name: name.to_string(), arguments: arguments.to_string() }
}

#[test]
fn stream_content_hi() {
    assert_eq!(
        chunk("data: {\"choices\":[{\"delta\":{\"content\":\"Hi\"}}]}"),
        Some(ContentDelta::Content { text: "Hi".to_string() })
    );
}

#[test]
fn stream_done_with_whitespace_around() {
    assert_eq!(chunk("  data: [DONE]\n\n"), Some(ContentDelta::Done));
    assert_eq!(chunk("\u{3000}data: [DONE]\u{85}"), Some(ContentDelta::Done));
}

#[test]
fn stream_done_must_be_the_whole_payload() {
    assert_eq!(chunk("data: [DONE] x"), None);
    assert_eq!(chunk("data:  [DONE]"), None);
    assert_eq!(chunk("data:[DONE]"), None);
}

#[test]
fn stream_fragment_that_is_no_event() {
    for text in ["", "   ", "hello", "data:", "data", ": data: x", "event: ping", "DATA: [DONE]"] {
        assert_eq!(chunk(text), None, "{:?}", text);
    }
}

#[test]
fn stream_fragment_with_malformed_json() {
    for text in ["data: {", "data: ", "data: {\"choices\":[", "data: [DONE", "data: nil"] {
        assert_eq!(chunk(text), None, "{:?}", text);
    }
}

#[test]
fn stream_fragment_with_event_line() {
    assert_eq!(
        chunk("event: message\ndata: {\"choices\":[{\"delta\":{\"content\":\"a\"}}]}"),
        Some(ContentDelta::Content { text: "a".to_string() })
    );
    assert_eq!(chunk("event: end\ndata: [DONE]"), Some(ContentDelta::Done));
}

#[test]
fn stream_payload_follows_the_first_marker() {
    assert_eq!(chunk("x\ndata: [DONE]\ndata: [DONE]"), None);
    assert_eq!(payload_of("x\ndata: a\ndata: b"), Some("a\ndata: b"));
    assert_eq!(payload_of("data: a\ndata: b"), Some("a\ndata: b"));
    assert_eq!(payload_of("data: "), Some(""));
    assert_eq!(payload_of("\ndata: "), Some(""));
    assert_eq!(payload_of("data:"), None);
    assert_eq!(payload_of("é\ndata: ü"), Some("ü"));
}

#[test]
fn stream_without_choices() {
    for text in [
        "data: {}",
        "data: {\"choices\":[]}",
        "data: {\"choices\":null}",
        "data: {\"choices\":{\"delta\":{\"content\":\"x\"}}}",
        "data: []",
        "data: 5",
        "data: {\"choices\":[{}]}",
        "data: {\"choices\":[{\"delta\":{}}]}",
        "data: {\"choices\":[{\"delta\":{\"content\":null}}]}",
        "data: {\"choices\":[{\"delta\":{\"content\":5}}]}",
        "data: {\"choices\":[{\"delta\":{\"tool_calls\":[]}}]}",
        "data: {\"choices\":[{\"delta\":{\"tool_calls\":{}}}]}",
    ] {
        assert_eq!(chunk(text), None, "{:?}", text);
    }
}

#[test]
fn stream_empty_content_is_a_delta() {
    assert_eq!(
        chunk("data: {\"choices\":[{\"delta\":{\"content\":\"\"}}]}"),
        Some(ContentDelta::Content { text: String::new() })
    );
}

#[test]
fn stream_takes_first_choice_only() {
    assert_eq!(
        chunk(
            "data: {\"choices\":[{\"delta\":{\"content\":\"one\"}},{\"delta\":{\"content\":\"two\"}}]}"
        ),
        Some(ContentDelta::Content { text: "one".to_string() })
    );
}

#[test]
fn stream_content_comes_before_tool_calls() {
    assert_eq!(
        chunk(
            "data: {\"choices\":[{\"delta\":{\"tool_calls\":[{\"id\":\"c\"}],\"content\":\"t\"}}]}"
        ),
        Some(ContentDelta::Content { text: "t".to_string() })
    );
}

#[test]
fn stream_tool_call_complete() {
    let delta = chunk(
        "data: {\"choices\":[{\"delta\":{\"tool_calls\":[{\"index\":2,\"id\":\"call_1\",\
         \"function\":{\"name\":\"get_weather\",\"arguments\":\"{\\\"a\\\":\"}}]}}]}",
    )
    .unwrap();
    assert_eq!(delta.delta_type(), "tool_call");
    assert_eq!(delta.content(), None);
    assert_eq!(delta.tool_call_index(), Some(2));
    assert_eq!(delta.tool_call(), Some(call("call_1", "get_weather", "{\"a\":")));
    assert_eq!(
        delta,
        ContentDelta::ToolCall { index: Some(2), call: call("call_1", "get_weather", "{\"a\":") }
    );
}

#[test]
fn stream_tool_call_parts_default_to_empty() {
    assert_eq!(
        chunk("data: {\"choices\":[{\"delta\":{\"tool_calls\":[{\"function\":{\"arguments\":\"1}\"}}]}}]}"),
        Some(ContentDelta::ToolCall { index: None, call: call("", "", "1}") })
    );
    assert_eq!(
        chunk("data: {\"choices\":[{\"delta\":{\"tool_calls\":[{\"id\":\"c\",\"function\":5}]}}]}"),
        Some(ContentDelta::ToolCall { index: None, call: call("c", "", "") })
    );
    assert_eq!(
        chunk("data: {\"choices\":[{\"delta\":{\"tool_calls\":[{\"index\":0,\"function\":{\"name\":\"\"}}]}}]}"),
        Some(ContentDelta::ToolCall { index: Some(0), call: call("", "", "") })
    );
}

#[test]
fn stream_tool_call_with_index_only_is_nothing() {
    assert_eq!(chunk("data: {\"choices\":[{\"delta\":{\"tool_calls\":[{\"index\":1}]}}]}"), None);
    assert_eq!(
        chunk("data: {\"choices\":[{\"delta\":{\"tool_calls\":[{\"index\":1,\"id\":7,\"function\":{}}]}}]}"),
        None
    );
}

#[test]
fn stream_tool_call_takes_first_call_only() {
    assert_eq!(
        chunk("data: {\"choices\":[{\"delta\":{\"tool_calls\":[{\"index\":1},{\"id\":\"late\"}]}}]}"),
        None
    );
}

#[test]
fn stream_tool_call_index_forms() {
    let with_index = |index: &str| {
        chunk(&format!(
            "data: {{\"choices\":[{{\"delta\":{{\"tool_calls\":[{{\"index\":{},\"id\":\"c\"}}]}}}}]}}",
            index
        ))
        .unwrap()
        .tool_call_index()
    };
    assert_eq!(with_index("0"), Some(0));
    assert_eq!(with_index("4294967295"), Some(4294967295));
    assert_eq!(with_index("4294967296"), Some(0));
    assert_eq!(with_index("4294967301"), Some(5));
    assert_eq!(with_index("-1"), None);
    assert_eq!(with_index("1.0"), None);
    assert_eq!(with_index("\"1\""), None);
    assert_eq!(with_index("null"), None);
}

#[test]
fn stream_is_repeatable() {
    let text = "data: {\"choices\":[{\"delta\":{\"content\":\"Hi\"}}]}";
    assert_eq!(chunk(text), chunk(text));
    assert_eq!(chunk("junk"), chunk("junk"));
}

#[test]
fn delta_from_document_reads_a_value() {
    let doc: Value =
        serde_json::from_str("{\"choices\":[{\"delta\":{\"content\":\"x\"}}]}").unwrap();
    assert_eq!(delta_from_document(&doc), Some(ContentDelta::Content { text: "x".to_string() }));
    assert_eq!(delta_from_document(&Value::Null), None);
}

#[test]
fn response_from_document_reads_a_value() {
    let doc: Value = serde_json::from_str(
        "{\"id\":null,\"choices\":[{\"message\":{\"role\":\"assistant\",\"content\":\"x\"}}]}",
    )
    .unwrap();
    assert_eq!(response_from_document(&doc).unwrap().content, Some("x".to_string()));
    let empty: Value = serde_json::from_str("{\"choices\":[]}").unwrap();
    assert_eq!(response_from_document(&empty).unwrap_err().code, ErrorCode::EmptyResponse);
    assert_eq!(response_from_document(&Value::Null).unwrap_err().code, ErrorCode::ParseError);
}

#[test]
fn trimmed_removes_unicode_whitespace() {
    assert_eq!(trimmed("  a b \t\r\n"), "a b");
    assert_eq!(trimmed("\u{2003}\u{a0}x\u{2028}\u{2029}\u{1680}\u{202f}\u{205f}"), "x");
    assert_eq!(trimmed("\u{b}\u{c}y\u{200a}"), "y");
    assert_eq!(trimmed("\u{200b}z\u{feff}"), "\u{200b}z\u{feff}");
    assert_eq!(trimmed(" \n "), "");
    assert_eq!(trimmed(""), "");
    for text in [" data: x ", "\u{1c}a\u{1f}", "\u{180e}b", "é ", "\u{2000}\u{2001}c\u{2009}"] {
        assert_eq!(trimmed(text), text.trim(), "{:?}", text);
    }
}

#[test]
fn find_and_compare_text() {
    let chars = |s: &str| s.chars().collect::<Vec<char>>();
    assert_eq!(find(&chars("abcabc"), &chars("bc")), Some(1));
    assert_eq!(find(&chars("abc"), &chars("abcd")), None);
    assert_eq!(find(&chars("abc"), &chars("")), Some(0));
    assert_eq!(find(&chars(""), &chars("")), Some(0));
    assert_eq!(find(&chars("aab"), &chars("ab")), Some(1));
    assert_eq!(find(&chars("übc"), &chars("c")), Some(2));
    assert!(text_eq("tool", "tool"));
    assert!(!text_eq("tool", "tool "));
    assert!(!text_eq("tool", "toal"));
    assert!(text_eq("", ""));
}

#[test]
fn whitespace_is_what_std_takes_for_it() {
    for code in 0..=0x10ffffu32 {
        if let Some(c) = char::from_u32(code) {
            assert_eq!(char_is_whitespace(c), c.is_whitespace(), "{:?}", c);
        }
    }
}

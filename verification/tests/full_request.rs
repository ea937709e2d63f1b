use openai_unofficial::content::normalize_content;
use openai_unofficial::request::{build_request_body, convert_message, serialize_request};
use openai_unofficial::{ErrorCode, OpenAIProvider, ToolChoicePolicy};
use serde_json::Value;

fn parse(text: &str) -> Value {
    serde_json::from_str(text).unwrap()
}

fn full(
    messages: &str,
    tools: Option<&str>,
    choice: Option<&str>,
    max_tokens: Option<u32>,
    streaming: bool,
) -> String {
    OpenAIProvider::format_request_from_json(
        messages.to_string(),
        "gpt-4o".to_string(),
        tools.map(|t| t.to_string()),
        choice.map(|c| c.to_string()),
        max_tokens,
        Value::from(0.5f32),
        streaming,
    )
    .unwrap()
}

#[test]
fn full_request_exact_text() {
    let text = full("[{\"role\":\"user\",\"content\":\"Hello\"}]", None, None, None, false);
    assert_eq!(
        text,
        "{\"messages\":[{\"content\":\"Hello\",\"role\":\"user\"}],\"model\":\"gpt-4o\",\
         \"temperature\":0.5}"
    );
}

#[test]
fn full_request_with_everything_exact_text() {
    let text = full(
        "[{\"role\":\"user\",\"content\":\"Hello\"}]",
        Some("[{\"name\":\"t\",\"description\":\"d\",\"parameters\":{\"a\":1}}]"),
        Some("\"auto\""),
        Some(256),
        true,
    );
    assert_eq!(
        text,
        "{\"max_tokens\":256,\"messages\":[{\"content\":\"Hello\",\"role\":\"user\"}],\
         \"model\":\"gpt-4o\",\"stream\":true,\"temperature\":0.5,\"tool_choice\":\"auto\",\
         \"tools\":[{\"function\":{\"description\":\"d\",\"name\":\"t\",\"parameters\":{\"a\":1}},\
         \"type\":\"function\"}]}"
    );
}

#[test]
fn full_request_tool_result_message() {
    let text = full(
        "[{\"role\":\"tool\",\"tool_call_id\":\"call_1\",\"content\":{\"b\":[1,2],\"a\":\"x\"}}]",
        None,
        None,
        None,
        false,
    );
    let body = parse(&text);
    let message = &body["messages"][0];
    assert_eq!(message["role"], "tool");
    assert_eq!(message["tool_call_id"], "call_1");
    assert_eq!(message["content"], "{\"a\":\"x\",\"b\":[1,2]}");
    assert_eq!(message.as_object().unwrap().len(), 3);
}

#[test]
fn full_request_tool_result_without_id_or_content() {
    let body = parse(&full("[{\"role\":\"tool\"}]", None, None, None, false));
    assert_eq!(body["messages"][0]["tool_call_id"], "");
    assert_eq!(body["messages"][0]["content"], "");
}

#[test]
fn full_request_assistant_with_tool_calls_has_null_content() {
    let text = full(
        "[{\"role\":\"assistant\",\"content\":\"\",\"metadata\":{\"tool_calls\":[{\"id\":\"c\"}]}}]",
        None,
        None,
        None,
        false,
    );
    assert_eq!(
        text,
        "{\"messages\":[{\"content\":null,\"role\":\"assistant\",\"tool_calls\":[{\"id\":\"c\"}]}],\
         \"model\":\"gpt-4o\",\"temperature\":0.5}"
    );
}

#[test]
fn full_request_assistant_content_is_null_never_absent() {
    let body = parse(&full("[{\"role\":\"assistant\"}]", None, None, None, false));
    let message = body["messages"][0].as_object().unwrap();
    assert_eq!(message.get("content"), Some(&Value::Null));
    assert!(message.get("tool_calls").is_none());
    assert_eq!(message.len(), 2);
}

#[test]
fn full_request_assistant_with_text() {
    let body = parse(&full(
        "[{\"role\":\"assistant\",\"content\":\"Hi\",\"metadata\":{\"tool_calls\":[]}}]",
        None,
        None,
        None,
        false,
    ));
    assert_eq!(body["messages"][0]["content"], "Hi");
    assert!(body["messages"][0].get("tool_calls").is_none());
}

#[test]
fn full_request_assistant_with_structured_content() {
    let body = parse(&full(
        "[{\"role\":\"assistant\",\"content\":[\"a\",{\"b\":null}]}]",
        None,
        None,
        None,
        false,
    ));
    assert_eq!(body["messages"][0]["content"], "[\"a\",{\"b\":null}]");
}

#[test]
fn full_request_default_role_is_user() {
    let body = parse(&full("[{\"content\":\"x\"},{\"role\":7,\"content\":3}]", None, None, None, false));
    assert_eq!(body["messages"][0]["role"], "user");
    assert_eq!(body["messages"][0]["content"], "x");
    assert_eq!(body["messages"][1]["role"], "user");
    assert_eq!(body["messages"][1]["content"], "");
}

#[test]
fn full_request_keeps_other_roles() {
    let body = parse(&full("[{\"role\":\"system\",\"content\":\"x\"}]", None, None, None, false));
    assert_eq!(body["messages"][0]["role"], "system");
}

#[test]
fn full_request_optional_members() {
    let plain = parse(&full("[]", None, None, None, false));
    assert!(plain.get("max_tokens").is_none());
    assert!(plain.get("stream").is_none());
    assert!(plain.get("tools").is_none());
    assert!(plain.get("tool_choice").is_none());
    assert_eq!(plain["temperature"], Value::from(0.5f32));
    let rich = parse(&full("[]", None, None, Some(0), true));
    assert_eq!(rich["max_tokens"], 0);
    assert_eq!(rich["stream"], true);
    let most = parse(&full("[]", None, None, Some(u32::MAX), false));
    assert_eq!(most["max_tokens"], 4294967295u64);
}

#[test]
fn full_request_tools_are_wrapped() {
    let body = parse(&full(
        "[]",
        Some("[{\"name\":\"a\",\"description\":\"d\",\"parameters\":{}},{\"name\":\"b\"},7]"),
        None,
        None,
        false,
    ));
    let tools = body["tools"].as_array().unwrap();
    assert_eq!(tools.len(), 3);
    assert_eq!(tools[0]["type"], "function");
    assert_eq!(tools[0]["function"]["name"], "a");
    assert_eq!(tools[0]["function"]["description"], "d");
    assert_eq!(tools[0]["function"]["parameters"], parse("{}"));
    assert_eq!(tools[1]["function"]["name"], "b");
    assert_eq!(tools[1]["function"]["description"], Value::Null);
    assert_eq!(tools[1]["function"]["parameters"], Value::Null);
    assert_eq!(tools[2]["function"]["name"], Value::Null);
}

#[test]
fn full_request_unreadable_or_empty_tools_are_omitted() {
    for tools in ["not json", "{}", "[]", ""] {
        let body = parse(&full("[]", Some(tools), None, None, false));
        assert!(body.get("tools").is_none(), "{}", tools);
    }
}

#[test]
fn full_request_tool_choice_names() {
    let cases = [
        ("\"Auto\"", "auto"),
        ("\"auto\"", "auto"),
        ("\"Required\"", "required"),
        ("\"required\"", "required"),
        ("\"None\"", "none"),
        ("\"none\"", "none"),
    ];
    for (given, expected) in cases {
        let body = parse(&full("[]", None, Some(given), None, false));
        assert_eq!(body["tool_choice"], expected, "{}", given);
    }
}

#[test]
fn full_request_tool_choice_specific() {
    let text = full("[]", None, Some("{\"Specific\":\"get_weather\"}"), None, false);
    assert_eq!(
        text,
        "{\"messages\":[],\"model\":\"gpt-4o\",\"temperature\":0.5,\"tool_choice\":\
         {\"function\":{\"name\":\"get_weather\"},\"type\":\"function\"}}"
    );
}

#[test]
fn full_request_tool_choice_passthrough() {
    let given = "{\"type\":\"function\",\"function\":{\"name\":\"x\"},\"more\":[1]}";
    let body = parse(&full("[]", None, Some(given), None, false));
    assert_eq!(body["tool_choice"], parse(given));
}

#[test]
fn full_request_tool_choice_of_other_shapes_is_omitted() {
    for given in ["\"AUTO\"", "\"any\"", "5", "null", "[\"auto\"]", "{\"Specific\":5}", "{", ""] {
        let body = parse(&full("[]", None, Some(given), None, false));
        assert!(body.get("tool_choice").is_none(), "{}", given);
    }
}

#[test]
fn full_request_rejects_bad_message_list() {
    for given in ["not json", "{}", "\"x\"", "", "[1,2"] {
        let error = OpenAIProvider::format_request_from_json(
            given.to_string(),
            "gpt-4o".to_string(),
            None,
            None,
            None,
            Value::from(1u32),
            false,
        )
        .unwrap_err();
        assert_eq!(error.code, ErrorCode::JsonParseError, "{}", given);
        assert_eq!(error.code.as_str(), "JSON_PARSE_ERROR");
        assert!(error.message.starts_with("Failed to parse messages JSON: "));
        assert!(error.message.len() > "Failed to parse messages JSON: ".len());
    }
}

#[test]
fn full_request_temperature_is_handed_on() {
    let text = OpenAIProvider::format_request_from_json(
        "[]".to_string(),
        "m".to_string(),
        None,
        None,
        None,
        Value::Null,
        false,
    )
    .unwrap();
    assert_eq!(text, "{\"messages\":[],\"model\":\"m\",\"temperature\":null}");
}

#[test]
fn full_request_is_repeatable() {
    let messages = "[{\"role\":\"tool\",\"content\":{\"z\":1,\"a\":2}},{\"role\":\"assistant\"}]";
    let one = full(messages, Some("[{\"name\":\"a\"}]"), Some("\"auto\""), Some(5), true);
    let two = full(messages, Some("[{\"name\":\"a\"}]"), Some("\"auto\""), Some(5), true);
    assert_eq!(one, two);
}

#[test]
fn normalize_content_of_each_form() {
    assert_eq!(normalize_content(&Value::String("as is \"x\"".to_string())), "as is \"x\"");
    assert_eq!(normalize_content(&parse("{\"b\": 1, \"a\": [true, null]}")), "{\"a\":[true,null],\"b\":1}");
    assert_eq!(normalize_content(&parse("[ 1 , \"two\" ]")), "[1,\"two\"]");
    assert_eq!(normalize_content(&parse("{}")), "{}");
    assert_eq!(normalize_content(&parse("[]")), "[]");
    assert_eq!(normalize_content(&Value::Null), "");
    assert_eq!(normalize_content(&Value::Bool(true)), "");
    assert_eq!(normalize_content(&Value::from(12u32)), "");
    assert_eq!(normalize_content(&Value::String(String::new())), "");
}

#[test]
fn convert_message_by_role() {
    assert_eq!(
        convert_message(&parse("{\"role\":\"tool\",\"tool_call_id\":\"c\",\"content\":\"r\"}")),
        parse("{\"role\":\"tool\",\"tool_call_id\":\"c\",\"content\":\"r\"}")
    );
    assert_eq!(
        convert_message(&parse("{\"role\":\"assistant\",\"content\":null,\"extra\":1}")),
        parse("{\"role\":\"assistant\",\"content\":null}")
    );
    assert_eq!(
        convert_message(&parse("{\"role\":\"user\",\"content\":{\"k\":\"v\"},\"tool_call_id\":\"c\"}")),
        parse("{\"role\":\"user\",\"content\":\"{\\\"k\\\":\\\"v\\\"}\"}")
    );
    assert_eq!(convert_message(&parse("5")), parse("{\"role\":\"user\",\"content\":\"\"}"));
}

#[test]
fn tool_choice_policy_reads_and_writes() {
    assert_eq!(ToolChoicePolicy::from_value(&parse("\"Auto\"")), Some(ToolChoicePolicy::Auto));
    assert_eq!(
        ToolChoicePolicy::from_value(&parse("\"required\"")),
        Some(ToolChoicePolicy::Required)
    );
    assert_eq!(ToolChoicePolicy::from_value(&parse("\"None\"")), Some(ToolChoicePolicy::NoTool));
    assert_eq!(
        ToolChoicePolicy::from_value(&parse("{\"Specific\":\"f\",\"type\":\"x\"}")),
        Some(ToolChoicePolicy::Specific("f".to_string()))
    );
    assert_eq!(
        ToolChoicePolicy::from_value(&parse("{\"type\":null}")),
        Some(ToolChoicePolicy::RawPassthrough(parse("{\"type\":null}")))
    );
    assert_eq!(ToolChoicePolicy::from_value(&parse("{\"kind\":\"x\"}")), None);
    assert_eq!(ToolChoicePolicy::from_name("auto "), None);
    assert_eq!(ToolChoicePolicy::Auto.to_wire(), parse("\"auto\""));
    assert_eq!(ToolChoicePolicy::Required.to_wire(), parse("\"required\""));
    assert_eq!(ToolChoicePolicy::NoTool.to_wire(), parse("\"none\""));
    assert_eq!(
        ToolChoicePolicy::Specific("f".to_string()).to_wire(),
        parse("{\"type\":\"function\",\"function\":{\"name\":\"f\"}}")
    );
    assert_eq!(
        ToolChoicePolicy::RawPassthrough(parse("{\"type\":1}")).to_wire(),
        parse("{\"type\":1}")
    );
}

#[test]
fn build_and_serialize_request_body() {
    let messages = vec![parse("{\"role\":\"user\",\"content\":\"x\"}")];
    let tools = vec![parse("{\"name\":\"t\"}")];
    let body = build_request_body(
        &messages,
        "m",
        Some(&tools),
        Some(ToolChoicePolicy::NoTool),
        Some(9),
        Value::from(2u32),
        true,
    );
    assert_eq!(
        body,
        parse(
            "{\"model\":\"m\",\"messages\":[{\"role\":\"user\",\"content\":\"x\"}],\
             \"temperature\":2,\"max_tokens\":9,\"stream\":true,\"tool_choice\":\"none\",\
             \"tools\":[{\"type\":\"function\",\"function\":{\"name\":\"t\",\
             \"description\":null,\"parameters\":null}}]}"
        )
    );
    assert_eq!(serialize_request(&parse("{\"b\":1,\"a\":[]}")).unwrap(), "{\"a\":[],\"b\":1}");
}

use std::str::FromStr;

use jinn::failures::AccessTokenError;
use jinn::provider::backend::Backend;
use jinn::provider::codex::{
    codex_base_url, codex_endpoint, codex_models, codex_request_headers, request_instructions,
    token_error_needs_login, DEFAULT_CODEX_BASE_URL,
};
use jinn::provider::provider_config::ProviderConfig;
use jinn::provider::request::{
    build_input_items, build_tools, data_url, Attachment, FunctionTool, InputItem, LlmMessage,
    ToolDefinition,
};
use jinn::provider::stream::{ResponsesStreamParser, StopReason, StreamEvent, StreamUsage, ToolCall};

const ALL_BACKENDS: [Backend; 17] = [
    Backend::OpenAI,
    Backend::OpenAiCodex,
    Backend::Anthropic,
    Backend::Ollama,
    Backend::DeepSeek,
    Backend::XAI,
    Backend::Phind,
    Backend::Google,
    Backend::Groq,
    Backend::AzureOpenAI,
    Backend::ElevenLabs,
    Backend::Cohere,
    Backend::Mistral,
    Backend::OpenRouter,
    Backend::HuggingFace,
    Backend::LmStudio,
    Backend::ZAI,
];

const ADDED_CALL: &str = r#"{"type":"response.output_item.added","output_index":0,"item":{"type":"function_call","call_id":"call_1","name":"file_read"}}"#;
const DONE_CALL: &str = r#"{"type":"response.output_item.done","output_index":0,"item":{"type":"function_call","call_id":"call_1","name":"file_read"}}"#;
const COMPLETED: &str = r#"{"type":"response.completed","response":{}}"#;

fn error(error_type: &str, message: &str) -> StreamEvent {
    StreamEvent::Error { error_type: error_type.to_owned(), message: message.to_owned() }
}

// Backends.

#[test]
fn from_str_parses_known_backends() {
    let cases = [
        ("openai", Backend::OpenAI),
        ("openai-codex", Backend::OpenAiCodex),
        ("anthropic", Backend::Anthropic),
        ("ollama", Backend::Ollama),
        ("deepseek", Backend::DeepSeek),
        ("xai", Backend::XAI),
        ("phind", Backend::Phind),
        ("google", Backend::Google),
        ("groq", Backend::Groq),
        ("azure-openai", Backend::AzureOpenAI),
        ("elevenlabs", Backend::ElevenLabs),
        ("cohere", Backend::Cohere),
        ("mistral", Backend::Mistral),
        ("openrouter", Backend::OpenRouter),
        ("huggingface", Backend::HuggingFace),
        ("lmstudio", Backend::LmStudio),
        ("zai", Backend::ZAI),
        ("OPENAI", Backend::OpenAI),
        ("OpenRouter", Backend::OpenRouter),
    ];
    for (input, expected) in cases {
        assert_eq!(Backend::from_str(input).expect("known backend"), expected);
        assert_eq!(input.parse::<Backend>().expect("known backend"), expected);
    }
}

#[test]
fn from_str_rejects_unknown() {
    assert!(Backend::from_name("not-a-backend").is_err());
    assert!(Backend::from_name("").is_err());
    assert!(Backend::from_name(" openai").is_err());
}

#[test]
fn every_backend_name_parses_back() {
    for backend in ALL_BACKENDS {
        assert_eq!(Backend::from_name(&backend.to_string()), Ok(backend));
        assert_eq!(backend.name(), backend.to_string());
    }
}

// Provider configurations.

#[test]
fn openrouter_config_includes_experimental_metadata_header() {
    let config = ProviderConfig::openrouter();
    assert!(config
        .custom_headers
        .iter()
        .any(|(k, v)| k == "X-OpenRouter-Experimental-Metadata" && v == "enabled"));
}

#[test]
fn openrouter_config_includes_attribution_header() {
    let config = ProviderConfig::openrouter();
    for (header, value) in [
        ("HTTP-Referer", "https://jaysonlennon.dev"),
        ("X-OpenRouter-Title", "jinn"),
        ("X-OpenRouter-Categories", "cli-agent"),
    ] {
        let found = config.custom_headers.iter().find(|(k, _)| k == header).map(|(_, v)| v.as_str());
        assert_eq!(found, Some(value), "missing or wrong value for {header}");
    }
}

#[test]
fn non_openrouter_backends_carry_no_attribution_headers() {
    for backend in ALL_BACKENDS {
        if backend == Backend::OpenRouter {
            continue;
        }
        let config = ProviderConfig::for_backend(&backend);
        assert!(!config.custom_headers.iter().any(|(k, _)| {
            k == "HTTP-Referer" || k == "X-OpenRouter-Title" || k == "X-OpenRouter-Categories"
        }));
    }
}

#[test]
fn backend_maps_to_correct_config() {
    let cases = [
        (Backend::OpenAI, "OpenAI", "https://api.openai.com/v1/"),
        (Backend::OpenRouter, "OpenRouter", "https://openrouter.ai/api/v1/"),
        (Backend::ZAI, "ZAI", "https://api.z.ai/api/coding/paas/v4/"),
        (Backend::DeepSeek, "DeepSeek", "https://api.deepseek.com/"),
        (Backend::Groq, "Groq", "https://api.groq.com/openai/v1/"),
        (Backend::XAI, "XAI", "https://api.x.ai/v1/"),
        (Backend::Mistral, "Mistral", "https://api.mistral.ai/v1/"),
        (Backend::Cohere, "Cohere", "https://api.cohere.ai/v2/"),
        (Backend::HuggingFace, "HuggingFace", "https://api-inference.huggingface.co/v1/"),
        (Backend::LmStudio, "LMStudio", "http://localhost:1234/v1/"),
        (Backend::Phind, "Phind", "https://https.api.phind.com/v1/"),
        (Backend::Ollama, "Ollama", "http://localhost:11434/v1/"),
        (Backend::ElevenLabs, "ElevenLabs", "https://api.elevenlabs.io/v1/"),
        (Backend::Anthropic, "OpenAI", "https://api.openai.com/v1/"),
        (Backend::Google, "OpenAI", "https://api.openai.com/v1/"),
        (Backend::AzureOpenAI, "OpenAI", "https://api.openai.com/v1/"),
    ];
    for (backend, name, url) in cases {
        let config = ProviderConfig::for_backend(&backend);
        assert_eq!(config.name, name);
        assert_eq!(config.default_base_url, url);
        assert_eq!(config.chat_endpoint, "chat/completions");
        assert_eq!(config.models_endpoint, "models");
    }
}

// The Codex backend.

#[test]
fn the_catalog_is_not_empty() {
    assert!(!codex_models().is_empty());
}

#[test]
fn every_model_id_is_unique() {
    let models = codex_models();
    for (i, a) in models.iter().enumerate() {
        for b in &models[i + 1..] {
            assert_ne!(a.id, b.id);
        }
    }
}

#[test]
fn the_endpoint_is_derived_from_the_host() {
    assert_eq!(codex_endpoint("https://chatgpt.com/backend-api"), "https://chatgpt.com/backend-api/codex/responses");
    assert_eq!(codex_endpoint("https://h/backend-api/"), "https://h/backend-api/codex/responses");
    assert_eq!(codex_endpoint("https://h/codex"), "https://h/codex/responses");
    assert_eq!(codex_endpoint("https://h/codex/responses//"), "https://h/codex/responses");
    assert_eq!(codex_base_url(None), DEFAULT_CODEX_BASE_URL);
    assert_eq!(codex_base_url(Some("http://local".to_owned())), "http://local");
}

#[test]
fn the_request_identifies_jinn_as_the_originator() {
    let headers = codex_request_headers("acct-1", "req-1");
    let get = |name: &str| headers.iter().find(|(k, _)| k == name).map(|(_, v)| v.clone());
    assert_eq!(get("chatgpt-account-id").as_deref(), Some("acct-1"));
    assert_eq!(get("originator").as_deref(), Some("jinn"));
    assert_eq!(get("session-id").as_deref(), Some("req-1"));
    assert_eq!(get("x-client-request-id").as_deref(), Some("req-1"));
    assert_eq!(get("accept").as_deref(), Some("text/event-stream"));
}

#[test]
fn a_missing_system_prompt_uses_the_default_instructions() {
    assert_eq!(request_instructions(None), "You are a helpful assistant.");
    assert_eq!(request_instructions(Some("Be brief.")), "Be brief.");
}

#[test]
fn unusable_credentials_fail_without_contacting_the_backend() {
    assert!(token_error_needs_login(AccessTokenError::NotAuthenticated));
    assert!(token_error_needs_login(AccessTokenError::Expired));
    assert!(!token_error_needs_login(AccessTokenError::Storage));
    assert!(!token_error_needs_login(AccessTokenError::Provider));
}

// The Responses event stream.

#[test]
fn an_output_text_delta_becomes_a_text_event() {
    let mut parser = ResponsesStreamParser::new();
    let events = parser.parse_event(r#"{"type":"response.output_text.delta","delta":"Hello"}"#);
    assert_eq!(events, vec![StreamEvent::Text("Hello".to_owned())]);
}

#[test]
fn a_reasoning_summary_delta_becomes_a_reasoning_event() {
    let mut parser = ResponsesStreamParser::new();
    let events =
        parser.parse_event(r#"{"type":"response.reasoning_summary_text.delta","delta":"Thinking…"}"#);
    assert_eq!(events, vec![StreamEvent::Reasoning("Thinking…".to_owned())]);
}

#[test]
fn an_added_function_call_starts_a_tool_use() {
    let mut parser = ResponsesStreamParser::new();
    let events = parser.parse_event(
        r#"{"type":"response.output_item.added","output_index":1,"item":{"type":"function_call","call_id":"call_1","name":"file_read"}}"#,
    );
    assert_eq!(
        events,
        vec![StreamEvent::ToolUseStart { index: 1, id: "call_1".to_owned(), name: "file_read".to_owned() }]
    );
}

#[test]
fn streamed_arguments_surface_as_input_deltas() {
    let mut parser = ResponsesStreamParser::new();
    parser.parse_event(ADDED_CALL);
    let events = parser.parse_event(
        r#"{"type":"response.function_call_arguments.delta","output_index":0,"delta":"{\"path\":"}"#,
    );
    assert_eq!(
        events,
        vec![StreamEvent::ToolUseInputDelta { index: 0, partial_json: "{\"path\":".to_owned() }]
    );
}

#[test]
fn a_finished_function_call_is_emitted_complete() {
    let mut parser = ResponsesStreamParser::new();
    parser.parse_event(ADDED_CALL);
    parser.parse_event(
        r#"{"type":"response.function_call_arguments.delta","output_index":0,"delta":"{\"path\":"}"#,
    );
    parser.parse_event(
        r#"{"type":"response.function_call_arguments.delta","output_index":0,"delta":"\"a\"}"}"#,
    );
    let events = parser.parse_event(DONE_CALL);
    assert_eq!(
        events,
        vec![StreamEvent::ToolUseComplete {
            index: 0,
            tool_call: ToolCall {
                id: "call_1".to_owned(),
                name: "file_read".to_owned(),
                arguments: "{\"path\":\"a\"}".to_owned(),
            },
        }]
    );
}

#[test]
fn a_completed_response_ends_the_turn() {
    let mut parser = ResponsesStreamParser::new();
    let events = parser.parse_event(COMPLETED);
    assert_eq!(events, vec![StreamEvent::Done { stop_reason: StopReason::EndTurn, usage: None }]);
    assert!(parser.is_finished());
}

#[test]
fn a_response_that_called_a_tool_stops_for_tool_use() {
    let mut parser = ResponsesStreamParser::new();
    parser.parse_event(ADDED_CALL);
    parser.parse_event(DONE_CALL);
    let events = parser.parse_event(COMPLETED);
    assert_eq!(events, vec![StreamEvent::Done { stop_reason: StopReason::ToolUse, usage: None }]);
}

#[test]
fn a_completed_response_reports_token_usage() {
    let mut parser = ResponsesStreamParser::new();
    let events = parser.parse_event(
        r#"{"type":"response.completed","response":{"usage":{"input_tokens":120,"output_tokens":45,"input_tokens_details":{"cached_tokens":100}}}}"#,
    );
    assert_eq!(
        events,
        vec![StreamEvent::Done {
            stop_reason: StopReason::EndTurn,
            usage: Some(StreamUsage {
                prompt_tokens: Some(120),
                completion_tokens: Some(45),
                cached_tokens: Some(100),
            }),
        }]
    );
}

#[test]
fn a_failed_response_surfaces_the_provider_error() {
    let mut parser = ResponsesStreamParser::new();
    let events = parser.parse_event(
        r#"{"type":"response.failed","response":{"error":{"code":"usage_limit_reached","message":"quota exhausted"}}}"#,
    );
    assert_eq!(events, vec![error("usage_limit_reached", "quota exhausted")]);
}

#[test]
fn a_stream_that_stops_early_still_terminates() {
    let mut parser = ResponsesStreamParser::new();
    parser.parse_event(r#"{"type":"response.output_text.delta","delta":"partial"}"#);
    let events = parser.finish_without_terminal_event();
    assert_eq!(
        events,
        vec![error("incomplete_stream", "the response stream ended before the model finished")]
    );
}

#[test]
fn a_completed_stream_needs_no_synthetic_terminator() {
    let mut parser = ResponsesStreamParser::new();
    parser.parse_event(COMPLETED);
    assert!(parser.finish_without_terminal_event().is_empty());
}

#[test]
fn an_unrecognized_event_is_ignored() {
    let mut parser = ResponsesStreamParser::new();
    assert!(parser.parse_event(r#"{"type":"response.audio.delta","delta":"..."}"#).is_empty());
    assert!(parser.parse_event("not json").is_empty());
    assert!(!parser.is_finished());
}

#[test]
fn terminal_aliases_finish_once_and_ignore_late_content() {
    let mut parser = ResponsesStreamParser::new();
    let events = parser.parse_event(r#"{"type":"response.done","response":{}}"#);
    assert_eq!(events.len(), 1);
    assert!(parser.parse_event(r#"{"type":"response.output_text.delta","delta":"late"}"#).is_empty());
    assert!(parser.parse_event(COMPLETED).is_empty());
    assert!(parser.finish_without_terminal_event().is_empty());
}

#[test]
fn incomplete_responses_surface_failure() {
    let mut parser = ResponsesStreamParser::new();
    let events = parser.parse_event(
        r#"{"type":"response.incomplete","response":{"status":"incomplete","incomplete_details":{"reason":"content_filter"}}}"#,
    );
    assert_eq!(events, vec![error("response.incomplete", "content_filter")]);
}

#[test]
fn running_out_of_output_tokens_still_completes() {
    let mut parser = ResponsesStreamParser::new();
    let events = parser.parse_event(
        r#"{"type":"response.incomplete","response":{"status":"incomplete","incomplete_details":{"reason":"max_output_tokens"}}}"#,
    );
    assert_eq!(
        events,
        vec![StreamEvent::Done { stop_reason: StopReason::Other("max_tokens".to_owned()), usage: None }]
    );
}

#[test]
fn a_cancelled_status_is_a_failure() {
    let mut parser = ResponsesStreamParser::new();
    let events = parser.parse_event(r#"{"type":"response.completed","response":{"status":"cancelled"}}"#);
    assert_eq!(events, vec![error("response.completed", "the provider did not complete the response")]);
}

#[test]
fn a_top_level_error_event_uses_its_type() {
    let mut parser = ResponsesStreamParser::new();
    let events = parser.parse_event(r#"{"type":"error","error":{"type":"rate_limit","message":"slow down"}}"#);
    assert_eq!(events, vec![error("rate_limit", "slow down")]);
}

#[test]
fn a_refusal_delta_is_text() {
    let mut parser = ResponsesStreamParser::new();
    let events = parser.parse_event(r#"{"type":"response.refusal.delta","delta":"No."}"#);
    assert_eq!(events, vec![StreamEvent::Text("No.".to_owned())]);
}

// Request items.

fn user(content: &str) -> LlmMessage {
    LlmMessage::User { content: content.to_owned(), attachments: Vec::new() }
}

fn call(id: &str, name: &str, arguments: &str) -> ToolCall {
    ToolCall { id: id.to_owned(), name: name.to_owned(), arguments: arguments.to_owned() }
}

fn tool(name: &str, server_tool_type: Option<&str>) -> ToolDefinition {
    ToolDefinition {
        name: name.to_owned(),
        description: "Read a file".to_owned(),
        parameters: "{\"type\":\"object\",\"properties\":{}}".to_owned(),
        server_tool_type: server_tool_type.map(str::to_owned),
    }
}

#[test]
fn a_user_message_becomes_an_input_text_item() {
    let items = build_input_items(&[user("hello")]);
    assert_eq!(items, vec![InputItem::UserMessage { text: "hello".to_owned(), image_urls: Vec::new() }]);
}

#[test]
fn an_image_attachment_becomes_an_input_image_part() {
    let messages = vec![LlmMessage::User {
        content: "describe this".to_owned(),
        attachments: vec![Attachment::image("image/png", vec![1, 2, 3])],
    }];
    let items = build_input_items(&messages);
    match &items[..] {
        [InputItem::UserMessage { image_urls, .. }] => {
            assert_eq!(image_urls, &vec!["data:image/png;base64,AQID".to_owned()]);
        }
        _ => panic!("expected one user item"),
    }
    let odd = Attachment::image("image/gif", vec![0xfb, 0xff]);
    assert_eq!(data_url(&odd), "data:image/gif;base64,+/8=");
}

#[test]
fn an_assistant_tool_call_becomes_a_function_call_item() {
    let messages = vec![LlmMessage::Assistant {
        content: String::new(),
        tool_calls: Some(vec![call("call_1", "file_read", "{\"path\":\"a\"}")]),
    }];
    assert_eq!(
        build_input_items(&messages),
        vec![InputItem::FunctionCall {
            call_id: "call_1".to_owned(),
            name: "file_read".to_owned(),
            arguments: "{\"path\":\"a\"}".to_owned(),
        }]
    );
}

#[test]
fn a_tool_result_becomes_a_function_call_output_item() {
    let messages = vec![LlmMessage::Tool {
        tool_call_id: "call_1".to_owned(),
        name: "file_read".to_owned(),
        content: "file contents".to_owned(),
    }];
    assert_eq!(
        build_input_items(&messages),
        vec![InputItem::FunctionCallOutput {
            call_id: "call_1".to_owned(),
            output: "file contents".to_owned(),
        }]
    );
}

#[test]
fn an_assistant_turn_with_text_and_a_call_produces_both_items() {
    let messages = vec![
        user("look"),
        LlmMessage::Assistant {
            content: "Let me look.".to_owned(),
            tool_calls: Some(vec![call("call_1", "file_read", "{}")]),
        },
    ];
    let items = build_input_items(&messages);
    assert_eq!(items.len(), 3);
    assert_eq!(
        items[1],
        InputItem::AssistantMessage { id: "msg_jinn_1".to_owned(), text: "Let me look.".to_owned() }
    );
    assert!(matches!(items[2], InputItem::FunctionCall { .. }));
}

#[test]
fn an_empty_assistant_turn_contributes_no_message_item() {
    let messages = vec![LlmMessage::Assistant { content: String::new(), tool_calls: None }];
    assert!(build_input_items(&messages).is_empty());
}

#[test]
fn a_tool_definition_becomes_a_function_tool() {
    assert_eq!(
        build_tools(&[tool("file_read", None)]),
        vec![FunctionTool {
            name: "file_read".to_owned(),
            description: "Read a file".to_owned(),
            parameters: "{\"type\":\"object\",\"properties\":{}}".to_owned(),
        }]
    );
}

#[test]
fn a_server_side_tool_is_not_sent() {
    assert!(build_tools(&[tool("web_search", Some("openrouter_web_search"))]).is_empty());
    let kept = build_tools(&[tool("a", None), tool("b", Some("x")), tool("c", None)]);
    let names: Vec<&str> = kept.iter().map(|t| t.name.as_str()).collect();
    assert_eq!(names, vec!["a", "c"]);
}

use dora_mcp_gateway::config::{
    config_format_of, default_endpoint, default_false, default_gemini_api_url,
    default_listen_addr, ConfigFormat,
};
use dora_mcp_gateway::error::AppError;
use dora_mcp_gateway::gateway::{build_completion, build_completion_now, concat_lines};
use dora_mcp_gateway::tool::{Tool, ToolSet};
use dora_mcp_gateway::turn::{turn_step, TurnEvent, TurnState};
use dora_mcp_gateway::utils::{env_key_of, gen_call_id, gen_chat_id, gen_completion_id, str_eq};

#[test]
fn defaults_have_their_documented_values() {
    assert_eq!(default_listen_addr(), "0.0.0.0:8008");
    assert_eq!(default_endpoint().as_deref(), Some("v1"));
    assert!(!default_false());
    assert_eq!(
        default_gemini_api_url(),
        "https://generativelanguage.googleapis.com/v1beta/models/gemini-2.0-flash:generateContent"
    );
}

#[test]
fn config_format_follows_the_extension() {
    assert_eq!(config_format_of("yaml"), Some(ConfigFormat::Yaml));
    assert_eq!(config_format_of("yml"), Some(ConfigFormat::Yaml));
    assert_eq!(config_format_of("json"), Some(ConfigFormat::Json));
    assert_eq!(config_format_of("toml"), Some(ConfigFormat::Toml));
    assert_eq!(config_format_of("ini"), None);
    assert_eq!(config_format_of(""), None);
}

#[test]
fn env_references_are_recognized() {
    assert_eq!(env_key_of("env:HOME").as_deref(), Some("HOME"));
    assert_eq!(env_key_of("env:"), Some(String::new()));
    assert_eq!(env_key_of("plain value"), None);
    assert_eq!(env_key_of("env"), None);
}

#[test]
fn str_eq_compares_by_content() {
    assert!(str_eq("abc", "abc"));
    assert!(!str_eq("abc", "abd"));
    assert!(!str_eq("abc", "ab"));
    assert!(str_eq("", ""));
}

#[test]
fn generated_identifiers_carry_their_prefixes() {
    let call = gen_call_id();
    assert!(call.starts_with("call-"));
    assert_eq!(call.len(), 41);
    let chat = gen_chat_id();
    assert!(chat.starts_with("chatcmpl-"));
    assert_eq!(chat.len(), 45);
    let completion = gen_completion_id();
    assert!(completion.starts_with("completion-"));
    assert_eq!(completion.len(), 47);
    assert_ne!(gen_call_id(), gen_call_id());
}

#[test]
fn registry_keeps_registration_order_and_replaces_by_name() {
    let mut ts = ToolSet::new();
    let mk = |name: &str, server: &str| Tool {
        name: String::from(name),
        description: String::from("d"),
        parameters: String::from("{}"),
        server: String::from(server),
    };
    ts.add_tool(mk("A", "s1"));
    ts.add_tool(mk("B", "s2"));
    assert_eq!(ts.len(), 2);
    assert_eq!(ts.tools()[0].name, "A");
    assert_eq!(ts.tools()[1].name, "B");
    // last write wins, in the position of the first
    ts.add_tool(mk("A", "s9"));
    assert_eq!(ts.len(), 2);
    assert_eq!(ts.tools()[0].name, "A");
    assert_eq!(ts.tools()[0].server, "s9");
    assert_eq!(ts.tools()[1].name, "B");
    assert!(ts.get_tool("B").is_some());
    assert_eq!(ts.get_tool("B").unwrap().server, "s2");
    assert!(ts.get_tool("C").is_none());
}

#[test]
fn reply_fragments_fold_behind_newlines() {
    let parts = vec![Some(String::from("a")), None, Some(String::from("b"))];
    assert_eq!(concat_lines(&parts), "\na\nb");
    assert_eq!(concat_lines(&vec![]), "");
    assert_eq!(concat_lines(&vec![None]), "");
}

#[test]
fn completion_objects_count_reply_bytes() {
    let r = build_completion(
        String::from("hello"),
        7,
        Some(String::from("m1")),
        String::from("completion-x"),
        123,
    );
    assert_eq!(r.id, "completion-x");
    assert_eq!(r.object, "chat.completion");
    assert_eq!(r.created, 123);
    assert_eq!(r.model, "m1");
    assert_eq!(r.choices.len(), 1);
    assert_eq!(r.choices[0].index, 0);
    assert_eq!(r.choices[0].finish_reason, "stop");
    assert_eq!(r.usage.prompt_tokens, 7);
    assert_eq!(r.usage.completion_tokens, 5);
    assert_eq!(r.usage.total_tokens, 12);
}

#[test]
fn completion_tokens_count_bytes_not_characters() {
    let r = build_completion(String::from("h\u{00e9}llo"), 0, None, String::from("id"), 0);
    assert_eq!(r.usage.completion_tokens, 6);
    assert_eq!(r.usage.total_tokens, 6);
}

#[test]
fn fresh_completions_carry_generated_identity_and_time() {
    let r = build_completion_now(String::from("hi"), 0, None);
    assert!(r.id.starts_with("completion-"));
    assert_eq!(r.model, "");
    assert_eq!(r.usage.completion_tokens, 2);
}

#[test]
fn a_turn_walks_the_diagram_and_ends_terminally() {
    let s = turn_step(TurnState::Received, TurnEvent::BackendInvoked).unwrap();
    assert_eq!(s, TurnState::BackendCalled);
    // the failing branch is terminal
    assert_eq!(
        turn_step(s, TurnEvent::BackendErred),
        Some(TurnState::BackendFailed)
    );
    assert_eq!(turn_step(TurnState::BackendFailed, TurnEvent::BackendAnswered), None);
    // the successful branch reaches Returned
    let s = turn_step(s, TurnEvent::BackendAnswered).unwrap();
    let s = turn_step(s, TurnEvent::CallsExtracted).unwrap();
    let s = turn_step(s, TurnEvent::CallsHandled).unwrap();
    let s = turn_step(s, TurnEvent::ResponseReturned).unwrap();
    assert_eq!(s, TurnState::Returned);
    assert_eq!(turn_step(s, TurnEvent::BackendInvoked), None);
    // out-of-order events are refused
    assert_eq!(turn_step(TurnState::Received, TurnEvent::CallsHandled), None);
}

#[test]
fn errors_surface_as_server_errors_with_briefs() {
    let e = AppError::public(String::from("told you"));
    assert_eq!(e.status_code(), 500);
    assert_eq!(e.brief(), "told you");
    let i = AppError::internal(String::from("secret detail"));
    assert_eq!(i.status_code(), 500);
    assert_eq!(i.brief(), "Internal server error.");
    assert!(matches!(AppError::Provider { status: 502, body: String::new() }, AppError::Provider { .. }));
}

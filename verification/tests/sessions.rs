use dora_mcp_gateway::chat::{
    ChatCompletionMessage, ChatCompletionRequest, ChatCompletionRole, MessageContent, ToolCall,
    ToolFunction,
};
use dora_mcp_gateway::client::{ChatClient, DoraClient};
use dora_mcp_gateway::config::DoraConfig;
use dora_mcp_gateway::session::{ChatSession, ToolCallStep, ToolOutcome};
use dora_mcp_gateway::tool::{Tool, ToolSet};

fn dora_client() -> ChatClient {
    ChatClient::Dora(DoraClient::new(&DoraConfig { output: String::from("text") }))
}

fn tool(name: &str, server: &str) -> Tool {
    Tool {
        name: String::from(name),
        description: String::from("a test tool"),
        parameters: String::from("{}"),
        server: String::from(server),
    }
}

fn text_of(m: &ChatCompletionMessage) -> String {
    match &m.content {
        MessageContent::Text(s) => s.clone(),
        MessageContent::Parts(v) => v.join("|"),
    }
}

#[test]
fn system_prompt_is_appended() {
    let mut s = ChatSession::new(dora_client(), ToolSet::new(), None);
    s.add_system_prompt("be helpful");
    let msgs = s.messages();
    assert_eq!(msgs.len(), 1);
    assert_eq!(msgs[0].role, ChatCompletionRole::System);
    assert_eq!(text_of(&msgs[0]), "be helpful");
}

#[test]
fn prepare_turn_sends_full_history_and_model() {
    let mut s = ChatSession::new(
        dora_client(),
        ToolSet::new(),
        Some(String::from("deepseek-chat")),
    );
    s.add_system_prompt("sys");
    let req = ChatCompletionRequest {
        model: Some(String::from("ignored-inbound-model")),
        messages: vec![ChatCompletionMessage::user(String::from("hi"))],
        tools: None,
        stream: Some(false),
        user: Some(String::from("u1")),
    };
    let sent = s.prepare_turn(req);
    assert_eq!(sent.model.as_deref(), Some("deepseek-chat"));
    assert_eq!(sent.messages.len(), 2);
    assert_eq!(sent.messages[0].role, ChatCompletionRole::System);
    assert_eq!(sent.messages[1].role, ChatCompletionRole::User);
    assert_eq!(text_of(&sent.messages[1]), "hi");
    assert!(sent.tools.is_none());
    assert_eq!(sent.stream, Some(false));
    assert_eq!(sent.user.as_deref(), Some("u1"));
    assert_eq!(s.messages().len(), 2);
}

#[test]
fn prepare_turn_attaches_catalogue_when_registry_nonempty() {
    let mut ts = ToolSet::new();
    ts.add_tool(tool("alpha", "s1"));
    ts.add_tool(tool("beta", "s2"));
    let mut s = ChatSession::new(dora_client(), ts, None);
    let req = ChatCompletionRequest {
        model: None,
        messages: vec![],
        tools: None,
        stream: None,
        user: None,
    };
    let sent = s.prepare_turn(req);
    let infos = sent.tools.expect("catalogue expected");
    assert_eq!(infos.len(), 2);
    assert_eq!(infos[0].name, "alpha");
    assert_eq!(infos[1].name, "beta");
    assert_eq!(infos[0].description, "a test tool");
    assert_eq!(infos[0].parameters, "{}");
}

#[test]
fn structured_single_call_is_extracted_exactly_once() {
    let msg = ChatCompletionMessage {
        role: ChatCompletionRole::Assistant,
        content: MessageContent::Text(String::new()),
        tool_calls: Some(vec![ToolCall {
            ty: String::from("function"),
            function: ToolFunction {
                name: String::from("X"),
                arguments: String::from("{}"),
            },
        }]),
    };
    let calls = ChatSession::extract_tool_calls(&msg);
    assert_eq!(calls.len(), 1);
    assert_eq!(calls[0].name, "X");
    assert_eq!(calls[0].arguments, "{}");
}

#[test]
fn one_structured_call_runs_one_tool_and_appends_one_message() {
    let mut ts = ToolSet::new();
    ts.add_tool(tool("X", "s1"));
    let mut s = ChatSession::new(dora_client(), ts, None);
    let msg = ChatCompletionMessage {
        role: ChatCompletionRole::Assistant,
        content: MessageContent::Text(String::new()),
        tool_calls: Some(vec![ToolCall {
            ty: String::from("function"),
            function: ToolFunction {
                name: String::from("X"),
                arguments: String::from("{}"),
            },
        }]),
    };
    let calls = ChatSession::extract_tool_calls(&msg);
    assert_eq!(calls.len(), 1);
    let mut executed = 0;
    for call in &calls {
        match s.plan_tool_call(call) {
            ToolCallStep::Invoke { .. } => {
                executed += 1;
                s.record_tool_outcome(&ToolOutcome::Succeeded(vec![String::from("42")]));
            }
            ToolCallStep::Skip => {}
        }
    }
    assert_eq!(executed, 1);
    assert_eq!(s.messages().len(), 1);
    assert_eq!(text_of(&s.messages()[0]), "call tool result: 42");
}

#[test]
fn non_function_entries_are_filtered_out() {
    let msg = ChatCompletionMessage {
        role: ChatCompletionRole::Assistant,
        content: MessageContent::Text(String::new()),
        tool_calls: Some(vec![
            ToolCall {
                ty: String::from("other"),
                function: ToolFunction {
                    name: String::from("skipped"),
                    arguments: String::new(),
                },
            },
            ToolCall {
                ty: String::from("function"),
                function: ToolFunction {
                    name: String::from("kept"),
                    arguments: String::new(),
                },
            },
        ]),
    };
    let calls = ChatSession::extract_tool_calls(&msg);
    assert_eq!(calls.len(), 1);
    assert_eq!(calls[0].name, "kept");
}

#[test]
fn empty_structured_list_suppresses_the_fallback() {
    let msg = ChatCompletionMessage {
        role: ChatCompletionRole::Assistant,
        content: MessageContent::Text(String::from("Tool: x\nInputs:\na=1")),
        tool_calls: Some(vec![]),
    };
    assert!(ChatSession::extract_tool_calls(&msg).is_empty());
}

#[test]
fn fallback_grammar_is_used_without_a_structured_list() {
    let msg = ChatCompletionMessage {
        role: ChatCompletionRole::Assistant,
        content: MessageContent::Text(String::from("Tool: search\nInputs:\nquery=cats")),
        tool_calls: None,
    };
    let calls = ChatSession::extract_tool_calls(&msg);
    assert_eq!(calls.len(), 1);
    assert_eq!(calls[0].name, "search");
    assert_eq!(calls[0].arguments, "query=cats");
}

#[test]
fn fallback_covers_every_text_part_in_order() {
    let msg = ChatCompletionMessage {
        role: ChatCompletionRole::Assistant,
        content: MessageContent::Parts(vec![
            String::from("Tool: a\nInputs:\n1"),
            String::from("no markers here"),
            String::from("Tool: b\nInputs:\n2"),
        ]),
        tool_calls: None,
    };
    let calls = ChatSession::extract_tool_calls(&msg);
    assert_eq!(calls.len(), 2);
    assert_eq!(calls[0].name, "a");
    assert_eq!(calls[1].name, "b");
}

#[test]
fn unknown_tool_is_skipped_without_history_mutation() {
    let mut ts = ToolSet::new();
    ts.add_tool(tool("known", "s1"));
    let s = ChatSession::new(dora_client(), ts, None);
    let step = s.plan_tool_call(&ToolFunction {
        name: String::from("missing"),
        arguments: String::from("{}"),
    });
    assert!(matches!(step, ToolCallStep::Skip));
    assert!(s.messages().is_empty());
}

#[test]
fn known_tool_is_invoked_on_its_server() {
    let mut ts = ToolSet::new();
    ts.add_tool(tool("known", "server-7"));
    let s = ChatSession::new(dora_client(), ts, None);
    let step = s.plan_tool_call(&ToolFunction {
        name: String::from("known"),
        arguments: String::from("{\"q\": 1}"),
    });
    match step {
        ToolCallStep::Invoke { server, name, arguments_parsed, .. } => {
            assert_eq!(server, "server-7");
            assert_eq!(name, "known");
            assert!(arguments_parsed);
        }
        ToolCallStep::Skip => panic!("expected an invocation"),
    }
}

#[test]
fn malformed_arguments_are_treated_as_empty_not_fatal() {
    let mut ts = ToolSet::new();
    ts.add_tool(tool("known", "s1"));
    let s = ChatSession::new(dora_client(), ts, None);
    let step = s.plan_tool_call(&ToolFunction {
        name: String::from("known"),
        arguments: String::from("not json at all"),
    });
    match step {
        ToolCallStep::Invoke { arguments_parsed, .. } => assert!(!arguments_parsed),
        ToolCallStep::Skip => panic!("expected an invocation"),
    }
}

#[test]
fn flagged_error_appends_one_failure_message() {
    let mut s = ChatSession::new(dora_client(), ToolSet::new(), None);
    s.record_tool_outcome(&ToolOutcome::ErrorFlagged);
    let msgs = s.messages();
    assert_eq!(msgs.len(), 1);
    assert_eq!(msgs[0].role, ChatCompletionRole::User);
    assert_eq!(text_of(&msgs[0]), "tool call failed, mcp call error");
}

#[test]
fn failed_call_appends_the_failure_text() {
    let mut s = ChatSession::new(dora_client(), ToolSet::new(), None);
    s.record_tool_outcome(&ToolOutcome::Failed(String::from("timeout")));
    let msgs = s.messages();
    assert_eq!(msgs.len(), 1);
    assert_eq!(text_of(&msgs[0]), "tool call failed: timeout");
}

#[test]
fn success_appends_one_pretty_printed_message_per_text() {
    let mut s = ChatSession::new(dora_client(), ToolSet::new(), None);
    s.record_tool_outcome(&ToolOutcome::Succeeded(vec![
        String::from("{\"a\":1}"),
        String::from("not json"),
    ]));
    let msgs = s.messages();
    assert_eq!(msgs.len(), 2);
    assert_eq!(text_of(&msgs[0]), "call tool result: {\n  \"a\": 1\n}");
    assert_eq!(text_of(&msgs[1]), "call tool result: null");
    assert_eq!(msgs[0].role, ChatCompletionRole::User);
}

#[test]
fn ensure_user_assigns_an_identifier_only_when_missing() {
    let mut req = ChatCompletionRequest {
        model: None,
        messages: vec![],
        tools: None,
        stream: None,
        user: Some(String::from("me")),
    };
    assert_eq!(req.ensure_user(), "me");
    assert_eq!(req.user.as_deref(), Some("me"));

    let mut req2 = ChatCompletionRequest {
        model: None,
        messages: vec![],
        tools: None,
        stream: None,
        user: None,
    };
    let id = req2.ensure_user();
    assert!(id.starts_with("chatcmpl-"));
    assert_eq!(id.len(), 45);
    assert_eq!(req2.user.as_deref(), Some(id.as_str()));
}

#[test]
fn request_texts_flatten_message_contents_in_order() {
    let req = ChatCompletionRequest {
        model: None,
        messages: vec![
            ChatCompletionMessage::system(String::from("a")),
            ChatCompletionMessage {
                role: ChatCompletionRole::User,
                content: MessageContent::Parts(vec![String::from("b"), String::from("c")]),
                tool_calls: None,
            },
        ],
        tools: None,
        stream: None,
        user: None,
    };
    assert_eq!(req.to_texts(), vec!["a", "b", "c"]);
}

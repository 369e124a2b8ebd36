use dora_mcp_gateway::chat::{ChatCompletionResponse, Usage};
use dora_mcp_gateway::client::{
    interpret_http_reply, ChatClient, DeepseekClient, DoraClient, GeminiClient, MoonshotClient,
    OpenaiClient,
};
use dora_mcp_gateway::config::{
    DeepseekConfig, DoraConfig, GeminiConfig, MoonshotConfig, OpenaiConfig,
};
use dora_mcp_gateway::correlate::CorrelationRouter;
use dora_mcp_gateway::error::AppError;

fn gemini() -> GeminiClient {
    GeminiClient::new(&GeminiConfig {
        api_key: String::from("k1"),
        api_url: String::from("https://gemini.example/v1:generateContent"),
        proxy: false,
    })
}

fn response() -> ChatCompletionResponse {
    ChatCompletionResponse {
        id: String::from("id"),
        object: String::from("chat.completion"),
        created: 0,
        model: String::from("m"),
        choices: vec![],
        usage: Usage { prompt_tokens: 0, completion_tokens: 0, total_tokens: 0 },
    }
}

#[test]
fn gemini_posts_to_its_url_with_the_goog_header() {
    let plan = ChatClient::Gemini(gemini()).http_plan().expect("plan expected");
    assert_eq!(plan.url, "https://gemini.example/v1:generateContent");
    assert_eq!(plan.header_name, "X-goog-api-key");
    assert_eq!(plan.header_value, "k1");
    assert!(!plan.proxy);
}

#[test]
fn bearer_providers_append_the_completions_path() {
    let deepseek = ChatClient::Deepseek(DeepseekClient::new(&DeepseekConfig {
        api_key: String::from("k2"),
        api_url: String::from("https://api.deepseek.example"),
        proxy: true,
    }));
    let plan = deepseek.http_plan().expect("plan expected");
    assert_eq!(plan.url, "https://api.deepseek.example/chat/completions");
    assert_eq!(plan.header_name, "Authorization");
    assert_eq!(plan.header_value, "Bearer k2");
    assert!(plan.proxy);

    let openai = ChatClient::Openai(OpenaiClient::new(&OpenaiConfig {
        api_key: String::from("k3"),
        api_url: String::from("https://api.openai.example/v1"),
        proxy: false,
    }));
    assert_eq!(
        openai.http_plan().expect("plan expected").url,
        "https://api.openai.example/v1/chat/completions"
    );

    let moonshot = ChatClient::Moonshot(MoonshotClient::new(&MoonshotConfig {
        api_key: String::from("k4"),
        api_url: String::from("https://api.moonshot.example/v1"),
        proxy: false,
    }));
    assert_eq!(
        moonshot.http_plan().expect("plan expected").header_value,
        "Bearer k4"
    );
}

#[test]
fn the_dataflow_backend_makes_no_http_call() {
    let dora = ChatClient::Dora(DoraClient::new(&DoraConfig { output: String::from("text") }));
    assert!(dora.http_plan().is_none());
}

#[test]
fn graph_call_registers_a_pending_call() {
    let dora = DoraClient::new(&DoraConfig { output: String::from("text") });
    let mut router = CorrelationRouter::new();
    let id = dora.begin_complete(&mut router);
    assert!(id.starts_with("call-"));
    assert_eq!(router.len(), 1);
    assert!(router.resolve(&id, String::from("reply")));
    assert_eq!(router.take(&id), Some(String::from("reply")));
}

#[test]
fn non_success_status_is_a_provider_error_with_the_body() {
    match interpret_http_reply(500, String::from("boom"), Some(response())) {
        Err(AppError::Provider { status, body }) => {
            assert_eq!(status, 500);
            assert_eq!(body, "boom");
        }
        _ => panic!("expected a provider error"),
    }
    assert!(matches!(
        interpret_http_reply(199, String::new(), None),
        Err(AppError::Provider { .. })
    ));
    assert!(matches!(
        interpret_http_reply(301, String::new(), None),
        Err(AppError::Provider { .. })
    ));
}

#[test]
fn status_boundaries_are_inclusive_at_200_and_exclusive_at_300() {
    assert!(interpret_http_reply(200, String::from("{}"), Some(response())).is_ok());
    assert!(interpret_http_reply(299, String::from("{}"), Some(response())).is_ok());
    assert!(interpret_http_reply(300, String::new(), Some(response())).is_err());
}

#[test]
fn unparsable_success_body_is_malformed() {
    match interpret_http_reply(200, String::from("<html>"), None) {
        Err(AppError::MalformedResponse(body)) => assert_eq!(body, "<html>"),
        _ => panic!("expected a malformed-response error"),
    }
}

#[test]
fn parsed_success_body_is_returned() {
    match interpret_http_reply(200, String::from("{}"), Some(response())) {
        Ok(c) => assert_eq!(c.object, "chat.completion"),
        Err(_) => panic!("expected the completion"),
    }
}

//! The chat backend capability: one interface, `complete`, over several
//! upstream providers. A remote provider is one outbound HTTP call whose
//! request shape is planned here and whose reply is interpreted here; the
//! dataflow provider round-trips the request through the event-driven
//! peer via the correlation router. Selection happens once, at
//! construction from configuration.

use vstd::prelude::*;
use vstd::string::*;

use crate::chat::ChatCompletionResponse;
use crate::config::{DeepseekConfig, DoraConfig, GeminiConfig, MoonshotConfig, OpenaiConfig};
use crate::correlate::{spec_register, CorrelationRouter};
use crate::error::AppError;
use crate::utils::seq_starts_with;

verus! {

#[derive(Clone)]
pub struct GeminiClient {
    pub api_key: String,
    pub api_url: String,
    pub proxy: bool,
}

#[derive(Clone)]
pub struct DeepseekClient {
    pub api_key: String,
    pub api_url: String,
    pub proxy: bool,
}

#[derive(Clone)]
pub struct OpenaiClient {
    pub api_key: String,
    pub api_url: String,
    pub proxy: bool,
}

#[derive(Clone)]
pub struct MoonshotClient {
    pub api_key: String,
    pub api_url: String,
    pub proxy: bool,
}

/// The dataflow provider: completions round-trip through the peer
/// reached under this output name.
#[derive(Clone)]
pub struct DoraClient {
    pub output: String,
}

impl GeminiClient {
    pub fn new(config: &GeminiConfig) -> (r: Self)
        ensures
            r.api_key@ == config.api_key@,
            r.api_url@ == config.api_url@,
            r.proxy == config.proxy,
    {
        GeminiClient {
            api_key: config.api_key.clone(),
            api_url: config.api_url.clone(),
            proxy: config.proxy,
        }
    }
}

impl DeepseekClient {
    pub fn new(config: &DeepseekConfig) -> (r: Self)
        ensures
            r.api_key@ == config.api_key@,
            r.api_url@ == config.api_url@,
            r.proxy == config.proxy,
    {
        DeepseekClient {
            api_key: config.api_key.clone(),
            api_url: config.api_url.clone(),
            proxy: config.proxy,
        }
    }
}

impl OpenaiClient {
    pub fn new(config: &OpenaiConfig) -> (r: Self)
        ensures
            r.api_key@ == config.api_key@,
            r.api_url@ == config.api_url@,
            r.proxy == config.proxy,
    {
        OpenaiClient {
            api_key: config.api_key.clone(),
            api_url: config.api_url.clone(),
            proxy: config.proxy,
        }
    }
}

impl MoonshotClient {
    pub fn new(config: &MoonshotConfig) -> (r: Self)
        ensures
            r.api_key@ == config.api_key@,
            r.api_url@ == config.api_url@,
            r.proxy == config.proxy,
    {
        MoonshotClient {
            api_key: config.api_key.clone(),
            api_url: config.api_url.clone(),
            proxy: config.proxy,
        }
    }
}

impl DoraClient {
    pub fn new(config: &DoraConfig) -> (r: Self)
        ensures
            r.output@ == config.output@,
    {
        DoraClient { output: config.output.clone() }
    }

    /// The first half of a graph-backed completion: allocate a fresh call
    /// identifier and register its single-use reply slot. The caller then
    /// hands the serialized request to the peer under this identifier and
    /// awaits the slot.
    pub fn begin_complete(&self, router: &mut CorrelationRouter) -> (id: String)
        requires
            old(router).wf(),
        ensures
            final(router).wf(),
            final(router)@ == spec_register(old(router)@, id@),
            id@.len() == 41 && seq_starts_with(id@, "call-"@),
    {
        router.register()
    }
}

/// The bound upstream provider. Each variant implements the one
/// capability, `complete`; a remote variant's call is planned by
/// `http_plan` and judged by `interpret_http_reply`, the dataflow
/// variant's by `DoraClient::begin_complete` and the router.
#[derive(Clone)]
pub enum ChatClient {
    Gemini(GeminiClient),
    Deepseek(DeepseekClient),
    Openai(OpenaiClient),
    Moonshot(MoonshotClient),
    Dora(DoraClient),
}

/// Everything a remote completion call needs besides the body: where to
/// post, which authentication header to set, and whether to use the
/// ambient proxy.
pub struct HttpPlan {
    pub url: String,
    pub header_name: String,
    pub header_value: String,
    pub proxy: bool,
}

impl ChatClient {
    /// The outbound HTTP call a remote provider makes: its endpoint and
    /// its vendor-specific authentication header. The dataflow provider
    /// makes none.
    pub fn http_plan(&self) -> (r: Option<HttpPlan>)
        ensures
            match self {
                ChatClient::Gemini(c) => match r {
                    Some(p) => p.url@ == c.api_url@ && p.header_name@ == "X-goog-api-key"@
                        && p.header_value@ == c.api_key@ && p.proxy == c.proxy,
                    None => false,
                },
                ChatClient::Deepseek(c) => match r {
                    Some(p) => p.url@ == c.api_url@ + "/chat/completions"@ && p.header_name@
                        == "Authorization"@ && p.header_value@ == "Bearer "@ + c.api_key@
                        && p.proxy == c.proxy,
                    None => false,
                },
                ChatClient::Openai(c) => match r {
                    Some(p) => p.url@ == c.api_url@ + "/chat/completions"@ && p.header_name@
                        == "Authorization"@ && p.header_value@ == "Bearer "@ + c.api_key@
                        && p.proxy == c.proxy,
                    None => false,
                },
                ChatClient::Moonshot(c) => match r {
                    Some(p) => p.url@ == c.api_url@ + "/chat/completions"@ && p.header_name@
                        == "Authorization"@ && p.header_value@ == "Bearer "@ + c.api_key@
                        && p.proxy == c.proxy,
                    None => false,
                },
                ChatClient::Dora(_) => r is None,
            },
    {
        match self {
            ChatClient::Gemini(c) => Some(
                HttpPlan {
                    url: c.api_url.clone(),
                    header_name: String::from_str("X-goog-api-key"),
                    header_value: c.api_key.clone(),
                    proxy: c.proxy,
                },
            ),
            ChatClient::Deepseek(c) => Some(
                HttpPlan {
                    url: c.api_url.clone().concat("/chat/completions"),
                    header_name: String::from_str("Authorization"),
                    header_value: String::from_str("Bearer ").concat(c.api_key.as_str()),
                    proxy: c.proxy,
                },
            ),
            ChatClient::Openai(c) => Some(
                HttpPlan {
                    url: c.api_url.clone().concat("/chat/completions"),
                    header_name: String::from_str("Authorization"),
                    header_value: String::from_str("Bearer ").concat(c.api_key.as_str()),
                    proxy: c.proxy,
                },
            ),
            ChatClient::Moonshot(c) => Some(
                HttpPlan {
                    url: c.api_url.clone().concat("/chat/completions"),
                    header_name: String::from_str("Authorization"),
                    header_value: String::from_str("Bearer ").concat(c.api_key.as_str()),
                    proxy: c.proxy,
                },
            ),
            ChatClient::Dora(_) => None,
        }
    }
}

impl crate::config::Config {
    /// Binds the backend the configuration selects; a configuration that
    /// names no model service yields none, and startup is refused.
    pub fn create_client(&self) -> (r: Option<ChatClient>)
        ensures
            match &self.model_service {
                None => r is None,
                Some(crate::config::ModelServiceConfig::Gemini(c)) => match r {
                    Some(ChatClient::Gemini(g)) => g.api_key@ == c.api_key@ && g.api_url@
                        == c.api_url@ && g.proxy == c.proxy,
                    _ => false,
                },
                Some(crate::config::ModelServiceConfig::Deepseek(c)) => match r {
                    Some(ChatClient::Deepseek(d)) => d.api_key@ == c.api_key@ && d.api_url@
                        == c.api_url@ && d.proxy == c.proxy,
                    _ => false,
                },
                Some(crate::config::ModelServiceConfig::Dora(c)) => match r {
                    Some(ChatClient::Dora(d)) => d.output@ == c.output@,
                    _ => false,
                },
            },
    {
        match &self.model_service {
            Some(crate::config::ModelServiceConfig::Gemini(c)) => Some(
                ChatClient::Gemini(GeminiClient::new(c)),
            ),
            Some(crate::config::ModelServiceConfig::Deepseek(c)) => Some(
                ChatClient::Deepseek(DeepseekClient::new(c)),
            ),
            Some(crate::config::ModelServiceConfig::Dora(c)) => Some(
                ChatClient::Dora(DoraClient::new(c)),
            ),
            None => None,
        }
    }
}

/// Judges one upstream HTTP reply: a non-success status aborts the turn
/// as a provider error carrying the raw body; a success whose body did
/// not parse is malformed; a parsed body is the completion. One attempt
/// per call, no retry.
pub fn interpret_http_reply(
    status: u16,
    body: String,
    parsed: Option<ChatCompletionResponse>,
) -> (r: Result<ChatCompletionResponse, AppError>)
    ensures
        !(200 <= status < 300) ==> r == Err::<ChatCompletionResponse, AppError>(
            AppError::Provider { status, body },
        ),
        (200 <= status < 300) ==> match parsed {
            None => r == Err::<ChatCompletionResponse, AppError>(
                AppError::MalformedResponse(body),
            ),
            Some(c) => r == Ok::<ChatCompletionResponse, AppError>(c),
        },
{
    if !(200 <= status && status < 300) {
        Err(AppError::Provider { status, body })
    } else {
        match parsed {
            None => Err(AppError::MalformedResponse(body)),
            Some(c) => Ok(c),
        }
    }
}

} // verus!

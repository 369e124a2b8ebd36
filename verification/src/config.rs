//! Configuration data: what the gateway is told at startup. Reading and
//! deserializing the configuration file is a collaborator concern; the
//! values, their defaults and the format selection live here.

use vstd::prelude::*;
use vstd::string::*;

use crate::tool::Tool;

verus! {

pub struct GeminiConfig {
    pub api_key: String,
    pub api_url: String,
    pub proxy: bool,
}

pub struct DeepseekConfig {
    pub api_key: String,
    pub api_url: String,
    pub proxy: bool,
}

pub struct OpenaiConfig {
    pub api_key: String,
    pub api_url: String,
    pub proxy: bool,
}

pub struct MoonshotConfig {
    pub api_key: String,
    pub api_url: String,
    pub proxy: bool,
}

/// The dataflow backend: completions round-trip through the peer reached
/// under this output name.
pub struct DoraConfig {
    pub output: String,
}

/// Which upstream chat provider the gateway is bound to; selected once
/// at construction, not at call time.
pub enum ModelServiceConfig {
    Gemini(GeminiConfig),
    Deepseek(DeepseekConfig),
    Dora(DoraConfig),
}

/// How one MCP tool server is reached.
pub enum McpServerTransportConfig {
    Streamable { url: String },
    Sse { url: String },
    Stdio { command: String, args: Vec<String>, envs: Vec<(String, String)> },
}

pub struct McpServerConfig {
    pub name: String,
    pub transport: McpServerTransportConfig,
}

pub struct McpConfig {
    pub server: Vec<McpServerConfig>,
}

/// The gateway's own configuration.
pub struct Config {
    pub listen_addr: String,
    pub endpoint: Option<String>,
    pub model_service: Option<ModelServiceConfig>,
    pub mcp: Option<McpConfig>,
    pub support_tool: bool,
}

/// The tool-serving peer's configuration: its identity and the tools it
/// advertises, each bound to the dataflow node that executes it.
pub struct ServerConfig {
    pub listen_addr: String,
    pub name: String,
    pub version: String,
    pub mcp_tools: Vec<McpToolConfig>,
}

/// A tool advertised by the peer: the catalogue entry plus the node that
/// executes it (carried in `Tool::server`).
pub type McpToolConfig = Tool;

pub fn default_listen_addr() -> (r: String)
    ensures
        r@ == "0.0.0.0:8008"@,
{
    String::from_str("0.0.0.0:8008")
}

pub fn default_endpoint() -> (r: Option<String>)
    ensures
        match r {
            Some(e) => e@ == "v1"@,
            None => false,
        },
{
    Some(String::from_str("v1"))
}

pub fn default_false() -> (r: bool)
    ensures
        !r,
{
    false
}

pub fn default_gemini_api_url() -> (r: String)
    ensures
        r@ == "https://generativelanguage.googleapis.com/v1beta/models/gemini-2.0-flash:generateContent"@,
{
    String::from_str(
        "https://generativelanguage.googleapis.com/v1beta/models/gemini-2.0-flash:generateContent",
    )
}

/// The formats a configuration file may use, told apart by extension.
#[derive(Clone, Copy, PartialEq, Eq, Structural, Debug)]
pub enum ConfigFormat {
    Yaml,
    Json,
    Toml,
}

/// Which format a file extension selects; an unknown extension selects
/// none and the startup is refused.
pub fn config_format_of(ext: &str) -> (r: Option<ConfigFormat>)
    ensures
        match r {
            Some(ConfigFormat::Yaml) => ext@ == "yaml"@ || ext@ == "yml"@,
            Some(ConfigFormat::Json) => ext@ == "json"@,
            Some(ConfigFormat::Toml) => ext@ == "toml"@,
            None => ext@ != "yaml"@ && ext@ != "yml"@ && ext@ != "json"@ && ext@ != "toml"@,
        },
{
    if crate::utils::str_eq(ext, "yaml") || crate::utils::str_eq(ext, "yml") {
        Some(ConfigFormat::Yaml)
    } else if crate::utils::str_eq(ext, "json") {
        Some(ConfigFormat::Json)
    } else if crate::utils::str_eq(ext, "toml") {
        Some(ConfigFormat::Toml)
    } else {
        None
    }
}

} // verus!

//! The protocol dispatcher: routes an inbound JSON-RPC-shaped request by
//! method name. Discovery methods are answered on the spot; a tool
//! execution is delegated to the owning peer through the correlation
//! router, the same mechanism the graph-backed chat client uses. An
//! unknown method is rejected, not silently dropped.

use vstd::prelude::*;
use vstd::string::*;

use crate::config::ServerConfig;
use crate::error::AppError;
use crate::tool::{has_tool, tools_view, Tool};
use crate::utils::str_eq;

verus! {

/// The server's identity, as advertised to peers.
pub struct Implementation {
    pub name: String,
    pub version: String,
}

impl Clone for Implementation {
    fn clone(&self) -> (res: Self)
        ensures
            res.name@ == self.name@,
            res.version@ == self.version@,
    {
        Implementation { name: self.name.clone(), version: self.version.clone() }
    }
}

pub struct EmptyResult {}

pub struct InitializeResult {
    pub protocol_version: String,
    pub server_info: Implementation,
    pub tools_capability: bool,
    pub instructions: Option<String>,
}

pub struct ListToolsResult {
    pub tools: Vec<Tool>,
    pub next_cursor: Option<String>,
}

/// An answer the dispatcher gives on the spot.
pub enum ServerResult {
    Empty(EmptyResult),
    Initialize(InitializeResult),
    ToolsList(ListToolsResult),
}

/// The `name` entry of a `tools/call` request's parameters, as the
/// caller sent it: absent, present but not a string, or given.
pub enum NameField {
    Missing,
    NotString,
    Given(String),
}

/// A `tools/call` request's parameters: the tool name entry, and the
/// whole parameter object serialized back to text, which is what the
/// executing peer receives.
pub struct ToolCallParams {
    pub name: NameField,
    pub raw: String,
}

/// What the dispatcher decides for one request: answer on the spot,
/// refuse, or call the named peer and await its resolution through the
/// correlation router.
pub enum DispatchOutcome {
    Reply(ServerResult),
    CallPeer { node_id: String, payload: String },
    Refused(AppError),
}

/// A tool the peer advertises: the catalogue entry together with the
/// executing node, carried in `Tool::server`.
pub type McpTool = Tool;

/// The tool-serving peer: the tools it advertises, each bound to the
/// node that executes it, and its identity.
pub struct McpServer {
    pub tools: Vec<Tool>,
    pub server_info: Implementation,
}

impl McpServer {
    pub fn new(config: &ServerConfig) -> (r: Self)
        ensures
            tools_view(r.tools@) == tools_view(config.mcp_tools@),
            r.server_info.name@ == config.name@,
            r.server_info.version@ == config.version@,
    {
        let mut tools: Vec<Tool> = Vec::new();
        let n = config.mcp_tools.len();
        let mut i: usize = 0;
        while i < n
            invariant
                i <= n,
                n == config.mcp_tools@.len(),
                tools@.len() == i,
                forall|k: int| 0 <= k < i ==> (#[trigger] tools@[k])@ == config.mcp_tools@[k]@,
            decreases n - i,
        {
            tools.push(config.mcp_tools[i].clone());
            i += 1;
        }
        proof {
            assert(tools_view(tools@) =~= tools_view(config.mcp_tools@));
        }
        McpServer {
            tools,
            server_info: Implementation {
                name: config.name.clone(),
                version: config.version.clone(),
            },
        }
    }

    /// `ping`: an empty acknowledgement.
    pub fn handle_ping(&self) -> (r: ServerResult)
        ensures
            r is Empty,
    {
        ServerResult::Empty(EmptyResult {})
    }

    /// `initialize`: the capability/version/identity descriptor — the
    /// protocol revision spoken here, the server's identity, and the
    /// tools capability, with no instructions.
    pub fn handle_initialize(&self) -> (r: InitializeResult)
        ensures
            r.protocol_version@ == "2025-03-26"@,
            r.server_info.name@ == self.server_info.name@,
            r.server_info.version@ == self.server_info.version@,
            r.tools_capability,
            r.instructions is None,
    {
        InitializeResult {
            protocol_version: String::from_str("2025-03-26"),
            server_info: self.server_info.clone(),
            tools_capability: true,
            instructions: None,
        }
    }

    /// `tools/list`: every advertised tool, in registration order, with
    /// no continuation cursor.
    pub fn handle_tools_list(&self) -> (r: ListToolsResult)
        ensures
            tools_view(r.tools@) == tools_view(self.tools@),
            r.next_cursor is None,
    {
        let mut tools: Vec<Tool> = Vec::new();
        let n = self.tools.len();
        let mut i: usize = 0;
        while i < n
            invariant
                i <= n,
                n == self.tools@.len(),
                tools@.len() == i,
                forall|k: int| 0 <= k < i ==> (#[trigger] tools@[k])@ == self.tools@[k]@,
            decreases n - i,
        {
            tools.push(self.tools[i].clone());
            i += 1;
        }
        proof {
            assert(tools_view(tools@) =~= tools_view(self.tools@));
        }
        ListToolsResult { tools, next_cursor: None }
    }

    /// `tools/call`: validates the parameters and names the peer that
    /// executes the tool. The caller then registers a call identifier,
    /// dispatches the payload to that peer, and awaits resolution.
    pub fn handle_tools_call(&self, params: &ToolCallParams) -> (r: Result<
        (String, String),
        AppError,
    >)
        ensures
            match params.name {
                NameField::Missing => match r {
                    Err(AppError::Public(m)) => m@ == "Tool name is required in parameters"@,
                    _ => false,
                },
                NameField::NotString => match r {
                    Err(AppError::Public(m)) => m@ == "Tool name must be a string"@,
                    _ => false,
                },
                NameField::Given(nm) => if has_tool(self.tools@, nm@) {
                    match r {
                        Ok((node_id, payload)) => payload@ == params.raw@ && exists|i: int|
                            0 <= i < self.tools@.len() && (#[trigger] self.tools@[i]).name@ == nm@
                                && self.tools@[i].server@ == node_id@,
                        _ => false,
                    }
                } else {
                    match r {
                        Err(AppError::ToolNotFound(m)) => m@ == nm@,
                        _ => false,
                    }
                },
            },
    {
        match &params.name {
            NameField::Missing => Err(
                AppError::Public(String::from_str("Tool name is required in parameters")),
            ),
            NameField::NotString => Err(
                AppError::Public(String::from_str("Tool name must be a string")),
            ),
            NameField::Given(nm) => {
                let n = self.tools.len();
                let mut i: usize = 0;
                while i < n
                    invariant
                        i <= n,
                        n == self.tools@.len(),
                        params.name matches NameField::Given(x) && x@ == nm@,
                        forall|k: int| 0 <= k < i ==> (#[trigger] self.tools@[k]).name@ != nm@,
                    decreases n - i,
                {
                    if str_eq(self.tools[i].name.as_str(), nm.as_str()) {
                        return Ok((self.tools[i].server.clone(), params.raw.clone()));
                    }
                    i += 1;
                }
                Err(AppError::ToolNotFound(nm.clone()))
            },
        }
    }

    /// Routes one request by method name: `ping`, `initialize` and
    /// `tools/list` are answered on the spot; `tools/call` is validated
    /// and handed to the owning peer; any other method is rejected as
    /// unsupported.
    pub fn handle_request(&self, method: &str, params: &ToolCallParams) -> (r: DispatchOutcome)
        ensures
            method@ == "ping"@ ==> matches!(r, DispatchOutcome::Reply(ServerResult::Empty(_))),
            method@ == "initialize"@ ==> match r {
                DispatchOutcome::Reply(ServerResult::Initialize(ir)) => ir.protocol_version@
                    == "2025-03-26"@ && ir.server_info.name@ == self.server_info.name@
                    && ir.server_info.version@ == self.server_info.version@ && ir.tools_capability
                    && ir.instructions is None,
                _ => false,
            },
            method@ == "tools/list"@ ==> match r {
                DispatchOutcome::Reply(ServerResult::ToolsList(lr)) => tools_view(lr.tools@)
                    == tools_view(self.tools@) && lr.next_cursor is None,
                _ => false,
            },
            method@ == "tools/call"@ ==> match params.name {
                NameField::Given(nm) => if has_tool(self.tools@, nm@) {
                    match r {
                        DispatchOutcome::CallPeer { node_id, payload } => payload@ == params.raw@
                            && exists|i: int|
                            0 <= i < self.tools@.len() && (#[trigger] self.tools@[i]).name@ == nm@
                                && self.tools@[i].server@ == node_id@,
                        _ => false,
                    }
                } else {
                    match r {
                        DispatchOutcome::Refused(AppError::ToolNotFound(m)) => m@ == nm@,
                        _ => false,
                    }
                },
                _ => matches!(r, DispatchOutcome::Refused(AppError::Public(_))),
            },
            method@ != "ping"@ && method@ != "initialize"@ && method@ != "tools/list"@ && method@
                != "tools/call"@ ==> match r {
                DispatchOutcome::Refused(AppError::UnsupportedMethod(m)) => m@ == method@,
                _ => false,
            },
    {
        proof {
            reveal_strlit("ping");
            reveal_strlit("initialize");
            reveal_strlit("tools/list");
            reveal_strlit("tools/call");
            assert("ping"@.len() == 4 && "initialize"@.len() == 10 && "tools/list"@.len() == 10
                && "tools/call"@.len() == 10);
            assert("initialize"@[0] == 'i' && "tools/list"@[0] == 't' && "tools/call"@[0] == 't');
            assert("tools/list"@[6] == 'l' && "tools/call"@[6] == 'c');
            assert("ping"@ != "initialize"@ && "ping"@ != "tools/list"@ && "ping"@
                != "tools/call"@);
            assert("initialize"@ != "tools/list"@ && "initialize"@ != "tools/call"@);
            assert("tools/list"@ != "tools/call"@);
        }
        if str_eq(method, "ping") {
            DispatchOutcome::Reply(self.handle_ping())
        } else if str_eq(method, "initialize") {
            DispatchOutcome::Reply(ServerResult::Initialize(self.handle_initialize()))
        } else if str_eq(method, "tools/list") {
            DispatchOutcome::Reply(ServerResult::ToolsList(self.handle_tools_list()))
        } else if str_eq(method, "tools/call") {
            match self.handle_tools_call(params) {
                Ok((node_id, payload)) => DispatchOutcome::CallPeer { node_id, payload },
                Err(e) => DispatchOutcome::Refused(e),
            }
        } else {
            DispatchOutcome::Refused(AppError::UnsupportedMethod(method.to_owned()))
        }
    }
}

} // verus!

use dora_mcp_gateway::config::ServerConfig;
use dora_mcp_gateway::error::AppError;
use dora_mcp_gateway::mcp_server::{
    DispatchOutcome, McpServer, NameField, ServerResult, ToolCallParams,
};
use dora_mcp_gateway::tool::Tool;

fn server_with(names: &[(&str, &str)]) -> McpServer {
    let mcp_tools = names
        .iter()
        .map(|(name, node)| Tool {
            name: String::from(*name),
            description: String::from("d"),
            parameters: String::from("{}"),
            server: String::from(*node),
        })
        .collect();
    McpServer::new(&ServerConfig {
        listen_addr: String::from("0.0.0.0:8008"),
        name: String::from("test-server"),
        version: String::from("0.1.0"),
        mcp_tools,
    })
}

fn params(name: NameField) -> ToolCallParams {
    ToolCallParams { name, raw: String::from("{\"name\":\"A\",\"arguments\":{}}") }
}

#[test]
fn ping_returns_an_empty_acknowledgement() {
    let s = server_with(&[]);
    assert!(matches!(
        s.handle_request("ping", &params(NameField::Missing)),
        DispatchOutcome::Reply(ServerResult::Empty(_))
    ));
}

#[test]
fn initialize_describes_the_server() {
    let s = server_with(&[]);
    match s.handle_request("initialize", &params(NameField::Missing)) {
        DispatchOutcome::Reply(ServerResult::Initialize(ir)) => {
            assert_eq!(ir.protocol_version, "2025-03-26");
            assert_eq!(ir.server_info.name, "test-server");
            assert_eq!(ir.server_info.version, "0.1.0");
            assert!(ir.tools_capability);
            assert!(ir.instructions.is_none());
        }
        _ => panic!("expected an initialize reply"),
    }
}

#[test]
fn tools_list_returns_tools_in_registration_order() {
    let s = server_with(&[("A", "n1"), ("B", "n2")]);
    match s.handle_request("tools/list", &params(NameField::Missing)) {
        DispatchOutcome::Reply(ServerResult::ToolsList(lr)) => {
            assert_eq!(lr.tools.len(), 2);
            assert_eq!(lr.tools[0].name, "A");
            assert_eq!(lr.tools[1].name, "B");
            assert!(lr.next_cursor.is_none());
        }
        _ => panic!("expected a tools/list reply"),
    }
}

#[test]
fn tools_call_dispatches_to_the_owning_node() {
    let s = server_with(&[("A", "n1"), ("B", "n2")]);
    match s.handle_request("tools/call", &params(NameField::Given(String::from("B")))) {
        DispatchOutcome::CallPeer { node_id, payload } => {
            assert_eq!(node_id, "n2");
            assert_eq!(payload, "{\"name\":\"A\",\"arguments\":{}}");
        }
        _ => panic!("expected a peer call"),
    }
}

#[test]
fn tools_call_for_unregistered_name_is_tool_not_found() {
    let s = server_with(&[("A", "n1")]);
    match s.handle_request("tools/call", &params(NameField::Given(String::from("missing")))) {
        DispatchOutcome::Refused(AppError::ToolNotFound(n)) => assert_eq!(n, "missing"),
        _ => panic!("expected a tool-not-found refusal"),
    }
}

#[test]
fn tools_call_without_a_name_is_refused() {
    let s = server_with(&[("A", "n1")]);
    match s.handle_request("tools/call", &params(NameField::Missing)) {
        DispatchOutcome::Refused(AppError::Public(m)) => {
            assert_eq!(m, "Tool name is required in parameters")
        }
        _ => panic!("expected a public refusal"),
    }
    match s.handle_request("tools/call", &params(NameField::NotString)) {
        DispatchOutcome::Refused(AppError::Public(m)) => {
            assert_eq!(m, "Tool name must be a string")
        }
        _ => panic!("expected a public refusal"),
    }
}

#[test]
fn unknown_method_is_rejected_not_dropped() {
    let s = server_with(&[("A", "n1")]);
    match s.handle_request("resources/list", &params(NameField::Missing)) {
        DispatchOutcome::Refused(AppError::UnsupportedMethod(m)) => {
            assert_eq!(m, "resources/list")
        }
        _ => panic!("expected an unsupported-method refusal"),
    }
}

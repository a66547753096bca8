use mcp_mux::connect::{build_mux, BuildStep};
use mcp_mux::json::JsonObject;
use mcp_mux::model::Tool;
use mcp_mux::mux::{CallStep, MCPMux};
use mcp_mux::servers::ServerMap;
use mcp_mux::transport::{build_client, ClientPlan, MCPTransport};
use std::sync::Arc;

fn stdio(cmd: &str) -> MCPTransport {
    MCPTransport::Stdio { cmd: cmd.to_string(), args: vec!["-v".to_string()] }
}

fn tool(name: &str) -> Tool {
    Tool {
        name: name.to_string(),
        description: None,
        input_schema: Arc::new(JsonObject::new()),
        annotations: None,
    }
}

fn two_servers() -> ServerMap<MCPTransport> {
    let mut servers = ServerMap::new();
    servers.insert("mycounter".to_string(), stdio("counter"));
    servers.insert("remote".to_string(), MCPTransport::SSE("http://host/sse".to_string()));
    servers
}

/// Builds by outcomes that `reach` and `ask` give for the name of a server.
fn drive(
    servers: ServerMap<MCPTransport>,
    reach: fn(&str) -> Result<u32, String>,
    ask: fn(u32) -> Result<Vec<Tool>, String>,
) -> Result<(MCPMux<u32>, Vec<(String, ClientPlan)>), String> {
    let mut asked = Vec::new();
    let mut step = build_mux(servers);
    loop {
        match step {
            BuildStep::Connect { name, plan, build } => {
                let wanted = build.connected(reach(&name))?;
                asked.push((name, plan));
                let tools = ask(*wanted.peer());
                step = wanted.listed(tools)?;
            }
            BuildStep::Done { tools, clients } => return Ok((MCPMux::new(tools, clients), asked)),
        }
    }
}

fn reach(name: &str) -> Result<u32, String> {
    Ok(if name == "mycounter" { 1 } else { 2 })
}

fn ask(client: u32) -> Result<Vec<Tool>, String> {
    Ok(vec![tool("get"), tool(if client == 1 { "increment" } else { "fetch" })])
}

#[test]
fn a_child_process_is_started_with_its_arguments() {
    let transport =
        MCPTransport::Stdio { cmd: "run".to_string(), args: vec!["a".to_string(), "b".to_string()] };
    assert_eq!(
        build_client(&transport),
        ClientPlan::Spawn { cmd: "run".to_string(), args: vec!["a".to_string(), "b".to_string()] }
    );
}

#[test]
fn a_stream_is_opened_as_a_named_client() {
    match build_client(&MCPTransport::SSE("http://host/sse".to_string())) {
        ClientPlan::Stream { uri, client_info } => {
            assert_eq!(uri, "http://host/sse");
            assert_eq!(client_info.protocol_version, "2025-03-26");
            assert_eq!(client_info.capabilities.experimental, None);
            assert_eq!(client_info.capabilities.roots, None);
            assert_eq!(client_info.capabilities.sampling, None);
            assert_eq!(client_info.client_info.name, "test sse client");
            assert_eq!(client_info.client_info.version, "0.0.1");
        }
        plan => panic!("{plan:?}"),
    }
}

#[test]
fn a_build_collects_the_tools_and_clients_of_all_servers() {
    let (mux, asked) = drive(two_servers(), reach, ask).unwrap();
    assert_eq!(asked.len(), 2);
    assert_eq!(asked[0].0, "mycounter");
    assert_eq!(
        asked[0].1,
        ClientPlan::Spawn { cmd: "counter".to_string(), args: vec!["-v".to_string()] }
    );
    assert_eq!(asked[1].0, "remote");
    let names: Vec<String> = mux.list_tools().tools.into_iter().map(|t| t.name).collect();
    assert_eq!(
        names,
        ["mycounter::get", "mycounter::increment", "remote::get", "remote::fetch"]
    );
}

#[test]
fn a_built_mux_has_a_client_for_every_call() {
    let (mux, _) = drive(two_servers(), reach, ask).unwrap();
    for name in ["mycounter::get", "remote::fetch", "remote::increment", "other::get", "get"] {
        assert!(mux.can_reach(name));
    }
    let request = mcp_mux::model::CallToolRequestParam {
        name: "remote::fetch".to_string(),
        arguments: None,
    };
    assert!(matches!(mux.call_tool(request), CallStep::Forward { client: &2, .. }));
}

#[test]
fn a_build_without_servers_is_done_at_once() {
    let (mux, asked) = drive(ServerMap::new(), reach, ask).unwrap();
    assert!(asked.is_empty());
    assert!(mux.list_tools().tools.is_empty());
}

#[test]
fn a_server_that_cannot_be_reached_ends_the_build() {
    let fails = |name: &str| -> Result<u32, String> {
        if name == "remote" {
            Err("refused".to_string())
        } else {
            Ok(1)
        }
    };
    assert_eq!(drive(two_servers(), fails, ask).err(), Some("refused".to_string()));
}

#[test]
fn a_server_that_does_not_tell_its_tools_ends_the_build() {
    let fails = |_: u32| -> Result<Vec<Tool>, String> { Err("no tools".to_string()) };
    assert_eq!(drive(two_servers(), reach, fails).err(), Some("no tools".to_string()));
}

use mcp_mux::json::JsonObject;
use mcp_mux::model::{
    CallToolRequestParam, CallToolResult, Content, ErrorData, Tool, ToolAnnotations,
    ToolsCapability,
};
use mcp_mux::mux::{finish_call, CallStep, MCPMux};
use mcp_mux::servers::ServerMap;
use std::sync::Arc;

fn object(key: &str, text: &str) -> JsonObject {
    let mut object = JsonObject::new();
    object.insert(key.to_string(), serde_json::Value::String(text.to_string()));
    object
}

fn tool(name: &str) -> Tool {
    Tool {
        name: name.to_string(),
        description: None,
        input_schema: Arc::new(JsonObject::new()),
        annotations: None,
    }
}

fn mux_of(servers: &[(&str, &[&str], u32)]) -> MCPMux<u32> {
    let mut tools = ServerMap::new();
    let mut clients = ServerMap::new();
    for (server, names, client) in servers {
        tools.insert(server.to_string(), names.iter().map(|n| tool(n)).collect());
        clients.insert(server.to_string(), *client);
    }
    MCPMux::new(tools, clients)
}

fn request(name: &str) -> CallToolRequestParam {
    CallToolRequestParam { name: name.to_string(), arguments: Some(object("by", "one")) }
}

fn names_of(mux: &MCPMux<u32>) -> Vec<String> {
    mux.list_tools().tools.into_iter().map(|t| t.name).collect()
}

fn refused(mux: &MCPMux<u32>, name: &str) -> CallToolResult {
    match mux.call_tool(request(name)) {
        CallStep::Answer(result) => result,
        CallStep::Forward { .. } => panic!("{name} was forwarded"),
    }
}

fn forwarded(mux: &MCPMux<u32>, name: &str) -> (u32, CallToolRequestParam) {
    match mux.call_tool(request(name)) {
        CallStep::Answer(result) => panic!("{name} was answered {result:?}"),
        CallStep::Forward { client, request } => (*client, request),
    }
}

fn error_saying(text: &str) -> CallToolResult {
    CallToolResult { content: vec![Content { text: text.to_string() }], is_error: Some(true) }
}

#[test]
fn the_tools_of_all_servers_are_listed() {
    let mux = mux_of(&[("one", &["get", "set"], 1), ("none", &[], 2), ("two", &["get"], 3)]);
    let result = mux.list_tools();
    assert_eq!(result.next_cursor, None);
    assert_eq!(result.tools.len(), 3);
    assert_eq!(names_of(&mux), ["one::get", "one::set", "two::get"]);
}

#[test]
fn a_mux_without_servers_lists_nothing() {
    let mux = mux_of(&[]);
    assert!(mux.list_tools().tools.is_empty());
    assert_eq!(refused(&mux, "a::b"), error_saying("unknown server"));
}

#[test]
fn a_listed_tool_differs_from_the_server_s_by_its_name_only() {
    let own = Tool {
        name: "get".to_string(),
        description: Some("gets".to_string()),
        input_schema: Arc::new(object("type", "object")),
        annotations: Some(ToolAnnotations {
            title: Some("Get".to_string()),
            read_only_hint: Some(true),
            destructive_hint: Some(false),
            idempotent_hint: None,
            open_world_hint: Some(true),
        }),
    };
    let expected = Tool { name: "one::get".to_string(), ..own.clone() };
    let mut tools = ServerMap::new();
    tools.insert("one".to_string(), vec![own]);
    let mux: MCPMux<u32> = MCPMux::new(tools, ServerMap::new());
    assert_eq!(mux.list_tools().tools, vec![expected]);
}

#[test]
fn every_listed_name_can_be_called() {
    let mux = mux_of(&[("one", &["get", "set"], 1), ("a:b", &["get", ":odd", "x::y"], 2)]);
    for name in names_of(&mux) {
        let (client, sent) = forwarded(&mux, &name);
        let server = if client == 1 { "one" } else { "a:b" };
        assert_eq!(format!("{server}::{}", sent.name), name);
    }
}

#[test]
fn a_call_keeps_its_arguments_and_gets_the_server_s_own_name() {
    let mux = mux_of(&[("one", &["get"], 1), ("two", &["get", "x::y"], 2)]);
    assert_eq!(
        forwarded(&mux, "two::get"),
        (
            2,
            CallToolRequestParam {
                name: "get".to_string(),
                arguments: Some(object("by", "one")),
            }
        )
    );
    assert_eq!(forwarded(&mux, "two::x::y").1.name, "x::y");
}

#[test]
fn a_name_without_separator_is_refused() {
    let mux = mux_of(&[("one", &["get"], 1)]);
    assert_eq!(refused(&mux, "get"), error_saying("error parsing tool identifier"));
    assert_eq!(refused(&mux, ""), error_saying("error parsing tool identifier"));
    assert_eq!(refused(&mux, "one:get"), error_saying("error parsing tool identifier"));
}

#[test]
fn an_unknown_server_is_refused() {
    let mux = mux_of(&[("one", &["get"], 1)]);
    assert_eq!(refused(&mux, "two::get"), error_saying("unknown server"));
    assert_eq!(refused(&mux, "::get"), error_saying("unknown server"));
    assert_eq!(refused(&mux, "One::get"), error_saying("unknown server"));
}

#[test]
fn an_unknown_tool_is_refused_by_name() {
    let mux = mux_of(&[("one", &["get"], 1), ("two", &["set"], 2)]);
    assert_eq!(refused(&mux, "one::set"), error_saying("unknown tool set"));
    assert_eq!(refused(&mux, "one::"), error_saying("unknown tool "));
    assert_eq!(refused(&mux, "one::get::x"), error_saying("unknown tool get::x"));
}

#[test]
fn the_tools_of_an_ambiguous_server_are_listed_but_not_reached() {
    let mux = mux_of(&[("a::b", &["t"], 1), ("c:", &["t"], 2)]);
    assert_eq!(names_of(&mux), ["a::b::t", "c:::t"]);
    assert_eq!(refused(&mux, "a::b::t"), error_saying("unknown server"));
    assert_eq!(refused(&mux, "c:::t"), error_saying("unknown server"));
}

#[test]
fn listed_names_differ() {
    let mux = mux_of(&[("one", &["get", "set"], 1), ("two", &["get", "set"], 2)]);
    let mut names = names_of(&mux);
    names.sort();
    names.dedup();
    assert_eq!(names.len(), 4);
}

#[test]
fn a_call_needs_a_client_only_if_it_goes_somewhere() {
    let mut tools = ServerMap::new();
    tools.insert("one".to_string(), vec![tool("get")]);
    let mux: MCPMux<u32> = MCPMux::new(tools, ServerMap::new());
    assert!(!mux.can_reach("one::get"));
    assert!(mux.can_reach("one::set"));
    assert!(mux.can_reach("two::get"));
    assert!(mux.can_reach("get"));
    assert!(mux_of(&[("one", &["get"], 1)]).can_reach("one::get"));
}

#[test]
fn the_answer_of_the_server_is_passed_on() {
    assert_eq!(finish_call::<u32>(Ok(7)), Ok(7));
}

#[test]
fn a_failed_call_is_an_internal_error() {
    assert_eq!(
        finish_call::<u32>(Err("Transport closed".to_string())),
        Err(ErrorData {
            code: -32603,
            message: "failed to use tool Transport closed".to_string(),
            data: None,
        })
    );
}

#[test]
fn the_mux_introduces_itself() {
    let mux = mux_of(&[]);
    let info = mux.get_info();
    assert_eq!(info.protocol_version, "2024-11-05");
    assert_eq!(info.capabilities.tools, Some(ToolsCapability { list_changed: None }));
    assert_eq!(info.capabilities.prompts, None);
    assert_eq!(info.capabilities.resources, None);
    assert_eq!(info.capabilities.logging, None);
    assert_eq!(info.capabilities.completions, None);
    assert_eq!(info.capabilities.experimental, None);
    assert_eq!(info.server_info.name, "rmcp");
    assert_eq!(info.server_info.version, "0.2.1");
    assert_eq!(info.instructions, Some("this is a mux".to_string()));
    assert_eq!(mux.initialize(), info);
}

#[test]
fn a_copy_of_a_mux_offers_and_reaches_the_same() {
    let mux = mux_of(&[("one", &["get", "set"], 1), ("two", &["get"], 2)]);
    let copy = mux.clone();
    assert_eq!(copy.list_tools(), mux.list_tools());
    for name in names_of(&mux) {
        assert_eq!(forwarded(&copy, &name), forwarded(&mux, &name));
    }
}

#[test]
fn a_server_map_replaces_in_place() {
    let mut map = ServerMap::new();
    map.insert("a".to_string(), 1);
    map.insert("b".to_string(), 2);
    map.insert("a".to_string(), 3);
    assert_eq!(map.len(), 2);
    assert_eq!(map.entry(0), ("a", &3));
    assert_eq!(map.entry(1), ("b", &2));
    assert_eq!(map.get("a"), Some(&3));
    assert_eq!(map.get("c"), None);
}

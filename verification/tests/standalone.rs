use mcp_mux::json::JsonObject;
use mcp_mux::model::{
    CallToolRequestParam, ErrorData, GetPromptRequestParam, GetPromptResult, Prompt,
    PromptArgument, PromptMessage, PromptMessageContent, PromptMessageRole, PromptsCapability,
    ReadResourceRequestParam, ReadResourceResult, Resource, ResourceContents, ResourcesCapability,
    Tool, ToolsCapability,
};
use mcp_mux::mux::CallStep;
use mcp_mux::servers::ServerMap;
use mcp_mux::standalone::{fill_prompt, MCPMux, StructRequest};
use std::sync::Arc;

fn server() -> MCPMux<u32> {
    let mut tools = ServerMap::new();
    tools.insert(
        "mycounter".to_string(),
        vec![Tool {
            name: "increment".to_string(),
            description: None,
            input_schema: Arc::new(JsonObject::new()),
            annotations: None,
        }],
    );
    let mut clients = ServerMap::new();
    clients.insert("mycounter".to_string(), 5);
    MCPMux::new(tools, clients)
}

fn read(uri: &str) -> Result<ReadResourceResult, ErrorData> {
    server().read_resource(ReadResourceRequestParam { uri: uri.to_string() })
}

fn text_at(uri: &str, text: &str) -> ReadResourceResult {
    ReadResourceResult {
        contents: vec![ResourceContents::TextResourceContents {
            uri: uri.to_string(),
            mime_type: Some("text".to_string()),
            text: text.to_string(),
        }],
    }
}

fn prompt(name: &str, arguments: Option<JsonObject>) -> Result<GetPromptResult, ErrorData> {
    server().get_prompt(GetPromptRequestParam { name: name.to_string(), arguments })
}

fn filled(text: &str) -> GetPromptResult {
    GetPromptResult {
        description: None,
        messages: vec![PromptMessage {
            role: PromptMessageRole::User,
            content: PromptMessageContent::Text { text: text.to_string() },
        }],
    }
}

fn bad_params(message: &str) -> ErrorData {
    ErrorData { code: -32602, message: message.to_string(), data: None }
}

fn arguments(key: &str, value: serde_json::Value) -> Option<JsonObject> {
    let mut object = JsonObject::new();
    object.insert(key.to_string(), value);
    Some(object)
}

#[test]
fn the_resources_are_listed() {
    let result = server().list_resources();
    let plain = |uri: &str, name: &str| Resource {
        uri: uri.to_string(),
        name: name.to_string(),
        description: None,
        mime_type: None,
        size: None,
    };
    assert_eq!(result.next_cursor, None);
    assert_eq!(
        result.resources,
        vec![plain("str:////Users/to/some/path/", "cwd"), plain("memo://insights", "memo-name")]
    );
}

#[test]
fn the_resources_can_be_read() {
    assert_eq!(
        read("str:////Users/to/some/path/"),
        Ok(text_at("str:////Users/to/some/path/", "/Users/to/some/path/"))
    );
    assert_eq!(
        read("memo://insights"),
        Ok(text_at(
            "memo://insights",
            "Business Intelligence Memo\n\nAnalysis has revealed 5 key insights ..."
        ))
    );
}

#[test]
fn every_listed_resource_can_be_read() {
    for resource in server().list_resources().resources {
        assert!(read(&resource.uri).is_ok());
    }
}

#[test]
fn an_unknown_resource_is_an_error_that_quotes_the_uri() {
    let error = read("memo://other").unwrap_err();
    assert_eq!(error.code, -32002);
    assert_eq!(error.message, "resource_not_found");
    let data = error.data.unwrap();
    assert_eq!(data.len(), 1);
    assert_eq!(data.get("uri").and_then(|v| v.as_str()), Some("memo://other"));
    assert!(read("").is_err());
    assert!(read("memo://insights/").is_err());
}

#[test]
fn the_prompt_is_listed() {
    let result = server().list_prompts();
    assert_eq!(result.next_cursor, None);
    assert_eq!(
        result.prompts,
        vec![Prompt {
            name: "example_prompt".to_string(),
            description: Some(
                "This is an example prompt that takes one required argument, message".to_string()
            ),
            arguments: Some(vec![PromptArgument {
                name: "message".to_string(),
                description: Some("A message to put in the prompt".to_string()),
                required: Some(true),
            }]),
        }]
    );
}

#[test]
fn the_prompt_quotes_the_message() {
    assert_eq!(
        prompt("example_prompt", arguments("message", serde_json::Value::String("hi".to_string()))),
        Ok(filled("This is an example prompt with your message here: 'hi'"))
    );
    assert_eq!(
        fill_prompt("example_prompt", Some(String::new())),
        Ok(filled("This is an example prompt with your message here: ''"))
    );
}

#[test]
fn the_prompt_needs_a_message_that_is_a_string() {
    let missing = || Err(bad_params("No message provided to example_prompt"));
    assert_eq!(prompt("example_prompt", None), missing());
    assert_eq!(prompt("example_prompt", Some(JsonObject::new())), missing());
    assert_eq!(
        prompt("example_prompt", arguments("text", serde_json::Value::String("hi".to_string()))),
        missing()
    );
    assert_eq!(prompt("example_prompt", arguments("message", serde_json::Value::Null)), missing());
    assert_eq!(
        prompt("example_prompt", arguments("message", serde_json::Value::Bool(true))),
        missing()
    );
    assert_eq!(fill_prompt("example_prompt", None), missing());
}

#[test]
fn an_unknown_prompt_is_an_error() {
    assert_eq!(
        prompt("other", arguments("message", serde_json::Value::String("hi".to_string()))),
        Err(bad_params("prompt not found"))
    );
    assert_eq!(fill_prompt("", None), Err(bad_params("prompt not found")));
}

#[test]
fn there_are_no_resource_templates() {
    let result = server().list_resource_templates();
    assert_eq!(result.next_cursor, None);
    assert!(result.resource_templates.is_empty());
}

#[test]
fn the_server_introduces_itself() {
    let info = server().get_info();
    assert_eq!(info.protocol_version, "2024-11-05");
    assert_eq!(info.capabilities.prompts, Some(PromptsCapability { list_changed: None }));
    assert_eq!(
        info.capabilities.resources,
        Some(ResourcesCapability { subscribe: None, list_changed: None })
    );
    assert_eq!(info.capabilities.tools, Some(ToolsCapability { list_changed: None }));
    assert_eq!(info.capabilities.logging, None);
    assert_eq!(info.capabilities.completions, None);
    assert_eq!(info.capabilities.experimental, None);
    assert_eq!(info.server_info.name, "rmcp");
    assert!(info.instructions.as_ref().unwrap().starts_with("This server provides a counter tool"));
    assert!(info.instructions.as_ref().unwrap().ends_with("to check the current count."));
    assert_eq!(server().initialize(), info);
}

#[test]
fn the_tools_behind_the_server_are_offered_and_called() {
    let server = server();
    let copy = server.clone();
    assert_eq!(server.list_tools().tools[0].name, "mycounter::increment");
    assert_eq!(copy.list_tools(), server.list_tools());
    assert!(server.can_reach("mycounter::increment"));
    let request =
        CallToolRequestParam { name: "mycounter::increment".to_string(), arguments: None };
    match server.call_tool(request) {
        CallStep::Forward { client, request } => {
            assert_eq!(*client, 5);
            assert_eq!(request.name, "increment");
        }
        CallStep::Answer(result) => panic!("{result:?}"),
    }
    let request = CallToolRequestParam { name: "increment".to_string(), arguments: None };
    match server.call_tool(request) {
        CallStep::Answer(result) => {
            assert_eq!(result.content[0].text, "error parsing tool identifier")
        }
        CallStep::Forward { .. } => panic!("forwarded"),
    }
}

#[test]
fn a_pair_of_numbers_holds_both() {
    let request = StructRequest { a: 1, b: -2 };
    assert_eq!((request.a, request.b), (1, -2));
}

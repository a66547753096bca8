//! The messages of the protocol, as far as the mux reads or writes them.
use crate::json::JsonObject;
use std::collections::BTreeMap;
use std::sync::Arc;
use vstd::prelude::*;

verus! {

/// The name and version of a program that speaks the protocol.
#[derive(Debug, PartialEq)]
pub struct Implementation {
    pub name: String,
    pub version: String,
}

/// What a server can do with prompts.
#[derive(Debug, PartialEq)]
pub struct PromptsCapability {
    pub list_changed: Option<bool>,
}

/// What a server can do with resources.
#[derive(Debug, PartialEq)]
pub struct ResourcesCapability {
    pub subscribe: Option<bool>,
    pub list_changed: Option<bool>,
}

/// What a server can do with tools.
#[derive(Debug, PartialEq)]
pub struct ToolsCapability {
    pub list_changed: Option<bool>,
}

/// What a client can do with roots.
#[derive(Debug, PartialEq)]
pub struct RootsCapabilities {
    pub list_changed: Option<bool>,
}

/// The capabilities that a server announces.
#[derive(Debug, PartialEq)]
pub struct ServerCapabilities {
    pub experimental: Option<BTreeMap<String, JsonObject>>,
    pub logging: Option<JsonObject>,
    pub completions: Option<JsonObject>,
    pub prompts: Option<PromptsCapability>,
    pub resources: Option<ResourcesCapability>,
    pub tools: Option<ToolsCapability>,
}

/// The capabilities that a client announces.
#[derive(Debug, PartialEq)]
pub struct ClientCapabilities {
    pub experimental: Option<BTreeMap<String, JsonObject>>,
    pub roots: Option<RootsCapabilities>,
    pub sampling: Option<JsonObject>,
}

/// What a server says of itself when a client connects.
#[derive(Debug, PartialEq)]
pub struct ServerInfo {
    pub protocol_version: String,
    pub capabilities: ServerCapabilities,
    pub server_info: Implementation,
    pub instructions: Option<String>,
}

/// What a client says of itself when it connects.
#[derive(Debug, PartialEq)]
pub struct ClientInfo {
    pub protocol_version: String,
    pub capabilities: ClientCapabilities,
    pub client_info: Implementation,
}

/// Hints on what a tool does.
#[derive(Debug, PartialEq)]
pub struct ToolAnnotations {
    pub title: Option<String>,
    pub read_only_hint: Option<bool>,
    pub destructive_hint: Option<bool>,
    pub idempotent_hint: Option<bool>,
    pub open_world_hint: Option<bool>,
}

/// A tool that a server offers.
#[derive(Debug, PartialEq)]
pub struct Tool {
    pub name: String,
    pub description: Option<String>,
    pub input_schema: Arc<JsonObject>,
    pub annotations: Option<ToolAnnotations>,
}

/// A tool by its name's characters; all else as it stands in the tool.
pub struct ToolView {
    pub name: Seq<char>,
    pub description: Option<String>,
    pub input_schema: Arc<JsonObject>,
    pub annotations: Option<ToolAnnotations>,
}

impl View for Tool {
    type V = ToolView;

    open spec fn view(&self) -> ToolView {
        ToolView {
            name: self.name@,
            description: self.description,
            input_schema: self.input_schema,
            annotations: self.annotations,
        }
    }
}

/// `Arc::clone`: one more pointer to the same schema.
#[verifier::external_body]
fn share(schema: &Arc<JsonObject>) -> (other: Arc<JsonObject>)
    ensures
        other == *schema,
{
    Arc::clone(schema)
}

/// Copies an optional text.
fn copy_text(text: &Option<String>) -> (copy: Option<String>)
    ensures
        copy == *text,
{
    match text {
        Some(t) => Some(t.clone()),
        None => None,
    }
}

impl Clone for ToolAnnotations {
    fn clone(&self) -> (copy: Self)
        ensures
            copy == *self,
    {
        ToolAnnotations {
            title: copy_text(&self.title),
            read_only_hint: self.read_only_hint,
            destructive_hint: self.destructive_hint,
            idempotent_hint: self.idempotent_hint,
            open_world_hint: self.open_world_hint,
        }
    }
}

impl Clone for Tool {
    fn clone(&self) -> (copy: Self)
        ensures
            copy == *self,
    {
        let annotations = match &self.annotations {
            Some(a) => Some(a.clone()),
            None => None,
        };
        Tool {
            name: self.name.clone(),
            description: copy_text(&self.description),
            input_schema: share(&self.input_schema),
            annotations,
        }
    }
}

/// A page of the tools that a server offers.
#[derive(Debug, PartialEq)]
pub struct ListToolsResult {
    pub tools: Vec<Tool>,
    pub next_cursor: Option<String>,
}

/// A request to call a tool.
#[derive(Debug, PartialEq)]
pub struct CallToolRequestParam {
    pub name: String,
    pub arguments: Option<JsonObject>,
}

/// A piece of text in a tool's answer.
#[derive(Debug, PartialEq)]
pub struct Content {
    pub text: String,
}

impl Content {
    /// Plain text.
    pub fn text(text: String) -> (content: Content)
        ensures
            content.text == text,
    {
        Content { text }
    }
}

/// The answer to a call of a tool.
#[derive(Debug, PartialEq)]
pub struct CallToolResult {
    pub content: Vec<Content>,
    pub is_error: Option<bool>,
}

impl CallToolResult {
    /// The answer that says by `content` what went wrong.
    pub fn error(content: Vec<Content>) -> (result: CallToolResult)
        ensures
            result.content == content,
            result.is_error == Some(true),
    {
        CallToolResult { content, is_error: Some(true) }
    }

    /// The result is an error that says `text`, and nothing else.
    pub open spec fn is_error_saying(self, text: Seq<char>) -> bool {
        &&& self.is_error == Some(true)
        &&& self.content@.len() == 1
        &&& self.content@[0].text@ == text
    }
}

/// An error of the protocol.
#[derive(Debug, PartialEq)]
pub struct ErrorData {
    pub code: i32,
    pub message: String,
    pub data: Option<JsonObject>,
}

/// A resource that a server offers.
#[derive(Debug, PartialEq)]
pub struct Resource {
    pub uri: String,
    pub name: String,
    pub description: Option<String>,
    pub mime_type: Option<String>,
    pub size: Option<u32>,
}

/// A page of the resources that a server offers.
#[derive(Debug, PartialEq)]
pub struct ListResourcesResult {
    pub resources: Vec<Resource>,
    pub next_cursor: Option<String>,
}

/// A family of resources, by a template of their URIs.
#[derive(Debug, PartialEq)]
pub struct ResourceTemplate {
    pub uri_template: String,
    pub name: String,
    pub description: Option<String>,
    pub mime_type: Option<String>,
}

/// A page of the resource templates that a server offers.
#[derive(Debug, PartialEq)]
pub struct ListResourceTemplatesResult {
    pub resource_templates: Vec<ResourceTemplate>,
    pub next_cursor: Option<String>,
}

/// A request to read a resource.
#[derive(Debug, PartialEq)]
pub struct ReadResourceRequestParam {
    pub uri: String,
}

/// What a resource holds.
#[derive(Debug, PartialEq)]
pub enum ResourceContents {
    TextResourceContents { uri: String, mime_type: Option<String>, text: String },
    BlobResourceContents { uri: String, mime_type: Option<String>, blob: String },
}

/// The answer to a request to read a resource.
#[derive(Debug, PartialEq)]
pub struct ReadResourceResult {
    pub contents: Vec<ResourceContents>,
}

/// An argument that a prompt takes.
#[derive(Debug, PartialEq)]
pub struct PromptArgument {
    pub name: String,
    pub description: Option<String>,
    pub required: Option<bool>,
}

/// A prompt that a server offers.
#[derive(Debug, PartialEq)]
pub struct Prompt {
    pub name: String,
    pub description: Option<String>,
    pub arguments: Option<Vec<PromptArgument>>,
}

/// A page of the prompts that a server offers.
#[derive(Debug, PartialEq)]
pub struct ListPromptsResult {
    pub prompts: Vec<Prompt>,
    pub next_cursor: Option<String>,
}

/// A request for a prompt.
#[derive(Debug, PartialEq)]
pub struct GetPromptRequestParam {
    pub name: String,
    pub arguments: Option<JsonObject>,
}

/// Who speaks a message of a prompt.
#[derive(Clone, Copy, Debug, PartialEq, Eq, Structural)]
pub enum PromptMessageRole {
    User,
    Assistant,
}

/// What a message of a prompt says.
#[derive(Debug, PartialEq)]
pub enum PromptMessageContent {
    Text { text: String },
}

/// A message of a prompt.
#[derive(Debug, PartialEq)]
pub struct PromptMessage {
    pub role: PromptMessageRole,
    pub content: PromptMessageContent,
}

/// The answer to a request for a prompt.
#[derive(Debug, PartialEq)]
pub struct GetPromptResult {
    pub description: Option<String>,
    pub messages: Vec<PromptMessage>,
}

/// A copy of the hints on a tool is equal to them in every field.
pub proof fn law_copy_of_annotations(annotations: &ToolAnnotations, copy: ToolAnnotations)
    requires
        call_ensures(<ToolAnnotations as Clone>::clone, (annotations,), copy),
    ensures
        copy.title == annotations.title,
        copy.read_only_hint == annotations.read_only_hint,
        copy.destructive_hint == annotations.destructive_hint,
        copy.idempotent_hint == annotations.idempotent_hint,
        copy.open_world_hint == annotations.open_world_hint,
{
}

/// A copy of a tool is equal to it in every field.
pub proof fn law_copy_of_a_tool(tool: &Tool, copy: Tool)
    requires
        call_ensures(<Tool as Clone>::clone, (tool,), copy),
    ensures
        copy.name@ == tool.name@,
        copy.description == tool.description,
        copy.input_schema == tool.input_schema,
        copy.annotations == tool.annotations,
{
}

/// An answer made of a text is an error, and says all of that text.
pub proof fn law_error_says_its_content(
    text: String,
    piece: Content,
    content: Vec<Content>,
    result: CallToolResult,
)
    requires
        call_ensures(Content::text, (text,), piece),
        call_ensures(CallToolResult::error, (content,), result),
    ensures
        piece.text@ == text@,
        result.content@ == content@,
        result.is_error == Some(true),
{
}

} // verus!

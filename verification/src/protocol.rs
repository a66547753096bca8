//! What the mux takes from `rmcp`, the implementation of the protocol: its
//! versions, error codes and defaults.
use crate::json::JsonObject;
use crate::model::{
    ClientCapabilities, ErrorData, Implementation, PromptsCapability, Resource, ResourceContents,
    ResourcesCapability, RootsCapabilities, ServerCapabilities, ToolsCapability,
};
use vstd::prelude::*;

verus! {

/// `ProtocolVersion::V_2024_11_05`, written out by its `Display`.
#[verifier::external_body]
pub(crate) fn version_2024_11_05() -> (version: String)
    ensures
        version@ == "2024-11-05"@,
{
    rmcp::model::ProtocolVersion::V_2024_11_05.to_string()
}

/// `ProtocolVersion::default`, written out by its `Display`: the latest version
/// that `rmcp` speaks.
#[verifier::external_body]
pub(crate) fn default_version() -> (version: String)
    ensures
        version@ == "2025-03-26"@,
{
    rmcp::model::ProtocolVersion::default().to_string()
}

/// `Implementation::from_build_env`: the name and version that `rmcp` was
/// itself built under.
#[verifier::external_body]
pub(crate) fn implementation_from_build_env() -> (implementation: Implementation)
    ensures
        implementation.name@ == "rmcp"@,
        implementation.version@ == "0.2.1"@,
{
    let implementation = rmcp::model::Implementation::from_build_env();
    Implementation { name: implementation.name, version: implementation.version }
}

/// `ServerCapabilities::builder().enable_tools().build()`: the capabilities of
/// a server that offers tools, by their defaults, and nothing else.
#[verifier::external_body]
pub(crate) fn tools_capabilities() -> (capabilities: ServerCapabilities)
    ensures
        capabilities.experimental is None,
        capabilities.logging is None,
        capabilities.completions is None,
        capabilities.prompts is None,
        capabilities.resources is None,
        capabilities.tools == Some(ToolsCapability { list_changed: None }),
{
    let c = rmcp::model::ServerCapabilities::builder().enable_tools().build();
    ServerCapabilities {
        experimental: c.experimental,
        logging: c.logging,
        completions: c.completions,
        prompts: c.prompts.map(|p| PromptsCapability { list_changed: p.list_changed }),
        resources: c.resources.map(
            |r| ResourcesCapability { subscribe: r.subscribe, list_changed: r.list_changed },
        ),
        tools: c.tools.map(|t| ToolsCapability { list_changed: t.list_changed }),
    }
}

/// `ServerCapabilities::builder()` with prompts, resources and tools enabled:
/// the capabilities of a server that offers these three, by their defaults, and
/// nothing else.
#[verifier::external_body]
pub(crate) fn prompts_resources_tools_capabilities() -> (capabilities: ServerCapabilities)
    ensures
        capabilities.experimental is None,
        capabilities.logging is None,
        capabilities.completions is None,
        capabilities.prompts == Some(PromptsCapability { list_changed: None }),
        capabilities.resources == Some(ResourcesCapability { subscribe: None, list_changed: None }),
        capabilities.tools == Some(ToolsCapability { list_changed: None }),
{
    let builder = rmcp::model::ServerCapabilities::builder();
    let c = builder.enable_prompts().enable_resources().enable_tools().build();
    ServerCapabilities {
        experimental: c.experimental,
        logging: c.logging,
        completions: c.completions,
        prompts: c.prompts.map(|p| PromptsCapability { list_changed: p.list_changed }),
        resources: c.resources.map(
            |r| ResourcesCapability { subscribe: r.subscribe, list_changed: r.list_changed },
        ),
        tools: c.tools.map(|t| ToolsCapability { list_changed: t.list_changed }),
    }
}

/// `ClientCapabilities::default`: the capabilities of a client that announces
/// none.
#[verifier::external_body]
pub(crate) fn default_client_capabilities() -> (capabilities: ClientCapabilities)
    ensures
        capabilities.experimental is None,
        capabilities.roots is None,
        capabilities.sampling is None,
{
    let c = rmcp::model::ClientCapabilities::default();
    ClientCapabilities {
        experimental: c.experimental,
        roots: c.roots.map(|r| RootsCapabilities { list_changed: r.list_changed }),
        sampling: c.sampling,
    }
}

/// `ErrorData::new` with `ErrorCode::INTERNAL_ERROR`: the error of that code
/// with the message and data that it is given. The data goes in as a JSON
/// object, and `rmcp::model::object` takes that object out again.
#[verifier::external_body]
pub(crate) fn internal_error(message: String, data: Option<JsonObject>) -> (error: ErrorData)
    ensures
        error.code == -32603,
        error.message@ == message@,
        error.data == data,
{
    let code = rmcp::model::ErrorCode::INTERNAL_ERROR;
    let e = rmcp::model::ErrorData::new(code, message, data.map(serde_json::Value::Object));
    ErrorData {
        code: e.code.0,
        message: e.message.into_owned(),
        data: e.data.map(rmcp::model::object),
    }
}

/// `ErrorData::invalid_params`: the error of the code for bad parameters with
/// the message and data that it is given. The data goes in as a JSON
/// object, and `rmcp::model::object` takes that object out again.
#[verifier::external_body]
pub(crate) fn invalid_params(message: String, data: Option<JsonObject>) -> (error: ErrorData)
    ensures
        error.code == -32602,
        error.message@ == message@,
        error.data == data,
{
    let e = rmcp::model::ErrorData::invalid_params(message, data.map(serde_json::Value::Object));
    ErrorData {
        code: e.code.0,
        message: e.message.into_owned(),
        data: e.data.map(rmcp::model::object),
    }
}

/// `ErrorData::resource_not_found`: the error of the code for a missing
/// resource with the message and data that it is given. The data goes in as a JSON
/// object, and `rmcp::model::object` takes that object out again.
#[verifier::external_body]
pub(crate) fn resource_not_found(message: String, data: Option<JsonObject>) -> (error: ErrorData)
    ensures
        error.code == -32002,
        error.message@ == message@,
        error.data == data,
{
    let data = data.map(serde_json::Value::Object);
    let e = rmcp::model::ErrorData::resource_not_found(message, data);
    ErrorData {
        code: e.code.0,
        message: e.message.into_owned(),
        data: e.data.map(rmcp::model::object),
    }
}

/// `RawResource::new`: a resource of which only the URI and the name are said.
#[verifier::external_body]
pub(crate) fn raw_resource(uri: &str, name: &str) -> (resource: Resource)
    ensures
        resource.uri@ == uri@,
        resource.name@ == name@,
        resource.description is None,
        resource.mime_type is None,
        resource.size is None,
{
    let r = rmcp::model::RawResource::new(uri, name);
    Resource {
        uri: r.uri,
        name: r.name,
        description: r.description,
        mime_type: r.mime_type,
        size: r.size,
    }
}

/// `ResourceContents::text`: text of the type `text`, read from the URI.
#[verifier::external_body]
pub(crate) fn text_contents(text: &str, uri: String) -> (contents: ResourceContents)
    ensures
        contents is TextResourceContents,
        contents->TextResourceContents_uri@ == uri@,
        contents->TextResourceContents_mime_type.deep_view() == Some("text"@),
        contents->text@ == text@,
{
    match rmcp::model::ResourceContents::text(text, uri) {
        rmcp::model::ResourceContents::TextResourceContents { uri, mime_type, text } => {
            ResourceContents::TextResourceContents { uri, mime_type, text }
        },
        rmcp::model::ResourceContents::BlobResourceContents { uri, mime_type, blob } => {
            ResourceContents::BlobResourceContents { uri, mime_type, blob }
        },
    }
}

} // verus!

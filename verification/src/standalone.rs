//! The server that the standalone program runs: a mux that has resources and a
//! prompt of its own besides the tools of the servers behind it.
use crate::json::{get_text, insert_text, members, new_object, text_at, JsonObject, Members};
use crate::laws::law_copy_offers_the_same;
use crate::model::{
    CallToolRequestParam, ErrorData, GetPromptRequestParam, GetPromptResult, ListPromptsResult,
    ListResourceTemplatesResult, ListResourcesResult, ListToolsResult, Prompt, PromptArgument,
    PromptMessage, PromptMessageContent, PromptMessageRole, PromptsCapability,
    ReadResourceRequestParam, ReadResourceResult, Resource, ResourceContents, ResourcesCapability,
    ServerInfo, Tool, ToolsCapability,
};
use crate::mux::{listing, route, same_tools, tool_views, CallStep, Route};
use crate::protocol;
use crate::servers::ServerMap;
use vstd::prelude::*;
use vstd::string::StringExecFns;

verus! {

/// A pair of numbers to compute with.
#[derive(Debug, PartialEq)]
pub struct StructRequest {
    pub a: i32,
    pub b: i32,
}

/// The server introduces itself by `info`.
pub open spec fn introduces_server(info: ServerInfo) -> bool {
    &&& info.protocol_version@ == "2024-11-05"@
    &&& info.capabilities.experimental is None
    &&& info.capabilities.logging is None
    &&& info.capabilities.completions is None
    &&& info.capabilities.prompts == Some(PromptsCapability { list_changed: None })
    &&& info.capabilities.resources == Some(
        ResourcesCapability { subscribe: None, list_changed: None },
    )
    &&& info.capabilities.tools == Some(ToolsCapability { list_changed: None })
    &&& info.server_info.name@ == "rmcp"@
    &&& info.server_info.version@ == "0.2.1"@
    &&& info.instructions.deep_view() == Some(
        "This server provides a counter tool that can increment and decrement values. The counter starts at 0 and can be modified using the 'increment' and 'decrement' tools. Use 'get_value' to check the current count."@,
    )
}

/// The URIs and names of the resources.
pub open spec fn resources() -> Seq<(Seq<char>, Seq<char>)> {
    seq![("str:////Users/to/some/path/"@, "cwd"@), ("memo://insights"@, "memo-name"@)]
}

/// The text of the resource at `uri`, if there is one.
pub open spec fn resource_text(uri: Seq<char>) -> Option<Seq<char>> {
    if uri == "str:////Users/to/some/path/"@ {
        Some("/Users/to/some/path/"@)
    } else if uri == "memo://insights"@ {
        Some("Business Intelligence Memo\n\nAnalysis has revealed 5 key insights ..."@)
    } else {
        None
    }
}

/// `resource` says its URI and its name, and nothing else.
pub open spec fn is_plain(resource: Resource, uri: Seq<char>, name: Seq<char>) -> bool {
    &&& resource.uri@ == uri
    &&& resource.name@ == name
    &&& resource.description is None
    &&& resource.mime_type is None
    &&& resource.size is None
}

/// `contents` is the text `text`, of the type `text`, read from `uri`.
pub open spec fn is_text_at(contents: ResourceContents, uri: Seq<char>, text: Seq<char>) -> bool {
    &&& contents is TextResourceContents
    &&& contents->TextResourceContents_uri@ == uri
    &&& contents->TextResourceContents_mime_type.deep_view() == Some("text"@)
    &&& contents->text@ == text
}

/// The text of the prompt `name`, made with the message that was passed; or the
/// reason why there is none.
pub open spec fn prompt_text(name: Seq<char>, message: Option<Seq<char>>) -> Result<
    Seq<char>,
    Seq<char>,
> {
    if name != "example_prompt"@ {
        Err("prompt not found"@)
    } else {
        match message {
            Some(text) => Ok("This is an example prompt with your message here: '"@ + text + "'"@),
            None => Err("No message provided to example_prompt"@),
        }
    }
}

/// The text that was passed as the argument `message`, if one was.
pub open spec fn message_in(arguments: Option<JsonObject>) -> Option<Seq<char>> {
    match arguments {
        Some(object) => text_at(object, "message"@),
        None => None,
    }
}

/// `answer` is one message of the user that says the text of the prompt, or the
/// error for bad parameters that says why there is none.
pub open spec fn answers_prompt(
    answer: Result<GetPromptResult, ErrorData>,
    name: Seq<char>,
    message: Option<Seq<char>>,
) -> bool {
    match prompt_text(name, message) {
        Ok(text) => {
            &&& answer matches Ok(result)
            &&& result.description is None
            &&& result.messages@.len() == 1
            &&& result.messages@[0].role == PromptMessageRole::User
            &&& result.messages@[0].content->text@ == text
        },
        Err(reason) => {
            &&& answer matches Err(error)
            &&& error.code == -32602
            &&& error.message@ == reason
            &&& error.data is None
        },
    }
}

/// `result` is the one page of all resources.
pub open spec fn lists_resources(result: ListResourcesResult) -> bool {
    &&& result.next_cursor is None
    &&& result.resources@.len() == resources().len()
    &&& forall|i: int|
        0 <= i < resources().len() ==> is_plain(
            #[trigger] result.resources@[i],
            resources()[i].0,
            resources()[i].1,
        )
}

/// `result` is the one page of all prompts: of one, with one required argument.
pub open spec fn lists_example_prompt(result: ListPromptsResult) -> bool {
    let prompt = result.prompts@[0];
    &&& result.next_cursor is None
    &&& result.prompts@.len() == 1
    &&& prompt.name@ == "example_prompt"@
    &&& prompt.description.deep_view() == Some(
        "This is an example prompt that takes one required argument, message"@,
    )
    &&& prompt.arguments matches Some(arguments)
    &&& arguments@.len() == 1
    &&& arguments@[0].name@ == "message"@
    &&& arguments@[0].description.deep_view() == Some("A message to put in the prompt"@)
    &&& arguments@[0].required == Some(true)
}

/// Every resource that is listed can be read, and nothing else can.
pub proof fn law_listed_resources_are_readable(result: ListResourcesResult, uri: Seq<char>)
    requires
        lists_resources(result),
    ensures
        resource_text(uri) is Some <==> exists|i: int|
            0 <= i < result.resources@.len() && (#[trigger] result.resources@[i]).uri@ == uri,
{
    assert(is_plain(result.resources@[0], resources()[0].0, resources()[0].1));
    assert(is_plain(result.resources@[1], resources()[1].0, resources()[1].1));
}

/// A prompt can be had exactly if it is listed and the argument that is listed
/// as required was passed, as a string.
pub proof fn law_listed_prompts_are_available(
    result: ListPromptsResult,
    name: Seq<char>,
    arguments: JsonObject,
)
    requires
        lists_example_prompt(result),
    ensures
        prompt_text(name, message_in(Some(arguments))) is Ok <==> exists|i: int|
            0 <= i < result.prompts@.len() && (#[trigger] result.prompts@[i]).name@ == name
                && text_at(arguments, result.prompts@[i].arguments->0@[0].name@) is Some,
{
    let prompt = result.prompts@[0];
    assert(prompt.arguments->0@[0].name@ == "message"@);
}

/// Answers a request for the prompt `name` with the message that was passed, if
/// one was.
pub fn fill_prompt(name: &str, message: Option<String>) -> (answer: Result<
    GetPromptResult,
    ErrorData,
>)
    ensures
        answers_prompt(answer, name@, message.deep_view()),
{
    if name.to_string() == "example_prompt".to_string() {
        match message {
            Some(message) => {
                let text = "This is an example prompt with your message here: '".to_string().concat(
                    message.as_str(),
                ).concat("'");
                let mut messages: Vec<PromptMessage> = Vec::new();
                let content = PromptMessageContent::Text { text };
                messages.push(PromptMessage { role: PromptMessageRole::User, content });
                Ok(GetPromptResult { description: None, messages })
            },
            None => Err(
                protocol::invalid_params("No message provided to example_prompt".to_string(), None),
            ),
        }
    } else {
        Err(protocol::invalid_params("prompt not found".to_string(), None))
    }
}

/// A mux with resources and a prompt of its own.
#[derive(Debug)]
pub struct MCPMux<C> {
    #[allow(dead_code)]
    counter: i32,
    mux: crate::mux::MCPMux<C>,
}

impl<C> MCPMux<C> {
    /// The counter.
    pub closed spec fn counter(self) -> i32 {
        self.counter
    }

    /// The mux that the calls go through.
    pub closed spec fn mux(self) -> crate::mux::MCPMux<C> {
        self.mux
    }

    /// The mux that the calls go through is well-formed.
    #[verifier::type_invariant]
    pub open spec fn wf(self) -> bool {
        self.mux().wf()
    }

    /// A server in front of the servers that offer `tools` and are reached by
    /// `clients`, with its counter at zero.
    pub fn new(tools: ServerMap<Vec<Tool>>, clients: ServerMap<C>) -> (server: Self)
        ensures
            server.counter() == 0,
            server.mux().tools() == tools,
            server.mux().clients() == clients,
            server.wf(),
    {
        MCPMux { counter: 0, mux: crate::mux::MCPMux::new(tools, clients) }
    }

    /// A resource of which only the URI and the name are said.
    fn _create_resource_text(&self, uri: &str, name: &str) -> (resource: Resource)
        ensures
            is_plain(resource, uri@, name@),
    {
        protocol::raw_resource(uri, name)
    }

    /// What the server says of itself.
    pub fn get_info(&self) -> (info: ServerInfo)
        ensures
            introduces_server(info),
    {
        let instructions =
            "This server provides a counter tool that can increment and decrement values. The counter starts at 0 and can be modified using the 'increment' and 'decrement' tools. Use 'get_value' to check the current count.".to_string();
        ServerInfo {
            protocol_version: protocol::version_2024_11_05(),
            capabilities: protocol::prompts_resources_tools_capabilities(),
            server_info: protocol::implementation_from_build_env(),
            instructions: Some(instructions),
        }
    }

    /// The resources.
    pub fn list_resources(&self) -> (result: ListResourcesResult)
        ensures
            lists_resources(result),
    {
        let mut resources: Vec<Resource> = Vec::new();
        resources.push(self._create_resource_text("str:////Users/to/some/path/", "cwd"));
        resources.push(self._create_resource_text("memo://insights", "memo-name"));
        ListResourcesResult { resources, next_cursor: None }
    }

    /// Reads a resource: answers with its text, or, if there is none at the
    /// URI, with an error that quotes the URI.
    pub fn read_resource(&self, request: ReadResourceRequestParam) -> (answer: Result<
        ReadResourceResult,
        ErrorData,
    >)
        ensures
            match resource_text(request.uri@) {
                Some(text) => {
                    &&& answer matches Ok(result)
                    &&& result.contents@.len() == 1
                    &&& is_text_at(result.contents@[0], request.uri@, text)
                },
                None => {
                    &&& answer matches Err(error)
                    &&& error.code == -32002
                    &&& error.message@ == "resource_not_found"@
                    &&& error.data matches Some(data)
                    &&& members(data) == Members::empty().insert("uri"@, Some(request.uri@))
                },
            },
    {
        let uri = request.uri;
        let mut contents: Vec<ResourceContents> = Vec::new();
        if uri == "str:////Users/to/some/path/".to_string() {
            contents.push(protocol::text_contents("/Users/to/some/path/", uri));
            Ok(ReadResourceResult { contents })
        } else if uri == "memo://insights".to_string() {
            contents.push(
                protocol::text_contents(
                    "Business Intelligence Memo\n\nAnalysis has revealed 5 key insights ...",
                    uri,
                ),
            );
            Ok(ReadResourceResult { contents })
        } else {
            let mut data = new_object();
            insert_text(&mut data, "uri".to_string(), uri);
            Err(protocol::resource_not_found("resource_not_found".to_string(), Some(data)))
        }
    }

    /// The prompts: one, with one required argument.
    pub fn list_prompts(&self) -> (result: ListPromptsResult)
        ensures
            lists_example_prompt(result),
    {
        let mut arguments: Vec<PromptArgument> = Vec::new();
        arguments.push(
            PromptArgument {
                name: "message".to_string(),
                description: Some("A message to put in the prompt".to_string()),
                required: Some(true),
            },
        );
        let mut prompts: Vec<Prompt> = Vec::new();
        prompts.push(
            Prompt {
                name: "example_prompt".to_string(),
                description: Some(
                    "This is an example prompt that takes one required argument, message".to_string(),
                ),
                arguments: Some(arguments),
            },
        );
        ListPromptsResult { next_cursor: None, prompts }
    }

    /// Answers a request for a prompt.
    pub fn get_prompt(&self, request: GetPromptRequestParam) -> (answer: Result<
        GetPromptResult,
        ErrorData,
    >)
        ensures
            answers_prompt(answer, request.name@, message_in(request.arguments)),
    {
        let message = match &request.arguments {
            Some(object) => get_text(object, "message"),
            None => None,
        };
        fill_prompt(request.name.as_str(), message)
    }

    /// The resource templates: none.
    pub fn list_resource_templates(&self) -> (result: ListResourceTemplatesResult)
        ensures
            result.next_cursor is None,
            result.resource_templates@.len() == 0,
    {
        ListResourceTemplatesResult { next_cursor: None, resource_templates: Vec::new() }
    }

    /// The tools of all servers, under their qualified names.
    pub fn list_tools(&self) -> (result: ListToolsResult)
        ensures
            tool_views(result.tools@) == listing(self.mux().tools()),
            result.next_cursor is None,
            self.mux().tools().wf(),
    {
        self.mux.list_tools()
    }

    /// Tells whether `call_tool` may be asked about `name`.
    pub fn can_reach(&self, name: &str) -> (reachable: bool)
        ensures
            reachable == self.mux().reaches(name@),
    {
        self.mux.can_reach(name)
    }

    /// What is to be done about a call.
    pub fn call_tool(&self, request: CallToolRequestParam) -> (step: CallStep<'_, C>)
        requires
            self.mux().reaches(request.name@),
        ensures
            self.mux().decides(request, step),
    {
        self.mux.call_tool(request)
    }

    /// The answer to a client that connects: what the server says of itself.
    pub fn initialize(&self) -> (info: ServerInfo)
        ensures
            introduces_server(info),
    {
        self.get_info()
    }
}

impl<C: Clone> Clone for MCPMux<C> {
    fn clone(&self) -> (copy: Self)
        ensures
            copy.counter() == self.counter(),
            same_tools(copy.mux().tools(), self.mux().tools()),
            copy.mux().clients().names() == self.mux().clients().names(),
            forall|i: int|
                0 <= i < self.mux().clients().entries().len() ==> cloned(
                    (#[trigger] self.mux().clients().entries()[i]).1,
                    copy.mux().clients().entries()[i].1,
                ),
            copy.wf(),
    {
        MCPMux { counter: self.counter, mux: self.mux.clone() }
    }
}

/// A new server has its counter at zero.
pub proof fn law_counter_starts_at_zero<C>(
    tools: ServerMap<Vec<Tool>>,
    clients: ServerMap<C>,
    server: MCPMux<C>,
)
    requires
        call_ensures(MCPMux::<C>::new, (tools, clients), server),
    ensures
        call_requires(MCPMux::<C>::new, (tools, clients)),
        server.counter() == 0,
{
}

/// The server introduces itself in the same way always, to whom it is asked by
/// and to a client that connects: as one that offers prompts, resources and
/// tools, and nothing else.
pub proof fn law_server_introduces_itself<C>(server: MCPMux<C>, info: ServerInfo)
    requires
        call_ensures(MCPMux::<C>::get_info, (&server,), info) || call_ensures(
            MCPMux::<C>::initialize,
            (&server,),
            info,
        ),
    ensures
        call_requires(MCPMux::<C>::get_info, (&server,)),
        call_requires(MCPMux::<C>::initialize, (&server,)),
        info.protocol_version@ == "2024-11-05"@,
        info.capabilities.experimental is None,
        info.capabilities.logging is None,
        info.capabilities.completions is None,
        info.capabilities.prompts matches Some(prompts) && prompts.list_changed is None,
        info.capabilities.resources matches Some(resources) && resources.subscribe is None
            && resources.list_changed is None,
        info.capabilities.tools matches Some(tools) && tools.list_changed is None,
        info.server_info.name@ == "rmcp"@,
        info.server_info.version@ == "0.2.1"@,
        info.instructions matches Some(text) && text@
            == "This server provides a counter tool that can increment and decrement values. The counter starts at 0 and can be modified using the 'increment' and 'decrement' tools. Use 'get_value' to check the current count."@,
{
}

/// Two resources are listed, each with its URI and its name, and nothing else.
pub proof fn law_resources_are_listed<C>(server: MCPMux<C>, result: ListResourcesResult)
    requires
        call_ensures(MCPMux::<C>::list_resources, (&server,), result),
    ensures
        call_requires(MCPMux::<C>::list_resources, (&server,)),
        result.next_cursor is None,
        result.resources@.len() == 2,
        result.resources@[0].uri@ == "str:////Users/to/some/path/"@,
        result.resources@[0].name@ == "cwd"@,
        result.resources@[1].uri@ == "memo://insights"@,
        result.resources@[1].name@ == "memo-name"@,
        forall|i: int|
            0 <= i < result.resources@.len() ==> {
                &&& (#[trigger] result.resources@[i]).description is None
                &&& result.resources@[i].mime_type is None
                &&& result.resources@[i].size is None
            },
{
    assert(is_plain(result.resources@[0], resources()[0].0, resources()[0].1));
    assert(is_plain(result.resources@[1], resources()[1].0, resources()[1].1));
}

/// A read of one of the two resources gives its text, as one piece of the type
/// `text` that quotes the URI; a read of any other URI gives the error for a
/// missing resource, with the URI, and nothing else, as its data.
pub proof fn law_resource_is_read<C>(
    server: MCPMux<C>,
    request: ReadResourceRequestParam,
    answer: Result<ReadResourceResult, ErrorData>,
)
    requires
        call_ensures(MCPMux::<C>::read_resource, (&server, request), answer),
    ensures
        call_requires(MCPMux::<C>::read_resource, (&server, request)),
        answer is Ok <==> request.uri@ == "str:////Users/to/some/path/"@ || request.uri@
            == "memo://insights"@,
        answer matches Ok(result) ==> {
            &&& result.contents@.len() == 1
            &&& result.contents@[0] is TextResourceContents
            &&& result.contents@[0]->TextResourceContents_uri@ == request.uri@
            &&& result.contents@[0]->TextResourceContents_mime_type matches Some(kind) && kind@
                == "text"@
            &&& request.uri@ == "str:////Users/to/some/path/"@ ==> result.contents@[0]->text@
                == "/Users/to/some/path/"@
            &&& request.uri@ == "memo://insights"@ ==> result.contents@[0]->text@
                == "Business Intelligence Memo\n\nAnalysis has revealed 5 key insights ..."@
        },
        answer matches Err(error) ==> {
            &&& error.code == -32002
            &&& error.message@ == "resource_not_found"@
            &&& error.data is Some
            &&& forall|key: Seq<char>|
                #[trigger] members(error.data->0).contains_key(key) <==> key == "uri"@
            &&& members(error.data->0)["uri"@] == Some(request.uri@)
        },
{
    reveal_strlit("str:////Users/to/some/path/");
    reveal_strlit("memo://insights");
    assert("str:////Users/to/some/path/"@[0] != "memo://insights"@[0]);
}

/// A read of a URI succeeds exactly if the URI is listed.
pub proof fn law_list_then_read<C>(
    server: MCPMux<C>,
    result: ListResourcesResult,
    request: ReadResourceRequestParam,
    answer: Result<ReadResourceResult, ErrorData>,
)
    requires
        call_ensures(MCPMux::<C>::list_resources, (&server,), result),
        call_ensures(MCPMux::<C>::read_resource, (&server, request), answer),
    ensures
        answer is Ok <==> exists|i: int|
            0 <= i < result.resources@.len() && (#[trigger] result.resources@[i]).uri@
                == request.uri@,
{
    law_listed_resources_are_readable(result, request.uri@);
}

/// One prompt is listed, with one argument, which is required.
pub proof fn law_prompt_is_listed<C>(server: MCPMux<C>, result: ListPromptsResult)
    requires
        call_ensures(MCPMux::<C>::list_prompts, (&server,), result),
    ensures
        call_requires(MCPMux::<C>::list_prompts, (&server,)),
        result.next_cursor is None,
        result.prompts@.len() == 1,
        result.prompts@[0].name@ == "example_prompt"@,
        result.prompts@[0].description matches Some(text) && text@
            == "This is an example prompt that takes one required argument, message"@,
        result.prompts@[0].arguments matches Some(arguments) && {
            &&& arguments@.len() == 1
            &&& arguments@[0].name@ == "message"@
            &&& arguments@[0].description matches Some(text) && text@
                == "A message to put in the prompt"@
            &&& arguments@[0].required == Some(true)
        },
{
}

/// The example prompt, filled with a message, is one message of the user, which
/// quotes all of the message between a fixed beginning and a closing quote;
/// without a message, or under another name, there is an error for bad
/// parameters that says which of the two was wrong.
pub proof fn law_prompt_quotes_the_message(
    name: &str,
    message: Option<String>,
    answer: Result<GetPromptResult, ErrorData>,
)
    requires
        call_ensures(fill_prompt, (name, message), answer),
    ensures
        call_requires(fill_prompt, (name, message)),
        answer is Ok <==> name@ == "example_prompt"@ && message is Some,
        answer matches Ok(result) ==> {
            let beginning = "This is an example prompt with your message here: '"@;
            let text = result.messages@[0].content->text@;
            &&& result.description is None
            &&& result.messages@.len() == 1
            &&& result.messages@[0].role == PromptMessageRole::User
            &&& text.len() == beginning.len() + message->0@.len() + 1
            &&& text.take(beginning.len() as int) == beginning
            &&& text.skip(beginning.len() as int).drop_last() == message->0@
            &&& text.last() == '\''
        },
        answer matches Err(error) ==> {
            &&& error.code == -32602
            &&& error.data is None
            &&& name@ == "example_prompt"@ ==> error.message@
                == "No message provided to example_prompt"@
            &&& name@ != "example_prompt"@ ==> error.message@ == "prompt not found"@
        },
{
    reveal_strlit("'");
    if let Ok(result) = answer {
        let beginning = "This is an example prompt with your message here: '"@;
        let text = result.messages@[0].content->text@;
        let quoted = message->0@;
        assert(message.deep_view() == Some(quoted));
        assert(text == beginning + quoted + "'"@);
        assert(text.take(beginning.len() as int) =~= beginning);
        assert(text.skip(beginning.len() as int).drop_last() =~= quoted);
    }
}

/// A prompt that is asked for is filled with the text that was passed as the
/// argument `message`; a call without that argument, or with a value there that
/// is not a string, is a call without a message.
pub proof fn law_prompt_takes_its_argument<C>(
    server: MCPMux<C>,
    request: GetPromptRequestParam,
    answer: Result<GetPromptResult, ErrorData>,
)
    requires
        call_ensures(MCPMux::<C>::get_prompt, (&server, request), answer),
    ensures
        call_requires(MCPMux::<C>::get_prompt, (&server, request)),
        answer is Ok <==> {
            &&& request.name@ == "example_prompt"@
            &&& request.arguments is Some
            &&& members(request.arguments->0).contains_key("message"@)
            &&& members(request.arguments->0)["message"@] is Some
        },
        answer matches Ok(result) ==> {
            let beginning = "This is an example prompt with your message here: '"@;
            let message = members(request.arguments->0)["message"@]->0;
            let text = result.messages@[0].content->text@;
            &&& result.description is None
            &&& result.messages@.len() == 1
            &&& result.messages@[0].role == PromptMessageRole::User
            &&& text.len() == beginning.len() + message.len() + 1
            &&& text.take(beginning.len() as int) == beginning
            &&& text.skip(beginning.len() as int).drop_last() == message
            &&& text.last() == '\''
        },
        answer matches Err(error) ==> {
            &&& error.code == -32602
            &&& error.data is None
            &&& request.name@ == "example_prompt"@ ==> error.message@
                == "No message provided to example_prompt"@
            &&& request.name@ != "example_prompt"@ ==> error.message@ == "prompt not found"@
        },
{
    reveal_strlit("'");
    if let Ok(result) = answer {
        let beginning = "This is an example prompt with your message here: '"@;
        let text = result.messages@[0].content->text@;
        let quoted = members(request.arguments->0)["message"@]->0;
        assert(text == beginning + quoted + "'"@);
        assert(text.take(beginning.len() as int) =~= beginning);
        assert(text.skip(beginning.len() as int).drop_last() =~= quoted);
    }
}

/// Two messages give prompts of the same text only if they are the same.
pub proof fn law_prompts_tell_messages_apart(
    name: &str,
    message1: String,
    answer1: Result<GetPromptResult, ErrorData>,
    message2: String,
    answer2: Result<GetPromptResult, ErrorData>,
)
    requires
        name@ == "example_prompt"@,
        call_ensures(fill_prompt, (name, Some(message1)), answer1),
        call_ensures(fill_prompt, (name, Some(message2)), answer2),
    ensures
        answer1 is Ok && answer2 is Ok,
        answer1->Ok_0.messages@[0].content->text@ == answer2->Ok_0.messages@[0].content->text@
            <==> message1@ == message2@,
{
    law_prompt_quotes_the_message(name, Some(message1), answer1);
    law_prompt_quotes_the_message(name, Some(message2), answer2);
    let text1 = answer1->Ok_0.messages@[0].content->text@;
    let text2 = answer2->Ok_0.messages@[0].content->text@;
    if message1@ == message2@ {
        let b = text1.len() - 1 - message1@.len();
        assert(text1 =~= text1.take(b) + text1.skip(b).drop_last() + seq![text1.last()]);
        assert(text2 =~= text2.take(b) + text2.skip(b).drop_last() + seq![text2.last()]);
    }
}

/// There are no resource templates.
pub proof fn law_no_resource_templates<C>(server: MCPMux<C>, result: ListResourceTemplatesResult)
    requires
        call_ensures(MCPMux::<C>::list_resource_templates, (&server,), result),
    ensures
        call_requires(MCPMux::<C>::list_resource_templates, (&server,)),
        result.resource_templates@.len() == 0,
        result.next_cursor is None,
{
}

/// The server lists what a mux in front of the same servers lists.
pub proof fn law_server_lists_as_a_mux<C>(
    tools: ServerMap<Vec<Tool>>,
    clients: ServerMap<C>,
    server: MCPMux<C>,
    mux: crate::mux::MCPMux<C>,
    result: ListToolsResult,
    other: ListToolsResult,
)
    requires
        call_ensures(MCPMux::<C>::new, (tools, clients), server),
        call_ensures(crate::mux::MCPMux::<C>::new, (tools, clients), mux),
        call_ensures(MCPMux::<C>::list_tools, (&server,), result),
        call_ensures(crate::mux::MCPMux::<C>::list_tools, (&mux,), other),
    ensures
        call_requires(MCPMux::<C>::list_tools, (&server,)),
        result.next_cursor == other.next_cursor,
        result.tools@.len() == other.tools@.len(),
        forall|p: int|
            0 <= p < result.tools@.len() ==> {
                &&& (#[trigger] result.tools@[p]).name@ == other.tools@[p].name@
                &&& result.tools@[p].description == other.tools@[p].description
                &&& result.tools@[p].input_schema == other.tools@[p].input_schema
                &&& result.tools@[p].annotations == other.tools@[p].annotations
            },
{
    assert(tool_views(result.tools@).len() == result.tools@.len());
    assert(tool_views(other.tools@).len() == other.tools@.len());
    assert forall|p: int| 0 <= p < result.tools@.len() implies {
        &&& (#[trigger] result.tools@[p]).name@ == other.tools@[p].name@
        &&& result.tools@[p].description == other.tools@[p].description
        &&& result.tools@[p].input_schema == other.tools@[p].input_schema
        &&& result.tools@[p].annotations == other.tools@[p].annotations
    } by {
        assert(tool_views(result.tools@)[p] == result.tools@[p]@);
        assert(tool_views(other.tools@)[p] == other.tools@[p]@);
    }
}

/// The server decides on a call as a mux in front of the same servers does: it
/// lacks a client for the same names, gives the same answer, or sends the same
/// request to the same client.
pub proof fn law_server_decides_as_a_mux<C>(
    tools: ServerMap<Vec<Tool>>,
    clients: ServerMap<C>,
    server: MCPMux<C>,
    mux: crate::mux::MCPMux<C>,
    name: &str,
    reachable: bool,
    other_reachable: bool,
    request: CallToolRequestParam,
    step: CallStep<'_, C>,
    other: CallStep<'_, C>,
)
    requires
        call_ensures(MCPMux::<C>::new, (tools, clients), server),
        call_ensures(crate::mux::MCPMux::<C>::new, (tools, clients), mux),
        call_ensures(MCPMux::<C>::can_reach, (&server, name), reachable),
        call_ensures(crate::mux::MCPMux::<C>::can_reach, (&mux, name), other_reachable),
        request.name@ == name@,
        call_ensures(MCPMux::<C>::call_tool, (&server, request), step),
        call_ensures(crate::mux::MCPMux::<C>::call_tool, (&mux, request), other),
    ensures
        reachable == other_reachable,
        reachable ==> call_requires(MCPMux::<C>::call_tool, (&server, request)),
        step matches CallStep::Answer(answer) ==> {
            &&& other is Answer
            &&& answer.is_error == other->0.is_error
            &&& answer.content@.len() == other->0.content@.len()
            &&& forall|p: int|
                0 <= p < answer.content@.len() ==> (#[trigger] answer.content@[p]).text@
                    == other->0.content@[p].text@
        },
        step matches CallStep::Forward { client, request: sent } ==> {
            &&& other is Forward
            &&& *client == *other->client
            &&& sent.name@ == other->request.name@
            &&& sent.arguments == other->request.arguments
        },
{
}

/// A copy of the server keeps the counter, lists the same tools at the same
/// places, and decides on a call as the server does: it gives the same answer,
/// or sends the same request to a copy of the client.
pub proof fn law_copy_serves_the_same<C: Clone>(
    server: MCPMux<C>,
    copy: MCPMux<C>,
    result: ListToolsResult,
    other_result: ListToolsResult,
    request: CallToolRequestParam,
    step: CallStep<'_, C>,
    other: CallStep<'_, C>,
)
    requires
        server.mux().reaches(request.name@),
        call_ensures(<MCPMux<C> as Clone>::clone, (&server,), copy),
        call_ensures(MCPMux::<C>::list_tools, (&server,), result),
        call_ensures(MCPMux::<C>::list_tools, (&copy,), other_result),
        call_ensures(MCPMux::<C>::call_tool, (&server, request), step),
        call_ensures(MCPMux::<C>::call_tool, (&copy, request), other),
    ensures
        copy.counter() == server.counter(),
        other_result.tools@.len() == result.tools@.len(),
        forall|p: int|
            0 <= p < result.tools@.len() ==> {
                &&& (#[trigger] other_result.tools@[p]).name@ == result.tools@[p].name@
                &&& other_result.tools@[p].description == result.tools@[p].description
                &&& other_result.tools@[p].input_schema == result.tools@[p].input_schema
                &&& other_result.tools@[p].annotations == result.tools@[p].annotations
            },
        step matches CallStep::Answer(answer) ==> {
            &&& other is Answer
            &&& other->0.is_error == answer.is_error
            &&& other->0.content@.len() == answer.content@.len()
            &&& forall|p: int|
                0 <= p < answer.content@.len() ==> (#[trigger] other->0.content@[p]).text@
                    == answer.content@[p].text@
        },
        step matches CallStep::Forward { client, request: sent } ==> {
            &&& other is Forward
            &&& cloned(*client, *other->client)
            &&& other->request.name@ == sent.name@
            &&& other->request.arguments == sent.arguments
        },
{
    let own = server.mux();
    law_copy_offers_the_same(copy.mux().tools(), own.tools(), request.name@);
    assert(tool_views(other_result.tools@).len() == other_result.tools@.len());
    assert(tool_views(result.tools@).len() == result.tools@.len());
    assert forall|p: int| 0 <= p < result.tools@.len() implies {
        &&& (#[trigger] other_result.tools@[p]).name@ == result.tools@[p].name@
        &&& other_result.tools@[p].description == result.tools@[p].description
        &&& other_result.tools@[p].input_schema == result.tools@[p].input_schema
        &&& other_result.tools@[p].annotations == result.tools@[p].annotations
    } by {
        assert(tool_views(other_result.tools@)[p] == other_result.tools@[p]@);
        assert(tool_views(result.tools@)[p] == result.tools@[p]@);
    }
    if let Route::Found { server: found, tool } = route(own.tools(), request.name@) {
        let names = own.clients().names();
        let i = names.index_of(found);
        assert(names[i] == found);
        assert(cloned(own.clients().entries()[i].1, copy.mux().clients().entries()[i].1));
    }
}

} // verus!

//! The mux itself: which tools it offers, and where a call of one of them goes.
use crate::model::{
    CallToolRequestParam, CallToolResult, Content, ErrorData, ListToolsResult, ServerInfo, Tool,
    ToolView, ToolsCapability,
};
use crate::names::{qualified, qualify, split, split_name};
use crate::protocol;
use crate::servers::ServerMap;
use vstd::prelude::*;
use vstd::string::StringExecFns;

verus! {

/// Where a call of a name goes.
pub enum Route {
    /// The name holds no separator.
    Malformed,
    /// The name speaks of a server that the mux does not know.
    UnknownServer,
    /// The server that the name speaks of does not offer the tool.
    UnknownTool { tool: Seq<char> },
    /// The server offers the tool.
    Found { server: Seq<char>, tool: Seq<char> },
}

/// One of `tools` has the name `name`.
pub open spec fn offers(tools: Seq<Tool>, name: Seq<char>) -> bool {
    exists|k: int| 0 <= k < tools.len() && (#[trigger] tools[k]).name@ == name
}

/// Where a call of `name` goes, given the tools of each server.
pub open spec fn route(tools: ServerMap<Vec<Tool>>, name: Seq<char>) -> Route {
    match split_name(name) {
        None => Route::Malformed,
        Some((server, tool)) => if !tools.has(server) {
            Route::UnknownServer
        } else if !offers(tools.value(server)@, tool) {
            Route::UnknownTool { tool }
        } else {
            Route::Found { server, tool }
        },
    }
}

/// What a call that goes nowhere is answered.
pub open spec fn refusal(route: Route) -> Option<Seq<char>> {
    match route {
        Route::Malformed => Some("error parsing tool identifier"@),
        Route::UnknownServer => Some("unknown server"@),
        Route::UnknownTool { tool } => Some("unknown tool "@ + tool),
        Route::Found { .. } => None,
    }
}

/// A tool as the mux offers it: under its qualified name, and otherwise as its
/// server offers it.
pub open spec fn offered(server: Seq<char>, tool: Tool) -> ToolView {
    ToolView { name: qualified(server, tool.name@), ..tool@ }
}

/// The tools of one server as the mux offers them.
pub open spec fn offered_by(entry: (Seq<char>, Vec<Tool>)) -> Seq<ToolView> {
    entry.1@.map_values(|tool: Tool| offered(entry.0, tool))
}

/// The tools of all servers as the mux offers them, server by server.
pub open spec fn listing(tools: ServerMap<Vec<Tool>>) -> Seq<ToolView> {
    tools.entries().flat_map(|entry: (Seq<char>, Vec<Tool>)| offered_by(entry))
}

/// The views of some tools.
pub open spec fn tool_views(tools: Seq<Tool>) -> Seq<ToolView> {
    tools.map_values(|tool: Tool| tool@)
}

/// The mux introduces itself by `info`.
pub open spec fn introduces_mux(info: ServerInfo) -> bool {
    &&& info.protocol_version@ == "2024-11-05"@
    &&& info.capabilities.experimental is None
    &&& info.capabilities.logging is None
    &&& info.capabilities.completions is None
    &&& info.capabilities.prompts is None
    &&& info.capabilities.resources is None
    &&& info.capabilities.tools == Some(ToolsCapability { list_changed: None })
    &&& info.server_info.name@ == "rmcp"@
    &&& info.server_info.version@ == "0.2.1"@
    &&& info.instructions.deep_view() == Some("this is a mux"@)
}

/// What is to be done about a call.
pub enum CallStep<'a, C> {
    /// Answer it at once.
    Answer(CallToolResult),
    /// Send the request to the client, and answer with what comes back, by
    /// `finish_call`.
    Forward { client: &'a C, request: CallToolRequestParam },
}

/// The mux: for each server the tools that it offers, and the client that
/// reaches it.
#[derive(Debug)]
pub struct MCPMux<C> {
    tools: ServerMap<Vec<Tool>>,
    clients: ServerMap<C>,
}

/// The answer to a call that was forwarded: the answer of the server, or an
/// internal error that quotes the one that kept the answer away.
pub fn finish_call<R>(outcome: Result<R, String>) -> (answer: Result<R, ErrorData>)
    ensures
        match outcome {
            Ok(result) => answer == Ok::<R, ErrorData>(result),
            Err(cause) => {
                &&& answer matches Err(error)
                &&& error.code == -32603
                &&& error.message@ == "failed to use tool "@ + cause@
                &&& error.data is None
            },
        },
{
    match outcome {
        Ok(result) => Ok(result),
        Err(cause) => {
            let message = "failed to use tool ".to_string().concat(cause.as_str());
            Err(protocol::internal_error(message, None))
        },
    }
}

impl<C> MCPMux<C> {
    /// The tools of each server.
    pub closed spec fn tools(self) -> ServerMap<Vec<Tool>> {
        self.tools
    }

    /// The client of each server.
    pub closed spec fn clients(self) -> ServerMap<C> {
        self.clients
    }

    /// Neither the tools nor the clients hold a server name twice.
    #[verifier::type_invariant]
    pub open spec fn wf(self) -> bool {
        &&& self.tools().wf()
        &&& self.clients().wf()
    }

    /// If a call of `name` goes to a server, there is a client for it.
    pub open spec fn reaches(self, name: Seq<char>) -> bool {
        route(self.tools(), name) matches Route::Found { server, tool } ==> self.clients().has(
            server,
        )
    }

    /// `step` is what is to be done about `request`: a name that goes to a tool
    /// of a server is forwarded to its client, under the name that the tool has
    /// there and with the arguments as they are; any other name is refused.
    pub open spec fn decides(self, request: CallToolRequestParam, step: CallStep<'_, C>) -> bool {
        match route(self.tools(), request.name@) {
            Route::Found { server, tool } => {
                &&& step matches CallStep::Forward { client, request: forwarded }
                &&& *client == self.clients().value(server)
                &&& forwarded.name@ == tool
                &&& forwarded.arguments == request.arguments
            },
            refused => {
                &&& step matches CallStep::Answer(result)
                &&& result.is_error_saying(refusal(refused)->0)
            },
        }
    }

    /// A mux in front of the servers that offer `tools` and are reached by
    /// `clients`.
    pub fn new(tools: ServerMap<Vec<Tool>>, clients: ServerMap<C>) -> (mux: Self)
        ensures
            mux.tools() == tools,
            mux.clients() == clients,
            mux.wf(),
    {
        proof {
            use_type_invariant(&tools);
            use_type_invariant(&clients);
        }
        MCPMux { tools, clients }
    }

    /// What the mux says of itself.
    pub fn get_info(&self) -> (info: ServerInfo)
        ensures
            introduces_mux(info),
    {
        ServerInfo {
            protocol_version: protocol::version_2024_11_05(),
            capabilities: protocol::tools_capabilities(),
            server_info: protocol::implementation_from_build_env(),
            instructions: Some("this is a mux".to_string()),
        }
    }

    /// Adds the tools of one server, as the mux offers them, to `all`.
    fn list_server(server: &str, tools: &Vec<Tool>, all: &mut Vec<Tool>)
        ensures
            tool_views(final(all)@) == tool_views(old(all)@) + offered_by((server@, *tools)),
    {
        let ghost before = all@;
        let mut k: usize = 0;
        while k < tools.len()
            invariant
                k <= tools@.len(),
                all@.len() == before.len() + k,
                forall|j: int| 0 <= j < before.len() ==> all@[j] == before[j],
                forall|j: int|
                    0 <= j < k ==> (#[trigger] all@[before.len() + j])@ == offered(
                        server@,
                        tools@[j],
                    ),
            decreases tools@.len() - k,
        {
            let mut tool = tools[k].clone();
            tool.name = qualify(server, tools[k].name.as_str());
            all.push(tool);
            k = k + 1;
        }
        assert(tool_views(all@) =~= tool_views(before) + offered_by((server@, *tools))) by {
            assert forall|j: int| before.len() <= j < all@.len() implies (#[trigger] all@[j])@
                == offered(server@, tools@[j - before.len()]) by {
                assert(all@[before.len() + (j - before.len())] == all@[j]);
            }
        }
    }

    /// The tools of all servers, under their qualified names.
    pub fn list_tools(&self) -> (result: ListToolsResult)
        ensures
            tool_views(result.tools@) == listing(self.tools()),
            result.next_cursor is None,
            self.tools().wf(),
    {
        proof {
            use_type_invariant(self);
        }
        let mut aggregated: Vec<Tool> = Vec::new();
        let ghost entries = self.tools.entries();
        let ghost by = |entry: (Seq<char>, Vec<Tool>)| offered_by(entry);
        let mut i: usize = 0;
        assert(entries.take(0).map_values(by) =~= Seq::empty());
        assert(tool_views(aggregated@) =~= entries.take(0).flat_map(by));
        while i < self.tools.len()
            invariant
                entries == self.tools.entries(),
                by == |entry: (Seq<char>, Vec<Tool>)| offered_by(entry),
                i <= entries.len(),
                tool_views(aggregated@) == entries.take(i as int).flat_map(by),
            decreases entries.len() - i,
        {
            let (server, server_tools) = self.tools.entry(i);
            Self::list_server(server, server_tools, &mut aggregated);
            proof {
                entries.lemma_flat_map_take_append(by, i as int);
            }
            i = i + 1;
        }
        assert(entries.take(entries.len() as int) =~= entries);
        ListToolsResult { tools: aggregated, next_cursor: None }
    }

    /// One of `tools` has the name `name`.
    fn has_tool(tools: &Vec<Tool>, name: &str) -> (found: bool)
        ensures
            found == offers(tools@, name@),
    {
        let wanted = name.to_string();
        let mut k: usize = 0;
        while k < tools.len()
            invariant
                wanted@ == name@,
                k <= tools@.len(),
                forall|j: int| 0 <= j < k ==> (#[trigger] tools@[j]).name@ != name@,
            decreases tools@.len() - k,
        {
            if tools[k].name == wanted {
                return true;
            }
            k = k + 1;
        }
        false
    }

    /// The server and the tool that a call of `name` goes to, or what it is
    /// answered if it goes nowhere.
    fn resolve<'n>(&self, name: &'n str) -> (target: Result<(&'n str, &'n str), String>)
        ensures
            match target {
                Ok((server, tool)) => route(self.tools(), name@) == (Route::Found {
                    server: server@,
                    tool: tool@,
                }),
                Err(text) => refusal(route(self.tools(), name@)) == Some(text@),
            },
    {
        match split(name) {
            None => Err("error parsing tool identifier".to_string()),
            Some((server, tool)) => match self.tools.get(server) {
                None => Err("unknown server".to_string()),
                Some(server_tools) => if Self::has_tool(server_tools, tool) {
                    Ok((server, tool))
                } else {
                    Err("unknown tool ".to_string().concat(tool))
                },
            },
        }
    }

    /// Tells whether `call_tool` may be asked about `name`: whether there is a
    /// client, if a call of `name` goes to a server.
    pub fn can_reach(&self, name: &str) -> (reachable: bool)
        ensures
            reachable == self.reaches(name@),
    {
        match self.resolve(name) {
            Ok((server, _)) => self.clients.get(server).is_some(),
            Err(_) => true,
        }
    }

    /// Decides what is to be done about a call.
    pub fn call_tool(&self, request: CallToolRequestParam) -> (step: CallStep<'_, C>)
        requires
            self.reaches(request.name@),
        ensures
            self.decides(request, step),
    {
        match self.resolve(request.name.as_str()) {
            Err(text) => {
                let mut content: Vec<Content> = Vec::new();
                content.push(Content::text(text));
                CallStep::Answer(CallToolResult::error(content))
            },
            Ok((server, tool)) => {
                let client = self.clients.get(server).unwrap();
                let name = tool.to_string();
                CallStep::Forward {
                    client,
                    request: CallToolRequestParam { name, arguments: request.arguments },
                }
            },
        }
    }

    /// The answer to a client that connects: what the mux says of itself.
    pub fn initialize(&self) -> (info: ServerInfo)
        ensures
            introduces_mux(info),
    {
        self.get_info()
    }
}

/// `copy` has the tools of `original`, server by server.
pub open spec fn same_tools(copy: ServerMap<Vec<Tool>>, original: ServerMap<Vec<Tool>>) -> bool {
    &&& copy.names() == original.names()
    &&& forall|i: int|
        0 <= i < original.entries().len() ==> (#[trigger] copy.entries()[i]).1@
            == original.entries()[i].1@
}

impl<C: Clone> Clone for MCPMux<C> {
    fn clone(&self) -> (copy: Self)
        ensures
            same_tools(copy.tools(), self.tools()),
            copy.clients().names() == self.clients().names(),
            forall|i: int|
                0 <= i < self.clients().entries().len() ==> cloned(
                    (#[trigger] self.clients().entries()[i]).1,
                    copy.clients().entries()[i].1,
                ),
            copy.wf(),
    {
        let tools = self.tools.clone();
        let clients = self.clients.clone();
        proof {
            use_type_invariant(&tools);
            use_type_invariant(&clients);
        }
        MCPMux { tools, clients }
    }
}

} // verus!

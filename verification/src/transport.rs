//! How a server is reached.
use crate::model::{ClientInfo, Implementation};
use crate::protocol;
use vstd::prelude::*;

verus! {

/// How a server is reached.
#[derive(Debug, PartialEq)]
pub enum MCPTransport {
    /// As a child process, over its standard input and output.
    Stdio { cmd: String, args: Vec<String> },
    /// Over HTTP, by server-sent events from a URI.
    SSE(String),
}

/// What is to be done to reach a server.
#[derive(Debug, PartialEq)]
pub enum ClientPlan {
    /// Start `cmd` with `args`, and talk to it as a client that says nothing of
    /// itself.
    Spawn { cmd: String, args: Vec<String> },
    /// Open the event stream at `uri`, and talk as the client that
    /// `client_info` describes.
    Stream { uri: String, client_info: ClientInfo },
}

/// The mux introduces itself by `info` to the servers that it streams from.
pub open spec fn introduces_client(info: ClientInfo) -> bool {
    &&& info.protocol_version@ == "2025-03-26"@
    &&& info.capabilities.experimental is None
    &&& info.capabilities.roots is None
    &&& info.capabilities.sampling is None
    &&& info.client_info.name@ == "test sse client"@
    &&& info.client_info.version@ == "0.0.1"@
}

impl ClientPlan {
    /// To follow the plan is to reach a server by `transport`.
    pub open spec fn follows(self, transport: MCPTransport) -> bool {
        match transport {
            MCPTransport::Stdio { cmd, args } => {
                &&& self matches ClientPlan::Spawn { cmd: own_cmd, args: own_args }
                &&& own_cmd@ == cmd@
                &&& own_args.deep_view() == args.deep_view()
            },
            MCPTransport::SSE(uri) => {
                &&& self matches ClientPlan::Stream { uri: own_uri, client_info }
                &&& own_uri@ == uri@
                &&& introduces_client(client_info)
            },
        }
    }
}

/// A child process is started by its own command with all its arguments, in
/// order; an event stream is opened at its own URI, by a client that tells its
/// name and version, and announces no capabilities.
pub proof fn law_plan_reaches_by_transport(transport: &MCPTransport, plan: ClientPlan)
    requires
        call_ensures(build_client, (transport,), plan),
    ensures
        call_requires(build_client, (transport,)),
        *transport matches MCPTransport::Stdio { cmd, args } ==> {
            &&& plan is Spawn
            &&& plan->cmd@ == cmd@
            &&& plan->args@.len() == args@.len()
            &&& forall|i: int|
                0 <= i < args@.len() ==> (#[trigger] plan->args@[i])@ == args@[i]@
        },
        *transport matches MCPTransport::SSE(uri) ==> {
            &&& plan is Stream
            &&& plan->uri@ == uri@
            &&& plan->client_info.protocol_version@ == "2025-03-26"@
            &&& plan->client_info.capabilities.experimental is None
            &&& plan->client_info.capabilities.roots is None
            &&& plan->client_info.capabilities.sampling is None
            &&& plan->client_info.client_info.name@ == "test sse client"@
            &&& plan->client_info.client_info.version@ == "0.0.1"@
        },
{
    lemma_plan_by_transport(*transport, plan);
}

/// What it is to follow a plan, argument by argument.
pub(crate) proof fn lemma_plan_by_transport(transport: MCPTransport, plan: ClientPlan)
    requires
        plan.follows(transport),
    ensures
        transport matches MCPTransport::Stdio { cmd, args } ==> {
            &&& plan is Spawn
            &&& plan->cmd@ == cmd@
            &&& plan->args@.len() == args@.len()
            &&& forall|i: int|
                0 <= i < args@.len() ==> (#[trigger] plan->args@[i])@ == args@[i]@
        },
        transport matches MCPTransport::SSE(uri) ==> {
            &&& plan is Stream
            &&& plan->uri@ == uri@
            &&& introduces_client(plan->client_info)
        },
{
    if let MCPTransport::Stdio { cmd, args } = transport {
        let own = plan->args;
        assert(own.deep_view().len() == own@.len() && args.deep_view().len() == args@.len());
        assert forall|i: int| 0 <= i < args@.len() implies (#[trigger] own@[i])@ == args@[i]@ by {
            assert(own.deep_view()[i] == own@[i].deep_view());
            assert(args.deep_view()[i] == args@[i].deep_view());
        }
    }
}

/// Plans how to reach a server.
pub fn build_client(transport: &MCPTransport) -> (plan: ClientPlan)
    ensures
        plan.follows(*transport),
{
    match transport {
        MCPTransport::Stdio { cmd, args } => {
            let own_args = args.clone();
            assert(own_args.deep_view() =~= args.deep_view());
            ClientPlan::Spawn { cmd: cmd.clone(), args: own_args }
        },
        MCPTransport::SSE(uri) => {
            let client_info = ClientInfo {
                protocol_version: protocol::default_version(),
                capabilities: protocol::default_client_capabilities(),
                client_info: Implementation {
                    name: "test sse client".to_string(),
                    version: "0.0.1".to_string(),
                },
            };
            ClientPlan::Stream { uri: uri.clone(), client_info }
        },
    }
}

} // verus!

//! Building a mux: the servers are connected one by one, and each is asked for
//! its tools before the next is connected. Whoever drives the build does what
//! a step asks for and reports the outcome; the first failure ends the build.
use crate::model::Tool;
use crate::mux::MCPMux;
use crate::servers::ServerMap;
use crate::transport::{build_client, lemma_plan_by_transport, ClientPlan, MCPTransport};
use vstd::prelude::*;

verus! {

/// What a build asks for next.
#[derive(Debug)]
pub enum BuildStep<C> {
    /// Reach the server `name` by `plan`, and report to `build`.
    Connect { name: String, plan: ClientPlan, build: MuxBuild<C> },
    /// Nothing: these are the tools and the clients of all servers.
    Done { tools: ServerMap<Vec<Tool>>, clients: ServerMap<C> },
}

/// A build that waits for the client of a server.
#[derive(Debug)]
pub struct MuxBuild<C> {
    servers: ServerMap<MCPTransport>,
    tools: ServerMap<Vec<Tool>>,
    clients: ServerMap<C>,
}

/// A build that waits for the tools of the server behind a client.
#[derive(Debug)]
pub struct ToolsWanted<C> {
    build: MuxBuild<C>,
    client: C,
}

impl<C> MuxBuild<C> {
    /// The tools and clients so far are those of the first servers, of all but
    /// one at least.
    #[verifier::type_invariant]
    pub closed spec fn wf(self) -> bool {
        &&& self.tools.wf()
        &&& self.clients.wf()
        &&& self.servers.wf()
        &&& self.tools.entries().len() < self.servers.entries().len()
        &&& self.tools.names() == self.servers.names().take(self.tools.entries().len() as int)
        &&& self.clients.names() == self.tools.names()
    }

    /// The servers to connect.
    pub closed spec fn servers(self) -> ServerMap<MCPTransport> {
        self.servers
    }

    /// The tools of the servers that are connected.
    pub closed spec fn tools(self) -> Seq<(Seq<char>, Vec<Tool>)> {
        self.tools.entries()
    }

    /// The clients of the servers that are connected.
    pub closed spec fn clients(self) -> Seq<(Seq<char>, C)> {
        self.clients.entries()
    }

    /// The name of the server that is being connected.
    pub open spec fn current(self) -> Seq<char> {
        self.servers().entries()[self.tools().len() as int].0
    }

    /// What the build asks for once the tools and clients of the first servers
    /// are there.
    fn next(
        servers: ServerMap<MCPTransport>,
        tools: ServerMap<Vec<Tool>>,
        clients: ServerMap<C>,
    ) -> (step: BuildStep<C>)
        requires
            tools.entries().len() <= servers.entries().len(),
            tools.names() == servers.names().take(tools.entries().len() as int),
            clients.names() == tools.names(),
        ensures
            step.follows(servers, tools.entries(), clients.entries()),
    {
        proof {
            use_type_invariant(&servers);
            use_type_invariant(&tools);
            use_type_invariant(&clients);
        }
        if tools.len() < servers.len() {
            let (name, transport) = servers.entry(tools.len());
            let name = name.to_string();
            let plan = build_client(transport);
            BuildStep::Connect { name, plan, build: MuxBuild { servers, tools, clients } }
        } else {
            assert(servers.names().take(servers.entries().len() as int) =~= servers.names());
            BuildStep::Done { tools, clients }
        }
    }

    /// Takes the outcome of reaching the server: the build goes on to ask for
    /// its tools, or ends with the error.
    pub fn connected<E>(self, outcome: Result<C, E>) -> (next: Result<ToolsWanted<C>, E>)
        ensures
            match outcome {
                Ok(client) => {
                    &&& next matches Ok(wanted)
                    &&& wanted.build() == self
                    &&& wanted.client() == client
                },
                Err(error) => next == Err::<ToolsWanted<C>, E>(error),
            },
    {
        match outcome {
            Ok(client) => Ok(ToolsWanted { build: self, client }),
            Err(error) => Err(error),
        }
    }
}

impl<C> ToolsWanted<C> {
    /// The build so far, without the server behind the client.
    pub closed spec fn build(self) -> MuxBuild<C> {
        self.build
    }

    /// The client.
    pub closed spec fn client(self) -> C {
        self.client
    }

    /// The client whose server is to be asked for its tools.
    pub fn peer(&self) -> (client: &C)
        ensures
            *client == self.client(),
    {
        &self.client
    }

    /// Takes the outcome of asking for the tools: the build goes on with the
    /// next server, or ends with the error.
    pub fn listed<E>(self, outcome: Result<Vec<Tool>, E>) -> (next: Result<BuildStep<C>, E>)
        ensures
            match outcome {
                Ok(tools) => {
                    &&& next matches Ok(step)
                    &&& step.follows(
                        self.build().servers(),
                        self.build().tools().push((self.build().current(), tools)),
                        self.build().clients().push((self.build().current(), self.client())),
                    )
                },
                Err(error) => next == Err::<BuildStep<C>, E>(error),
            },
    {
        match outcome {
            Ok(server_tools) => {
                proof {
                    use_type_invariant(&self.build);
                }
                let ToolsWanted { build, client } = self;
                let MuxBuild { servers, mut tools, mut clients } = build;
                let n = tools.len();
                let (name, _) = servers.entry(n);
                let ghost names = tools.names();
                assert(clients.names() == names);
                assert(name@ == servers.names()[n as int]);
                proof {
                    servers.lemma_entries();
                    if names.contains(name@) {
                        let j = names.index_of(name@);
                        assert(names[j] == name@);
                        assert(servers.names()[j] == servers.names()[n as int]);
                    }
                }
                let name = name.to_string();
                let ghost key = name@;
                tools.insert(name.clone(), server_tools);
                clients.insert(name, client);
                assert(tools.names() =~= names.push(key));
                assert(clients.names() =~= names.push(key)) by {
                    assert(self.build.clients.names() == names);
                }
                assert(names.push(key) =~= servers.names().take(n + 1));
                Ok(MuxBuild::next(servers, tools, clients))
            },
            Err(error) => Err(error),
        }
    }
}

impl<C> BuildStep<C> {
    /// This is the step of a build that connects `servers`, and has got `tools`
    /// and `clients` of the first of them: the next server is to be connected,
    /// or, if there is none, the build is done, and has tools and a client of
    /// every server.
    pub open spec fn follows(
        self,
        servers: ServerMap<MCPTransport>,
        tools: Seq<(Seq<char>, Vec<Tool>)>,
        clients: Seq<(Seq<char>, C)>,
    ) -> bool {
        if tools.len() < servers.entries().len() {
            let (next_name, next_transport) = servers.entries()[tools.len() as int];
            &&& self matches BuildStep::Connect { name, plan, build }
            &&& name@ == next_name
            &&& plan.follows(next_transport)
            &&& build.servers() == servers
            &&& build.tools() == tools
            &&& build.clients() == clients
        } else {
            &&& self matches BuildStep::Done { tools: all_tools, clients: all_clients }
            &&& all_tools.entries() == tools
            &&& all_clients.entries() == clients
            &&& all_tools.names() == servers.names()
            &&& all_clients.names() == servers.names()
        }
    }
}

/// The first `n` of `values`, each under its name.
pub open spec fn paired<V>(names: Seq<Seq<char>>, values: Seq<V>, n: nat) -> Seq<(Seq<char>, V)> {
    Seq::new(n, |i: int| (names[i], values[i]))
}

/// `steps` are the steps of a build in front of `servers` in which every server
/// was reached and told its tools: `clients` and `tools` came back, in turn.
pub open spec fn succeeds<C>(
    steps: Seq<BuildStep<C>>,
    servers: ServerMap<MCPTransport>,
    clients: Seq<C>,
    tools: Seq<Vec<Tool>>,
) -> bool {
    &&& clients.len() == servers.entries().len()
    &&& tools.len() == servers.entries().len()
    &&& steps.len() == servers.entries().len() + 1
    &&& steps[0].follows(servers, Seq::empty(), Seq::empty())
    &&& forall|n: int|
        0 <= n < servers.entries().len() ==> {
            &&& #[trigger] steps[n] matches BuildStep::Connect { name, plan, build }
            &&& steps[n + 1].follows(
                build.servers(),
                build.tools().push((build.current(), tools[n])),
                build.clients().push((build.current(), clients[n])),
            )
        }
}

/// A build that succeeds asks for the servers in their order, and ends with the
/// tools and the client of each server under its own name.
pub proof fn law_build_collects_all<C>(
    steps: Seq<BuildStep<C>>,
    servers: ServerMap<MCPTransport>,
    clients: Seq<C>,
    tools: Seq<Vec<Tool>>,
    n: nat,
)
    requires
        succeeds(steps, servers, clients, tools),
        n <= servers.entries().len(),
    ensures
        steps[n as int].follows(
            servers,
            paired(servers.names(), tools, n),
            paired(servers.names(), clients, n),
        ),
    decreases n,
{
    let names = servers.names();
    if n == 0 {
        assert(paired(names, tools, 0) =~= Seq::empty());
        assert(paired(names, clients, 0) =~= Seq::empty());
    } else {
        let m = (n - 1) as nat;
        law_build_collects_all(steps, servers, clients, tools, m);
        let step = steps[m as int];
        assert(step is Connect);
        let build = step->build;
        assert(build.current() == names[m as int]);
        assert(paired(names, tools, m).push((names[m as int], tools[m as int])) =~= paired(
            names,
            tools,
            n,
        ));
        assert(paired(names, clients, m).push((names[m as int], clients[m as int])) =~= paired(
            names,
            clients,
            n,
        ));
    }
}

/// The mux that a finished build yields reaches every server that it may send a
/// call to.
pub proof fn law_built_mux_reaches_all<C>(
    step: BuildStep<C>,
    servers: ServerMap<MCPTransport>,
    tools: Seq<(Seq<char>, Vec<Tool>)>,
    clients: Seq<(Seq<char>, C)>,
    mux: MCPMux<C>,
    name: Seq<char>,
)
    requires
        step.follows(servers, tools, clients),
        step matches BuildStep::Done { tools: all_tools, clients: all_clients } && mux.tools()
            == all_tools && mux.clients() == all_clients,
    ensures
        mux.reaches(name),
{
}

/// A build goes on with the client of a server that was reached, and that client
/// is the one to ask for the tools; where a server was not reached, the build
/// ends with the error.
pub proof fn law_connected_goes_on<C, E>(
    build: MuxBuild<C>,
    outcome: Result<C, E>,
    next: Result<ToolsWanted<C>, E>,
    peer: &C,
)
    requires
        call_ensures(MuxBuild::<C>::connected::<E>, (build, outcome), next),
        next is Ok ==> call_ensures(ToolsWanted::<C>::peer, (&next->Ok_0,), peer),
    ensures
        call_requires(MuxBuild::<C>::connected::<E>, (build, outcome)),
        outcome matches Ok(client) ==> next is Ok && *peer == client,
        outcome matches Err(error) ==> next is Err && next->Err_0 == error,
{
}

/// A build goes on with the tools of a server that told them; where a server did
/// not, the build ends with the error.
pub proof fn law_listed_goes_on<C, E>(
    wanted: ToolsWanted<C>,
    outcome: Result<Vec<Tool>, E>,
    next: Result<BuildStep<C>, E>,
)
    requires
        call_ensures(ToolsWanted::<C>::listed::<E>, (wanted, outcome), next),
    ensures
        call_requires(ToolsWanted::<C>::listed::<E>, (wanted, outcome)),
        outcome is Ok ==> next is Ok,
        outcome matches Err(error) ==> next is Err && next->Err_0 == error,
{
}

/// The state of a build after each of its steps.
proof fn lemma_build_state<C, E>(
    servers: ServerMap<MCPTransport>,
    steps: Seq<BuildStep<C>>,
    clients: Seq<C>,
    wanted: Seq<ToolsWanted<C>>,
    tools: Seq<Vec<Tool>>,
    n: nat,
)
    requires
        steps.len() == wanted.len() + 1,
        clients.len() == wanted.len(),
        tools.len() == wanted.len(),
        call_ensures(build_mux::<C>, (servers,), steps[0]),
        forall|m: int| 0 <= m < wanted.len() ==> #[trigger] steps[m] is Connect,
        forall|m: int|
            0 <= m < wanted.len() ==> call_ensures(
                MuxBuild::<C>::connected::<E>,
                (steps[m]->build, Ok(clients[m])),
                Ok(#[trigger] wanted[m]),
            ),
        forall|m: int|
            0 <= m < wanted.len() ==> call_ensures(
                ToolsWanted::<C>::listed::<E>,
                (#[trigger] wanted[m], Ok(tools[m])),
                Ok(steps[m + 1]),
            ),
        n < steps.len(),
    ensures
        n <= servers.entries().len(),
        steps[n as int].follows(
            servers,
            paired(servers.names(), tools, n),
            paired(servers.names(), clients, n),
        ),
    decreases n,
{
    let names = servers.names();
    if n == 0 {
        assert(paired(names, tools, 0) =~= Seq::empty());
        assert(paired(names, clients, 0) =~= Seq::empty());
    } else {
        let m = (n - 1) as nat;
        lemma_build_state::<C, E>(servers, steps, clients, wanted, tools, m);
        let step = steps[m as int];
        assert(wanted[m as int].build() == step->build);
        let build = step->build;
        assert(build.current() == names[m as int]);
        assert(paired(names, tools, m).push((names[m as int], tools[m as int])) =~= paired(
            names,
            tools,
            n,
        ));
        assert(paired(names, clients, m).push((names[m as int], clients[m as int])) =~= paired(
            names,
            clients,
            n,
        ));
    }
}

/// A build in front of some servers, of which `steps` are the steps so far, with
/// the clients and tools that came back: step by step it asks for each server in
/// its order, by its own transport; once there is no server left, and not
/// before, it is done, and has the tools and the client of every server under
/// the name of that server.
pub proof fn law_build_connects_every_server<C, E>(
    servers: ServerMap<MCPTransport>,
    steps: Seq<BuildStep<C>>,
    clients: Seq<C>,
    wanted: Seq<ToolsWanted<C>>,
    tools: Seq<Vec<Tool>>,
    n: int,
)
    requires
        steps.len() == wanted.len() + 1,
        clients.len() == wanted.len(),
        tools.len() == wanted.len(),
        call_ensures(build_mux::<C>, (servers,), steps[0]),
        forall|m: int| 0 <= m < wanted.len() ==> #[trigger] steps[m] is Connect,
        forall|m: int|
            0 <= m < wanted.len() ==> call_ensures(
                MuxBuild::<C>::connected::<E>,
                (steps[m]->build, Ok(clients[m])),
                Ok(#[trigger] wanted[m]),
            ),
        forall|m: int|
            0 <= m < wanted.len() ==> call_ensures(
                ToolsWanted::<C>::listed::<E>,
                (#[trigger] wanted[m], Ok(tools[m])),
                Ok(steps[m + 1]),
            ),
        0 <= n < steps.len(),
    ensures
        call_requires(build_mux::<C>, (servers,)),
        n <= servers.entries().len(),
        n < servers.entries().len() ==> {
            let transport = servers.entries()[n].1;
            let plan = steps[n]->plan;
            &&& steps[n] is Connect
            &&& steps[n]->name@ == servers.entries()[n].0
            &&& transport matches MCPTransport::Stdio { cmd, args } ==> {
                &&& plan is Spawn
                &&& plan->cmd@ == cmd@
                &&& plan->args@.len() == args@.len()
                &&& forall|i: int|
                    0 <= i < args@.len() ==> (#[trigger] plan->args@[i])@ == args@[i]@
            }
            &&& transport matches MCPTransport::SSE(uri) ==> {
                &&& plan is Stream
                &&& plan->uri@ == uri@
                &&& plan->client_info.protocol_version@ == "2025-03-26"@
                &&& plan->client_info.capabilities.experimental is None
                &&& plan->client_info.capabilities.roots is None
                &&& plan->client_info.capabilities.sampling is None
                &&& plan->client_info.client_info.name@ == "test sse client"@
                &&& plan->client_info.client_info.version@ == "0.0.1"@
            }
        },
        n == servers.entries().len() ==> {
            let all_tools = steps[n]->tools;
            let all_clients = steps[n]->clients;
            &&& steps[n] is Done
            &&& all_tools.entries().len() == servers.entries().len()
            &&& all_clients.entries().len() == servers.entries().len()
            &&& forall|m: int|
                0 <= m < servers.entries().len() ==> {
                    &&& (#[trigger] all_tools.entries()[m]).0 == servers.entries()[m].0
                    &&& all_tools.entries()[m].1 == tools[m]
                }
            &&& forall|m: int|
                0 <= m < servers.entries().len() ==> {
                    &&& (#[trigger] all_clients.entries()[m]).0 == servers.entries()[m].0
                    &&& all_clients.entries()[m].1 == clients[m]
                }
        },
{
    lemma_build_state::<C, E>(servers, steps, clients, wanted, tools, n as nat);
    if n < servers.entries().len() {
        lemma_plan_by_transport(servers.entries()[n].1, steps[n]->plan);
    }
}

/// A build that is done, with or without servers, makes a mux that lacks no
/// client for any call.
pub proof fn law_built_mux_lacks_no_client<C, E>(
    servers: ServerMap<MCPTransport>,
    steps: Seq<BuildStep<C>>,
    clients: Seq<C>,
    wanted: Seq<ToolsWanted<C>>,
    tools: Seq<Vec<Tool>>,
    mux: MCPMux<C>,
    name: &str,
    reachable: bool,
)
    requires
        steps.len() == wanted.len() + 1,
        clients.len() == wanted.len(),
        tools.len() == wanted.len(),
        call_ensures(build_mux::<C>, (servers,), steps[0]),
        forall|m: int| 0 <= m < wanted.len() ==> #[trigger] steps[m] is Connect,
        forall|m: int|
            0 <= m < wanted.len() ==> call_ensures(
                MuxBuild::<C>::connected::<E>,
                (steps[m]->build, Ok(clients[m])),
                Ok(#[trigger] wanted[m]),
            ),
        forall|m: int|
            0 <= m < wanted.len() ==> call_ensures(
                ToolsWanted::<C>::listed::<E>,
                (#[trigger] wanted[m], Ok(tools[m])),
                Ok(steps[m + 1]),
            ),
        steps.last() is Done,
        call_ensures(MCPMux::<C>::new, (steps.last()->tools, steps.last()->clients), mux),
        call_ensures(MCPMux::<C>::can_reach, (&mux, name), reachable),
    ensures
        reachable,
{
    let n = (steps.len() - 1) as nat;
    lemma_build_state::<C, E>(servers, steps, clients, wanted, tools, n);
    law_built_mux_reaches_all(
        steps.last(),
        servers,
        paired(servers.names(), tools, n),
        paired(servers.names(), clients, n),
        mux,
        name@,
    );
}

/// Starts to build a mux in front of `servers`.
pub fn build_mux<C>(servers: ServerMap<MCPTransport>) -> (step: BuildStep<C>)
    ensures
        step.follows(servers, Seq::empty(), Seq::empty()),
{
    let tools: ServerMap<Vec<Tool>> = ServerMap::new();
    let clients: ServerMap<C> = ServerMap::new();
    assert(tools.names() =~= servers.names().take(0));
    assert(clients.names() =~= tools.names());
    MuxBuild::next(servers, tools, clients)
}

} // verus!

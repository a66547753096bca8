//! What comes of the calls to a mux: what it lists, where it sends a call, and
//! what it answers. Each law speaks of the tools and the clients that the mux was
//! made of, and of what the calls gave.
use crate::laws::{law_copy_offers_the_same, lemma_listing_at};
use crate::model::{CallToolRequestParam, ErrorData, ListToolsResult, ServerInfo, Tool};
use crate::mux::{
    finish_call, listing, offered, offers, route, tool_views, CallStep, MCPMux, Route,
};
use crate::names::{has_separator, lemma_split_parts, separator, separator_at, split_name};
use crate::servers::{law_has_by_entries, ServerMap};
use vstd::prelude::*;

verus! {

/// A name without two colons in a row is not split.
proof fn lemma_no_parts(name: Seq<char>)
    requires
        forall|j: int|
            0 <= j < name.len() - 1 ==> !(#[trigger] name[j] == ':' && name[j + 1] == ':'),
    ensures
        split_name(name) is None,
{
    if has_separator(name) {
        let at = choose|at: int| separator_at(name, at);
        assert(name[at] == ':');
    }
}

/// A mux lists the tools of its servers one after the other, server by server:
/// each under the name of its server, two colons and its own name, and with its
/// own description, schema and annotations. `starts[i]` says how many tools the
/// servers before the one at position `i` have.
pub proof fn law_every_tool_is_listed<C>(
    tools: ServerMap<Vec<Tool>>,
    clients: ServerMap<C>,
    mux: MCPMux<C>,
    result: ListToolsResult,
    starts: Seq<int>,
)
    requires
        call_ensures(MCPMux::<C>::new, (tools, clients), mux),
        call_ensures(MCPMux::<C>::list_tools, (&mux,), result),
        starts.len() == tools.entries().len() + 1,
        starts[0] == 0,
        forall|i: int|
            0 <= i < tools.entries().len() ==> starts[i + 1] == starts[i] + (
            #[trigger] tools.entries()[i]).1@.len(),
    ensures
        call_requires(MCPMux::<C>::list_tools, (&mux,)),
        result.next_cursor is None,
        result.tools@.len() == starts.last(),
        forall|i: int, k: int|
            0 <= i < tools.entries().len() && 0 <= k < tools.entries()[i].1@.len() ==> {
                let own = #[trigger] tools.entries()[i].1@[k];
                let listed = result.tools@[starts[i] + k];
                &&& 0 <= starts[i] + k < result.tools@.len()
                &&& listed.name@ == tools.entries()[i].0 + "::"@ + own.name@
                &&& listed.description == own.description
                &&& listed.input_schema == own.input_schema
                &&& listed.annotations == own.annotations
            },
{
    reveal_strlit("::");
    assert("::"@ =~= separator());
    let entries = tools.entries();
    lemma_listing_at(entries, starts);
    assert(listing(tools).len() == result.tools@.len());
    assert forall|i: int, k: int| 0 <= i < entries.len() && 0 <= k < entries[i].1@.len() implies {
        let own = #[trigger] entries[i].1@[k];
        let listed = result.tools@[starts[i] + k];
        &&& 0 <= starts[i] + k < result.tools@.len()
        &&& listed.name@ == entries[i].0 + "::"@ + own.name@
        &&& listed.description == own.description
        &&& listed.input_schema == own.input_schema
        &&& listed.annotations == own.annotations
    } by {
        let p = starts[i] + k;
        let own = entries[i].1@[k];
        assert(listing(tools)[p] == offered(entries[i].0, own));
        assert(tool_views(result.tools@)[p] == result.tools@[p]@);
    }
}

/// A call of a tool of a server, by the name of the server, two colons and the
/// name of the tool, goes to the client of that very server, under the tool's
/// own name, with the arguments as they are. (As long as no two colons in a row
/// start within the name of the server or on its last colon.)
pub proof fn law_call_goes_to_its_server<C>(
    tools: ServerMap<Vec<Tool>>,
    clients: ServerMap<C>,
    mux: MCPMux<C>,
    request: CallToolRequestParam,
    step: CallStep<'_, C>,
    i: int,
    k: int,
    c: int,
)
    requires
        call_ensures(MCPMux::<C>::new, (tools, clients), mux),
        call_ensures(MCPMux::<C>::call_tool, (&mux, request), step),
        0 <= i < tools.entries().len(),
        0 <= k < tools.entries()[i].1@.len(),
        0 <= c < clients.entries().len(),
        clients.entries()[c].0 == tools.entries()[i].0,
        request.name@ == tools.entries()[i].0 + "::"@ + tools.entries()[i].1@[k].name@,
        forall|j: int|
            0 <= j < tools.entries()[i].0.len() ==> !(#[trigger] request.name@[j] == ':'
                && request.name@[j + 1] == ':'),
    ensures
        call_requires(MCPMux::<C>::call_tool, (&mux, request)),
        step is Forward,
        *step->client == clients.entries()[c].1,
        step->request.name@ == tools.entries()[i].1@[k].name@,
        step->request.arguments == request.arguments,
{
    let (server, own) = tools.entries()[i];
    lemma_split_parts(request.name@, server, own@[k].name@);
    tools.lemma_entries();
    clients.lemma_entries();
    assert(tools.has(server) && tools.value(server) == own);
    assert(offers(own@, own@[k].name@));
    assert(clients.value(clients.entries()[c].0) == clients.entries()[c].1);
}

/// What a mux lists can be called: a call by a name of the listing goes to the
/// server whose tool stands there, under the tool's own name. (As long as no two
/// colons in a row start within the name of the server or on its last colon.)
pub proof fn law_list_then_call<C>(
    tools: ServerMap<Vec<Tool>>,
    clients: ServerMap<C>,
    mux: MCPMux<C>,
    result: ListToolsResult,
    starts: Seq<int>,
    request: CallToolRequestParam,
    step: CallStep<'_, C>,
    i: int,
    k: int,
    c: int,
)
    requires
        call_ensures(MCPMux::<C>::new, (tools, clients), mux),
        call_ensures(MCPMux::<C>::list_tools, (&mux,), result),
        call_ensures(MCPMux::<C>::call_tool, (&mux, request), step),
        starts.len() == tools.entries().len() + 1,
        starts[0] == 0,
        forall|i: int|
            0 <= i < tools.entries().len() ==> starts[i + 1] == starts[i] + (
            #[trigger] tools.entries()[i]).1@.len(),
        0 <= i < tools.entries().len(),
        0 <= k < tools.entries()[i].1@.len(),
        0 <= c < clients.entries().len(),
        clients.entries()[c].0 == tools.entries()[i].0,
        request.name@ == result.tools@[starts[i] + k].name@,
        forall|j: int|
            0 <= j < tools.entries()[i].0.len() ==> !(#[trigger] request.name@[j] == ':'
                && request.name@[j + 1] == ':'),
    ensures
        call_requires(MCPMux::<C>::call_tool, (&mux, request)),
        step is Forward,
        *step->client == clients.entries()[c].1,
        step->request.name@ == tools.entries()[i].1@[k].name@,
        step->request.arguments == request.arguments,
{
    law_every_tool_is_listed(tools, clients, mux, result, starts);
    assert(tools.entries()[i].1@[k] == tools.entries()[i].1@[k]);
    law_call_goes_to_its_server(tools, clients, mux, request, step, i, k, c);
}

/// A name without two colons in a row is refused.
pub proof fn law_name_without_separator_is_refused<C>(
    tools: ServerMap<Vec<Tool>>,
    clients: ServerMap<C>,
    mux: MCPMux<C>,
    request: CallToolRequestParam,
    step: CallStep<'_, C>,
)
    requires
        call_ensures(MCPMux::<C>::new, (tools, clients), mux),
        call_ensures(MCPMux::<C>::call_tool, (&mux, request), step),
        forall|j: int|
            0 <= j < request.name@.len() - 1 ==> !(#[trigger] request.name@[j] == ':'
                && request.name@[j + 1] == ':'),
    ensures
        call_requires(MCPMux::<C>::call_tool, (&mux, request)),
        step matches CallStep::Answer(answer) && {
            &&& answer.is_error == Some(true)
            &&& answer.content@.len() == 1
            &&& answer.content@[0].text@ == "error parsing tool identifier"@
        },
{
    lemma_no_parts(request.name@);
}

/// A name is refused if no server has the name that stands before its first two
/// colons.
pub proof fn law_unknown_server_is_refused<C>(
    tools: ServerMap<Vec<Tool>>,
    clients: ServerMap<C>,
    mux: MCPMux<C>,
    request: CallToolRequestParam,
    step: CallStep<'_, C>,
    server: Seq<char>,
    tool: Seq<char>,
)
    requires
        call_ensures(MCPMux::<C>::new, (tools, clients), mux),
        call_ensures(MCPMux::<C>::call_tool, (&mux, request), step),
        request.name@ == server + "::"@ + tool,
        forall|j: int|
            0 <= j < server.len() ==> !(#[trigger] request.name@[j] == ':' && request.name@[j + 1]
                == ':'),
        forall|i: int|
            0 <= i < tools.entries().len() ==> (#[trigger] tools.entries()[i]).0 != server,
    ensures
        call_requires(MCPMux::<C>::call_tool, (&mux, request)),
        step matches CallStep::Answer(answer) && {
            &&& answer.is_error == Some(true)
            &&& answer.content@.len() == 1
            &&& answer.content@[0].text@ == "unknown server"@
        },
{
    lemma_split_parts(request.name@, server, tool);
    law_has_by_entries(tools, server);
}

/// A name is refused if the server has no tool of the name that stands behind
/// the first two colons, and the refusal quotes that name.
pub proof fn law_unknown_tool_is_refused<C>(
    tools: ServerMap<Vec<Tool>>,
    clients: ServerMap<C>,
    mux: MCPMux<C>,
    request: CallToolRequestParam,
    step: CallStep<'_, C>,
    i: int,
    tool: Seq<char>,
)
    requires
        call_ensures(MCPMux::<C>::new, (tools, clients), mux),
        call_ensures(MCPMux::<C>::call_tool, (&mux, request), step),
        0 <= i < tools.entries().len(),
        request.name@ == tools.entries()[i].0 + "::"@ + tool,
        forall|j: int|
            0 <= j < tools.entries()[i].0.len() ==> !(#[trigger] request.name@[j] == ':'
                && request.name@[j + 1] == ':'),
        forall|k: int|
            0 <= k < tools.entries()[i].1@.len() ==> (#[trigger] tools.entries()[i].1@[k]).name@
                != tool,
    ensures
        call_requires(MCPMux::<C>::call_tool, (&mux, request)),
        step matches CallStep::Answer(answer) && {
            &&& answer.is_error == Some(true)
            &&& answer.content@.len() == 1
            &&& answer.content@[0].text@ == "unknown tool "@ + tool
        },
{
    lemma_split_parts(request.name@, tools.entries()[i].0, tool);
    tools.lemma_entries();
    assert(tools.value(tools.entries()[i].0) == tools.entries()[i].1);
}

/// A call lacks a client exactly if a server has the name that stands before the
/// first two colons, and a tool of the name that stands behind them, and no
/// client has the name of the server.
pub proof fn law_reach_of_a_name<C>(
    tools: ServerMap<Vec<Tool>>,
    clients: ServerMap<C>,
    mux: MCPMux<C>,
    name: &str,
    reachable: bool,
    server: Seq<char>,
    tool: Seq<char>,
)
    requires
        call_ensures(MCPMux::<C>::new, (tools, clients), mux),
        call_ensures(MCPMux::<C>::can_reach, (&mux, name), reachable),
        name@ == server + "::"@ + tool,
        forall|j: int|
            0 <= j < server.len() ==> !(#[trigger] name@[j] == ':' && name@[j + 1] == ':'),
    ensures
        call_requires(MCPMux::<C>::can_reach, (&mux, name)),
        !reachable <==> {
            &&& exists|i: int, k: int|
                0 <= i < tools.entries().len() && 0 <= k < tools.entries()[i].1@.len()
                    && tools.entries()[i].0 == server && (
                #[trigger] tools.entries()[i].1@[k]).name@ == tool
            &&& forall|c: int|
                0 <= c < clients.entries().len() ==> (#[trigger] clients.entries()[c]).0 != server
        },
{
    lemma_split_parts(name@, server, tool);
    tools.lemma_entries();
    law_has_by_entries(tools, server);
    law_has_by_entries(clients, server);
    if tools.has(server) && offers(tools.value(server)@, tool) {
        let i = choose|i: int|
            0 <= i < tools.entries().len() && (#[trigger] tools.entries()[i]).0 == server;
        assert(tools.value(tools.entries()[i].0) == tools.entries()[i].1);
        let own = tools.entries()[i].1@;
        let k = choose|k: int| 0 <= k < own.len() && (#[trigger] own[k]).name@ == tool;
        assert(tools.entries()[i].1@[k].name@ == tool);
    } else {
        assert forall|i: int, k: int|
            0 <= i < tools.entries().len() && 0 <= k < tools.entries()[i].1@.len()
                && tools.entries()[i].0 == server implies (
        #[trigger] tools.entries()[i].1@[k]).name@ != tool by {
            assert(tools.has(tools.entries()[i].0));
            assert(tools.value(tools.entries()[i].0) == tools.entries()[i].1);
        }
    }
}

/// A name without two colons in a row lacks no client.
pub proof fn law_reach_without_separator<C>(
    tools: ServerMap<Vec<Tool>>,
    clients: ServerMap<C>,
    mux: MCPMux<C>,
    name: &str,
    reachable: bool,
)
    requires
        call_ensures(MCPMux::<C>::new, (tools, clients), mux),
        call_ensures(MCPMux::<C>::can_reach, (&mux, name), reachable),
        forall|j: int|
            0 <= j < name@.len() - 1 ==> !(#[trigger] name@[j] == ':' && name@[j + 1] == ':'),
    ensures
        call_requires(MCPMux::<C>::can_reach, (&mux, name)),
        reachable,
{
    lemma_no_parts(name@);
}

/// The answer to a call that was forwarded is the server's answer as it came; a
/// failure is an internal error that quotes all of its cause.
pub proof fn law_reply_is_passed_on<R>(
    outcome: Result<R, String>,
    answer: Result<R, ErrorData>,
)
    requires
        call_ensures(finish_call::<R>, (outcome,), answer),
    ensures
        call_requires(finish_call::<R>, (outcome,)),
        outcome matches Ok(result) ==> answer == Ok::<R, ErrorData>(result),
        outcome matches Err(cause) ==> {
            &&& answer is Err
            &&& answer->Err_0.code == -32603
            &&& answer->Err_0.message@ == "failed to use tool "@ + cause@
            &&& answer->Err_0.data is None
        },
{
}

/// A mux introduces itself in the same way always, to whom it is asked by and
/// to a client that connects: as a server that offers tools, and nothing else.
pub proof fn law_mux_introduces_itself<C>(mux: MCPMux<C>, info: ServerInfo)
    requires
        call_ensures(MCPMux::<C>::get_info, (&mux,), info) || call_ensures(
            MCPMux::<C>::initialize,
            (&mux,),
            info,
        ),
    ensures
        call_requires(MCPMux::<C>::initialize, (&mux,)),
        call_requires(MCPMux::<C>::get_info, (&mux,)),
        info.protocol_version@ == "2024-11-05"@,
        info.capabilities.experimental is None,
        info.capabilities.logging is None,
        info.capabilities.completions is None,
        info.capabilities.prompts is None,
        info.capabilities.resources is None,
        info.capabilities.tools matches Some(tools) && tools.list_changed is None,
        info.server_info.name@ == "rmcp"@,
        info.server_info.version@ == "0.2.1"@,
        info.instructions matches Some(text) && text@ == "this is a mux"@,
{
}

/// A copy of a mux lists the same tools at the same places.
pub proof fn law_copy_lists_the_same<C: Clone>(
    mux: MCPMux<C>,
    copy: MCPMux<C>,
    result: ListToolsResult,
    other: ListToolsResult,
)
    requires
        call_ensures(<MCPMux<C> as Clone>::clone, (&mux,), copy),
        call_ensures(MCPMux::<C>::list_tools, (&mux,), result),
        call_ensures(MCPMux::<C>::list_tools, (&copy,), other),
    ensures
        other.tools@.len() == result.tools@.len(),
        forall|p: int|
            0 <= p < result.tools@.len() ==> {
                &&& (#[trigger] other.tools@[p]).name@ == result.tools@[p].name@
                &&& other.tools@[p].description == result.tools@[p].description
                &&& other.tools@[p].input_schema == result.tools@[p].input_schema
                &&& other.tools@[p].annotations == result.tools@[p].annotations
            },
        other.next_cursor == result.next_cursor,
{
    law_copy_offers_the_same(copy.tools(), mux.tools(), Seq::empty());
    assert(tool_views(other.tools@) == tool_views(result.tools@));
    assert(tool_views(other.tools@).len() == other.tools@.len());
    assert(tool_views(result.tools@).len() == result.tools@.len());
    assert forall|p: int| 0 <= p < result.tools@.len() implies {
        &&& (#[trigger] other.tools@[p]).name@ == result.tools@[p].name@
        &&& other.tools@[p].description == result.tools@[p].description
        &&& other.tools@[p].input_schema == result.tools@[p].input_schema
        &&& other.tools@[p].annotations == result.tools@[p].annotations
    } by {
        assert(tool_views(other.tools@)[p] == other.tools@[p]@);
        assert(tool_views(result.tools@)[p] == result.tools@[p]@);
    }
}

/// A copy of a mux decides on a call as the mux does: it gives the same answer,
/// or sends the same request to a copy of the client.
pub proof fn law_copy_decides_the_same<C: Clone>(
    mux: MCPMux<C>,
    copy: MCPMux<C>,
    request: CallToolRequestParam,
    step: CallStep<'_, C>,
    again: CallToolRequestParam,
    other: CallStep<'_, C>,
)
    requires
        mux.wf(),
        mux.reaches(request.name@),
        call_ensures(<MCPMux<C> as Clone>::clone, (&mux,), copy),
        again.name@ == request.name@,
        again.arguments == request.arguments,
        call_ensures(MCPMux::<C>::call_tool, (&mux, request), step),
        call_ensures(MCPMux::<C>::call_tool, (&copy, again), other),
    ensures
        step matches CallStep::Answer(answer) ==> {
            &&& other is Answer
            &&& other->0.is_error == answer.is_error
            &&& other->0.content@.len() == answer.content@.len()
            &&& forall|p: int|
                0 <= p < answer.content@.len() ==> (#[trigger] other->0.content@[p]).text@
                    == answer.content@[p].text@
        },
        step matches CallStep::Forward { client, request: sent } ==> {
            &&& other is Forward
            &&& cloned(*client, *other->client)
            &&& other->request.name@ == sent.name@
            &&& other->request.arguments == sent.arguments
        },
{
    law_copy_offers_the_same(copy.tools(), mux.tools(), request.name@);
    if let Route::Found { server, tool } = route(mux.tools(), request.name@) {
        let names = mux.clients().names();
        let i = names.index_of(server);
        assert(names[i] == server);
        assert(cloned(mux.clients().entries()[i].1, copy.clients().entries()[i].1));
    }
}

} // verus!

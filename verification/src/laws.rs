//! What holds between the tools that a mux offers and the calls that it takes.
use crate::model::Tool;
use crate::mux::{listing, offered, offered_by, offers, route, same_tools, MCPMux, Route};
use crate::names::{
    law_join_then_split, law_qualified_names_differ, law_split_then_join, qualified, split_name,
    unambiguous,
};
use crate::servers::ServerMap;
use vstd::prelude::*;

verus! {

/// The tool `k` of the server at position `i` stands in the listing.
proof fn lemma_listed(entries: Seq<(Seq<char>, Vec<Tool>)>, i: int, k: int)
    requires
        0 <= i < entries.len(),
        0 <= k < entries[i].1@.len(),
    ensures
        entries.flat_map(|entry: (Seq<char>, Vec<Tool>)| offered_by(entry)).contains(
            offered(entries[i].0, entries[i].1@[k]),
        ),
    decreases entries.len(),
{
    let by = |entry: (Seq<char>, Vec<Tool>)| offered_by(entry);
    let init = entries.drop_last();
    let last = entries.last();
    assert(entries =~= init.push(last));
    init.lemma_flat_map_push(by, last);
    let wanted = offered(entries[i].0, entries[i].1@[k]);
    let all = entries.flat_map(by);
    assert(all == init.flat_map(by) + offered_by(last));
    if i < init.len() {
        lemma_listed(init, i, k);
        let p = choose|p: int| 0 <= p < init.flat_map(by).len() && init.flat_map(by)[p] == wanted;
        assert(all[p] == wanted);
    } else {
        let p = init.flat_map(by).len() + k;
        assert(all[p] == offered_by(last)[k]);
    }
}

/// Every tool of the listing is a tool of some server.
proof fn lemma_listed_is_offered(entries: Seq<(Seq<char>, Vec<Tool>)>, p: int) -> (at: (int, int))
    requires
        0 <= p < entries.flat_map(|entry: (Seq<char>, Vec<Tool>)| offered_by(entry)).len(),
    ensures
        0 <= at.0 < entries.len(),
        0 <= at.1 < entries[at.0].1@.len(),
        entries.flat_map(|entry: (Seq<char>, Vec<Tool>)| offered_by(entry))[p] == offered(
            entries[at.0].0,
            entries[at.0].1@[at.1],
        ),
    decreases entries.len(),
{
    let by = |entry: (Seq<char>, Vec<Tool>)| offered_by(entry);
    if entries.len() == 0 {
        assert(entries.map_values(by) =~= Seq::empty());
        (0, 0)
    } else {
        let init = entries.drop_last();
        let last = entries.last();
        assert(entries =~= init.push(last));
        init.lemma_flat_map_push(by, last);
        assert(entries.flat_map(by) == init.flat_map(by) + offered_by(last));
        if p < init.flat_map(by).len() {
            let at = lemma_listed_is_offered(init, p);
            assert(entries[at.0] == init[at.0]);
            at
        } else {
            (init.len() as int, p - init.flat_map(by).len())
        }
    }
}

/// How many tools the servers offer together.
pub open spec fn tool_count(entries: Seq<(Seq<char>, Vec<Tool>)>) -> nat
    decreases entries.len(),
{
    if entries.len() == 0 {
        0
    } else {
        tool_count(entries.drop_last()) + entries.last().1@.len()
    }
}

/// As many tools are listed as all servers offer together.
pub proof fn law_listing_length(tools: ServerMap<Vec<Tool>>)
    ensures
        listing(tools).len() == tool_count(tools.entries()),
{
    lemma_listing_length(tools.entries());
}

proof fn lemma_listing_length(entries: Seq<(Seq<char>, Vec<Tool>)>)
    ensures
        entries.flat_map(|entry: (Seq<char>, Vec<Tool>)| offered_by(entry)).len() == tool_count(
            entries,
        ),
    decreases entries.len(),
{
    let by = |entry: (Seq<char>, Vec<Tool>)| offered_by(entry);
    if entries.len() == 0 {
        assert(entries.map_values(by) =~= Seq::empty());
    } else {
        let init = entries.drop_last();
        assert(entries =~= init.push(entries.last()));
        init.lemma_flat_map_push(by, entries.last());
        lemma_listing_length(init);
    }
}

/// Where in the listing the tools of each server stand: behind those of the
/// servers before it.
pub(crate) proof fn lemma_listing_at(entries: Seq<(Seq<char>, Vec<Tool>)>, starts: Seq<int>)
    requires
        starts.len() == entries.len() + 1,
        starts[0] == 0,
        forall|i: int|
            0 <= i < entries.len() ==> starts[i + 1] == starts[i] + (#[trigger] entries[i]).1@.len(),
    ensures
        ({
            let all = entries.flat_map(|entry: (Seq<char>, Vec<Tool>)| offered_by(entry));
            &&& all.len() == starts.last()
            &&& forall|i: int, k: int|
                0 <= i < entries.len() && 0 <= k < entries[i].1@.len() ==> 0 <= starts[i] + k
                    < all.len() && all[starts[i] + k] == offered(
                    entries[i].0,
                    #[trigger] entries[i].1@[k],
                )
        }),
    decreases entries.len(),
{
    let by = |entry: (Seq<char>, Vec<Tool>)| offered_by(entry);
    let all = entries.flat_map(by);
    if entries.len() == 0 {
        assert(entries.map_values(by) =~= Seq::empty());
    } else {
        let init = entries.drop_last();
        let last = entries.last();
        assert(entries =~= init.push(last));
        init.lemma_flat_map_push(by, last);
        let head = init.flat_map(by);
        assert(all == head + offered_by(last));
        assert(forall|i: int| 0 <= i < init.len() ==> #[trigger] init[i] == entries[i]);
        lemma_listing_at(init, starts.drop_last());
        let n = init.len() as int;
        assert(entries[n] == last);
        assert(starts[n + 1] == starts[n] + last.1@.len());
        assert forall|i: int, k: int|
            0 <= i < entries.len() && 0 <= k < entries[i].1@.len() implies 0 <= starts[i] + k
            < all.len() && all[starts[i] + k] == offered(
            entries[i].0,
            #[trigger] entries[i].1@[k],
        ) by {
            if i < n {
                assert(init[i].1@[k] == entries[i].1@[k]);
                assert(starts.drop_last()[i] == starts[i]);
                assert(all[starts[i] + k] == head[starts[i] + k]);
            } else {
                assert(all[starts[n] + k] == offered_by(last)[k]);
            }
        }
    }
}

/// Every tool of every server is listed, under its qualified name and otherwise
/// unchanged, and nothing else is listed.
pub proof fn law_listing_is_complete(tools: ServerMap<Vec<Tool>>)
    ensures
        forall|i: int, k: int|
            0 <= i < tools.entries().len() && 0 <= k < tools.entries()[i].1@.len()
                ==> listing(tools).contains(
                #[trigger] offered(tools.entries()[i].0, tools.entries()[i].1@[k]),
            ),
        forall|p: int|
            0 <= p < listing(tools).len() ==> exists|i: int, k: int|
                0 <= i < tools.entries().len() && 0 <= k < tools.entries()[i].1@.len()
                    && #[trigger] listing(tools)[p] == #[trigger] offered(
                    tools.entries()[i].0,
                    tools.entries()[i].1@[k],
                ),
{
    let entries = tools.entries();
    assert forall|i: int, k: int|
        0 <= i < entries.len() && 0 <= k < entries[i].1@.len() implies listing(tools).contains(
        #[trigger] offered(entries[i].0, entries[i].1@[k]),
    ) by {
        lemma_listed(entries, i, k);
    }
    assert forall|p: int| 0 <= p < listing(tools).len() implies exists|i: int, k: int|
        0 <= i < entries.len() && 0 <= k < entries[i].1@.len() && #[trigger] listing(tools)[p]
            == #[trigger] offered(entries[i].0, entries[i].1@[k]) by {
        let at = lemma_listed_is_offered(entries, p);
        assert(listing(tools)[p] == offered(entries[at.0].0, entries[at.0].1@[at.1]));
    }
}

/// A tool can be called by the name under which it is listed, and the call goes
/// to its own server under its own name there, exactly if the name of the server
/// is unambiguous.
pub proof fn law_offered_tool_is_callable(tools: ServerMap<Vec<Tool>>, i: int, k: int)
    requires
        tools.wf(),
        0 <= i < tools.entries().len(),
        0 <= k < tools.entries()[i].1@.len(),
    ensures
        ({
            let server = tools.entries()[i].0;
            let tool = tools.entries()[i].1@[k];
            route(tools, offered(server, tool).name) == (Route::Found {
                server,
                tool: tool.name@,
            }) <==> unambiguous(server)
        }),
{
    let server = tools.entries()[i].0;
    let tool = tools.entries()[i].1@[k];
    tools.lemma_entries();
    law_join_then_split(server, tool.name@);
    assert(tools.value(server) == tools.entries()[i].1);
}

/// Whatever is listed is a tool of a server, and a call of the name that is
/// listed goes to that tool, exactly if the name of the server is unambiguous.
pub proof fn law_listed_name_is_callable(tools: ServerMap<Vec<Tool>>, p: int)
    requires
        tools.wf(),
        0 <= p < listing(tools).len(),
    ensures
        exists|i: int, k: int|
            {
                &&& 0 <= i < tools.entries().len()
                &&& 0 <= k < tools.entries()[i].1@.len()
                &&& listing(tools)[p] == #[trigger] offered(
                    tools.entries()[i].0,
                    tools.entries()[i].1@[k],
                )
                &&& route(tools, listing(tools)[p].name) == (Route::Found {
                    server: tools.entries()[i].0,
                    tool: tools.entries()[i].1@[k].name@,
                }) <==> unambiguous(tools.entries()[i].0)
            },
{
    let at = lemma_listed_is_offered(tools.entries(), p);
    law_offered_tool_is_callable(tools, at.0, at.1);
    assert(listing(tools)[p] == offered(
        tools.entries()[at.0].0,
        tools.entries()[at.0].1@[at.1],
    ));
}

/// A name that can be called is listed.
pub proof fn law_callable_name_is_listed(tools: ServerMap<Vec<Tool>>, name: Seq<char>)
    requires
        route(tools, name) is Found,
    ensures
        exists|p: int| 0 <= p < listing(tools).len() && (#[trigger] listing(tools)[p]).name == name,
{
    law_split_then_join(name);
    let (server, tool) = split_name(name)->0;
    let i = tools.names().index_of(server);
    assert(tools.names()[i] == server);
    let own = tools.entries()[i].1@;
    let k = choose|k: int| 0 <= k < own.len() && (#[trigger] own[k]).name@ == tool;
    lemma_listed(tools.entries(), i, k);
    let wanted = offered(tools.entries()[i].0, own[k]);
    let p = choose|p: int| 0 <= p < listing(tools).len() && listing(tools)[p] == wanted;
    assert(listing(tools)[p].name == name);
}

/// No name is listed twice, if no server name is ambiguous and no server offers
/// two tools of one name.
pub proof fn law_listed_names_differ(tools: ServerMap<Vec<Tool>>)
    requires
        tools.wf(),
        forall|i: int|
            0 <= i < tools.entries().len() ==> unambiguous(#[trigger] tools.entries()[i].0),
        forall|i: int, k: int, l: int|
            0 <= i < tools.entries().len() && 0 <= k < l < tools.entries()[i].1@.len()
                ==> (#[trigger] tools.entries()[i].1@[k]).name@ != (
            #[trigger] tools.entries()[i].1@[l]).name@,
    ensures
        forall|p: int, q: int|
            0 <= p < q < listing(tools).len() ==> (#[trigger] listing(tools)[p]).name != (
            #[trigger] listing(tools)[q]).name,
{
    tools.lemma_entries();
    let entries = tools.entries();
    assert forall|i: int, j: int| 0 <= i < j < entries.len() implies (#[trigger] entries[i]).0 != (
    #[trigger] entries[j]).0 by {
        assert(tools.names()[i] != tools.names()[j]);
    }
    lemma_listed_names_differ(entries);
}

proof fn lemma_listed_names_differ(entries: Seq<(Seq<char>, Vec<Tool>)>)
    requires
        forall|i: int, j: int|
            0 <= i < j < entries.len() ==> (#[trigger] entries[i]).0 != (#[trigger] entries[j]).0,
        forall|i: int| 0 <= i < entries.len() ==> unambiguous(#[trigger] entries[i].0),
        forall|i: int, k: int, l: int|
            0 <= i < entries.len() && 0 <= k < l < entries[i].1@.len()
                ==> (#[trigger] entries[i].1@[k]).name@ != (#[trigger] entries[i].1@[l]).name@,
    ensures
        ({
            let all = entries.flat_map(|entry: (Seq<char>, Vec<Tool>)| offered_by(entry));
            forall|p: int, q: int|
                0 <= p < q < all.len() ==> (#[trigger] all[p]).name != (#[trigger] all[q]).name
        }),
    decreases entries.len(),
{
    let by = |entry: (Seq<char>, Vec<Tool>)| offered_by(entry);
    let all = entries.flat_map(by);
    if entries.len() == 0 {
        assert(entries.map_values(by) =~= Seq::empty());
    } else {
        let init = entries.drop_last();
        let last = entries.last();
        assert(entries =~= init.push(last));
        init.lemma_flat_map_push(by, last);
        let head = init.flat_map(by);
        assert(all == head + offered_by(last));
        assert(forall|i: int| 0 <= i < init.len() ==> #[trigger] init[i] == entries[i]);
        lemma_listed_names_differ(init);
        assert forall|p: int, q: int| 0 <= p < q < all.len() implies (#[trigger] all[p]).name != (
        #[trigger] all[q]).name by {
            if q < head.len() {
                assert(all[p] == head[p] && all[q] == head[q]);
            } else if p < head.len() {
                let at = lemma_listed_is_offered(init, p);
                let l = q - head.len();
                let server = entries[at.0].0;
                law_qualified_names_differ(
                    server,
                    entries[at.0].1@[at.1].name@,
                    last.0,
                    last.1@[l].name@,
                );
                assert(entries[at.0].0 != entries[entries.len() - 1].0);
                assert(all[q] == offered_by(last)[l]);
            } else {
                let k = p - head.len();
                let l = q - head.len();
                let n = entries.len() - 1;
                assert(entries[n].1@[k].name@ != entries[n].1@[l].name@);
                law_qualified_names_differ(last.0, last.1@[k].name@, last.0, last.1@[l].name@);
                assert(all[p] == offered_by(last)[k] && all[q] == offered_by(last)[l]);
            }
        }
    }
}

/// A copy of a mux lists what the mux lists, and a call goes where it went.
pub proof fn law_copy_offers_the_same(
    copy: ServerMap<Vec<Tool>>,
    original: ServerMap<Vec<Tool>>,
    name: Seq<char>,
)
    requires
        same_tools(copy, original),
    ensures
        listing(copy) == listing(original),
        route(copy, name) == route(original, name),
{
    let by = |entry: (Seq<char>, Vec<Tool>)| offered_by(entry);
    assert(copy.entries().len() == copy.names().len());
    assert(original.entries().len() == original.names().len());
    assert forall|i: int| 0 <= i < original.entries().len() implies offered_by(copy.entries()[i])
        == offered_by(original.entries()[i]) by {
        assert(copy.names()[i] == original.names()[i]);
        assert(copy.entries()[i].1@ == original.entries()[i].1@);
    }
    assert(copy.entries().map_values(by) =~= original.entries().map_values(by));
    if let Some((server, _)) = split_name(name) {
        if original.has(server) {
            let i = original.names().index_of(server);
            assert(original.names()[i] == server);
            assert(copy.entries()[i].1@ == original.entries()[i].1@);
        }
    }
}

/// Where every server that offers tools has a client, no call lacks one.
pub proof fn law_complete_mux_reaches_all<C>(mux: MCPMux<C>, name: Seq<char>)
    requires
        forall|server: Seq<char>| mux.tools().has(server) ==> mux.clients().has(server),
    ensures
        mux.reaches(name),
{
}

} // verus!

//! Qualified tool names: a server name and a tool name, joined by `::`.
use vstd::prelude::*;
use vstd::string::{StrSliceExecFns, StringExecFns};

verus! {

/// What stands between the server name and the tool name.
pub open spec fn separator() -> Seq<char> {
    seq![':', ':']
}

/// `name` holds the separator at position `at`.
pub open spec fn separator_at(name: Seq<char>, at: int) -> bool {
    &&& 0 <= at
    &&& at + 2 <= name.len()
    &&& name[at] == ':'
    &&& name[at + 1] == ':'
}

/// `at` is the leftmost position at which `name` holds the separator.
pub open spec fn first_separator_at(name: Seq<char>, at: int) -> bool {
    &&& separator_at(name, at)
    &&& forall|j: int| 0 <= j < at ==> !separator_at(name, j)
}

/// `name` holds the separator somewhere.
pub open spec fn has_separator(name: Seq<char>) -> bool {
    exists|at: int| separator_at(name, at)
}

/// The name under which the tool `tool` of the server `server` is offered.
pub open spec fn qualified(server: Seq<char>, tool: Seq<char>) -> Seq<char> {
    server + separator() + tool
}

/// The server and the tool that `name` speaks of: what stands before the first
/// separator and what stands behind it. Nothing if there is no separator.
pub open spec fn split_name(name: Seq<char>) -> Option<(Seq<char>, Seq<char>)> {
    if has_separator(name) {
        let at = choose|at: int| first_separator_at(name, at);
        Some((name.take(at), name.skip(at + 2)))
    } else {
        None
    }
}

/// No separator starts within `server` once one has been put behind it: neither
/// inside `server`, nor on a last colon of `server`.
pub open spec fn unambiguous(server: Seq<char>) -> bool {
    !has_separator(server.push(':'))
}

/// Of several separators one is the first.
pub proof fn lemma_first_separator(name: Seq<char>, at: int) -> (first: int)
    requires
        separator_at(name, at),
    ensures
        first_separator_at(name, first),
        first <= at,
    decreases at,
{
    if exists|j: int| 0 <= j < at && separator_at(name, j) {
        let j = choose|j: int| 0 <= j < at && separator_at(name, j);
        lemma_first_separator(name, j)
    } else {
        at
    }
}

/// A name is split at its first separator.
pub proof fn lemma_split_at(name: Seq<char>, at: int)
    requires
        first_separator_at(name, at),
    ensures
        split_name(name) == Some((name.take(at), name.skip(at + 2))),
{
    assert(has_separator(name));
    let other = choose|at: int| first_separator_at(name, at);
    assert(first_separator_at(name, other));
    assert(other == at) by {
        if other < at {
            assert(!separator_at(name, other));
        } else if at < other {
            assert(!separator_at(name, at));
        }
    }
}

/// What a name was split into makes up the name again, and the server part
/// that a split yields is never ambiguous.
pub proof fn law_split_then_join(name: Seq<char>)
    ensures
        split_name(name) matches Some((server, tool)) ==> {
            &&& qualified(server, tool) == name
            &&& unambiguous(server)
        },
{
    if has_separator(name) {
        let some = choose|at: int| separator_at(name, at);
        let at = lemma_first_separator(name, some);
        lemma_split_at(name, at);
        assert(qualified(name.take(at), name.skip(at + 2)) =~= name);
        let probe = name.take(at).push(':');
        assert forall|j: int| !separator_at(probe, j) by {
            if separator_at(probe, j) {
                assert(probe[j] == name[j]);
                assert(probe[j + 1] == name[j + 1]);
                assert(separator_at(name, j));
            }
        }
    }
}

/// A qualified name splits into the server and the tool that it was made of
/// exactly if the server name is unambiguous.
pub proof fn law_join_then_split(server: Seq<char>, tool: Seq<char>)
    ensures
        split_name(qualified(server, tool)) == Some((server, tool)) <==> unambiguous(server),
{
    let name = qualified(server, tool);
    let at = server.len() as int;
    assert(separator_at(name, at));
    if unambiguous(server) {
        assert forall|j: int| 0 <= j < at implies !separator_at(name, j) by {
            if separator_at(name, j) {
                assert(separator_at(server.push(':'), j));
            }
        }
        lemma_split_at(name, at);
        assert(name.take(at) =~= server);
        assert(name.skip(at + 2) =~= tool);
    } else {
        law_split_then_join(name);
    }
}

/// Two tools are offered under one name only if they are one tool of one
/// server, as long as the server names are unambiguous.
pub proof fn law_qualified_names_differ(
    server1: Seq<char>,
    tool1: Seq<char>,
    server2: Seq<char>,
    tool2: Seq<char>,
)
    requires
        unambiguous(server1),
        unambiguous(server2),
    ensures
        qualified(server1, tool1) == qualified(server2, tool2) <==> (server1 == server2 && tool1
            == tool2),
{
    law_join_then_split(server1, tool1);
    law_join_then_split(server2, tool2);
}

/// A server name and a tool name, joined, split at the end of the server name,
/// if no separator starts before that.
pub(crate) proof fn lemma_split_parts(name: Seq<char>, server: Seq<char>, tool: Seq<char>)
    requires
        name == server + "::"@ + tool,
        forall|j: int| 0 <= j < server.len() ==> !(#[trigger] name[j] == ':' && name[j + 1] == ':'),
    ensures
        split_name(name) == Some((server, tool)),
        unambiguous(server),
        qualified(server, tool) == name,
{
    reveal_strlit("::");
    let at = server.len() as int;
    assert(name[at] == "::"@[0] && name[at + 1] == "::"@[1]);
    assert(separator_at(name, at));
    assert(first_separator_at(name, at));
    lemma_split_at(name, at);
    assert(name.take(at) =~= server);
    assert(name.skip(at + 2) =~= tool);
    law_split_then_join(name);
}

/// A server name is unambiguous exactly if it neither holds two colons in a row
/// nor ends in a colon.
pub proof fn law_unambiguous_servers(server: Seq<char>)
    ensures
        unambiguous(server) <==> {
            &&& forall|j: int|
                0 <= j < server.len() - 1 ==> !(#[trigger] server[j] == ':' && server[j + 1] == ':')
            &&& server.len() > 0 ==> server[server.len() - 1] != ':'
        },
{
    let probe = server.push(':');
    if has_separator(probe) {
        let at = choose|at: int| separator_at(probe, at);
        assert(probe[at] == server[at]);
        if at + 1 < server.len() {
            assert(probe[at + 1] == server[at + 1]);
        }
    } else {
        assert forall|j: int| 0 <= j < server.len() - 1 implies !(#[trigger] server[j] == ':'
            && server[j + 1] == ':') by {
            assert(!separator_at(probe, j));
            assert(probe[j] == server[j] && probe[j + 1] == server[j + 1]);
        }
        assert(!separator_at(probe, server.len() - 1));
    }
}

/// What `qualify` gives is the server name, two colons and the tool name.
pub proof fn law_qualify_joins(server: &str, tool: &str, name: String)
    requires
        call_ensures(qualify, (server, tool), name),
    ensures
        call_requires(qualify, (server, tool)),
        name@ == server@ + "::"@ + tool@,
        name@.len() == server@.len() + 2 + tool@.len(),
{
    reveal_strlit("::");
    assert("::"@ =~= separator());
}

/// What `split` gives makes up the name, with two colons between the parts, and
/// no two colons in a row start before these. It gives nothing only for a name
/// without two colons in a row.
pub proof fn law_split_cuts_at_first_separator(name: &str, parts: Option<(&str, &str)>)
    requires
        call_ensures(split, (name,), parts),
    ensures
        call_requires(split, (name,)),
        match parts {
            Some((server, tool)) => {
                &&& name@ == server@ + "::"@ + tool@
                &&& forall|j: int|
                    0 <= j < server@.len() ==> !(#[trigger] name@[j] == ':' && name@[j + 1] == ':')
            },
            None => forall|j: int|
                0 <= j < name@.len() - 1 ==> !(#[trigger] name@[j] == ':' && name@[j + 1] == ':'),
        },
{
    reveal_strlit("::");
    assert("::"@ =~= separator());
    if has_separator(name@) {
        let some = choose|at: int| separator_at(name@, at);
        let at = lemma_first_separator(name@, some);
        lemma_split_at(name@, at);
        law_split_then_join(name@);
        assert forall|j: int| 0 <= j < at implies !(#[trigger] name@[j] == ':' && name@[j + 1]
            == ':') by {
            assert(!separator_at(name@, j));
        }
    } else {
        assert forall|j: int| 0 <= j < name@.len() - 1 implies !(#[trigger] name@[j] == ':'
            && name@[j + 1] == ':') by {
            assert(!separator_at(name@, j));
        }
    }
}

/// `split` takes apart again what `qualify` joined, unless two colons in a row
/// start within the server name or on its last colon.
pub proof fn law_qualify_then_split(
    server: &str,
    tool: &str,
    name: String,
    again: &str,
    parts: Option<(&str, &str)>,
)
    requires
        call_ensures(qualify, (server, tool), name),
        again@ == name@,
        call_ensures(split, (again,), parts),
        forall|j: int|
            0 <= j < server@.len() ==> !(#[trigger] name@[j] == ':' && name@[j + 1] == ':'),
    ensures
        parts matches Some((s, t)) && s@ == server@ && t@ == tool@,
{
    law_qualify_joins(server, tool, name);
    lemma_split_parts(name@, server@, tool@);
}

/// `qualify` joins again what `split` took apart.
pub proof fn law_split_then_qualify(name: &str, server: &str, tool: &str, joined: String)
    requires
        call_ensures(split, (name,), Some((server, tool))),
        call_ensures(qualify, (server, tool), joined),
    ensures
        joined@ == name@,
{
    law_split_cuts_at_first_separator(name, Some((server, tool)));
    law_qualify_joins(server, tool, joined);
}

/// Joins a server name and a tool name.
pub fn qualify(server: &str, tool: &str) -> (name: String)
    ensures
        name@ == qualified(server@, tool@),
{
    proof {
        reveal_strlit("::");
        assert("::"@ =~= separator());
    }
    server.to_string().concat("::").concat(tool)
}

/// Finds the first separator.
fn find_separator(name: &str, len: usize) -> (found: Option<usize>)
    requires
        len == name@.len(),
    ensures
        match found {
            Some(at) => first_separator_at(name@, at as int),
            None => !has_separator(name@),
        },
{
    let mut after_colon = false;
    let mut at: usize = 0;
    for c in it: name.chars()
        invariant
            it.seq() == name@,
            at == it.index(),
            len == name@.len(),
            after_colon <==> at > 0 && name@[at - 1] == ':',
            forall|j: int| 0 <= j < at - 1 ==> !separator_at(name@, j),
    {
        if c == ':' && after_colon {
            return Some(at - 1);
        }
        after_colon = c == ':';
        at = at + 1;
    }
    None
}

/// Splits a name at its first separator.
pub fn split(name: &str) -> (parts: Option<(&str, &str)>)
    ensures
        match parts {
            Some((server, tool)) => split_name(name@) == Some((server@, tool@)),
            None => split_name(name@) is None,
        },
{
    let len = name.unicode_len();
    match find_separator(name, len) {
        Some(at) => {
            proof {
                lemma_split_at(name@, at as int);
            }
            let server = name.substring_char(0, at);
            let tool = name.substring_char(at + 2, len);
            Some((server, tool))
        },
        None => None,
    }
}

} // verus!

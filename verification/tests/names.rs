use mcp_mux::names::{qualify, split};

#[test]
fn a_name_is_split_at_its_first_separator() {
    assert_eq!(split("counter::increment"), Some(("counter", "increment")));
    assert_eq!(split("a::b::c"), Some(("a", "b::c")));
    assert_eq!(split("a:::b"), Some(("a", ":b")));
    assert_eq!(split("a::::b"), Some(("a", "::b")));
}

#[test]
fn a_name_without_separator_is_not_split() {
    assert_eq!(split(""), None);
    assert_eq!(split(":"), None);
    assert_eq!(split("counter"), None);
    assert_eq!(split("a:b:c"), None);
}

#[test]
fn either_part_may_be_empty() {
    assert_eq!(split("::"), Some(("", "")));
    assert_eq!(split("::t"), Some(("", "t")));
    assert_eq!(split("s::"), Some(("s", "")));
}

#[test]
fn names_need_not_be_ascii() {
    assert_eq!(split("zähler::größe"), Some(("zähler", "größe")));
    assert_eq!(split("数::一::二"), Some(("数", "一::二")));
}

#[test]
fn split_agrees_with_splitn() {
    let pieces = ["", ":", "::", "a", "é"];
    for x in pieces {
        for y in pieces {
            for z in pieces {
                let name = format!("{x}{y}{z}");
                let mut parts = name.splitn(2, "::");
                let first = parts.next().unwrap();
                let expected = parts.next().map(|second| (first, second));
                assert_eq!(split(&name), expected);
            }
        }
    }
}

#[test]
fn a_split_name_is_joined_again() {
    for name in ["a::b", "a::b::c", "::", "a:::b"] {
        let (server, tool) = split(name).unwrap();
        assert_eq!(qualify(server, tool), name);
    }
}

#[test]
fn a_joined_name_is_split_again_unless_the_server_is_ambiguous() {
    assert_eq!(qualify("s", ":t"), "s:::t");
    assert_eq!(split(&qualify("s", ":t")), Some(("s", ":t")));
    assert_eq!(split(&qualify("a:b", "t")), Some(("a:b", "t")));
    assert_eq!(split(&qualify("s:", "t")), Some(("s", ":t")));
    assert_eq!(split(&qualify("a::b", "t")), Some(("a", "b::t")));
}

#[test]
fn ambiguous_servers_may_share_a_qualified_name() {
    assert_ne!(qualify("a", "b"), qualify("ab", ""));
    assert_eq!(qualify("a", ":b"), qualify("a:", "b"));
}

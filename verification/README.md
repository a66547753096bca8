# mcp_mux

One server of the Model Context Protocol in front of many. The mux connects to
each server that it is told of, asks it for its tools, and offers all of them:
the tool `t` of the server `s` under the name `s::t`. A call of `s::t` is sent
to `s` as a call of `t`.

`src/` is the library, written in Verus and verified:

- `names`: qualified names, how they are made and taken apart
- `servers`: maps from server names
- `model`: the messages of the protocol
- `mux`: which tools are offered, and where a call goes
- `laws`: what holds between the two
- `transport`, `connect`: how servers are reached, and how a mux is built
- `standalone`: the program's own server, with resources and a prompt besides
- `json`, `protocol`: what is taken from `serde_json` and `rmcp`, with the
  contracts that are believed of it

`app/` is the program: it talks to the servers and to the client, and asks the
library what to do.

//! A mux for the Model Context Protocol: one server that stands in front of
//! many and offers the tools of all of them. A tool `t` of the server `s` is
//! offered under the qualified name `s::t`, and a call of that name is handed
//! to `s` as a call of `t`.
#![allow(unused_imports)]

pub mod calls;
pub mod connect;
pub mod json;
pub mod laws;
pub mod model;
pub mod mux;
pub mod names;
pub mod protocol;
pub mod servers;
pub mod standalone;
pub mod transport;

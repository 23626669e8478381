//! The logic of an agent that lets its callers run a small, fixed set of docker
//! and anvil operations on a host, instead of a shell or the docker socket.
//!
//! Everything here is a function from plain values to plain values. What has to
//! touch the host (running a command, reading a file, decoding JSON into a typed
//! value) is named as an action; the program around the library performs it and
//! hands back the event.
//!
//! - [`rpc`] answers a request step by step; [`auth`] decides who gets in.
//! - [`execute`] and [`resume`] run a tool: what it starts with and how it goes
//!   on. [`task`] holds the actions, events and tasks, [`state`] what the agent
//!   holds meanwhile.
//! - [`tools`] is the allowlist, [`card`] what is published of it.
//! - [`discovery`] finds the services that a host's manifest declares, and
//!   [`memory`] remembers them and the notes; [`memory_file`] is its form on disk.
//! - [`container`] and [`dotenv`] make a container anew and change a `.env` file.
//! - [`mesh`] finds and calls other agents.
//! - [`command`], [`json`] and [`text`] are what the rest is built from;
//!   [`outside`] holds every call into other crates, with what is believed of it.
//! - [`tool_laws`], [`rpc_laws`], [`env_laws`] and [`container_laws`] state what
//!   holds across these parts.
//! - [`call_laws`], [`endpoint_laws`], [`discovery_laws`], [`env_file_laws`] and
//!   [`memory_laws`] state what each operation does, from what goes in to what comes
//!   out; [`text_laws`] does so for texts and JSON members, [`tool_table`] for the
//!   tools that there are, and [`view_laws`] for how values are seen.

pub mod auth;
pub mod call_laws;
pub mod card;
pub mod command;
pub mod container;
pub mod container_laws;
pub mod discovery;
pub mod discovery_laws;
pub mod dotenv;
pub mod endpoint_laws;
pub mod env_file_laws;
pub mod env_laws;
pub mod execute;
pub mod json;
pub mod memory;
pub mod memory_file;
pub mod memory_laws;
pub mod mesh;
pub mod outside;
pub mod resume;
pub mod rpc;
pub mod rpc_laws;
pub mod state;
pub mod task;
pub mod text;
pub mod text_laws;
pub mod tool_laws;
pub mod tool_table;
pub mod tools;
pub mod view_laws;

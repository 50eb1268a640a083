//! Node-local workspace host agent library.
//!
//! The agent turns a cloned source repository into ready-to-run container
//! images and drives the devcontainer lifecycle inside them.  This crate holds
//! the agent's decision logic: folder and tag layout, Dockerfile synthesis,
//! container-engine command construction, compose build planning, lifecycle
//! command dispatch, OS-user provisioning steps, the activity probe's
//! idle/active transitions, and the RPC peer registry.  The surrounding
//! process (listeners, subprocesses, sockets, timers) feeds these functions
//! plain values and carries out the actions they return.

pub mod activity;
pub mod builder;
pub mod command;
pub mod compose;
pub mod config;
pub mod dockerfile;
pub mod engine;
pub mod error;
pub mod lifecycle;
pub mod model;
pub mod paths;
pub mod provision;
pub mod registry;
pub mod text;

//! A volunteer-computing client daemon library: a message log, a project
//! registry, a task supervisor, run-mode policy, a synchronized client-state
//! wrapper, and the control-plane RPC protocol state machine.

pub mod acct_mgr;
pub mod acct_setup;
pub mod app;
pub mod cert_sig;
pub mod common;
pub mod context;
pub mod coproc;
pub mod element;
pub mod errors;
pub mod file_info;
pub mod file_names;
pub mod hostinfo;
pub mod messages;
pub mod outside;
pub mod project_init;
pub mod projects;
pub mod rpc;
pub mod rpc_handlers;
pub mod state;
pub mod tasks;
pub mod util;
pub mod workunit;
pub mod xfers;

//! Scaffolding of a new project workspace: a project directory, optionally a
//! version-control repository inside it, and optionally a virtual environment.
//!
//! The crate is the decision core of the tool. Everything that touches the
//! world — spawning `git` or a provisioning script, creating and removing
//! directories, reading the operator's answer — is observed through plain
//! values (probe results, process exit events, input lines). The library
//! validates the raw configuration into descriptors, plans the filesystem
//! actions and external commands each lifecycle operation performs, interprets
//! what came back, and drives the confirm-before-destroy protocol.

pub mod arguments;
pub mod makers;
pub mod orchestrator;
pub mod paths;
pub mod plan;
pub mod runner;

//! Idempotent host-bootstrap orchestrator: decision logic for bringing a
//! Linux host to a state where a container runtime and its compose plugin
//! are installed, running, and usable by the invoking user.
//!
//! This crate holds the verified core: host classification, privilege
//! interpretation, probe interpretation, the provisioning state machine
//! that chooses the minimal set of corrective actions, and the fixed
//! command tables. Running the shell commands the machine asks for is
//! left to the surrounding binary, which feeds each outcome back in.

pub mod commands;
pub mod flow;
pub mod laws;
pub mod platform;
pub mod privilege;
pub mod text;

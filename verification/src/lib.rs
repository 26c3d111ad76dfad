//! Resolution and provisioning of the pre-built `shebe-mcp` binary.
//!
//! The library maps a host platform to the release asset that carries its
//! build, and runs the provisioning session that turns a located asset into
//! a runnable, cached binary path.  All decisions are made here; the host
//! performs the network and filesystem work the session asks for.

pub mod release;
pub mod resolver;
pub mod provision;

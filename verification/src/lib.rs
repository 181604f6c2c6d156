//! Verified core of a divergence-workspace manager: a tool that provisions
//! isolated, branch-scoped copies of a version-controlled project, tracks each
//! copy's drift against an upstream branch, and supervises the terminal
//! multiplexer sessions bound to each copy.
//!
//! The library contains the decision logic only: it builds the command lines
//! handed to the external VCS and multiplexer tools, interprets their exit
//! statuses and output streams, and carries the multi-step operations as
//! explicit state machines. The unverified shell around the library spawns the
//! processes and feeds each outcome back in.

pub mod branch;
pub mod bytes;
pub mod config;
pub mod diff;
pub mod envpath;
pub mod ignored;
pub mod paths;
pub mod provision;
pub mod records;
pub mod remote;
pub mod run;
pub mod sessions;
pub mod status;
pub mod teardown;
pub mod text;

//! Verified planning core for a five-stage provisioning pipeline: install
//! build dependencies, build a noise-suppression library, clone a media
//! toolkit, configure and build it, and verify the installed result.
//!
//! The library decides *what* to run: it produces exact command invocations,
//! tracks the pipeline state machine, and checks tool output. Running the
//! commands (process spawning, filesystem probes) is left to the caller.

pub mod cpu;
pub mod invocation;
pub mod numfmt;
pub mod pipeline;
pub mod stages;
pub mod textscan;

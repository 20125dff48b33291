//! A coordination library for distributed network-benchmark runs.
//!
//! One coordinator process synchronizes many worker processes over TCP.
//! Workers spawn local benchmark subprocesses, observe their lifecycle and
//! report back. Around that core sits an orchestration layer: provisioning
//! plans, remote-command batches ordered by phase sentinels, result
//! collection and best-effort teardown.
//!
//! Every state transition, message format and retry decision is stated in
//! contracts and verified; the surrounding I/O (sockets, subprocesses,
//! cloud calls) lives outside this crate and hands plain values in and out.

pub mod config;
pub mod dashboard;
pub mod digits;
pub mod ec2_utils;
pub mod encoding;
pub mod error;
pub mod event;
pub mod liveness;
pub mod netbench;
pub mod network_utils;
pub mod orchestrator;
pub mod paths;
pub mod process_monitor;
pub mod protocol;
pub mod report;
pub mod report_tree;
pub mod ssm_utils;
pub mod state;
pub mod states;
pub mod wire;
pub mod workflow;

pub use error::{IoErrorKind, OrchError, OrchResult, RussulaError, RussulaResult};
pub use network_utils::Msg;
pub use states::WorkflowState;
pub use workflow::{Workflow, WorkflowBuilder};

//! Intrusion detection for HTTP access logs: a hot-reloadable rule set, a
//! line classifier, a per-address sliding-window counter and the decision
//! of when an address is to be blocked.

pub mod config;
pub mod parser;
pub mod tracker;
pub mod orchestrator;
pub mod firewall;

//! Galatea endpoint agent: the verified core of file and process context
//! correlation, static scan decisions, packer signatures and client-side
//! presentation rules.

pub mod alias_index;
pub mod canonical;
pub mod client_view;
pub mod correlation;
pub mod detection;
pub mod details;
pub mod file_context;
pub mod file_context_cache;
pub mod fs_filter;
pub mod gui;
pub mod heuristics;
pub mod ipc;
pub mod maps;
pub mod mgmt;
pub mod packers;
pub mod pe;
pub mod process_context;
pub mod scan_flow;
pub mod sensor;
pub mod signatures;
pub mod snapshot;
pub mod telemetry;
pub mod static_result_cache;
pub mod text;
pub mod theme;
pub mod tiers;

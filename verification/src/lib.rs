//! Verified core of the grass agent framework.
pub mod text;
pub mod error;
pub mod error_table;
pub mod builtin;
pub mod text_map;
pub mod ids;
pub mod types;
pub mod context;
pub mod scheduler;
pub mod id_map;
pub mod orchestrator;
pub mod protocol;
pub mod executor;
pub mod hooks;
pub mod plugins;
pub mod llm;
pub mod providers;
pub mod ipc;
pub mod iot;
pub mod messaging;
pub mod streaming;
pub mod inference;
pub mod blockchain;
pub mod sandbox;
pub mod integrations;
pub mod flow;
pub mod vector;
pub mod timer;

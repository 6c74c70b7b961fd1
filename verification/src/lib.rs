//! Provider registry, capability resolution and protocol plumbing for the
//! terminal client's model providers.

pub mod capability_bridge;
pub mod capability_filter;
pub mod client;
pub mod config;
pub mod config_edit;
pub mod models;
pub mod protocol_adapter;
pub mod provider_picker;
pub mod provider_registry;
pub mod text;

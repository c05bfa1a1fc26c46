//! Wrappers for OPC UA data types and resource-owning structures.

pub mod data_types;
pub mod server_config;

//! Verified core of the Narada agent terminal projection client.
pub mod text;
pub mod json;
pub mod carrier_command_contract;
pub mod carrier_command;
pub mod carrier_protocol_contract;
pub mod carrier_protocol;
pub mod carrier_input_pipeline_contract;
pub mod nars_projection;
pub mod sha1;
pub mod websocket;
pub mod projection_state;
pub mod transcript_projection;
pub mod transcript_store;
pub mod mcp_json_rpc_contract;
pub mod runtime_boolean_contract;
pub mod provider_adapter_contract;
pub mod rendering_classifier_contract;
pub mod operator_routing_contract;
pub mod provider_dispatch;
pub mod mcp_fabric;
pub mod mcp_json_rpc;
pub mod provider_tool_call_bridge;
pub mod cli;

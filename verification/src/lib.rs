use vstd::prelude::*;

pub mod adapter;
pub mod admission;
pub mod admission_laws;
pub mod attachment;
pub mod bridge;
pub mod bridge_laws;
pub mod capabilities;
pub mod chat;
pub mod chat_laws;
pub mod chat_request_laws;
pub mod chat_stream;
pub mod chat_stream_laws;
pub mod codec;
pub mod commands;
pub mod config_text;
pub mod context;
pub mod digest;
pub mod dynamic_tools;
pub mod error;
pub mod export_laws;
pub mod import_laws;
pub mod json;
pub mod json_text;
pub mod lists;
pub mod model;
pub mod oauth;
pub mod outbound;
pub mod parity;
pub mod parity_laws;
pub mod path_laws;
pub mod paths;
pub mod projection;
pub mod projection_laws;
pub mod prompt;
pub mod protocol;
pub mod registry;
pub mod round_trip;
pub mod setup_laws;
pub mod store;
pub mod text;
pub mod text_laws;
pub mod tool_laws;
pub mod transfer;
pub mod transfer_laws;
pub mod turn_args;
pub mod turn_laws;
pub mod turn_loop;
pub mod turn_setup;
pub mod types;
pub mod uploads;
pub mod warm_cache;

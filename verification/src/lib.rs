//! Okoscope runtime observability: the event model, its wire protocol, the
//! agent's decoding and buffering, and the server's grouping, mail and API rules.

pub mod accounts;
pub mod agent_gateway;
pub mod agent_session;
pub mod attribution;
pub mod clock;
pub mod config;
pub mod counters;
pub mod database;
pub mod delivery;
pub mod event_model;
pub mod group_api;
pub mod grouping;
pub mod hex_text;
pub mod ingestion;
pub mod ids;
pub mod inventory;
pub mod kernel_abi;
pub mod kernel_event;
pub mod mail;
pub mod mail_settings;
pub mod metrics;
pub mod observation;
pub mod notification;
pub mod protocol;
pub mod round_trip;
pub mod stream_queue;
pub mod streams;
pub mod text;
pub mod web_api;
pub mod wire;

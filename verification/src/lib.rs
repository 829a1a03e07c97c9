//! Control plane of a local gateway: the registry of services and the events it
//! emits, the directory of TLS hosts with its server-name negotiation, and the
//! per-connection rules of the WebSocket gateway.

pub mod text;
pub mod number;
pub mod json;
pub mod service;
pub mod registry;
pub mod event;
pub mod broadcaster;
pub mod controller;
pub mod tls_config;
pub mod websocket_server;
pub mod options;

//! Lobby registry and connection gateway of a mission replay server.
//!
//! Spectators create or join a named lobby, receive its identifier, and then
//! open a streaming connection scoped to that lobby. This library holds the
//! registry, the request routing decisions, the query-string parser and the
//! static asset table; the transport lives outside it.
pub mod entries;
pub mod lobby_id;
pub mod responses;
pub mod serve_static;
pub mod utils;
pub mod view_session;
pub mod view_session_service;


//! Client library for the Bitvavo exchange API: configuration, request
//! signing, query and body encoding, endpoint descriptions and the decisions
//! taken on responses and streamed events.

pub mod auth;
pub mod config;
pub mod error;
pub mod params;
pub mod requests;
pub mod rest;
pub mod text;
pub mod transport;
pub mod types;
pub mod ws;

pub use config::ClientConfig;
pub use error::{Error, Result};
pub use types::{OrderType, Side};

use vstd::prelude::*;

verus! {

/// Default REST API base URL.
pub const DEFAULT_REST_URL: &'static str = "https://api.bitvavo.com/v2";

/// Default WebSocket URL.
pub const DEFAULT_WS_URL: &'static str = "wss://ws.bitvavo.com/v2/";

/// Default access window in milliseconds.
pub const DEFAULT_ACCESS_WINDOW_MS: u64 = 10_000;

/// Default HTTP request and WebSocket connection timeout in seconds.
pub const DEFAULT_TIMEOUT_SECS: u64 = 30;

} // verus!

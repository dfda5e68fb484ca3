//! A typed client core for a cryptocurrency exchange's REST and WebSocket
//! APIs. The crate verifies the places where the client does real protocol
//! work: the canonical, deterministic request encoding across the three
//! authorization tiers; the HMAC-SHA256 signature over exactly the bytes
//! transmitted; the classification of responses into typed successes and
//! structured errors; the WebSocket handshake/transport distinction; and
//! the frame decoder that turns an inbound frame sequence into events.
//! The network transport itself stays outside: callers send the prepared
//! wire images this crate builds and feed back what arrived.

pub mod client;
pub mod config;
pub mod dispatch;
pub mod encoding;
pub mod envelope;
pub mod model;
pub mod params;
pub mod rest_usdm;
pub mod sign;
pub mod spot;
pub mod stream;
pub mod stream_usdm;
pub mod usd_m;
pub mod wsapi;
pub mod wsapi_usdm;

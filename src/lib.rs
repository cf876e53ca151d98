//! Payload rewriting for a reverse proxy between a chat client and a local
//! inference server: tool-schema and usage-detail completion on JSON bodies,
//! per-event rewriting of Server-Sent-Events streams, and header sanitising.
pub mod headers;
pub mod json;
pub mod patch;
pub mod proxy;
pub mod sse;
pub mod text;

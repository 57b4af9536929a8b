//! Decision logic of a reverse proxy that puts an OAuth2 client-credentials
//! bearer token on every request it forwards to a single upstream API.
//!
//! The library holds the rules: when a cached token may be served, what a
//! refresh stores, which headers cross the proxy in each direction, where a
//! request is sent, and which failure the caller is told of. Sockets, locks
//! and clocks belong to the program around it, which hands in plain values.

pub mod text;
pub mod authenticator;
pub mod single_flight;
pub mod headers;
pub mod target;
pub mod preview;
pub mod proxy;


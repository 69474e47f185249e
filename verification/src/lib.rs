//! Routing and request building for a small HTTP edge handler.
//!
//! The handler answers a fixed set of routes. Some routes are answered at
//! once, the others need work that only the host can do: reading the inbound
//! body, looking up a secret, a key-value operation, or a call to the
//! document-database gateway. The library decides; the host performs. Every
//! decision is a verified function from plain values to plain values.

pub mod exchange;
pub mod gateway;
pub mod http;
pub mod json;
pub mod logging;
pub mod pattern;
pub mod payload;
pub mod router;
pub mod text;

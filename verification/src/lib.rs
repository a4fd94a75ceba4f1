//! Verified core of the Paw messenger client and server logic.

pub mod ws;
pub mod sync;
pub mod proto;
pub mod text;
pub mod auth;
pub mod ids;
pub mod events;
pub mod runtime;
pub mod http;
pub mod platform;
pub mod api;
pub mod crypto;
pub mod search;
pub mod server;
pub mod clock;

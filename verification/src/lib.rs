//! Device session gateway: the wire protocol, the session registry and the
//! per-connection state machine of a home-automation backend.

pub mod auth;
pub mod handle;
pub mod json;
pub mod protocol;
pub mod registry;
pub mod session;
pub mod upgrade;

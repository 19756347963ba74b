//! Room creation and room upgrade for a federated chat homeserver.
//!
//! The library decides which events are appended to which room, in which
//! order, and when the operation stops. The event log, the alias registry and
//! the profile store are driven by the caller.
pub mod create;
pub mod events;
pub mod outside;
pub mod upgrade;

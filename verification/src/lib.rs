//! Subscription lifecycle and delivery engine for live shadow-log streaming.
//!
//! The engine is written without I/O: every await of the surrounding service
//! (handshake, block-completion bus, query mediation, storage, transport) is an
//! [`subscription::Action`] that the engine hands out, and its outcome comes
//! back as an [`subscription::Event`].
pub mod failure;
pub mod laws;
pub mod listener;
pub mod log;
pub mod model;
pub mod params;
pub mod replay;
pub mod subscription;
pub mod trace;

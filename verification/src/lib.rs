//! Coordination of peer sessions that pair a signaling connection with a
//! message-based data transport.
//!
//! Producers turn what they observe into [`event::Message`] values; the
//! [`engine::Engine`] consumes them one at a time, keeps the session registry
//! and answers each with the list of [`event::Action`]s to perform.

pub mod channel;
pub mod options;
pub mod event;
pub mod registry;
pub mod engine;
pub mod history;
pub mod adapter;

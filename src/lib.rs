//! Event-generation engine for synthetic security-audit streams.
//!
//! Time is modelled as milliseconds since the Unix epoch (UTC); randomness
//! comes from a seedable generator that is threaded through every decision.
pub mod clock;
pub mod rng;
pub mod roles;
pub mod actors;
pub mod candidates;
pub mod catalog;
pub mod cloudtrail;
pub mod config;
pub mod dispatch;
pub mod entra;
pub mod event;
pub mod explicit;
pub mod guid;
pub mod profile;
pub mod schedule;
pub mod select;
pub mod sink;
pub mod text;
pub mod zones;
pub mod codec;

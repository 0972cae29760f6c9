//! Verified core of a single-process exchange trading bot.
//!
//! One mailbox actor owns the exchange client and serializes all signed
//! REST calls; cloneable handles enqueue commands and await per-call
//! replies; an independent ingestor decodes a live trade feed. The
//! request construction, signing, response parsing and the decision
//! logic of the actor and ingestor loops live here, with contracts; the
//! async plumbing around them does not.

pub mod client;
pub mod config;
pub mod crypto;
pub mod json;
pub mod order_manager;
pub mod types;
pub mod websocket;

pub use client::Client;
pub use config::Config;
pub use order_manager::OrderManagerActor;
pub use order_manager::OrderMessage;
pub use types::OrderResult;

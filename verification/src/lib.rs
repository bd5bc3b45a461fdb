//! Polymarket prediction-market plugin: the verified core.
//!
//! This crate holds the decisions, request building, response shaping and
//! text formatting of the Polymarket plugin, each with a contract proved by
//! Verus. Network I/O lives outside this crate and hands plain values in.

pub mod error;
pub mod text;
pub mod clock;
pub mod eth;
pub mod constants;
pub mod types;
pub mod client;
pub mod actions;
pub mod providers;
pub mod service;

pub use service::PolymarketService;

use vstd::prelude::*;

verus! {

/// The canonical plugin identifier used by elizaOS to refer to this plugin.
pub const PLUGIN_NAME: &'static str = "polymarket";

/// The plugin crate version.
pub const PLUGIN_VERSION: &'static str = "0.1.0";

} // verus!

//! Hedged requests over several RPC providers.
//!
//! A call is raced over a prefix of the configured providers: an initial wave
//! is contacted at once, the rest of the prefix after a hedge delay, and the
//! first success wins. The decisions of that race, the per-provider
//! statistics and the post-conditions on responses are verified here; the
//! network transport and the async runtime drive them from outside.

pub mod client;
pub mod config;
pub mod dashboard;
pub mod errors;
pub mod race;
pub mod stats;

pub use client::{AccountResponse, HedgeCore};
pub use config::{HedgeConfig, ProviderConfig, ProviderId};
pub use dashboard::{App, Method, Mode};
pub use errors::{HedgedError, TransportError};
pub use race::{HedgeRace, RaceAction, RaceEvent, RaceStatus, Settled};
pub use stats::{ProviderStats, ProviderStatsSnapshot, StatsRegistry};

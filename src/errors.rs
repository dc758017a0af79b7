use vstd::prelude::*;

use crate::config::ProviderId;

verus! {

/// A failure of one attempt on one provider, by kind, with the provider's
/// message where there is one.
#[derive(Debug, Clone, PartialEq, Eq)]
pub enum TransportError {
    /// The connection could not be made or broke off.
    Connection(String),
    /// The endpoint answered with a non-success HTTP status.
    Http(String),
    /// The answer could not be parsed.
    Parse(String),
    /// The server reported a JSON-RPC error.
    Rpc(String),
    /// Any other failure of the transport.
    Other(String),
    /// The answer was older than the freshness floor asked for.
    StaleResponse { min_slot: u64, got: u64 },
}

/// Why a hedged call produced no value.
#[derive(Debug, Clone, PartialEq, Eq)]
pub enum HedgedError {
    /// No provider is configured, or the call may consult none.
    NoProviders,
    /// Every contacted provider failed; failures in the order they arrived.
    AllFailed(Vec<(ProviderId, TransportError)>),
    /// The deadline, in milliseconds, passed with no winner.
    Timeout(u64),
}

} // verus!

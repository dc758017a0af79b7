use vstd::prelude::*;

verus! {

/// A short label naming one provider within a client.
#[derive(Debug, Clone, Copy, PartialEq, Eq, Hash)]
pub struct ProviderId(pub &'static str);

/// One provider: its label and its endpoint URL.
#[derive(Debug, Clone)]
pub struct ProviderConfig {
    pub id: ProviderId,
    pub url: String,
}

/// The hedging policy of a client.
///
/// Durations are whole milliseconds.
#[derive(Debug, Clone, Copy)]
pub struct HedgeConfig {
    /// Providers contacted as soon as a call starts (at least one is).
    pub initial_providers: usize,
    /// Delay after which the rest of the prefix is contacted.
    pub hedge_after_ms: u64,
    /// Upper bound on the providers consulted by one call.
    pub max_providers: usize,
    /// Freshness floor handed to freshness-aware operations.
    pub min_slot: Option<u64>,
    /// Hard deadline of a whole call, from its start.
    pub overall_timeout_ms: u64,
}

/// Number of providers one call may consult: `min(max_providers, n)`.
pub open spec fn prefix_len(max_providers: nat, n: nat) -> nat {
    if max_providers < n {
        max_providers
    } else {
        n
    }
}

/// Size of the initial wave: `initial_providers` clamped to `1..=selected`.
pub open spec fn wave_len(initial_providers: nat, selected: nat) -> nat {
    if initial_providers < 1 {
        1
    } else if initial_providers > selected {
        selected
    } else {
        initial_providers
    }
}

impl HedgeConfig {
    /// The policy with the given numbers and no freshness floor.
    pub open spec fn is_preset(
        self,
        initial: nat,
        hedge_after_ms: nat,
        max_providers: nat,
        overall_timeout_ms: nat,
    ) -> bool {
        &&& self.initial_providers == initial
        &&& self.hedge_after_ms == hedge_after_ms
        &&& self.max_providers == max_providers
        &&& self.min_slot.is_none()
        &&& self.overall_timeout_ms == overall_timeout_ms
    }

    /// Races two providers at once, hedges after 20 ms, gives up after 1 s.
    pub fn low_latency(providers_len: usize) -> (r: Self)
        ensures
            r.is_preset(2, 20, providers_len as nat, 1000),
    {
        HedgeConfig {
            initial_providers: 2,
            hedge_after_ms: 20,
            max_providers: providers_len,
            min_slot: None,
            overall_timeout_ms: 1000,
        }
    }

    /// Contacts one provider, hedges after 100 ms, gives up after 3 s.
    pub fn conservative(providers_len: usize) -> (r: Self)
        ensures
            r.is_preset(1, 100, providers_len as nat, 3000),
    {
        HedgeConfig {
            initial_providers: 1,
            hedge_after_ms: 100,
            max_providers: providers_len,
            min_slot: None,
            overall_timeout_ms: 3000,
        }
    }

    /// Races three providers at once, hedges after 20 ms, gives up after 1 s.
    pub fn aggressive(providers_len: usize) -> (r: Self)
        ensures
            r.is_preset(3, 20, providers_len as nat, 1000),
    {
        HedgeConfig {
            initial_providers: 3,
            hedge_after_ms: 20,
            max_providers: providers_len,
            min_slot: None,
            overall_timeout_ms: 1000,
        }
    }
}

impl Default for HedgeConfig {
    /// One provider at once, hedge after 80 ms, no cap on providers, 2 s deadline.
    fn default() -> (r: Self)
        ensures
            r.is_preset(1, 80, usize::MAX as nat, 2000),
    {
        HedgeConfig {
            initial_providers: 1,
            hedge_after_ms: 80,
            max_providers: usize::MAX,
            min_slot: None,
            overall_timeout_ms: 2000,
        }
    }
}

} // verus!

use vstd::prelude::*;

use crate::config::ProviderId;
use crate::errors::TransportError;
use crate::config::{prefix_len, HedgeConfig};
use crate::race::{settled_from, RaceModel, Settled};

verus! {

/// `a + k`, held at `u64::MAX` instead of wrapping.
pub open spec fn sat_add(a: u64, k: nat) -> u64 {
    if a + k > u64::MAX {
        u64::MAX
    } else {
        (a + k) as u64
    }
}

proof fn lemma_sat_add_step(a: u64, k: nat)
    ensures
        sat_add(sat_add(a, k), 1) == sat_add(a, k + 1),
{
}

/// The counters of one provider.
#[derive(Debug, Clone, Copy, PartialEq, Eq, Default)]
pub struct ProviderStats {
    /// Calls this provider won.
    pub wins: u64,
    /// Sum of the elapsed times, in milliseconds, of the calls it won.
    pub total_latency_ms: u64,
    /// Failures charged to it.
    pub errors: u64,
}

impl ProviderStats {
    pub open spec fn zero() -> ProviderStats {
        ProviderStats { wins: 0, total_latency_ms: 0, errors: 0 }
    }

    /// These counters after one win that took `elapsed_ms`.
    pub open spec fn with_win(self, elapsed_ms: u64) -> ProviderStats {
        ProviderStats {
            wins: sat_add(self.wins, 1),
            total_latency_ms: sat_add(self.total_latency_ms, elapsed_ms as nat),
            errors: self.errors,
        }
    }

    /// These counters after `k` more errors.
    pub open spec fn with_errors(self, k: nat) -> ProviderStats {
        ProviderStats { wins: self.wins, total_latency_ms: self.total_latency_ms, errors: sat_add(self.errors, k) }
    }
}

/// What observers see of one provider's counters.
#[derive(Debug, Clone, Copy, PartialEq, Eq)]
pub struct ProviderStatsSnapshot {
    pub wins: u64,
    /// Mean elapsed time of the won calls, rounded down; 0 without wins.
    pub avg_latency_ms: u64,
    pub total_latency_ms: u64,
    pub errors: u64,
}

pub open spec fn snapshot_of(s: ProviderStats) -> ProviderStatsSnapshot {
    ProviderStatsSnapshot {
        wins: s.wins,
        avg_latency_ms: if s.wins == 0 {
            0
        } else {
            (s.total_latency_ms / s.wins) as u64
        },
        total_latency_ms: s.total_latency_ms,
        errors: s.errors,
    }
}

/// Number of failures in `f` charged to the provider at `index`.
pub open spec fn failure_count(f: Seq<(usize, TransportError)>, index: nat) -> nat
    decreases f.len(),
{
    if f.len() == 0 {
        0
    } else {
        failure_count(f.drop_last(), index) + if f.last().0 == index {
            1nat
        } else {
            0nat
        }
    }
}

/// The counters after charging one error to each provider of the prefix of
/// length `selected`.
pub open spec fn after_timeout(s: Seq<(ProviderId, ProviderStats)>, selected: nat) -> Seq<(ProviderId, ProviderStats)> {
    Seq::new(s.len(), |i: int| if i < selected { (s[i].0, s[i].1.with_errors(1)) } else { s[i] })
}

/// The counters after charging each failure of `f` to its provider.
pub open spec fn after_failures(
    s: Seq<(ProviderId, ProviderStats)>,
    f: Seq<(usize, TransportError)>,
) -> Seq<(ProviderId, ProviderStats)> {
    Seq::new(s.len(), |i: int| (s[i].0, s[i].1.with_errors(failure_count(f, i as nat))))
}

/// The counters after the call that settled as `outcome`, `elapsed_ms` after it started.
pub open spec fn after_outcome<T>(
    s: Seq<(ProviderId, ProviderStats)>,
    outcome: Settled<T>,
    elapsed_ms: u64,
) -> Seq<(ProviderId, ProviderStats)> {
    match outcome {
        Settled::Won { index, .. } => s.update(index as int, (s[index as int].0, s[index as int].1.with_win(elapsed_ms))),
        Settled::AllFailed { failures } => after_failures(s, failures@),
        Settled::TimedOut { selected } => after_timeout(s, selected as nat),
    }
}

/// Whether the registry holds every provider that `outcome` names.
pub open spec fn outcome_fits<T>(outcome: Settled<T>, len: nat) -> bool {
    match outcome {
        Settled::Won { index, .. } => index < len,
        Settled::AllFailed { failures } => forall|j: int| 0 <= j < failures@.len() ==> (#[trigger] failures@[j]).0 < len,
        Settled::TimedOut { selected } => selected <= len,
    }
}

/// Per-provider counters, in the configured order of the providers.
pub struct StatsRegistry {
    entries: Vec<(ProviderId, ProviderStats)>,
}

impl View for StatsRegistry {
    type V = Seq<(ProviderId, ProviderStats)>;

    closed spec fn view(&self) -> Seq<(ProviderId, ProviderStats)> {
        self.entries@
    }
}

impl StatsRegistry {
    /// One zeroed entry for each provider, in order.
    pub fn new(ids: &Vec<ProviderId>) -> (r: Self)
        ensures
            r@.len() == ids@.len(),
            forall|i: int| 0 <= i < ids@.len() ==> #[trigger] r@[i] == (ids@[i], ProviderStats::zero()),
    {
        let mut entries: Vec<(ProviderId, ProviderStats)> = Vec::new();
        let mut i: usize = 0;
        while i < ids.len()
            invariant
                i <= ids@.len(),
                entries@.len() == i,
                forall|k: int| 0 <= k < i ==> #[trigger] entries@[k] == (ids@[k], ProviderStats::zero()),
            decreases ids@.len() - i,
        {
            entries.push((ids[i], ProviderStats { wins: 0, total_latency_ms: 0, errors: 0 }));
            i = i + 1;
        }
        StatsRegistry { entries }
    }

    /// Number of providers held.
    pub fn len(&self) -> (r: usize)
        ensures
            r == self@.len(),
    {
        self.entries.len()
    }

    /// Credits a win that took `elapsed_ms` to the provider at `index`.
    pub fn record_win(&mut self, index: usize, elapsed_ms: u64)
        requires
            index < old(self)@.len(),
        ensures
            final(self)@ == old(self)@.update(index as int, (old(self)@[index as int].0, old(self)@[index as int].1.with_win(elapsed_ms))),
    {
        let (id, s) = self.entries[index];
        let updated = ProviderStats {
            wins: s.wins.saturating_add(1),
            total_latency_ms: s.total_latency_ms.saturating_add(elapsed_ms),
            errors: s.errors,
        };
        self.entries.set(index, (id, updated));
    }

    /// Charges one error to the provider at `index`.
    pub fn record_error(&mut self, index: usize)
        requires
            index < old(self)@.len(),
        ensures
            final(self)@ == old(self)@.update(index as int, (old(self)@[index as int].0, old(self)@[index as int].1.with_errors(1))),
    {
        let (id, s) = self.entries[index];
        let updated = ProviderStats { wins: s.wins, total_latency_ms: s.total_latency_ms, errors: s.errors.saturating_add(1) };
        self.entries.set(index, (id, updated));
    }

    /// The counters of every provider, with their mean winning latency.
    pub fn snapshot(&self) -> (r: Vec<(ProviderId, ProviderStatsSnapshot)>)
        ensures
            r@ == snapshots_of(self@),
    {
        let mut r: Vec<(ProviderId, ProviderStatsSnapshot)> = Vec::new();
        let mut i: usize = 0;
        while i < self.entries.len()
            invariant
                i <= self@.len(),
                r@ == snapshots_of(self@.take(i as int)),
            decreases self@.len() - i,
        {
            let (id, s) = self.entries[i];
            let avg = if s.wins == 0 {
                0
            } else {
                s.total_latency_ms / s.wins
            };
            r.push((id, ProviderStatsSnapshot { wins: s.wins, avg_latency_ms: avg, total_latency_ms: s.total_latency_ms, errors: s.errors }));
            assert(self@.take(i + 1) =~= self@.take(i as int).push(self@[i as int]));
            i = i + 1;
        }
        assert(self@.take(i as int) =~= self@);
        r
    }

    /// Commits the counters of one call that settled as `outcome`: a win to
    /// the winner, one error per failure, or on a timeout one error to each
    /// provider of the prefix.
    pub fn record_outcome<T>(&mut self, outcome: &Settled<T>, elapsed_ms: u64)
        requires
            outcome_fits(*outcome, old(self)@.len()),
        ensures
            final(self)@ == after_outcome(old(self)@, *outcome, elapsed_ms),
    {
        match outcome {
            Settled::Won { index, .. } => {
                self.record_win(*index, elapsed_ms);
            },
            Settled::AllFailed { failures } => {
                let ghost s0 = self@;
                assert(forall|k: int| 0 <= k < failures@.len() ==> (#[trigger] failures@[k]).0 < s0.len());
                let mut j: usize = 0;
                while j < failures.len()
                    invariant
                        j <= failures@.len(),
                        forall|k: int| 0 <= k < failures@.len() ==> (#[trigger] failures@[k]).0 < s0.len(),
                        self@ == after_failures(s0, failures@.take(j as int)),
                    decreases failures@.len() - j,
                {
                    let index = failures[j].0;
                    assert(failures@[j as int].0 < s0.len());
                    self.record_error(index);
                    proof {
                        let f = failures@;
                        assert(f.take(j + 1).drop_last() =~= f.take(j as int));
                        assert forall|i: int| 0 <= i < s0.len() implies #[trigger] failure_count(f.take(j + 1), i as nat)
                            == failure_count(f.take(j as int), i as nat) + if f[j as int].0 == i { 1nat } else { 0nat } by {}
                        assert forall|i: int| 0 <= i < s0.len() implies #[trigger] s0[i].1.with_errors(failure_count(f.take(j + 1), i as nat))
                            == (if i == index { s0[i].1.with_errors(failure_count(f.take(j as int), i as nat)).with_errors(1) } else { s0[i].1.with_errors(failure_count(f.take(j as int), i as nat)) }) by {
                            lemma_sat_add_step(s0[i].1.errors, failure_count(f.take(j as int), i as nat));
                        }
                        assert(self@ =~= after_failures(s0, f.take(j + 1)));
                    }
                    j = j + 1;
                }
                assert(failures@.take(j as int) =~= failures@);
            },
            Settled::TimedOut { selected } => {
                let ghost s0 = self@;
                let mut i: usize = 0;
                while i < *selected
                    invariant
                        i <= *selected <= s0.len(),
                        self@ == after_timeout(s0, i as nat),
                    decreases *selected - i,
                {
                    self.record_error(i);
                    assert(self@ =~= after_timeout(s0, (i + 1) as nat));
                    i = i + 1;
                }
            },
        }
    }
}

/// Every entry of `s` as observers see it.
pub open spec fn snapshots_of(s: Seq<(ProviderId, ProviderStats)>) -> Seq<(ProviderId, ProviderStatsSnapshot)> {
    s.map_values(|p: (ProviderId, ProviderStats)| (p.0, snapshot_of(p.1)))
}

/// A successful call credits exactly one provider, its winner, with one more
/// win and the call's elapsed time; nothing else changes.
pub proof fn lemma_single_win_credit<T>(s: Seq<(ProviderId, ProviderStats)>, index: usize, value: T, elapsed_ms: u64)
    requires
        index < s.len(),
        s[index as int].1.wins < u64::MAX,
        s[index as int].1.total_latency_ms + elapsed_ms <= u64::MAX,
    ensures
        ({
            let after = after_outcome(s, Settled::Won { index, value }, elapsed_ms);
            &&& after.len() == s.len()
            &&& after[index as int].0 == s[index as int].0
            &&& after[index as int].1.wins == s[index as int].1.wins + 1
            &&& after[index as int].1.total_latency_ms == s[index as int].1.total_latency_ms + elapsed_ms
            &&& after[index as int].1.errors == s[index as int].1.errors
            &&& forall|i: int| 0 <= i < s.len() && i != index ==> after[i] == s[i]
        }),
{
}

/// A call that fails on every provider charges one error for each failure,
/// to the provider it came from, and changes no win.
pub proof fn lemma_errors_only_on_failure(s: Seq<(ProviderId, ProviderStats)>, failures: Vec<(usize, TransportError)>)
    requires
        forall|i: int| 0 <= i < s.len() ==> #[trigger] s[i].1.errors + failure_count(failures@, i as nat) <= u64::MAX,
    ensures
        ({
            let after = after_outcome(s, Settled::<()>::AllFailed { failures }, 0);
            &&& after.len() == s.len()
            &&& forall|i: int|
                0 <= i < s.len() ==> {
                    &&& (#[trigger] after[i]).0 == s[i].0
                    &&& after[i].1.errors == s[i].1.errors + failure_count(failures@, i as nat)
                    &&& after[i].1.wins == s[i].1.wins
                    &&& after[i].1.total_latency_ms == s[i].1.total_latency_ms
                }
        }),
{
}

/// A call that times out charges one error to every provider of its prefix
/// of length `min(max_providers, n)`, contacted or not, and changes nothing
/// else.
pub proof fn lemma_timeout_charges_prefix<T>(
    s: Seq<(ProviderId, ProviderStats)>,
    cfg: HedgeConfig,
    race: RaceModel<T>,
    outcome: Settled<T>,
    elapsed_ms: u64,
)
    requires
        race.wf(),
        race.selected == prefix_len(cfg.max_providers as nat, s.len()),
        race.status is TimedOut,
        settled_from(race, outcome),
        forall|i: int| 0 <= i < race.selected ==> #[trigger] s[i].1.errors < u64::MAX,
    ensures
        ({
            let after = after_outcome(s, outcome, elapsed_ms);
            &&& after.len() == s.len()
            &&& forall|i: int|
                0 <= i < s.len() ==> {
                    &&& (#[trigger] after[i]).0 == s[i].0
                    &&& after[i].1.errors == if i < prefix_len(cfg.max_providers as nat, s.len()) {
                        s[i].1.errors + 1
                    } else {
                        s[i].1.errors as int
                    }
                    &&& after[i].1.wins == s[i].1.wins
                    &&& after[i].1.total_latency_ms == s[i].1.total_latency_ms
                }
        }),
{
}

/// Two snapshots of the same counters, with no call in between, are equal.
pub proof fn lemma_snapshot_idempotent(
    reg: StatsRegistry,
    a: Vec<(ProviderId, ProviderStatsSnapshot)>,
    b: Vec<(ProviderId, ProviderStatsSnapshot)>,
)
    requires
        a@ == snapshots_of(reg@),
        b@ == snapshots_of(reg@),
    ensures
        a@ == b@,
{
}

} // verus!

use vstd::prelude::*;

use crate::config::{HedgeConfig, ProviderConfig, ProviderId};
use crate::errors::{HedgedError, TransportError};
use crate::race::{start_model, HedgeRace, Settled};
use crate::stats::{after_outcome, outcome_fits, snapshots_of, ProviderStats, ProviderStatsSnapshot, StatsRegistry};

verus! {

/// An account lookup's answer: the slot it was read at and the account, if any.
#[derive(Debug, Clone, PartialEq, Eq)]
pub struct AccountResponse<V> {
    pub slot: u64,
    pub value: V,
}

/// `r` is `outcome` with the win of a response read before `min_slot` turned
/// into a staleness failure of the winner.
pub open spec fn stale_checked<V>(outcome: Settled<AccountResponse<V>>, min_slot: u64, r: Settled<AccountResponse<V>>) -> bool {
    match outcome {
        Settled::Won { index, value } => if value.slot < min_slot {
            r matches Settled::AllFailed { failures } && failures@ == seq![
                (index, TransportError::StaleResponse { min_slot, got: value.slot }),
            ]
        } else {
            r == outcome
        },
        _ => r == outcome,
    }
}

/// Turns the win of a response read before `min_slot` into a failure of the
/// winner; any other outcome is kept.
pub fn reject_stale<V>(outcome: Settled<AccountResponse<V>>, min_slot: u64) -> (r: Settled<AccountResponse<V>>)
    ensures
        stale_checked(outcome, min_slot, r),
{
    match outcome {
        Settled::Won { index, value } => {
            if value.slot < min_slot {
                let got = value.slot;
                let mut failures: Vec<(usize, TransportError)> = Vec::new();
                failures.push((index, TransportError::StaleResponse { min_slot, got }));
                assert(failures@ =~= seq![(index, TransportError::StaleResponse { min_slot, got })]);
                Settled::AllFailed { failures }
            } else {
                Settled::Won { index, value }
            }
        },
        other => other,
    }
}

/// The failures of a race, with each provider position replaced by its label.
pub open spec fn labelled(ids: Seq<ProviderId>, f: Seq<(usize, TransportError)>) -> Seq<(ProviderId, TransportError)> {
    f.map_values(|p: (usize, TransportError)| (ids[p.0 as int], p.1))
}

/// `r` is what a call that settled as `outcome` returns, over providers
/// labelled `ids` and with a deadline of `timeout_ms`.
pub open spec fn call_result<T>(
    ids: Seq<ProviderId>,
    outcome: Settled<T>,
    timeout_ms: u64,
    r: Result<(ProviderId, T), HedgedError>,
) -> bool {
    match outcome {
        Settled::Won { index, value } => r == Ok::<(ProviderId, T), HedgedError>((ids[index as int], value)),
        Settled::AllFailed { failures } => r matches Err(HedgedError::AllFailed(v)) && v@ == labelled(ids, failures@),
        Settled::TimedOut { .. } => r == Err::<(ProviderId, T), HedgedError>(HedgedError::Timeout(timeout_ms)),
    }
}

/// The verified core of a hedged client: the providers in priority order,
/// the policy, and the statistics of the calls made so far.
pub struct HedgeCore {
    ids: Vec<ProviderId>,
    cfg: HedgeConfig,
    stats: StatsRegistry,
}

impl HedgeCore {
    pub closed spec fn ids(&self) -> Seq<ProviderId> {
        self.ids@
    }

    pub closed spec fn cfg(&self) -> HedgeConfig {
        self.cfg
    }

    pub closed spec fn stats(&self) -> Seq<(ProviderId, ProviderStats)> {
        self.stats@
    }

    /// The statistics hold exactly one entry per provider, in order.
    pub open spec fn wf(&self) -> bool {
        &&& self.stats().len() == self.ids().len()
        &&& forall|i: int| 0 <= i < self.ids().len() ==> (#[trigger] self.stats()[i]).0 == self.ids()[i]
    }

    /// A core over `providers`, in that order, with zeroed statistics.
    pub fn new(providers: &Vec<ProviderConfig>, cfg: HedgeConfig) -> (r: Self)
        ensures
            r.wf(),
            r.ids() == providers@.map_values(|p: ProviderConfig| p.id),
            r.cfg() == cfg,
            forall|i: int| 0 <= i < r.ids().len() ==> (#[trigger] r.stats()[i]).1 == ProviderStats::zero(),
    {
        let mut ids: Vec<ProviderId> = Vec::new();
        let mut i: usize = 0;
        while i < providers.len()
            invariant
                i <= providers@.len(),
                ids@ == providers@.take(i as int).map_values(|p: ProviderConfig| p.id),
            decreases providers@.len() - i,
        {
            ids.push(providers[i].id);
            assert(providers@.take(i + 1) =~= providers@.take(i as int).push(providers@[i as int]));
            assert(ids@ =~= providers@.take(i + 1).map_values(|p: ProviderConfig| p.id));
            i = i + 1;
        }
        assert(providers@.take(i as int) =~= providers@);
        let stats = StatsRegistry::new(&ids);
        HedgeCore { ids, cfg, stats }
    }

    /// The labels of the providers, in priority order.
    pub fn provider_ids(&self) -> (r: &Vec<ProviderId>)
        ensures
            r@ == self.ids(),
    {
        &self.ids
    }

    /// The policy.
    pub fn config(&self) -> (r: HedgeConfig)
        ensures
            r == self.cfg(),
    {
        self.cfg
    }

    /// The counters of every provider, in priority order.
    pub fn provider_stats(&self) -> (r: Vec<(ProviderId, ProviderStatsSnapshot)>)
        ensures
            r@ == snapshots_of(self.stats()),
    {
        self.stats.snapshot()
    }

    /// Starts the race of one call, or fails with `NoProviders` when the call
    /// may consult no provider.
    pub fn begin_call<T>(&self) -> (r: Result<HedgeRace<T>, HedgedError>)
        ensures
            r is Err <==> (self.ids().len() == 0 || self.cfg().max_providers == 0),
            r matches Err(e) ==> e == HedgedError::NoProviders,
            r matches Ok(race) ==> race@ == start_model::<T>(self.ids().len(), self.cfg()) && race@.wf(),
    {
        match HedgeRace::begin(self.ids.len(), &self.cfg) {
            Some(race) => Ok(race),
            None => Err(HedgedError::NoProviders),
        }
    }

    /// Commits the statistics of a call that settled as `outcome`,
    /// `elapsed_ms` after it started, and gives the call's result.
    ///
    /// A win credits the winner alone; a call that failed everywhere charges
    /// one error per failure; a timeout charges one error to every provider
    /// of the prefix, whether it was contacted or not, so that unreachable
    /// providers show up in the counts.
    pub fn finish_call<T>(&mut self, outcome: Settled<T>, elapsed_ms: u64) -> (r: Result<(ProviderId, T), HedgedError>)
        requires
            old(self).wf(),
            outcome_fits(outcome, old(self).ids().len()),
        ensures
            final(self).wf(),
            final(self).ids() == old(self).ids(),
            final(self).cfg() == old(self).cfg(),
            final(self).stats() == after_outcome(old(self).stats(), outcome, elapsed_ms),
            call_result(old(self).ids(), outcome, old(self).cfg().overall_timeout_ms, r),
    {
        self.stats.record_outcome(&outcome, elapsed_ms);
        assert(self.stats().len() == self.ids().len());
        match outcome {
            Settled::Won { index, value } => Ok((self.ids[index], value)),
            Settled::AllFailed { failures } => {
                let ghost f = failures@;
                let mut rest = failures;
                let n = rest.len();
                let mut out: Vec<(ProviderId, TransportError)> = Vec::new();
                let mut k: usize = 0;
                while rest.len() > 0
                    invariant
                        k + rest@.len() == f.len(),
                        f.len() == n,
                        rest@ == f.skip(k as int),
                        out@ == labelled(self.ids(), f.take(k as int)),
                        forall|j: int| 0 <= j < f.len() ==> (#[trigger] f[j]).0 < self.ids@.len(),
                    decreases rest@.len(),
                {
                    let (index, e) = rest.remove(0);
                    assert(f[k as int] == (index, e));
                    out.push((self.ids[index], e));
                    assert(f.take(k + 1) =~= f.take(k as int).push(f[k as int]));
                    assert(out@ =~= labelled(self.ids(), f.take(k + 1)));
                    assert(rest@ =~= f.skip(k + 1));
                    k = k + 1;
                }
                assert(f.take(k as int) =~= f);
                Err(HedgedError::AllFailed(out))
            },
            Settled::TimedOut { .. } => Err(HedgedError::Timeout(self.cfg.overall_timeout_ms)),
        }
    }
}

/// The value of a call's result without the winner's label.
pub fn without_provider<T>(r: Result<(ProviderId, T), HedgedError>) -> (out: Result<T, HedgedError>)
    ensures
        match r {
            Ok((_, v)) => out == Ok::<T, HedgedError>(v),
            Err(e) => out == Err::<T, HedgedError>(e),
        },
{
    match r {
        Ok((_, v)) => Ok(v),
        Err(e) => Err(e),
    }
}

/// A freshness-checked lookup that succeeds returns a response read at
/// `min_slot` or later.
pub proof fn lemma_fresh_meets_floor<V>(
    ids: Seq<ProviderId>,
    outcome: Settled<AccountResponse<V>>,
    checked: Settled<AccountResponse<V>>,
    min_slot: u64,
    timeout_ms: u64,
    r: Result<(ProviderId, AccountResponse<V>), HedgedError>,
)
    requires
        stale_checked(outcome, min_slot, checked),
        call_result(ids, checked, timeout_ms, r),
    ensures
        r matches Ok((_, resp)) ==> resp.slot >= min_slot,
{
}

} // verus!

use vstd::prelude::*;

use crate::config::{prefix_len, wave_len, HedgeConfig};
use crate::errors::TransportError;

verus! {

/// What the driver of a race reports to it.
pub enum RaceEvent<T> {
    /// The attempt on the provider at `index` returned `result`.
    Finished { index: usize, result: Result<T, TransportError> },
    /// A wake-up at which no attempt returned.
    Tick,
}

/// What the driver of a race must do next.
#[derive(Debug, Clone, Copy, PartialEq, Eq)]
pub enum RaceAction {
    /// Contact the providers at positions `from..to`.
    Launch { from: usize, to: usize },
    /// Wait for an attempt to return or for the next wake-up time.
    Wait,
    /// The race is over; drop every attempt still running.
    Stop,
}

/// Where a race stands.
pub enum RaceStatus<T> {
    Racing,
    /// The attempt on the provider at `index` succeeded first.
    Won { index: usize, value: T },
    /// Every provider of the prefix was contacted and every one failed.
    Exhausted,
    /// The deadline passed with no winner.
    TimedOut,
}

/// The end of a race, as the statistics and the caller take it.
pub enum Settled<T> {
    Won { index: usize, value: T },
    /// Failures in the order they arrived, by provider position.
    AllFailed { failures: Vec<(usize, TransportError)> },
    /// The deadline passed; `selected` providers formed the prefix.
    TimedOut { selected: usize },
}

/// The state of one race, with times in milliseconds since its start.
pub struct RaceModel<T> {
    /// Length of the prefix of providers that the call may contact.
    pub selected: nat,
    /// Size of the initial wave.
    pub initial: nat,
    /// Providers contacted so far: always the first `launched` ones.
    pub launched: nat,
    pub hedge_after_ms: nat,
    pub deadline_ms: nat,
    /// Which attempts have returned, by position.
    pub done: Seq<bool>,
    /// Failed attempts, in the order they returned.
    pub failures: Seq<(usize, TransportError)>,
    pub status: RaceStatus<T>,
}

impl<T> RaceModel<T> {
    pub open spec fn wf(self) -> bool {
        &&& 1 <= self.initial <= self.selected <= usize::MAX
        &&& self.launched == self.initial || self.launched == self.selected
        &&& self.done.len() == self.selected
        &&& forall|i: int| 0 <= i < self.selected && #[trigger] self.done[i] ==> i < self.launched
        &&& forall|j: int|
            0 <= j < self.failures.len() ==> {
                &&& (#[trigger] self.failures[j]).0 < self.launched
                &&& self.done[self.failures[j].0 as int]
            }
        &&& forall|j: int, k: int|
            0 <= j < k < self.failures.len() ==> (#[trigger] self.failures[j]).0 != (#[trigger] self.failures[k]).0
        &&& match self.status {
            RaceStatus::Won { index, .. } => index < self.launched,
            RaceStatus::Exhausted => self.launched == self.selected && self.failures.len() == self.launched,
            _ => true,
        }
    }

    /// Whether the reserve, the providers after the initial wave, has been contacted.
    pub open spec fn hedged(self) -> bool {
        self.launched == self.selected
    }

    /// The state after the attempt named by `ev`, if any, returned.
    pub open spec fn absorb(self, ev: RaceEvent<T>) -> RaceModel<T> {
        match ev {
            RaceEvent::Finished { index, result } => {
                if index < self.launched && !self.done[index as int] {
                    match result {
                        Ok(v) => RaceModel {
                            done: self.done.update(index as int, true),
                            status: RaceStatus::Won { index, value: v },
                            ..self
                        },
                        Err(e) => RaceModel {
                            done: self.done.update(index as int, true),
                            failures: self.failures.push((index, e)),
                            ..self
                        },
                    }
                } else {
                    self
                }
            },
            RaceEvent::Tick => self,
        }
    }

    /// One step of a race still going: the deadline first, then the event,
    /// then the hedge, then exhaustion.
    pub open spec fn step(self, ev: RaceEvent<T>, now_ms: nat) -> (RaceModel<T>, RaceAction) {
        if now_ms >= self.deadline_ms {
            (RaceModel { status: RaceStatus::TimedOut, ..self }, RaceAction::Stop)
        } else {
            let m = self.absorb(ev);
            if m.status is Won {
                (m, RaceAction::Stop)
            } else if m.launched < m.selected && now_ms >= m.hedge_after_ms {
                (
                    RaceModel { launched: m.selected, ..m },
                    RaceAction::Launch { from: m.launched as usize, to: m.selected as usize },
                )
            } else if m.launched == m.selected && m.failures.len() == m.launched {
                (RaceModel { status: RaceStatus::Exhausted, ..m }, RaceAction::Stop)
            } else {
                (m, RaceAction::Wait)
            }
        }
    }
}

/// The race of a call over `n` providers under `cfg`, just after its initial
/// wave was contacted.
pub open spec fn start_model<T>(n: nat, cfg: HedgeConfig) -> RaceModel<T> {
    let selected = prefix_len(cfg.max_providers as nat, n);
    let initial = wave_len(cfg.initial_providers as nat, selected);
    RaceModel {
        selected,
        initial,
        launched: initial,
        hedge_after_ms: cfg.hedge_after_ms as nat,
        deadline_ms: cfg.overall_timeout_ms as nat,
        done: Seq::new(selected, |i: int| false),
        failures: Seq::empty(),
        status: RaceStatus::Racing,
    }
}

/// The decisions of one hedged call: which providers to contact and when,
/// and how the call ends.
pub struct HedgeRace<T> {
    selected: usize,
    initial: usize,
    launched: usize,
    hedge_after_ms: u64,
    deadline_ms: u64,
    done: Vec<bool>,
    failures: Vec<(usize, TransportError)>,
    status: RaceStatus<T>,
}

impl<T> View for HedgeRace<T> {
    type V = RaceModel<T>;

    closed spec fn view(&self) -> RaceModel<T> {
        RaceModel {
            selected: self.selected as nat,
            initial: self.initial as nat,
            launched: self.launched as nat,
            hedge_after_ms: self.hedge_after_ms as nat,
            deadline_ms: self.deadline_ms as nat,
            done: self.done@,
            failures: self.failures@,
            status: self.status,
        }
    }
}

impl<T> HedgeRace<T> {
    /// Starts the race of a call over `provider_count` providers: `None` when
    /// the call may consult no provider. The driver then contacts the first
    /// `launched()` providers.
    pub fn begin(provider_count: usize, cfg: &HedgeConfig) -> (r: Option<Self>)
        ensures
            r is None <==> (provider_count == 0 || cfg.max_providers == 0),
            r matches Some(race) ==> race@ == start_model::<T>(provider_count as nat, *cfg) && race@.wf(),
    {
        let selected = if cfg.max_providers < provider_count {
            cfg.max_providers
        } else {
            provider_count
        };
        if selected == 0 {
            return None;
        }
        let initial = if cfg.initial_providers < 1 {
            1
        } else if cfg.initial_providers > selected {
            selected
        } else {
            cfg.initial_providers
        };
        let mut done: Vec<bool> = Vec::new();
        let mut i: usize = 0;
        while i < selected
            invariant
                i <= selected,
                done@ == Seq::new(i as nat, |k: int| false),
            decreases selected - i,
        {
            done.push(false);
            assert(done@ =~= Seq::new((i + 1) as nat, |k: int| false));
            i = i + 1;
        }
        let race = HedgeRace {
            selected,
            initial,
            launched: initial,
            hedge_after_ms: cfg.hedge_after_ms,
            deadline_ms: cfg.overall_timeout_ms,
            done,
            failures: Vec::new(),
            status: RaceStatus::Racing,
        };
        assert(race@.failures =~= Seq::<(usize, TransportError)>::empty());
        Some(race)
    }

    /// Providers contacted so far: the first `launched()` of the prefix.
    pub fn launched(&self) -> (r: usize)
        ensures
            r == self@.launched,
    {
        self.launched
    }

    /// Length of the prefix of providers that this call may contact.
    pub fn selected(&self) -> (r: usize)
        ensures
            r == self@.selected,
    {
        self.selected
    }

    /// Whether the race has ended.
    pub fn is_over(&self) -> (r: bool)
        ensures
            r == !(self@.status is Racing),
    {
        !matches!(self.status, RaceStatus::Racing)
    }

    /// Time, in milliseconds since the start, at which the driver must wake
    /// the race with a `Tick` if nothing returned before: the hedge while it
    /// is pending and due before the deadline, else the deadline.
    pub fn next_wake_ms(&self) -> (r: u64)
        ensures
            r == if self@.launched < self@.selected && self@.hedge_after_ms < self@.deadline_ms {
                self@.hedge_after_ms
            } else {
                self@.deadline_ms
            },
    {
        if self.launched < self.selected && self.hedge_after_ms < self.deadline_ms {
            self.hedge_after_ms
        } else {
            self.deadline_ms
        }
    }

    /// Takes in what happened at `now_ms` milliseconds after the start and
    /// says what the driver must do.
    pub fn step(&mut self, ev: RaceEvent<T>, now_ms: u64) -> (r: RaceAction)
        requires
            old(self)@.wf(),
            old(self)@.status is Racing,
        ensures
            (final(self)@, r) == old(self)@.step(ev, now_ms as nat),
            final(self)@.wf(),
    {
        let ghost m0 = self@;
        if now_ms >= self.deadline_ms {
            self.status = RaceStatus::TimedOut;
            return RaceAction::Stop;
        }
        match ev {
            RaceEvent::Finished { index, result } => {
                if index < self.launched && !self.done[index] {
                    self.done.set(index, true);
                    match result {
                        Ok(v) => {
                            self.status = RaceStatus::Won { index, value: v };
                            return RaceAction::Stop;
                        },
                        Err(e) => {
                            proof {
                                assert forall|j: int| 0 <= j < m0.failures.len() implies m0.failures[j].0 != index by {
                                    assert(m0.done[m0.failures[j].0 as int]);
                                }
                            }
                            self.failures.push((index, e));
                        },
                    }
                }
            },
            RaceEvent::Tick => {},
        }
        assert(self@ == m0.absorb(ev));
        if self.launched < self.selected && now_ms >= self.hedge_after_ms {
            let from = self.launched;
            self.launched = self.selected;
            RaceAction::Launch { from, to: self.selected }
        } else if self.launched == self.selected && self.failures.len() == self.launched {
            self.status = RaceStatus::Exhausted;
            RaceAction::Stop
        } else {
            RaceAction::Wait
        }
    }

    /// The end of a race that is over.
    pub fn settle(self) -> (r: Settled<T>)
        requires
            self@.wf(),
            !(self@.status is Racing),
        ensures
            settled_from(self@, r),
    {
        match self.status {
            RaceStatus::Won { index, value } => Settled::Won { index, value },
            RaceStatus::Exhausted => Settled::AllFailed { failures: self.failures },
            _ => Settled::TimedOut { selected: self.selected },
        }
    }
}

/// `s` is how the race that ended in state `m` settles.
pub open spec fn settled_from<T>(m: RaceModel<T>, s: Settled<T>) -> bool {
    match m.status {
        RaceStatus::Won { index, value } => s == (Settled::Won { index, value }),
        RaceStatus::Exhausted => s matches Settled::AllFailed { failures } && failures@ == m.failures,
        _ => s == (Settled::<T>::TimedOut { selected: m.selected as usize }),
    }
}

/// A call contacts no provider outside its prefix of length
/// `min(max_providers, n)`: the initial wave lies in it, and every later
/// launch contacts positions from the end of what was launched up to the end
/// of the prefix, never past it.
pub proof fn lemma_prefix_respected<T>(n: nat, cfg: HedgeConfig, m: RaceModel<T>, ev: RaceEvent<T>, now_ms: nat)
    requires
        m.wf(),
        m.selected == prefix_len(cfg.max_providers as nat, n),
    ensures
        start_model::<T>(n, cfg).selected == prefix_len(cfg.max_providers as nat, n),
        start_model::<T>(n, cfg).launched <= prefix_len(cfg.max_providers as nat, n),
        m.step(ev, now_ms).0.selected == m.selected,
        m.step(ev, now_ms).0.launched <= prefix_len(cfg.max_providers as nat, n),
        m.step(ev, now_ms).1 matches RaceAction::Launch { from, to } ==> m.launched <= from && to
            == prefix_len(cfg.max_providers as nat, n),
{
}

/// The reserve is contacted only once the hedge delay has passed, and before
/// the deadline: a step that launches providers happens at a time no earlier
/// than `hedge_after_ms`, and what it launches starts right after the
/// initial wave.
pub proof fn lemma_hedge_not_early<T>(m: RaceModel<T>, ev: RaceEvent<T>, now_ms: nat)
    requires
        m.wf(),
    ensures
        m.step(ev, now_ms).1 matches RaceAction::Launch { from, to } ==> {
            &&& m.hedge_after_ms <= now_ms < m.deadline_ms
            &&& from == m.initial
            &&& to == m.selected
            &&& m.initial < m.selected
        },
{
}

/// An initial wave larger than the prefix is taken as the whole prefix: the
/// race is the one with `initial_providers` set to the prefix length, all of
/// the prefix is contacted at once, and no step launches anything more.
pub proof fn lemma_initial_clamped<T>(n: nat, cfg: HedgeConfig, ev: RaceEvent<T>, now_ms: nat)
    requires
        cfg.initial_providers as nat >= prefix_len(cfg.max_providers as nat, n),
        prefix_len(cfg.max_providers as nat, n) >= 1,
    ensures
        ({
            let clamped = HedgeConfig { initial_providers: prefix_len(cfg.max_providers as nat, n) as usize, ..cfg };
            start_model::<T>(n, cfg) == start_model::<T>(n, clamped)
        }),
        start_model::<T>(n, cfg).launched == start_model::<T>(n, cfg).selected,
        !(start_model::<T>(n, cfg).step(ev, now_ms).1 is Launch),
{
}

/// With no hedge delay and a non-empty reserve, the first step after the
/// initial wave launches the whole reserve, unless that step is a win or
/// comes at the deadline.
pub proof fn lemma_zero_delay_hedges_at_once<T>(n: nat, cfg: HedgeConfig, ev: RaceEvent<T>, now_ms: nat)
    requires
        cfg.hedge_after_ms == 0,
        start_model::<T>(n, cfg).launched < start_model::<T>(n, cfg).selected,
        now_ms < cfg.overall_timeout_ms,
        !(start_model::<T>(n, cfg).absorb(ev).status is Won),
    ensures
        start_model::<T>(n, cfg).step(ev, now_ms).1 == (RaceAction::Launch {
            from: start_model::<T>(n, cfg).initial as usize,
            to: start_model::<T>(n, cfg).selected as usize,
        }),
{
}

} // verus!

use vstd::prelude::*;

use crate::config::ProviderId;

verus! {

/// How a dashboard call is made.
#[derive(Debug, Clone, Copy, PartialEq, Eq, Structural)]
pub enum Mode {
    /// Race several providers.
    Hedged,
    /// Ask the selected provider alone.
    SingleProvider,
}

/// Which RPC a dashboard call makes.
#[derive(Debug, Clone, Copy, PartialEq, Eq, Structural)]
pub enum Method {
    LatestBlockhash,
    GetAccount,
}

/// Fewest and most calls a batch may hold, and the step between sizes.
pub const MIN_BATCH: usize = 10;
pub const MAX_BATCH: usize = 1000;
pub const BATCH_STEP: usize = 10;

/// The interactive state of a dashboard over a hedged client: which provider
/// is selected, how calls are made, the batch in progress and the call totals.
#[derive(Debug, Clone)]
pub struct App {
    pub provider_ids: Vec<ProviderId>,
    /// Position of the selected provider; 0 when there is none.
    pub selected_idx: usize,
    pub mode: Mode,
    pub method: Method,
    pub batch_mode: bool,
    /// Calls a batch makes.
    pub batch_count: usize,
    /// Calls of the running batch made so far.
    pub batch_current: usize,
    /// Providers a hedged call races.
    pub provider_count: usize,
    pub total_calls: u64,
    pub total_successes: u64,
    pub total_errors: u64,
}

impl App {
    pub open spec fn wf(&self) -> bool {
        &&& self.provider_ids@.len() == 0 ==> self.selected_idx == 0
        &&& self.provider_ids@.len() > 0 ==> self.selected_idx < self.provider_ids@.len()
        &&& MIN_BATCH <= self.batch_count <= MAX_BATCH
    }

    /// A fresh dashboard: first provider selected, hedged account lookups,
    /// all providers raced, no batch running, batches of ten calls.
    pub fn new(provider_ids: Vec<ProviderId>) -> (r: Self)
        ensures
            r.wf(),
            r.provider_ids@ == provider_ids@,
            r.selected_idx == 0,
            r.mode == Mode::Hedged,
            r.method == Method::GetAccount,
            !r.batch_mode,
            r.batch_count == MIN_BATCH,
            r.batch_current == 0,
            r.provider_count == provider_ids@.len(),
            r.total_calls == 0 && r.total_successes == 0 && r.total_errors == 0,
    {
        let provider_count = provider_ids.len();
        App {
            provider_ids,
            selected_idx: 0,
            mode: Mode::Hedged,
            method: Method::GetAccount,
            batch_mode: false,
            batch_count: MIN_BATCH,
            batch_current: 0,
            provider_count,
            total_calls: 0,
            total_successes: 0,
            total_errors: 0,
        }
    }

    /// Selects the next provider, wrapping round to the first.
    pub fn next_provider(&mut self)
        requires
            old(self).wf(),
        ensures
            final(self).wf(),
            *final(self) == (App {
                selected_idx: if old(self).provider_ids@.len() == 0 {
                    0
                } else {
                    ((old(self).selected_idx + 1) % old(self).provider_ids@.len() as int) as usize
                },
                ..*old(self)
            }),
    {
        if self.provider_ids.len() > 0 {
            self.selected_idx = (self.selected_idx + 1) % self.provider_ids.len();
        }
    }

    /// Selects the previous provider, wrapping round to the last.
    pub fn prev_provider(&mut self)
        requires
            old(self).wf(),
        ensures
            final(self).wf(),
            *final(self) == (App {
                selected_idx: if old(self).provider_ids@.len() == 0 {
                    0
                } else if old(self).selected_idx == 0 {
                    (old(self).provider_ids@.len() - 1) as usize
                } else {
                    (old(self).selected_idx - 1) as usize
                },
                ..*old(self)
            }),
    {
        if self.provider_ids.len() > 0 {
            if self.selected_idx == 0 {
                self.selected_idx = self.provider_ids.len() - 1;
            } else {
                self.selected_idx = self.selected_idx - 1;
            }
        }
    }

    /// Races one more provider, up to all of them.
    pub fn increase_provider_count(&mut self)
        requires
            old(self).wf(),
        ensures
            final(self).wf(),
            *final(self) == (App {
                provider_count: if old(self).provider_count < old(self).provider_ids@.len() {
                    (old(self).provider_count + 1) as usize
                } else {
                    old(self).provider_count
                },
                ..*old(self)
            }),
    {
        if self.provider_count < self.provider_ids.len() {
            self.provider_count = self.provider_count + 1;
        }
    }

    /// Races one provider fewer, down to one.
    pub fn decrease_provider_count(&mut self)
        requires
            old(self).wf(),
        ensures
            final(self).wf(),
            *final(self) == (App {
                provider_count: if old(self).provider_count > 1 {
                    (old(self).provider_count - 1) as usize
                } else {
                    old(self).provider_count
                },
                ..*old(self)
            }),
    {
        if self.provider_count > 1 {
            self.provider_count = self.provider_count - 1;
        }
    }

    /// Switches between hedged and single-provider calls.
    pub fn toggle_mode(&mut self)
        requires
            old(self).wf(),
        ensures
            final(self).wf(),
            *final(self) == (App {
                mode: if old(self).mode == Mode::Hedged {
                    Mode::SingleProvider
                } else {
                    Mode::Hedged
                },
                ..*old(self)
            }),
    {
        self.mode = match self.mode {
            Mode::Hedged => Mode::SingleProvider,
            Mode::SingleProvider => Mode::Hedged,
        };
    }

    /// Switches between the two RPC methods.
    pub fn toggle_method(&mut self)
        requires
            old(self).wf(),
        ensures
            final(self).wf(),
            *final(self) == (App {
                method: if old(self).method == Method::LatestBlockhash {
                    Method::GetAccount
                } else {
                    Method::LatestBlockhash
                },
                ..*old(self)
            }),
    {
        self.method = match self.method {
            Method::LatestBlockhash => Method::GetAccount,
            Method::GetAccount => Method::LatestBlockhash,
        };
    }

    /// Starts or stops a batch; a started batch counts from zero. Returns
    /// whether a batch is now running.
    pub fn toggle_batch_mode(&mut self) -> (r: bool)
        requires
            old(self).wf(),
        ensures
            final(self).wf(),
            r == !old(self).batch_mode,
            *final(self) == (App {
                batch_mode: r,
                batch_current: if r {
                    0
                } else {
                    old(self).batch_current
                },
                ..*old(self)
            }),
    {
        self.batch_mode = !self.batch_mode;
        if self.batch_mode {
            self.batch_current = 0;
        }
        self.batch_mode
    }

    /// Makes batches ten calls longer, up to a thousand.
    pub fn increase_batch_count(&mut self)
        requires
            old(self).wf(),
        ensures
            final(self).wf(),
            *final(self) == (App {
                batch_count: if old(self).batch_count + BATCH_STEP > MAX_BATCH {
                    MAX_BATCH
                } else {
                    (old(self).batch_count + BATCH_STEP) as usize
                },
                ..*old(self)
            }),
    {
        let raised = self.batch_count + BATCH_STEP;
        self.batch_count = if raised > MAX_BATCH {
            MAX_BATCH
        } else {
            raised
        };
    }

    /// Makes batches ten calls shorter, down to ten.
    pub fn decrease_batch_count(&mut self)
        requires
            old(self).wf(),
        ensures
            final(self).wf(),
            *final(self) == (App {
                batch_count: if old(self).batch_count < MIN_BATCH + BATCH_STEP {
                    MIN_BATCH
                } else {
                    (old(self).batch_count - BATCH_STEP) as usize
                },
                ..*old(self)
            }),
    {
        let lowered = self.batch_count.saturating_sub(BATCH_STEP);
        self.batch_count = if lowered < MIN_BATCH {
            MIN_BATCH
        } else {
            lowered
        };
    }

    /// Whether the running batch still has a call to make.
    pub fn should_run_call(&self) -> (r: bool)
        ensures
            r == (self.batch_mode && self.batch_current < self.batch_count),
    {
        self.batch_mode && self.batch_current < self.batch_count
    }

    /// The label of the selected provider, if there is one.
    pub fn selected_provider_id(&self) -> (r: Option<ProviderId>)
        ensures
            r == if self.selected_idx < self.provider_ids@.len() {
                Some(self.provider_ids@[self.selected_idx as int])
            } else {
                None::<ProviderId>
            },
    {
        if self.selected_idx < self.provider_ids.len() {
            Some(self.provider_ids[self.selected_idx])
        } else {
            None
        }
    }

    /// Counts a finished call, and a step of the running batch, if any.
    /// Returns whether that call completed the batch, which then stops.
    pub fn record_call(&mut self, ok: bool) -> (r: bool)
        requires
            old(self).wf(),
        ensures
            final(self).wf(),
            r == (old(self).batch_mode && old(self).batch_current + 1 >= old(self).batch_count),
            final(self).total_calls == sat_inc(old(self).total_calls),
            final(self).total_successes == if ok { sat_inc(old(self).total_successes) } else { old(self).total_successes },
            final(self).total_errors == if ok { old(self).total_errors } else { sat_inc(old(self).total_errors) },
            final(self).batch_current == if old(self).batch_mode {
                sat_inc_usize(old(self).batch_current)
            } else {
                old(self).batch_current
            },
            final(self).batch_mode == (old(self).batch_mode && !r),
            final(self).provider_ids == old(self).provider_ids,
            final(self).selected_idx == old(self).selected_idx,
            final(self).mode == old(self).mode,
            final(self).method == old(self).method,
            final(self).batch_count == old(self).batch_count,
            final(self).provider_count == old(self).provider_count,
    {
        self.total_calls = self.total_calls.saturating_add(1);
        if ok {
            self.total_successes = self.total_successes.saturating_add(1);
        } else {
            self.total_errors = self.total_errors.saturating_add(1);
        }
        let mut finished = false;
        if self.batch_mode {
            self.batch_current = self.batch_current.saturating_add(1);
            if self.batch_current >= self.batch_count {
                self.batch_mode = false;
                finished = true;
            }
        }
        finished
    }
}

/// `n + 1`, held at `u64::MAX`.
pub open spec fn sat_inc(n: u64) -> u64 {
    if n == u64::MAX {
        n
    } else {
        (n + 1) as u64
    }
}

/// `n + 1`, held at `usize::MAX`.
pub open spec fn sat_inc_usize(n: usize) -> usize {
    if n == usize::MAX {
        n
    } else {
        (n + 1) as usize
    }
}

} // verus!

//! Per-callback coordination.
//!
//! The audio capture subsystem hands the surrounding program one chunk of
//! samples per callback. The program drives one `Orchestrator` through a
//! fixed cycle: `begin_buffer` absorbs the chunk, then `poll_window` is
//! called until it stops yielding windows — each yielded window is
//! transformed outside (the floating-point spectral transform the pipeline
//! treats as an external capability) and its magnitudes handed back to
//! `complete_cycle`, whose frame, if any, is written to the device and the
//! outcome reported through `record_send`. A callback runs at most
//! `MAX_CATCHUP` analysis cycles; any backlog beyond that is dropped so the
//! audio thread is never stalled.

use vstd::prelude::*;

use crate::analyzer::{bin_value, SpectrumAnalyzer};
use crate::config::{HALF_SPECTRUM, MAX_CATCHUP, SPECTRUM_BINS, UPDATE_FRAMES, WINDOW_SIZE};
use crate::frame::frame_bytes;
use crate::link::LedFrameEncoder;
use crate::window::{absorb, WindowBuffer};

verus! {

/// What one poll of the orchestrator asks the caller to do.
pub enum PollOutcome {
    /// A full window with a due update: transform it and hand the
    /// magnitudes to `complete_cycle`.
    Analyze(Vec<i32>),
    /// The catch-up budget is spent; the excess backlog was dropped. The
    /// caller should log a warning and stop polling for this callback.
    BacklogDropped,
    /// Nothing is due; stop polling for this callback.
    Idle,
}

/// Owns the window buffer, the analyzer and the link state, and paces
/// analysis cycles against the incoming sample stream.
pub struct Orchestrator {
    window: WindowBuffer,
    analyzer: SpectrumAnalyzer,
    encoder: LedFrameEncoder,
    /// Analysis cycles left in the current callback.
    budget: u8,
    /// Completed analysis cycles over the whole run (saturating).
    cycles: u64,
    /// The most recently computed output spectrum, kept as an observable
    /// hook: analysis runs and updates it even while sends are suppressed.
    latest: Vec<u16>,
}

impl Orchestrator {
    /// The current window contents, oldest sample first.
    pub closed spec fn window_view(self) -> Seq<i32> {
        self.window.window()
    }

    /// Samples ever absorbed.
    pub closed spec fn samples_seen(self) -> nat {
        self.window.total()
    }

    /// Fresh samples pending since the last analysis cycle.
    pub closed spec fn pending_fresh(self) -> nat {
        self.window.fresh_count()
    }

    /// Fresh samples ever dropped as excess backlog.
    pub closed spec fn dropped_samples(self) -> nat {
        self.window.dropped_samples()
    }

    /// Completed analysis cycles.
    pub closed spec fn cycles_done(self) -> nat {
        self.cycles as nat
    }

    /// Analysis cycles left in the current callback.
    pub closed spec fn budget_left(self) -> nat {
        self.budget as nat
    }

    /// The most recently computed output spectrum.
    pub closed spec fn last_bins(self) -> Seq<u16> {
        self.latest@
    }

    /// The link is in degraded mode.
    pub closed spec fn link_degraded(self) -> bool {
        self.encoder.is_degraded()
    }

    /// Cycles left before the next reconnect attempt.
    pub closed spec fn retry_cooldown(self) -> nat {
        self.encoder.cooldown_cycles()
    }

    /// An analysis cycle is due: the window is full and at least one update
    /// interval of fresh samples is pending.
    pub open spec fn analysis_due(self) -> bool {
        self.window_view().len() == WINDOW_SIZE as nat && self.pending_fresh()
            >= UPDATE_FRAMES as nat
    }

    /// Internal consistency, including the tie between the cycle counter
    /// and the window buffer's consumed update intervals.
    pub closed spec fn wf(self) -> bool {
        &&& self.window.wf()
        &&& self.budget as nat <= MAX_CATCHUP as nat
        &&& self.cycles as nat <= self.window.consumed_updates()
        &&& (self.samples_seen() <= u64::MAX as nat ==> self.cycles as nat
            == self.window.consumed_updates())
        &&& (self.latest@.len() == 0 || self.latest@.len() == SPECTRUM_BINS as nat)
    }

    /// A fresh pipeline: empty window, healthy link, no cycles run.
    pub fn new() -> (o: Orchestrator)
        ensures
            o.wf(),
            o.window_view() == Seq::<i32>::empty(),
            o.samples_seen() == 0,
            o.pending_fresh() == 0,
            o.dropped_samples() == 0,
            o.cycles_done() == 0,
            o.last_bins() == Seq::<u16>::empty(),
            !o.link_degraded(),
            o.retry_cooldown() == 0,
    {
        Orchestrator {
            window: WindowBuffer::new(),
            analyzer: SpectrumAnalyzer::new(),
            encoder: LedFrameEncoder::new(),
            budget: MAX_CATCHUP,
            cycles: 0,
            latest: Vec::new(),
        }
    }

    /// Absorbs one callback's chunk and resets the catch-up budget. Always
    /// succeeds; the window keeps the most recent `WINDOW_SIZE` samples.
    pub fn begin_buffer(&mut self, samples: &Vec<i32>)
        requires
            old(self).wf(),
        ensures
            final(self).wf(),
            final(self).window_view() == absorb(old(self).window_view(), samples@),
            final(self).samples_seen() == old(self).samples_seen() + samples@.len(),
            final(self).pending_fresh() == if old(self).pending_fresh() + samples@.len()
                <= u64::MAX as nat {
                old(self).pending_fresh() + samples@.len()
            } else {
                u64::MAX as nat
            },
            final(self).dropped_samples() == old(self).dropped_samples(),
            final(self).cycles_done() == old(self).cycles_done(),
            final(self).budget_left() == MAX_CATCHUP as nat,
            final(self).last_bins() == old(self).last_bins(),
            final(self).link_degraded() == old(self).link_degraded(),
            final(self).retry_cooldown() == old(self).retry_cooldown(),
    {
        self.window.push(samples);
        self.budget = MAX_CATCHUP;
    }

    /// Asks whether an analysis cycle should run now. Yields the window to
    /// transform while one is due and budget remains; drops excess backlog
    /// once the budget is spent; reports quiet otherwise.
    pub fn poll_window(&mut self) -> (r: PollOutcome)
        requires
            old(self).wf(),
        ensures
            final(self).wf(),
            final(self).window_view() == old(self).window_view(),
            final(self).samples_seen() == old(self).samples_seen(),
            final(self).last_bins() == old(self).last_bins(),
            final(self).link_degraded() == old(self).link_degraded(),
            final(self).retry_cooldown() == old(self).retry_cooldown(),
            old(self).analysis_due() && old(self).budget_left() > 0 ==> {
                &&& r matches PollOutcome::Analyze(w) && w@ == old(self).window_view()
                &&& final(self).pending_fresh() == old(self).pending_fresh()
                    - UPDATE_FRAMES as nat
                &&& final(self).budget_left() == old(self).budget_left() - 1
                &&& final(self).dropped_samples() == old(self).dropped_samples()
                &&& final(self).cycles_done() == if old(self).cycles_done() < u64::MAX as nat {
                    old(self).cycles_done() + 1
                } else {
                    old(self).cycles_done()
                }
            },
            old(self).analysis_due() && old(self).budget_left() == 0 ==> {
                &&& r is BacklogDropped
                &&& final(self).pending_fresh() == old(self).pending_fresh() % (
                UPDATE_FRAMES as nat)
                &&& final(self).dropped_samples() == old(self).dropped_samples() + (old(
                    self,
                ).pending_fresh() - old(self).pending_fresh() % (UPDATE_FRAMES as nat))
                &&& final(self).budget_left() == 0
                &&& final(self).cycles_done() == old(self).cycles_done()
            },
            !old(self).analysis_due() ==> {
                &&& r is Idle
                &&& final(self).pending_fresh() == old(self).pending_fresh()
                &&& final(self).dropped_samples() == old(self).dropped_samples()
                &&& final(self).budget_left() == old(self).budget_left()
                &&& final(self).cycles_done() == old(self).cycles_done()
            },
    {
        if self.window.ready_for_analysis() {
            if self.budget > 0 {
                let w = self.window.snapshot();
                self.window.consume_update();
                self.budget = self.budget - 1;
                proof {
                    if old(self).samples_seen() <= u64::MAX as nat {
                        crate::window::lemma_accounting(self.window);
                        let ghost cc = self.window.consumed_updates() as int;
                        assert(cc - 1 < u64::MAX as int) by (nonlinear_arith)
                            requires
                                (UPDATE_FRAMES as int) * cc <= u64::MAX as int,
                                UPDATE_FRAMES as int >= 1,
                                cc >= 1,
                        ;
                    }
                }
                if self.cycles < u64::MAX {
                    self.cycles = self.cycles + 1;
                }
                PollOutcome::Analyze(w)
            } else {
                self.window.discard_backlog();
                PollOutcome::BacklogDropped
            }
        } else {
            PollOutcome::Idle
        }
    }

    /// Finishes one analysis cycle from the magnitudes of the transformed
    /// window: computes the output spectrum, stores it in the observable
    /// hook, and returns the wire frame to write — or nothing while the
    /// link is degraded and its reconnect cooldown has not elapsed.
    pub fn complete_cycle(&mut self, magnitudes: &Vec<u32>) -> (frame: Option<Vec<u8>>)
        requires
            old(self).wf(),
            magnitudes@.len() == HALF_SPECTRUM as nat,
        ensures
            final(self).wf(),
            final(self).last_bins().len() == SPECTRUM_BINS as nat,
            forall|i: int| 0 <= i < SPECTRUM_BINS as int ==> final(self).last_bins()[i] as nat
                == bin_value(magnitudes@, i),
            (frame is Some) == (!old(self).link_degraded() || old(self).retry_cooldown() == 0),
            frame matches Some(f) ==> f@ == frame_bytes(final(self).last_bins()),
            final(self).link_degraded() == old(self).link_degraded(),
            final(self).retry_cooldown() == if !old(self).link_degraded() || old(
                self,
            ).retry_cooldown() == 0 {
                old(self).retry_cooldown()
            } else {
                (old(self).retry_cooldown() - 1) as nat
            },
            final(self).window_view() == old(self).window_view(),
            final(self).samples_seen() == old(self).samples_seen(),
            final(self).pending_fresh() == old(self).pending_fresh(),
            final(self).dropped_samples() == old(self).dropped_samples(),
            final(self).cycles_done() == old(self).cycles_done(),
            final(self).budget_left() == old(self).budget_left(),
    {
        let bins = self.analyzer.compute(magnitudes);
        let frame = self.encoder.prepare(&bins);
        self.latest = bins;
        frame
    }

    /// Records the outcome of writing a prepared frame, as reported by the
    /// surrounding program. A failure enters degraded mode; a success ends
    /// it and transmission resumes on the next cycle.
    pub fn record_send(&mut self, ok: bool)
        requires
            old(self).wf(),
        ensures
            final(self).wf(),
            final(self).link_degraded() == !ok,
            final(self).retry_cooldown() == if ok {
                0
            } else {
                crate::link::RETRY_INTERVAL as nat
            },
            final(self).window_view() == old(self).window_view(),
            final(self).samples_seen() == old(self).samples_seen(),
            final(self).pending_fresh() == old(self).pending_fresh(),
            final(self).dropped_samples() == old(self).dropped_samples(),
            final(self).cycles_done() == old(self).cycles_done(),
            final(self).budget_left() == old(self).budget_left(),
            final(self).last_bins() == old(self).last_bins(),
    {
        self.encoder.record_send(ok);
    }

    /// Completed analysis cycles, the observable pacing hook.
    pub fn cycles_completed(&self) -> (n: u64)
        ensures
            n as nat == self.cycles_done(),
    {
        self.cycles
    }

    /// The most recently computed output spectrum, the observable
    /// computed-spectrum hook: it advances even while sends are suppressed.
    pub fn latest_spectrum(&self) -> (s: &Vec<u16>)
        ensures
            s@ == self.last_bins(),
    {
        &self.latest
    }

    /// Whether the link is currently degraded.
    pub fn is_link_degraded(&self) -> (d: bool)
        ensures
            d == self.link_degraded(),
    {
        self.encoder.is_degraded_now()
    }
}

/// Law: analysis never runs ahead of the stream. Whether or not backlog was
/// dropped, at most ⌊samples absorbed / UPDATE_FRAMES⌋ cycles ever complete.
pub proof fn lemma_cycle_upper_bound(o: Orchestrator)
    requires
        o.wf(),
        o.samples_seen() <= u64::MAX as nat,
    ensures
        o.cycles_done() <= o.samples_seen() / (UPDATE_FRAMES as nat),
{
    crate::window::lemma_cadence_upper_bound(o.window);
}

/// Law: the cadence of analysis cycles matches the sample stream. With no
/// backlog ever dropped and all due cycles run (fewer than `UPDATE_FRAMES`
/// fresh samples pending), the completed cycles are exactly ⌊samples
/// absorbed / UPDATE_FRAMES⌋.
pub proof fn lemma_cycle_cadence(o: Orchestrator)
    requires
        o.wf(),
        o.dropped_samples() == 0,
        o.pending_fresh() < UPDATE_FRAMES as nat,
        o.samples_seen() <= u64::MAX as nat,
    ensures
        o.cycles_done() == o.samples_seen() / (UPDATE_FRAMES as nat),
{
    crate::window::lemma_update_cadence(o.window);
}

} // verus!

//! Rolling sample window.
//!
//! A `WindowBuffer` absorbs arbitrary-length chunks of audio samples into a
//! fixed-capacity circular buffer holding the `WINDOW_SIZE` most recent
//! samples, and counts how many fresh samples have arrived since the last
//! spectrum computation. Samples are fixed-point amplitudes: the surrounding
//! program maps each captured amplitude to one `i32` before pushing it.

use vstd::prelude::*;

use crate::config::{UPDATE_FRAMES, WINDOW_SIZE};

verus! {

/// The at-most-`WINDOW_SIZE` most recent samples of a stream, in
/// chronological order (oldest first).
pub open spec fn last_window(s: Seq<i32>) -> Seq<i32> {
    if s.len() <= WINDOW_SIZE as nat {
        s
    } else {
        s.subrange(s.len() - WINDOW_SIZE as int, s.len() as int)
    }
}

/// The window a buffer holds after absorbing one more chunk.
pub open spec fn absorb(w: Seq<i32>, chunk: Seq<i32>) -> Seq<i32> {
    last_window(w + chunk)
}

/// Fixed-capacity circular buffer of the most recent samples, together with
/// the fresh-sample counter that paces spectrum updates.
pub struct WindowBuffer {
    /// Stored samples; grows to `WINDOW_SIZE` and then stays at that length.
    buf: Vec<i32>,
    /// Once the buffer is full: index of the oldest sample, which the next
    /// incoming sample overwrites. Zero while the buffer is still filling.
    next: usize,
    /// Samples received since the last consumed update interval, saturating.
    fresh: u64,
    /// Samples ever pushed.
    total: Ghost<nat>,
    /// Update intervals consumed by analysis cycles.
    consumed: Ghost<nat>,
    /// Fresh samples discarded as excess backlog.
    dropped: Ghost<nat>,
}

impl WindowBuffer {
    /// The retained samples in chronological order (oldest first).
    pub closed spec fn window(self) -> Seq<i32> {
        if self.buf@.len() < WINDOW_SIZE as nat {
            self.buf@
        } else {
            self.buf@.subrange(self.next as int, self.buf@.len() as int)
                + self.buf@.subrange(0, self.next as int)
        }
    }

    /// Samples ever pushed into the buffer.
    pub closed spec fn total(self) -> nat {
        self.total@
    }

    /// Update intervals consumed so far.
    pub closed spec fn consumed_updates(self) -> nat {
        self.consumed@
    }

    /// Fresh samples discarded as excess backlog so far.
    pub closed spec fn dropped_samples(self) -> nat {
        self.dropped@
    }

    /// Samples received since the last consumed update interval. Exact as
    /// long as fewer than `u64::MAX` samples are pending, which the machine
    /// cannot exceed in practice; beyond that the counter saturates.
    pub closed spec fn fresh_count(self) -> nat {
        self.fresh as nat
    }

    /// A full window has been accumulated, so analysis is meaningful.
    pub open spec fn warmed_up(self) -> bool {
        self.window().len() == WINDOW_SIZE as nat
    }

    /// Structural well-formedness plus the accounting tie between the
    /// fresh-sample counter and the ghost sample totals.
    pub closed spec fn wf(self) -> bool {
        &&& self.buf@.len() <= WINDOW_SIZE as nat
        &&& (self.buf@.len() < WINDOW_SIZE as nat ==> self.next == 0 && self.total@ == self.buf@.len())
        &&& (self.buf@.len() == WINDOW_SIZE as nat ==> (self.next as nat) < WINDOW_SIZE as nat
            && self.total@ >= WINDOW_SIZE as nat)
        &&& (self.fresh as nat) + (UPDATE_FRAMES as nat) * self.consumed@ + self.dropped@
            <= self.total@
        &&& (self.total@ <= u64::MAX as nat ==> (self.fresh as nat)
            + (UPDATE_FRAMES as nat) * self.consumed@ + self.dropped@ == self.total@)
    }

    /// An empty buffer with all counters at zero.
    pub fn new() -> (b: WindowBuffer)
        ensures
            b.wf(),
            b.window() == Seq::<i32>::empty(),
            b.total() == 0,
            b.consumed_updates() == 0,
            b.dropped_samples() == 0,
            b.fresh_count() == 0,
    {
        let b = WindowBuffer {
            buf: Vec::new(),
            next: 0,
            fresh: 0,
            total: Ghost(0),
            consumed: Ghost(0),
            dropped: Ghost(0),
        };
        proof {
            assert(b.window() =~= Seq::<i32>::empty());
        }
        b
    }

    /// Appends a chunk of samples. The window keeps the `WINDOW_SIZE` most
    /// recent samples of the stream, chunk boundaries notwithstanding, and
    /// the fresh-sample counter grows by the chunk length. Never fails.
    pub fn push(&mut self, chunk: &Vec<i32>)
        requires
            old(self).wf(),
        ensures
            final(self).wf(),
            final(self).window() == absorb(old(self).window(), chunk@),
            final(self).total() == old(self).total() + chunk@.len(),
            final(self).consumed_updates() == old(self).consumed_updates(),
            final(self).dropped_samples() == old(self).dropped_samples(),
            final(self).fresh_count() == if old(self).fresh_count() + chunk@.len()
                <= u64::MAX as nat {
                old(self).fresh_count() + chunk@.len()
            } else {
                u64::MAX as nat
            },
    {
        let ghost prev = self.window();
        let mut i: usize = 0;
        while i < chunk.len()
            invariant
                i <= chunk@.len(),
                self.buf@.len() <= WINDOW_SIZE as nat,
                self.buf@.len() < WINDOW_SIZE as nat ==> self.next == 0,
                self.buf@.len() == WINDOW_SIZE as nat ==> (self.next as nat) < WINDOW_SIZE as nat,
                self.window() == last_window(prev + chunk@.subrange(0, i as int)),
                prev.len() <= WINDOW_SIZE as nat,
                self.fresh == old(self).fresh,
                self.total == old(self).total,
                self.consumed == old(self).consumed,
                self.dropped == old(self).dropped,
            decreases chunk@.len() - i,
        {
            let x = chunk[i];
            let ghost stream = prev + chunk@.subrange(0, i as int);
            let ghost w = self.window();
            proof {
                assert(prev + chunk@.subrange(0, (i + 1) as int) =~= stream.push(x));
                lemma_last_window_push(stream, x);
            }
            if self.buf.len() < WINDOW_SIZE {
                self.buf.push(x);
                proof {
                    assert(self.window() =~= w.push(x));
                }
            } else {
                let at = self.next;
                self.buf.set(at, x);
                self.next = if at + 1 == WINDOW_SIZE {
                    0
                } else {
                    at + 1
                };
                proof {
                    assert(self.window() =~= w.subrange(1, WINDOW_SIZE as int).push(x));
                }
            }
            i += 1;
        }
        proof {
            assert(chunk@.subrange(0, chunk@.len() as int) =~= chunk@);
        }
        let add: u64 = chunk.len() as u64;
        if self.fresh <= u64::MAX - add {
            self.fresh = self.fresh + add;
        } else {
            self.fresh = u64::MAX;
        }
        self.total = Ghost(self.total@ + chunk@.len());
    }

    /// True once a full window has accumulated and at least one update
    /// interval of fresh samples is pending, so an analysis cycle is due.
    pub fn ready_for_analysis(&self) -> (r: bool)
        requires
            self.wf(),
        ensures
            r == (self.warmed_up() && self.fresh_count() >= UPDATE_FRAMES as nat),
    {
        self.buf.len() == WINDOW_SIZE && self.fresh >= UPDATE_FRAMES as u64
    }

    /// Copies the current window out in chronological order, oldest sample
    /// first. Leaves the buffer untouched.
    pub fn snapshot(&self) -> (w: Vec<i32>)
        requires
            self.wf(),
            self.warmed_up(),
        ensures
            w@ == self.window(),
    {
        let mut w: Vec<i32> = Vec::new();
        let mut i: usize = 0;
        while i < WINDOW_SIZE
            invariant
                i <= WINDOW_SIZE,
                self.wf(),
                self.warmed_up(),
                w@ == self.window().subrange(0, i as int),
            decreases WINDOW_SIZE - i,
        {
            let at = if self.next + i < WINDOW_SIZE {
                self.next + i
            } else {
                self.next + i - WINDOW_SIZE
            };
            w.push(self.buf[at]);
            proof {
                assert(self.window()[i as int] == self.buf@[at as int]);
                assert(w@ =~= self.window().subrange(0, (i + 1) as int));
            }
            i += 1;
        }
        proof {
            assert(self.window().subrange(0, WINDOW_SIZE as int) =~= self.window());
        }
        w
    }

    /// Marks one update interval as analyzed: subtracts `UPDATE_FRAMES` from
    /// the fresh-sample counter, preserving any overshoot. The window itself
    /// is untouched.
    pub fn consume_update(&mut self)
        requires
            old(self).wf(),
            old(self).fresh_count() >= UPDATE_FRAMES as nat,
        ensures
            final(self).wf(),
            final(self).window() == old(self).window(),
            final(self).total() == old(self).total(),
            final(self).dropped_samples() == old(self).dropped_samples(),
            final(self).fresh_count() == old(self).fresh_count() - UPDATE_FRAMES as nat,
            final(self).consumed_updates() == old(self).consumed_updates() + 1,
    {
        self.fresh = self.fresh - UPDATE_FRAMES as u64;
        self.consumed = Ghost(self.consumed@ + 1);
        proof {
            let ghost c = old(self).consumed@;
            assert((UPDATE_FRAMES as nat) * (c + 1) == (UPDATE_FRAMES as nat) * c
                + UPDATE_FRAMES as nat) by (nonlinear_arith);
        }
    }

    /// Samples received since the last consumed update interval.
    pub fn fresh_samples(&self) -> (n: u64)
        ensures
            n as nat == self.fresh_count(),
    {
        self.fresh
    }

    /// Discards pending fresh samples beyond the last whole update interval.
    /// Called when a callback has exhausted its catch-up budget: excess
    /// backlog is dropped rather than analyzed late.
    pub fn discard_backlog(&mut self)
        requires
            old(self).wf(),
        ensures
            final(self).wf(),
            final(self).window() == old(self).window(),
            final(self).total() == old(self).total(),
            final(self).consumed_updates() == old(self).consumed_updates(),
            final(self).fresh_count() == old(self).fresh_count() % (UPDATE_FRAMES as nat),
            final(self).dropped_samples() == old(self).dropped_samples()
                + (old(self).fresh_count() - old(self).fresh_count() % (UPDATE_FRAMES as nat)),
    {
        let rem: u64 = self.fresh % (UPDATE_FRAMES as u64);
        proof {
            vstd::arithmetic::div_mod::lemma_mod_decreases(self.fresh as nat, UPDATE_FRAMES as nat);
        }
        self.dropped = Ghost(self.dropped@ + (self.fresh - rem) as nat);
        self.fresh = rem;
    }
}

/// Absorbing one more sample extends a filling window and shifts a full one
/// left by a single position.
proof fn lemma_last_window_push(s: Seq<i32>, x: i32)
    ensures
        last_window(s).len() < WINDOW_SIZE as nat ==> last_window(s.push(x))
            == last_window(s).push(x),
        last_window(s).len() == WINDOW_SIZE as nat ==> last_window(s.push(x))
            == last_window(s).subrange(1, WINDOW_SIZE as int).push(x),
{
    if s.len() < WINDOW_SIZE as nat {
        assert(last_window(s.push(x)) =~= last_window(s).push(x));
    } else {
        assert(last_window(s.push(x)) =~= last_window(s).subrange(1, WINDOW_SIZE as int).push(x));
    }
}

/// Collapsing a stream to its window before appending more samples loses
/// nothing: only the `WINDOW_SIZE` most recent samples ever matter.
proof fn lemma_last_window_concat(s: Seq<i32>, t: Seq<i32>)
    ensures
        last_window(last_window(s) + t) == last_window(s + t),
{
    if s.len() <= WINDOW_SIZE as nat {
        assert(last_window(s) + t =~= s + t);
    } else {
        assert(last_window(last_window(s) + t) =~= last_window(s + t));
    }
}

/// The window left after absorbing a sequence of chunks, starting from the
/// window `w`.
pub open spec fn absorb_all(w: Seq<i32>, chunks: Seq<Seq<i32>>) -> Seq<i32>
    decreases chunks.len(),
{
    if chunks.len() == 0 {
        w
    } else {
        absorb_all(absorb(w, chunks.first()), chunks.drop_first())
    }
}

/// Law: however the incoming stream is cut into chunks, the window a buffer
/// holds after absorbing them all is exactly the most recent `WINDOW_SIZE`
/// samples of the concatenated stream (all of it, while shorter than that).
pub proof fn lemma_window_tracks_stream(w: Seq<i32>, chunks: Seq<Seq<i32>>)
    requires
        w.len() <= WINDOW_SIZE as nat,
    ensures
        absorb_all(w, chunks) == last_window(w + chunks.flatten()),
    decreases chunks.len(),
{
    if chunks.len() == 0 {
        assert(w + chunks.flatten() =~= w);
    } else {
        let c0 = chunks.first();
        let rest = chunks.drop_first();
        lemma_window_tracks_stream(absorb(w, c0), rest);
        lemma_last_window_concat(w + c0, rest.flatten());
        assert((w + c0) + rest.flatten() =~= w + chunks.flatten());
    }
}

/// Law: once the pushed chunks hold at least `WINDOW_SIZE` samples in all,
/// the window is exactly the most recently pushed `WINDOW_SIZE` samples in
/// chronological order, regardless of chunk boundaries.
pub proof fn lemma_snapshot_is_recent_history(chunks: Seq<Seq<i32>>)
    requires
        chunks.flatten().len() >= WINDOW_SIZE as nat,
    ensures
        absorb_all(Seq::<i32>::empty(), chunks) == chunks.flatten().subrange(
            chunks.flatten().len() - WINDOW_SIZE as int,
            chunks.flatten().len() as int,
        ),
{
    lemma_window_tracks_stream(Seq::<i32>::empty(), chunks);
    assert(Seq::<i32>::empty() + chunks.flatten() =~= chunks.flatten());
}

/// Law: two chunkings of the same sample stream leave identical windows.
pub proof fn lemma_chunking_invariance(a: Seq<Seq<i32>>, b: Seq<Seq<i32>>)
    requires
        a.flatten() == b.flatten(),
    ensures
        absorb_all(Seq::<i32>::empty(), a) == absorb_all(Seq::<i32>::empty(), b),
{
    lemma_window_tracks_stream(Seq::<i32>::empty(), a);
    lemma_window_tracks_stream(Seq::<i32>::empty(), b);
}

/// The fresh-sample counter, the consumed update intervals and the dropped
/// backlog account for every sample ever pushed (exactly, as long as the
/// machine-bounded counter has not saturated).
pub proof fn lemma_accounting(b: WindowBuffer)
    requires
        b.wf(),
        b.total() <= u64::MAX as nat,
    ensures
        b.fresh_count() + (UPDATE_FRAMES as nat) * b.consumed_updates() + b.dropped_samples()
            == b.total(),
{
}

/// Law: analysis never runs ahead of the stream. Whether or not backlog was
/// dropped, at most ⌊total pushed / UPDATE_FRAMES⌋ update intervals are ever
/// consumed.
pub proof fn lemma_cadence_upper_bound(b: WindowBuffer)
    requires
        b.wf(),
        b.total() <= u64::MAX as nat,
    ensures
        b.consumed_updates() <= b.total() / (UPDATE_FRAMES as nat),
{
    lemma_accounting(b);
    let c = b.consumed_updates() as int;
    let u = UPDATE_FRAMES as int;
    vstd::arithmetic::div_mod::lemma_div_is_ordered(u * c, b.total() as int, u);
    vstd::arithmetic::div_mod::lemma_div_multiples_vanish(c, u);
}

/// Law: with no backlog ever dropped and all due updates consumed (fewer
/// than `UPDATE_FRAMES` fresh samples left pending), the number of consumed
/// update intervals is exactly ⌊total pushed / UPDATE_FRAMES⌋.
pub proof fn lemma_update_cadence(b: WindowBuffer)
    requires
        b.wf(),
        b.dropped_samples() == 0,
        b.fresh_count() < UPDATE_FRAMES as nat,
        b.total() <= u64::MAX as nat,
    ensures
        b.consumed_updates() == b.total() / (UPDATE_FRAMES as nat),
{
    let t = b.total() as int;
    let c = b.consumed_updates() as int;
    let f = b.fresh_count() as int;
    assert(t == c * (UPDATE_FRAMES as int) + f) by (nonlinear_arith)
        requires
            t == f + (UPDATE_FRAMES as int) * c,
    ;
    vstd::arithmetic::div_mod::lemma_fundamental_div_mod_converse_div(
        t,
        UPDATE_FRAMES as int,
        c,
        f,
    );
}

} // verus!

//! The adaptive execution engine: a state machine over the asynchronous
//! polling protocol.
//!
//! [`TimedBlockingFuture`] holds the guarded closure and decides, per poll
//! step, whether to run it inline or hand it out for offloading. The caller
//! that hosts the engine inside a real future performs the outside work —
//! submitting the closure to a worker thread, polling the join handle and the
//! one-shot wakeup receiver — and feeds every observation back in; the engine
//! makes every decision and is verified for every possible observation.

use super::table::AdaptiveState;
use super::table::SharedTable;
use super::token::Token;
use super::token::TokenType;
use core::marker::PhantomData;
use vstd::prelude::*;

verus! {

/// Declares `std::time::Instant` as an opaque type: a reading of the
/// monotonic clock, carried between [`instant_now`] and [`instant_elapsed`]
/// without being inspected.
#[verifier::external_type_specification]
#[verifier::external_body]
pub struct ExInstant(std::time::Instant);

/// Relies on `std::time::Instant::now`: an opaque reading of the monotonic
/// clock. The reading depends on when the call is made, so nothing is
/// promised of it.
#[verifier::external_body]
fn instant_now() -> (t: std::time::Instant) {
    std::time::Instant::now()
}

/// Relies on `std::time::Instant::elapsed`: the wall-clock time since
/// `start`. The result depends on when the call is made, so nothing is
/// promised of it.
#[verifier::external_body]
fn instant_elapsed(start: &std::time::Instant) -> (d: core::time::Duration) {
    start.elapsed()
}

/// Relies on `core::time::Duration::as_nanos`: the whole duration in
/// nanoseconds. `Duration` is opaque here, so the callers take the returned
/// number itself as the measurement.
#[verifier::external_body]
fn duration_as_nanos(d: &core::time::Duration) -> (n: u128) {
    d.as_nanos()
}

/// Run `work` and measure its wall-clock duration, from immediately before
/// to immediately after the call, in nanoseconds.
///
/// The duration is an outside clock reading: nothing is promised of it.
/// Whatever it turns out to be, the verified functions that consume it —
/// [`super::table::classify`], [`super::table::TimingTable::record_sample`]
/// — fix exactly what follows from each possible value.
pub fn timed_call<O, F: FnOnce() -> O>(work: F) -> (r: (O, u128))
    requires
        call_requires(work, ()),
    ensures
        call_ensures(work, (), r.0),
{
    let start = instant_now();
    let out = work();
    let elapsed = instant_elapsed(&start);
    (out, duration_as_nanos(&elapsed))
}

/// Run `work` now, measure its wall-clock duration from immediately before
/// to immediately after the call, and record the classification of that
/// duration for `token` in the shared table. The write is unconditional:
/// the entry always reflects the most recent completed run, whichever
/// strategy scheduled it. The lock on the table is taken only after `work`
/// has returned, never while it runs.
///
/// The shared table has no specification-visible contents — any thread may
/// rewrite it at any moment — so the write itself cannot appear here; the
/// measured duration and its classification pass through [`timed_call`] and
/// [`SharedTable::record_sample`], whose plain-table core
/// ([`super::table::TimingTable::record_sample`]) carries the exact
/// contract: the entry for `token` becomes the classification of the
/// measured duration against `cutoff_nanos`, no other entry changes, and no
/// entry is ever removed.
pub fn track_and_run<O, F: FnOnce() -> O>(
    table: &SharedTable,
    token: Token,
    cutoff_nanos: u64,
    work: F,
) -> (r: O)
    requires
        call_requires(work, ()),
    ensures
        call_ensures(work, (), r),
{
    let (r, elapsed_nanos) = timed_call(work);
    table.record_sample(&token, elapsed_nanos, cutoff_nanos);
    r
}

/// The fixed cutoff used by [`run_and_bench`]: five milliseconds, in
/// nanoseconds.
pub const BLOCKING_DURATION_NANOS: u64 = 5_000_000;

/// [`track_and_run`] with the fixed cutoff [`BLOCKING_DURATION_NANOS`]:
/// the measured duration is classified against five milliseconds, and the
/// result overwrites `token`'s entry in the shared table.
pub fn run_and_bench<O, F: FnOnce() -> O>(table: &SharedTable, token: Token, work: F) -> (r: O)
    requires
        call_requires(work, ()),
    ensures
        call_ensures(work, (), r),
{
    track_and_run(table, token, BLOCKING_DURATION_NANOS, work)
}

/// The lifecycle of one piece of guarded work.
#[derive(Clone, Copy, Debug, PartialEq, Eq, Structural)]
pub enum Phase {
    /// The closure has not been consumed yet.
    Unstarted,
    /// The closure was handed out for offloading; a join handle is live.
    Offloaded,
    /// The final value was handed out, or the worker's panic was propagated.
    Completed,
}

/// What the first poll step decided.
pub enum Activation<O, F> {
    /// The work ran inline during this poll; its value is ready.
    Finished(O),
    /// The work must be offloaded: the caller submits this closure — wrapped
    /// in [`track_and_run`] together with a completion ping — to a worker
    /// thread, then reports the first poll of the wakeup receiver through
    /// [`TimedBlockingFuture::note_wakeup`].
    Offload(F),
}

/// The observed state of the worker's join handle, as reported by the caller
/// that polls it.
pub enum WorkerStatus<O> {
    /// The worker finished normally with this value.
    Finished(O),
    /// The worker terminated by panicking.
    Panicked,
    /// The runtime discarded the work during its own shutdown; the work was
    /// not cancelled by this engine, which never cancels what it offloaded.
    Cancelled,
    /// The worker has not finished yet.
    Running,
}

/// What a poll must do after an offloaded step.
pub enum StepVerdict<O> {
    /// The work is done: yield this value to the awaiting caller.
    Complete(O),
    /// Re-raise the worker's panic on the awaiting thread, payload intact.
    PropagatePanic,
    /// Return "not ready"; a registered wakeup will trigger the next poll.
    Pend,
    /// Poll the join handle again at once: the last possible wakeup has been
    /// consumed, so the value must be taken from the handle directly.
    PollAgain,
}

/// The adaptive engine for one piece of guarded work.
///
/// Construction stores the closure; the first poll consumes it exactly once,
/// and either completes synchronously (inline) or moves to the offloaded
/// phase, where every further poll folds the observed worker state back in
/// through [`TimedBlockingFuture::join_step`]. Re-polling after completion
/// is a caller contract violation and is excluded by precondition.
pub struct TimedBlockingFuture<O, F> {
    fut: Option<F>,
    token: Token,
    cutoff_nanos: u64,
    offloaded: bool,
    wakeup_live: bool,
    produces: PhantomData<O>,
}

impl<O, F: FnOnce() -> O> TimedBlockingFuture<O, F> {
    /// The lifecycle phase this engine is in.
    pub closed spec fn spec_phase(&self) -> Phase {
        if self.fut is Some {
            Phase::Unstarted
        } else if self.offloaded {
            Phase::Offloaded
        } else {
            Phase::Completed
        }
    }

    /// The stored closure; meaningful while the engine is unstarted.
    pub closed spec fn closure(&self) -> F {
        self.fut->0
    }

    /// The identity of the guarded site.
    pub closed spec fn spec_token(&self) -> TokenType {
        self.token@
    }

    /// The cutoff, in nanoseconds, against which runs are classified.
    pub closed spec fn spec_cutoff(&self) -> u64 {
        self.cutoff_nanos
    }

    /// Whether the one-shot wakeup receiver is still held by the caller.
    pub closed spec fn wakeup_live(&self) -> bool {
        self.wakeup_live
    }

    /// A new engine holding `future`, the blocking work guarded by `token`.
    /// Pure value construction: no wakeup receiver exists yet, the closure
    /// is not invoked, and no table is touched.
    pub fn new(token: Token, cutoff_nanos: u64, future: F) -> (e: Self)
        ensures
            e.spec_phase() is Unstarted,
            e.closure() == future,
            e.spec_token() == token@,
            e.spec_cutoff() == cutoff_nanos,
            !e.wakeup_live(),
    {
        TimedBlockingFuture {
            fut: Some(future),
            token: token,
            cutoff_nanos: cutoff_nanos,
            offloaded: false,
            wakeup_live: false,
            produces: PhantomData,
        }
    }

    /// First poll step with the strategy already fetched: the activation is
    /// fixed for each value of `strategy`. An `Inline` strategy consumes the
    /// closure and runs it on the calling thread now, through
    /// [`track_and_run`] (measured, and recorded in the table); a `Spawn`
    /// strategy consumes the closure and hands it back for offloading.
    ///
    /// The strategy must agree with a pinned token — that is what pinning
    /// means — so `always_inline` work can never be offloaded and
    /// `always_spawn` work can never run on the polling thread.
    pub fn activate_with(&mut self, strategy: AdaptiveState, table: &SharedTable) -> (a:
        Activation<O, F>)
        requires
            old(self).spec_phase() is Unstarted,
            call_requires(old(self).closure(), ()),
            old(self).spec_token() is AlwaysInline ==> strategy is Inline,
            old(self).spec_token() is AlwaysSpawn ==> strategy is Spawn,
        ensures
            final(self).spec_token() == old(self).spec_token(),
            final(self).spec_cutoff() == old(self).spec_cutoff(),
            strategy is Inline <==> a is Finished,
            strategy is Spawn <==> a is Offload,
            match a {
                Activation::Finished(v) => {
                    &&& call_ensures(old(self).closure(), (), v)
                    &&& final(self).spec_phase() is Completed
                    &&& !final(self).wakeup_live()
                },
                Activation::Offload(f) => {
                    &&& f == old(self).closure()
                    &&& final(self).spec_phase() is Offloaded
                    &&& final(self).wakeup_live()
                },
            },
    {
        let f = self.fut.take().unwrap();
        match strategy {
            AdaptiveState::Inline => {
                self.offloaded = false;
                self.wakeup_live = false;
                Activation::Finished(track_and_run(table, self.token, self.cutoff_nanos, f))
            },
            AdaptiveState::Spawn => {
                self.offloaded = true;
                self.wakeup_live = true;
                Activation::Offload(f)
            },
        }
    }

    /// First poll step: select the strategy for this site — the pinned
    /// strategy for a pinned token, the shared table's last observation
    /// (default inline) for an ad-hoc one — then step with it through
    /// [`TimedBlockingFuture::activate_with`], which fixes what follows
    /// from each strategy value.
    ///
    /// For an ad-hoc token the fetched strategy is a moment's reading of a
    /// table that other threads rewrite at will, so which branch follows
    /// cannot be promised here; everything that holds of each branch is
    /// stated below, and the strategy-to-branch linkage is the contract of
    /// [`TimedBlockingFuture::activate_with`].
    pub fn activate(&mut self, table: &SharedTable) -> (a: Activation<O, F>)
        requires
            old(self).spec_phase() is Unstarted,
            call_requires(old(self).closure(), ()),
        ensures
            final(self).spec_token() == old(self).spec_token(),
            final(self).spec_cutoff() == old(self).spec_cutoff(),
            match a {
                Activation::Finished(v) => {
                    &&& call_ensures(old(self).closure(), (), v)
                    &&& final(self).spec_phase() is Completed
                    &&& !final(self).wakeup_live()
                    &&& !(old(self).spec_token() is AlwaysSpawn)
                },
                Activation::Offload(f) => {
                    &&& f == old(self).closure()
                    &&& final(self).spec_phase() is Offloaded
                    &&& final(self).wakeup_live()
                    &&& !(old(self).spec_token() is AlwaysInline)
                },
            },
            old(self).spec_token() is AlwaysInline ==> a is Finished,
            old(self).spec_token() is AlwaysSpawn ==> a is Offload,
    {
        let strategy = match self.token.kind() {
            TokenType::AlwaysInline => AdaptiveState::Inline,
            TokenType::AlwaysSpawn => AdaptiveState::Spawn,
            TokenType::AdhocAdaptive(_) => table.fetch_or_default(&self.token),
        };
        self.activate_with(strategy, table)
    }

    /// Report the result of polling the one-shot wakeup receiver. The
    /// receiver is a hint, not a value: the moment it signals (whether the
    /// worker pinged it or dropped it by panicking) it is consumed, and from
    /// then on the join handle must be polled directly.
    pub fn note_wakeup(&mut self, signaled: bool)
        requires
            old(self).spec_phase() is Offloaded,
            old(self).wakeup_live(),
        ensures
            final(self).spec_phase() is Offloaded,
            final(self).wakeup_live() == !signaled,
            final(self).spec_token() == old(self).spec_token(),
            final(self).spec_cutoff() == old(self).spec_cutoff(),
    {
        if signaled {
            self.wakeup_live = false;
        }
    }

    /// Offloaded poll step: fold the observed state of the worker's join
    /// handle into the machine and decide what this poll must do.
    ///
    /// A normally finished worker completes the engine with exactly the
    /// worker's value; a panicked worker completes it with the verdict to
    /// re-raise the panic; discarded work pends forever (the runtime is
    /// tearing everything down); and a still-running worker pends if a
    /// wakeup is still registered, or must be re-polled at once if the last
    /// possible wakeup has already been consumed.
    pub fn join_step(&mut self, status: WorkerStatus<O>) -> (v: StepVerdict<O>)
        requires
            old(self).spec_phase() is Offloaded,
        ensures
            final(self).spec_token() == old(self).spec_token(),
            final(self).spec_cutoff() == old(self).spec_cutoff(),
            match status {
                WorkerStatus::Finished(value) => {
                    &&& v == StepVerdict::<O>::Complete(value)
                    &&& final(self).spec_phase() is Completed
                },
                WorkerStatus::Panicked => {
                    &&& v == StepVerdict::<O>::PropagatePanic
                    &&& final(self).spec_phase() is Completed
                },
                WorkerStatus::Cancelled => {
                    &&& v == StepVerdict::<O>::Pend
                    &&& *final(self) == *old(self)
                },
                WorkerStatus::Running => {
                    &&& v == if old(self).wakeup_live() {
                        StepVerdict::<O>::Pend
                    } else {
                        StepVerdict::<O>::PollAgain
                    }
                    &&& *final(self) == *old(self)
                },
            },
    {
        match status {
            WorkerStatus::Finished(value) => {
                self.offloaded = false;
                StepVerdict::Complete(value)
            },
            WorkerStatus::Panicked => {
                self.offloaded = false;
                StepVerdict::PropagatePanic
            },
            WorkerStatus::Cancelled => StepVerdict::Pend,
            WorkerStatus::Running => if self.wakeup_live {
                StepVerdict::Pend
            } else {
                StepVerdict::PollAgain
            },
        }
    }

    /// The current phase.
    pub fn phase(&self) -> (p: Phase)
        ensures
            p == self.spec_phase(),
    {
        if self.fut.is_some() {
            Phase::Unstarted
        } else if self.offloaded {
            Phase::Offloaded
        } else {
            Phase::Completed
        }
    }

    /// Whether the wakeup receiver should still be polled before the join
    /// handle.
    pub fn has_live_wakeup(&self) -> (b: bool)
        ensures
            b == self.wakeup_live(),
    {
        self.wakeup_live
    }
}

} // verus!

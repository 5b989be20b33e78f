//! Adaptively schedule blocking work.
//!
//! The `adaptive` module defines types that help schedule *blocking work*
//! (namely, not `async`) adaptively. If the work is cheap, we save on the
//! overhead of moving it to a worker thread by running it inline in the poll
//! step; if the last observed run of the same site was slow, the work is
//! offloaded to a worker thread instead.
//!
//! The decision is made per call site, identified by a [`Token`]. The last
//! observed classification for every ad-hoc token is kept in a shared
//! [`SharedTable`]. A known characteristic of this single-sample policy is
//! that a site currently classified for offloading is never re-probed inline
//! on its own: only a fresh fast sample (measured on the worker thread)
//! rewrites the entry back.

mod engine;
mod table;
mod token;

pub use engine::Activation;
pub use engine::BLOCKING_DURATION_NANOS;
pub use engine::Phase;
pub use engine::StepVerdict;
pub use engine::TimedBlockingFuture;
pub use engine::WorkerStatus;
pub use engine::run_and_bench;
pub use engine::timed_call;
pub use engine::track_and_run;
pub use table::AdaptiveState;
pub use table::SharedTable;
pub use table::TimingTable;
pub use table::classify;
pub use token::Token;
pub use token::TokenMinter;
pub use token::TokenType;

use vstd::prelude::*;

verus! {

/// The wall-clock cutoff, in nanoseconds, above which a measured run is
/// classified for offloading by [`AdaptiveFuture`]'s poll protocol.
pub const BLOCKING_CUTOFF_NANOS: u64 = 100_000;

/// The engine for one piece of *blocking work*, configured with the default
/// cutoff [`BLOCKING_CUTOFF_NANOS`].
///
/// It either runs the work inline in the poll step, or asks its caller to
/// offload the work to a worker thread, based on the last observed wall-clock
/// time recorded for its [`Token`] in the shared table. The host future that
/// wraps this engine performs the outside work (spawning, polling the join
/// handle and the one-shot wakeup receiver) and feeds every observation back
/// in; every decision in between is made here.
pub struct AdaptiveFuture<O, F> {
    inner: TimedBlockingFuture<O, F>,
}

impl<O, F: FnOnce() -> O> AdaptiveFuture<O, F> {
    /// The lifecycle phase the engine is in.
    pub closed spec fn spec_phase(&self) -> Phase {
        self.inner.spec_phase()
    }

    /// The stored closure; meaningful while the engine is unstarted.
    pub closed spec fn closure(&self) -> F {
        self.inner.closure()
    }

    /// The identity of the guarded site.
    pub closed spec fn spec_token(&self) -> TokenType {
        self.inner.spec_token()
    }

    /// Whether the one-shot wakeup receiver is still held by the caller.
    pub closed spec fn wakeup_live(&self) -> bool {
        self.inner.wakeup_live()
    }

    /// The cutoff, in nanoseconds, against which this future's runs are
    /// classified. [`AdaptiveFuture::new`] fixes it to
    /// [`BLOCKING_CUTOFF_NANOS`], and every step preserves it, so this
    /// facade behaves exactly as the wrapped engine does at that cutoff.
    pub closed spec fn spec_cutoff(&self) -> u64 {
        self.inner.spec_cutoff()
    }

    /// A new `AdaptiveFuture` that will adaptively schedule the blocking
    /// work `future`, inline or offloaded, as associated with `token`.
    /// Pure value construction: the wrapped engine is unstarted, with the
    /// cutoff fixed to [`BLOCKING_CUTOFF_NANOS`], no wakeup receiver yet,
    /// the closure not invoked, and no table touched.
    pub fn new(token: Token, future: F) -> (e: Self)
        ensures
            e.spec_phase() is Unstarted,
            e.closure() == future,
            e.spec_token() == token@,
            e.spec_cutoff() == BLOCKING_CUTOFF_NANOS,
            !e.wakeup_live(),
    {
        AdaptiveFuture { inner: TimedBlockingFuture::new(token, BLOCKING_CUTOFF_NANOS, future) }
    }

    /// First poll step with the strategy already fetched; see
    /// [`TimedBlockingFuture::activate_with`]. The activation is fixed for
    /// each value of `strategy`: `Inline` runs the closure on the calling
    /// thread now, `Spawn` hands it back for offloading.
    pub fn activate_with(&mut self, strategy: AdaptiveState, table: &SharedTable) -> (a:
        Activation<O, F>)
        requires
            old(self).spec_phase() is Unstarted,
            call_requires(old(self).closure(), ()),
            old(self).spec_token() is AlwaysInline ==> strategy is Inline,
            old(self).spec_token() is AlwaysSpawn ==> strategy is Spawn,
        ensures
            final(self).spec_token() == old(self).spec_token(),
            final(self).spec_cutoff() == old(self).spec_cutoff(),
            strategy is Inline <==> a is Finished,
            strategy is Spawn <==> a is Offload,
            match a {
                Activation::Finished(v) => {
                    &&& call_ensures(old(self).closure(), (), v)
                    &&& final(self).spec_phase() is Completed
                    &&& !final(self).wakeup_live()
                },
                Activation::Offload(f) => {
                    &&& f == old(self).closure()
                    &&& final(self).spec_phase() is Offloaded
                    &&& final(self).wakeup_live()
                },
            },
    {
        self.inner.activate_with(strategy, table)
    }

    /// First poll step; see [`TimedBlockingFuture::activate`]. The fetched
    /// strategy's linkage to the branch taken is the contract of
    /// [`AdaptiveFuture::activate_with`].
    pub fn activate(&mut self, table: &SharedTable) -> (a: Activation<O, F>)
        requires
            old(self).spec_phase() is Unstarted,
            call_requires(old(self).closure(), ()),
        ensures
            final(self).spec_token() == old(self).spec_token(),
            final(self).spec_cutoff() == old(self).spec_cutoff(),
            match a {
                Activation::Finished(v) => {
                    &&& call_ensures(old(self).closure(), (), v)
                    &&& final(self).spec_phase() is Completed
                    &&& !final(self).wakeup_live()
                    &&& !(old(self).spec_token() is AlwaysSpawn)
                },
                Activation::Offload(f) => {
                    &&& f == old(self).closure()
                    &&& final(self).spec_phase() is Offloaded
                    &&& final(self).wakeup_live()
                    &&& !(old(self).spec_token() is AlwaysInline)
                },
            },
            old(self).spec_token() is AlwaysInline ==> a is Finished,
            old(self).spec_token() is AlwaysSpawn ==> a is Offload,
    {
        self.inner.activate(table)
    }

    /// Report the result of polling the one-shot wakeup receiver; see
    /// [`TimedBlockingFuture::note_wakeup`].
    pub fn note_wakeup(&mut self, signaled: bool)
        requires
            old(self).spec_phase() is Offloaded,
            old(self).wakeup_live(),
        ensures
            final(self).spec_phase() is Offloaded,
            final(self).wakeup_live() == !signaled,
            final(self).spec_token() == old(self).spec_token(),
            final(self).spec_cutoff() == old(self).spec_cutoff(),
    {
        self.inner.note_wakeup(signaled)
    }

    /// Offloaded poll step; see [`TimedBlockingFuture::join_step`].
    pub fn join_step(&mut self, status: WorkerStatus<O>) -> (v: StepVerdict<O>)
        requires
            old(self).spec_phase() is Offloaded,
        ensures
            final(self).spec_token() == old(self).spec_token(),
            final(self).spec_cutoff() == old(self).spec_cutoff(),
            match status {
                WorkerStatus::Finished(value) => {
                    &&& v == StepVerdict::<O>::Complete(value)
                    &&& final(self).spec_phase() is Completed
                },
                WorkerStatus::Panicked => {
                    &&& v == StepVerdict::<O>::PropagatePanic
                    &&& final(self).spec_phase() is Completed
                },
                WorkerStatus::Cancelled => {
                    &&& v == StepVerdict::<O>::Pend
                    &&& final(self).spec_phase() is Offloaded
                    &&& final(self).wakeup_live() == old(self).wakeup_live()
                },
                WorkerStatus::Running => {
                    &&& v == if old(self).wakeup_live() {
                        StepVerdict::<O>::Pend
                    } else {
                        StepVerdict::<O>::PollAgain
                    }
                    &&& final(self).spec_phase() is Offloaded
                    &&& final(self).wakeup_live() == old(self).wakeup_live()
                },
            },
    {
        self.inner.join_step(status)
    }

    /// The current phase.
    pub fn phase(&self) -> (p: Phase)
        ensures
            p == self.spec_phase(),
    {
        self.inner.phase()
    }

    /// Whether the wakeup receiver should still be polled before the join
    /// handle.
    pub fn has_live_wakeup(&self) -> (b: bool)
        ensures
            b == self.wakeup_live(),
    {
        self.inner.has_live_wakeup()
    }
}

} // verus!

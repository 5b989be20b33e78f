//! The timing table: per-site memory of the most recent classification.

use super::token::Token;
use super::token::TokenType;
use std::collections::HashMap;
use std::sync::Arc;
use vstd::prelude::*;
use vstd::rwlock::RwLock;

verus! {

broadcast use vstd::std_specs::hash::group_hash_axioms;

/// The classification of a run of guarded work: cheap enough to run inline in
/// the poll step, or expensive enough to be offloaded to a worker thread.
#[derive(Clone, Copy, Debug, PartialEq, Eq, Structural)]
pub enum AdaptiveState {
    Inline,
    Spawn,
}

impl Default for AdaptiveState {
    /// A site that has never been observed is assumed cheap.
    fn default() -> (s: Self)
        ensures
            s is Inline,
    {
        AdaptiveState::Inline
    }
}

/// The classification of a measured duration: strictly above the cutoff is
/// `Spawn`, at or below it is `Inline`.
pub open spec fn spec_classify(elapsed_nanos: u128, cutoff_nanos: u64) -> AdaptiveState {
    if elapsed_nanos > cutoff_nanos as u128 {
        AdaptiveState::Spawn
    } else {
        AdaptiveState::Inline
    }
}

/// Classify a measured wall-clock duration against a cutoff.
pub fn classify(elapsed_nanos: u128, cutoff_nanos: u64) -> (s: AdaptiveState)
    ensures
        s == spec_classify(elapsed_nanos, cutoff_nanos),
{
    if elapsed_nanos > cutoff_nanos as u128 {
        AdaptiveState::Spawn
    } else {
        AdaptiveState::Inline
    }
}

/// What the table answers for an ad-hoc sequence number: the stored entry,
/// or `Inline` for a site that has no entry yet.
pub open spec fn spec_lookup(m: Map<usize, AdaptiveState>, seq: usize) -> AdaptiveState {
    if m.contains_key(seq) {
        m[seq]
    } else {
        AdaptiveState::Inline
    }
}

/// The strategy selected for a token: pinned tokens bypass the table
/// entirely; ad-hoc tokens are answered from the table, defaulting to
/// `Inline`.
pub open spec fn spec_strategy(m: Map<usize, AdaptiveState>, t: TokenType) -> AdaptiveState {
    match t {
        TokenType::AdhocAdaptive(seq) => spec_lookup(m, seq),
        TokenType::AlwaysInline => AdaptiveState::Inline,
        TokenType::AlwaysSpawn => AdaptiveState::Spawn,
    }
}

/// The table after recording a sample for a token: an ad-hoc token overwrites
/// its entry (last sample wins), a pinned token leaves the table untouched.
pub open spec fn spec_record(
    m: Map<usize, AdaptiveState>,
    t: TokenType,
    s: AdaptiveState,
) -> Map<usize, AdaptiveState> {
    match t {
        TokenType::AdhocAdaptive(seq) => m.insert(seq, s),
        TokenType::AlwaysInline => m,
        TokenType::AlwaysSpawn => m,
    }
}

/// The mapping from site identity to the classification of the most recent
/// completed run at that site.
///
/// There is no history beyond one sample: every recorded run overwrites the
/// entry for its site. Entries are created lazily on first lookup and never
/// removed. Only ad-hoc tokens have entries; pinned tokens neither read nor
/// write the table.
pub struct TimingTable {
    entries: HashMap<usize, AdaptiveState>,
}

impl View for TimingTable {
    type V = Map<usize, AdaptiveState>;

    closed spec fn view(&self) -> Map<usize, AdaptiveState> {
        self.entries@
    }
}

impl TimingTable {
    /// An empty table: every site is classified `Inline` by default.
    pub fn new() -> (t: TimingTable)
        ensures
            t@ == Map::<usize, AdaptiveState>::empty(),
    {
        TimingTable { entries: HashMap::new() }
    }

    /// The strategy currently selected for `token`, without changing the
    /// table.
    pub fn strategy(&self, token: &Token) -> (s: AdaptiveState)
        ensures
            s == spec_strategy(self@, token@),
    {
        match token.kind() {
            TokenType::AdhocAdaptive(seq) => match self.entries.get(&seq) {
                Some(s) => *s,
                None => AdaptiveState::Inline,
            },
            TokenType::AlwaysInline => AdaptiveState::Inline,
            TokenType::AlwaysSpawn => AdaptiveState::Spawn,
        }
    }

    /// The strategy selected for `token`, creating the entry for an ad-hoc
    /// token lazily on its first lookup. Pinned tokens never touch the table.
    pub fn fetch_or_default(&mut self, token: &Token) -> (s: AdaptiveState)
        ensures
            s == spec_strategy(old(self)@, token@),
            final(self)@ == (match token@ {
                TokenType::AdhocAdaptive(seq) => old(self)@.insert(seq, s),
                _ => old(self)@,
            }),
    {
        match token.kind() {
            TokenType::AdhocAdaptive(seq) => {
                let s = match self.entries.get(&seq) {
                    Some(s) => *s,
                    None => AdaptiveState::Inline,
                };
                self.entries.insert(seq, s);
                s
            },
            TokenType::AlwaysInline => AdaptiveState::Inline,
            TokenType::AlwaysSpawn => AdaptiveState::Spawn,
        }
    }

    /// Record the classification of a just-completed run at `token`'s site.
    /// The write is unconditional for ad-hoc tokens — the entry always
    /// reflects the most recent run — and a no-op for pinned tokens.
    pub fn record(&mut self, token: &Token, s: AdaptiveState)
        ensures
            final(self)@ == spec_record(old(self)@, token@, s),
    {
        match token.kind() {
            TokenType::AdhocAdaptive(seq) => {
                self.entries.insert(seq, s);
            },
            TokenType::AlwaysInline => (),
            TokenType::AlwaysSpawn => (),
        }
    }

    /// Record one measured duration at `token`'s site: classify it against
    /// `cutoff_nanos` and overwrite the entry with the result. Only this
    /// site's entry can change, no entry is ever removed, and a pinned
    /// token leaves the table untouched.
    pub fn record_sample(&mut self, token: &Token, elapsed_nanos: u128, cutoff_nanos: u64)
        ensures
            final(self)@ == spec_record(
                old(self)@,
                token@,
                spec_classify(elapsed_nanos, cutoff_nanos),
            ),
    {
        let s = classify(elapsed_nanos, cutoff_nanos);
        self.record(token, s);
    }
}

/// Law (idempotent classification): after recording one run of duration `d`
/// at an ad-hoc site, the table classifies that site `Spawn` iff `d` strictly
/// exceeds the cutoff, and `Inline` otherwise — independent of the entry's
/// prior value. A single sample always wins; nothing is cumulative.
pub proof fn lemma_last_sample_wins(
    m: Map<usize, AdaptiveState>,
    seq: usize,
    d: u128,
    cutoff: u64,
)
    ensures
        spec_strategy(
            spec_record(m, TokenType::AdhocAdaptive(seq), spec_classify(d, cutoff)),
            TokenType::AdhocAdaptive(seq),
        ) == spec_classify(d, cutoff),
        spec_classify(d, cutoff) is Spawn <==> d > cutoff as u128,
{
}

/// Law (lazy entries): materialising the default entry that a lookup already
/// answers — what [`TimingTable::fetch_or_default`] does on the first lookup
/// of an ad-hoc site — changes no answer for any token.
pub proof fn lemma_lazy_default_entry_preserves_answers(
    m: Map<usize, AdaptiveState>,
    seq: usize,
)
    ensures
        forall|t: TokenType|
            spec_strategy(m.insert(seq, spec_lookup(m, seq)), t) == #[trigger] spec_strategy(m, t),
{
}

/// The table after recording a sequence of measured durations, oldest first,
/// all at the same ad-hoc site.
pub open spec fn record_samples(
    m: Map<usize, AdaptiveState>,
    seq: usize,
    durations: Seq<u128>,
    cutoff: u64,
) -> Map<usize, AdaptiveState>
    decreases durations.len(),
{
    if durations.len() == 0 {
        m
    } else {
        record_samples(
            spec_record(
                m,
                TokenType::AdhocAdaptive(seq),
                spec_classify(durations[0], cutoff),
            ),
            seq,
            durations.drop_first(),
            cutoff,
        )
    }
}

/// Law (monotonic reclassification, fast runs): a site currently classified
/// `Inline` that keeps running fast — every measured duration at or below the
/// cutoff — remains classified `Inline`, however many runs are recorded.
pub proof fn lemma_fast_site_stays_inline(
    m: Map<usize, AdaptiveState>,
    seq: usize,
    durations: Seq<u128>,
    cutoff: u64,
)
    requires
        spec_strategy(m, TokenType::AdhocAdaptive(seq)) is Inline,
        forall|i: int| 0 <= i < durations.len() ==> #[trigger] durations[i] <= cutoff as u128,
    ensures
        spec_strategy(
            record_samples(m, seq, durations, cutoff),
            TokenType::AdhocAdaptive(seq),
        ) is Inline,
    decreases durations.len(),
{
    if durations.len() > 0 {
        let m1 = spec_record(
            m,
            TokenType::AdhocAdaptive(seq),
            spec_classify(durations[0], cutoff),
        );
        assert(forall|i: int|
            0 <= i < durations.drop_first().len() ==> #[trigger] durations.drop_first()[i]
                <= cutoff as u128);
        lemma_fast_site_stays_inline(m1, seq, durations.drop_first(), cutoff);
    }
}

/// Law (monotonic reclassification, the flip): whatever fast history a site
/// has, the first run whose duration strictly exceeds the cutoff flips its
/// entry to `Spawn`, so the next strategy lookup offloads.
pub proof fn lemma_slow_sample_flips_to_spawn(
    m: Map<usize, AdaptiveState>,
    seq: usize,
    d: u128,
    cutoff: u64,
)
    requires
        d > cutoff as u128,
    ensures
        spec_strategy(
            spec_record(m, TokenType::AdhocAdaptive(seq), spec_classify(d, cutoff)),
            TokenType::AdhocAdaptive(seq),
        ) is Spawn,
{
}

/// Law (pinned identities): a pinned token never consults the table — its
/// strategy is fixed whatever the table holds — and never mutates it: a
/// recorded sample for a pinned token leaves the table exactly as it was.
pub proof fn lemma_pinned_tokens_bypass_table(
    m: Map<usize, AdaptiveState>,
    t: TokenType,
    s: AdaptiveState,
)
    requires
        !(t is AdhocAdaptive),
    ensures
        spec_record(m, t, s) == m,
        spec_strategy(m, t) == if t is AlwaysInline {
            AdaptiveState::Inline
        } else {
            AdaptiveState::Spawn
        },
{
}

/// A process-wide handle to one [`TimingTable`], shared across threads behind
/// a verified reader-writer lock.
///
/// Any thread may read or write any entry; an entry reflects whichever run at
/// that site wrote last. The lock is held only for the table operation
/// itself, never while caller-supplied work runs.
pub struct SharedTable {
    inner: Arc<RwLock<TimingTable, spec_fn(TimingTable) -> bool>>,
}

impl SharedTable {
    #[verifier::type_invariant]
    spec fn wf(self) -> bool {
        forall|t: TimingTable| self.inner.inv(t)
    }

    /// A fresh shared table with no entries.
    pub fn new() -> (t: SharedTable) {
        let table = TimingTable::new();
        let lock = RwLock::<TimingTable, spec_fn(TimingTable) -> bool>::new(
            table,
            Ghost(|t: TimingTable| true),
        );
        SharedTable { inner: Arc::new(lock) }
    }

    /// A second handle to the same shared table.
    ///
    /// Relies on `Arc::clone`: the returned handle refers to the same
    /// allocation, hence the same lock and table.
    #[verifier::external_body]
    pub fn share(&self) -> (t: SharedTable)
        ensures
            t == *self,
    {
        SharedTable { inner: Arc::clone(&self.inner) }
    }

    /// The strategy selected for `token`, creating a default entry for an
    /// ad-hoc token on first lookup, as of the moment the lock was held.
    ///
    /// The table is shared: another thread may rewrite an ad-hoc entry at any
    /// time, so for ad-hoc tokens no particular answer is promised. Pinned
    /// tokens are answered without consulting the table at all.
    pub fn fetch_or_default(&self, token: &Token) -> (s: AdaptiveState)
        ensures
            token@ is AlwaysInline ==> s is Inline,
            token@ is AlwaysSpawn ==> s is Spawn,
    {
        proof {
            use_type_invariant(self);
        }
        let (mut table, handle) = self.inner.acquire_write();
        let s = table.fetch_or_default(token);
        handle.release_write(table);
        s
    }

    /// Record the classification of a just-completed run at `token`'s site.
    /// For a pinned token the table is left untouched.
    pub fn record(&self, token: &Token, s: AdaptiveState) {
        proof {
            use_type_invariant(self);
        }
        let (mut table, handle) = self.inner.acquire_write();
        table.record(token, s);
        handle.release_write(table);
    }

    /// Record one measured duration at `token`'s site, under the lock.
    ///
    /// The table held in the lock has no specification-visible contents, so
    /// no clause about them can be stated here; what the write does to
    /// whatever table the lock holds at that moment is exactly
    /// [`TimingTable::record_sample`]'s contract, which this method applies
    /// under the lock.
    pub fn record_sample(&self, token: &Token, elapsed_nanos: u128, cutoff_nanos: u64) {
        proof {
            use_type_invariant(self);
        }
        let (mut table, handle) = self.inner.acquire_write();
        table.record_sample(token, elapsed_nanos, cutoff_nanos);
        handle.release_write(table);
    }

    /// The strategy currently selected for `token`, without changing the
    /// table. As with [`SharedTable::fetch_or_default`], the answer for an
    /// ad-hoc token is only as fresh as the moment the lock was held.
    pub fn strategy(&self, token: &Token) -> (s: AdaptiveState)
        ensures
            token@ is AlwaysInline ==> s is Inline,
            token@ is AlwaysSpawn ==> s is Spawn,
    {
        proof {
            use_type_invariant(self);
        }
        let read_handle = self.inner.acquire_read();
        let s = read_handle.borrow().strategy(token);
        read_handle.release_read();
        s
    }
}

} // verus!

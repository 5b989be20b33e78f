//! Site identities for adaptive scheduling.

use vstd::prelude::*;

verus! {

/// The three kinds of site identity: a unique ad-hoc identity that is tracked
/// in the timing table, and two pinned identities that fix the strategy.
#[derive(Clone, Copy, Hash, PartialEq, Eq, Structural)]
pub enum TokenType {
    AdhocAdaptive(usize),
    AlwaysInline,
    AlwaysSpawn,
}

/// `Token` associates blocking work with a call site and configures how a
/// [`TimedBlockingFuture`](crate::adaptive::TimedBlockingFuture) schedules
/// that work.
///
/// An ad-hoc token tracks the wall-clock time of the most recent run of its
/// site; the pinned tokens force the work to always run inline or to always
/// be offloaded.
#[derive(Clone, Copy, Hash, PartialEq, Eq, Structural)]
pub struct Token(TokenType);

impl View for Token {
    type V = TokenType;

    closed spec fn view(&self) -> TokenType {
        self.0
    }
}

/// The source of fresh ad-hoc identities: a monotonically increasing counter.
///
/// Sequence numbers are handed out in order and never reused (short of the
/// counter wrapping around at `usize::MAX`), so two tokens minted from the
/// same counter are distinct for the lifetime of that counter. A process that
/// wants process-unique tokens keeps a single long-lived `TokenMinter`.
pub struct TokenMinter {
    next: usize,
}

impl View for TokenMinter {
    type V = usize;

    closed spec fn view(&self) -> usize {
        self.next
    }
}

impl TokenMinter {
    /// A fresh counter, starting at zero.
    pub fn new() -> (m: TokenMinter)
        ensures
            m@ == 0,
    {
        TokenMinter { next: 0 }
    }
}

impl Token {
    /// Create a new *unique* ad-hoc `Token` from the given counter.
    ///
    /// This token starts out running its work inline in the poll step and
    /// adaptively switches to offloading when a run is observed to be slow.
    pub fn new(minter: &mut TokenMinter) -> (t: Token)
        ensures
            t@ == TokenType::AdhocAdaptive(old(minter)@),
            final(minter)@ == if old(minter)@ == usize::MAX {
                0usize
            } else {
                (old(minter)@ + 1) as usize
            },
    {
        let seq = minter.next;
        minter.next = if seq == usize::MAX {
            0
        } else {
            seq + 1
        };
        Token(TokenType::AdhocAdaptive(seq))
    }

    /// A `Token` that tells the engine to always run its work inline in the
    /// poll step, without consulting the timing table.
    pub fn always_inline() -> (t: Token)
        ensures
            t@ == TokenType::AlwaysInline,
    {
        Token(TokenType::AlwaysInline)
    }

    /// A `Token` that tells the engine to always move its work onto a worker
    /// thread, without consulting the timing table.
    pub fn always_spawn() -> (t: Token)
        ensures
            t@ == TokenType::AlwaysSpawn,
    {
        Token(TokenType::AlwaysSpawn)
    }

    /// The kind of this token.
    pub fn kind(&self) -> (k: TokenType)
        ensures
            k == self@,
    {
        self.0
    }
}

} // verus!

//! How an instruction goes on between its first look at the accounts and its
//! end.

use crate::address;
use crate::key::Pubkey;
use vstd::prelude::*;

verus! {

/// The replies that an instruction has had from the outside so far.
#[derive(Clone, Copy, Debug, PartialEq, Eq)]
pub struct Progress {
    /// The clock's Unix timestamp, once it was read.
    pub now: Option<i64>,
    /// The transfer that was asked for has been made.
    pub transferred: bool,
}

/// The pool signs a transfer for the address derived from its token.
#[derive(Clone, Copy, Debug, PartialEq, Eq)]
pub struct PoolSigner {
    pub stake_mint: Pubkey,
    pub bump: u8,
}

/// A transfer of tokens.
#[derive(Clone, Copy, Debug, PartialEq, Eq)]
pub struct TokenTransfer {
    pub from: Pubkey,
    pub to: Pubkey,
    pub authority: Pubkey,
    pub amount: u64,
    /// How the authority signs, where it did not sign the request itself.
    pub signer: Option<PoolSigner>,
}

/// What to do next.
#[derive(Debug, PartialEq, Eq)]
pub enum Next<E> {
    /// Read the clock, and ask again.
    ReadClock,
    /// Make this transfer, and ask again.
    Transfer(TokenTransfer),
    /// Store the accounts, and announce this event.
    Done(E),
}

impl Progress {
    /// Nothing has been heard yet.
    pub fn start() -> (progress: Progress)
        ensures
            progress.now is None,
            !progress.transferred,
    {
        Progress { now: None, transferred: false }
    }
}

impl PoolSigner {
    /// The seeds to sign with.
    pub fn seeds(&self) -> (seeds: Vec<Vec<u8>>)
        ensures
            seeds.deep_view() == address::pool_signer_seeds(self.stake_mint, self.bump),
    {
        let seeds = vec![address::pool_tag_bytes(), self.stake_mint.to_vec(), vec![self.bump]];
        assert(seeds.deep_view() =~= address::pool_signer_seeds(self.stake_mint, self.bump)) by {
            assert(seeds@[0].deep_view() =~= address::pool_tag());
            assert(seeds@[1].deep_view() =~= self.stake_mint@);
            assert(seeds@[2].deep_view() =~= seq![self.bump]);
        }
        seeds
    }
}

} // verus!

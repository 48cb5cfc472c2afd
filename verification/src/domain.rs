//! Domain values exchanged between the decision engine, the mainchain
//! observer, and the surrounding import pipeline.

use vstd::prelude::*;

verus! {

/// Hash of a mainchain block, as embedded in a local block header's digest.
///
/// The engine never inspects the bytes; it only hands the hash to the
/// observer's queries.
#[derive(Clone, Copy, Debug, PartialEq, Eq)]
pub struct McBlockHash(pub [u8; 32]);

/// Snapshot of a mainchain block as reported by the mainchain observer.
#[derive(Clone, Copy, Debug, PartialEq, Eq)]
pub struct MainchainBlock {
    pub number: u64,
    pub hash: McBlockHash,
    pub epoch: u64,
    pub slot: u64,
    /// Production time of the block, in milliseconds since the epoch.
    pub timestamp_millis: u64,
}

/// Why a block is deferred: kept out of the chain for now, its sender
/// unpenalized, to be retried on a later import attempt.
#[derive(Clone, Copy, Debug, PartialEq, Eq)]
pub enum DeferReason {
    /// The referenced mainchain block exists but has not yet accumulated
    /// enough confirmations.
    ReferenceNotStable,
    /// A query against the mainchain observer failed; treated as a
    /// transient infrastructure issue.
    TransientQueryFailure,
    /// The observer's tip is unavailable or too old for its answers to be
    /// trusted; never penalize on such a view.
    LocalViewUnhealthy,
}

/// Why a block is rejected: its sender is penalized upstream.
#[derive(Clone, Copy, Debug, PartialEq, Eq)]
pub enum RejectReason {
    /// The header could not yield a mainchain hash or a production slot.
    MalformedHeader,
    /// The referenced mainchain block does not exist against a fresh local
    /// view: the reference is almost certainly fabricated.
    InvalidReference,
}

/// Outcome of one verification call: exactly one is produced per proposed
/// block.
#[derive(Clone, Copy, Debug, PartialEq, Eq)]
pub enum Decision {
    /// Forward the unmodified block to the inner import stage.
    Accept,
    /// Return the block to the pipeline for a later retry, without penalty.
    Defer(DeferReason),
    /// Refuse the block and signal a peer penalty upstream.
    Reject(RejectReason),
}

/// Answer of one mainchain-observer query, as handed back to the engine.
#[derive(Clone, Copy, Debug, PartialEq, Eq)]
pub enum QueryReply {
    /// The queried block (or the tip) was found.
    Found(MainchainBlock),
    /// The observer answered, but knows no such block (or has no tip).
    NotFound,
    /// The query itself failed.
    Failed,
}

} // verus!

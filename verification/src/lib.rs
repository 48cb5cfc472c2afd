//! Staleness-aware mainchain-hash verification for block import.
//!
//! Each block of the local chain embeds the hash of a block on an external
//! mainchain. Before a proposed block is admitted, this library decides —
//! from the answers of a mainchain observer and the age of that observer's
//! tip — whether to accept the block, defer it for a later retry, or reject
//! it as referencing a fabricated mainchain block.

pub mod domain;
pub mod engine;
pub mod threshold;

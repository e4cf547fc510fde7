//! What reaches the dispatcher from outside: the messages of the other
//! subsystems, and the status that the snapshot synchronizer reports.

use vstd::prelude::*;

verus! {

/// A 256-bit hash.
pub type Hash256 = [u8; 32];

/// What the snapshot synchronizer reports of a restoration.
#[derive(Clone, Copy, Debug, PartialEq, Eq)]
pub enum RestorationStatus {
    /// No restoration is under way.
    Inactive,
    /// A restoration is in flight.
    Ongoing {
        /// Number of state chunks in the snapshot.
        state_chunks: u32,
        /// Number of block chunks in the snapshot.
        block_chunks: u32,
        /// Number of state chunks fed so far.
        state_chunks_done: u32,
        /// Number of block chunks fed so far.
        block_chunks_done: u32,
    },
    /// The last restoration failed.
    Failed,
}

impl RestorationStatus {
    /// Whether a restoration is in flight.
    pub fn is_ongoing(&self) -> (ongoing: bool)
        ensures
            ongoing == (*self is Ongoing),
    {
        match self {
            RestorationStatus::Ongoing { .. } => true,
            _ => false,
        }
    }
}

/// The manifest of a snapshot to restore from.
#[derive(Clone, Debug, PartialEq, Eq)]
pub struct Manifest {
    pub version: u64,
    /// Hashes of the state chunks.
    pub state_hashes: Vec<Hash256>,
    /// Hashes of the block chunks.
    pub block_hashes: Vec<Hash256>,
    pub state_root: Hash256,
    pub block_number: u64,
    pub block_hash: Hash256,
}

/// A message to the dispatcher. Each is made outside and consumed once.
#[derive(Clone, Debug, PartialEq, Eq)]
pub enum InboundMessage {
    /// Blocks have been verified and wait in the state processor's queue.
    BlockVerified,
    /// Transactions, in order, and the peer they came from.
    NewTransactions(Vec<Vec<u8>>, usize),
    /// A restoration is to begin from this manifest.
    BeginRestoration(Manifest),
    /// A state chunk of the restoration in progress, with its hash.
    FeedStateChunk(Hash256, Vec<u8>),
    /// A block chunk of the restoration in progress, with its hash.
    FeedBlockChunk(Hash256, Vec<u8>),
    /// A snapshot is to be taken at this block number.
    TakeSnapshot(u64),
    /// A message for the consensus engine.
    NewMessage(Vec<u8>),
    /// A private transaction has been queued.
    NewPrivateTransaction,
    /// Any other message.
    Other,
}

} // verus!

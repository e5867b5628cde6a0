//! Plain data exchanged between the executor, the sequencer stream, the
//! data availability reader and the rollup's execution service.
use vstd::prelude::*;

verus! {

/// A point in time: seconds since the unix epoch plus a sub-second
/// nanosecond part, the shape of `google.protobuf.Timestamp`.
#[derive(Clone, Copy, Debug, PartialEq, Eq, Structural)]
pub struct Timestamp {
    pub seconds: i64,
    pub nanos: i32,
}

/// A block of the rollup chain, as reported by the execution service.
#[derive(Debug)]
pub struct Block {
    pub number: u32,
    pub hash: Vec<u8>,
    pub parent_block_hash: Vec<u8>,
    pub timestamp: Option<Timestamp>,
}

/// The mathematical value of a [`Block`].
pub struct BlockView {
    pub number: u32,
    pub hash: Seq<u8>,
    pub parent_block_hash: Seq<u8>,
    pub timestamp: Option<Timestamp>,
}

impl View for Block {
    type V = BlockView;

    open spec fn view(&self) -> BlockView {
        BlockView {
            number: self.number,
            hash: self.hash@,
            parent_block_hash: self.parent_block_hash@,
            timestamp: self.timestamp,
        }
    }
}

impl Clone for Block {
    fn clone(&self) -> (copy: Block)
        ensures
            copy@ == self@,
    {
        Block {
            number: self.number,
            hash: copy_bytes(&self.hash),
            parent_block_hash: copy_bytes(&self.parent_block_hash),
            timestamp: self.timestamp,
        }
    }
}

/// The view of an optional block.
pub open spec fn opt_block_view(b: Option<Block>) -> Option<BlockView> {
    match b {
        Some(b) => Some(b@),
        None => None,
    }
}

/// Copies an optional block, keeping its value.
pub fn copy_opt_block(b: &Option<Block>) -> (copy: Option<Block>)
    ensures
        opt_block_view(copy) == opt_block_view(*b),
{
    match b {
        Some(b) => Some(b.clone()),
        None => None,
    }
}

/// The two commitments that the execution chain tracks: `soft` is the head
/// executed from the sequencer stream, `firm` the head confirmed by the data
/// availability layer.
#[derive(Debug)]
pub struct CommitmentState {
    pub soft: Option<Block>,
    pub firm: Option<Block>,
}

/// The mathematical value of a [`CommitmentState`].
pub struct CommitmentStateView {
    pub soft: Option<BlockView>,
    pub firm: Option<BlockView>,
}

impl View for CommitmentState {
    type V = CommitmentStateView;

    open spec fn view(&self) -> CommitmentStateView {
        CommitmentStateView { soft: opt_block_view(self.soft), firm: opt_block_view(self.firm) }
    }
}

impl Clone for CommitmentState {
    fn clone(&self) -> (copy: CommitmentState)
        ensures
            copy@ == self@,
    {
        CommitmentState { soft: copy_opt_block(&self.soft), firm: copy_opt_block(&self.firm) }
    }
}

/// The part of a sequencer block that concerns this rollup: the hash of the
/// sequencer block, its height and time, and the rollup's transactions in it.
#[derive(Debug)]
pub struct SequencerBlockSubset {
    pub block_hash: Vec<u8>,
    pub height: u64,
    pub time: Timestamp,
    pub rollup_transactions: Vec<Vec<u8>>,
}

/// The mathematical value of a [`SequencerBlockSubset`].
pub struct SequencerBlockSubsetView {
    pub block_hash: Seq<u8>,
    pub height: u64,
    pub time: Timestamp,
    pub rollup_transactions: Seq<Seq<u8>>,
}

impl View for SequencerBlockSubset {
    type V = SequencerBlockSubsetView;

    open spec fn view(&self) -> SequencerBlockSubsetView {
        SequencerBlockSubsetView {
            block_hash: self.block_hash@,
            height: self.height,
            time: self.time,
            rollup_transactions: self.rollup_transactions.deep_view(),
        }
    }
}

/// Copies a byte string.
pub fn copy_bytes(bytes: &Vec<u8>) -> (copy: Vec<u8>)
    ensures
        copy@ == bytes@,
{
    let mut copy: Vec<u8> = Vec::new();
    let mut i: usize = 0;
    while i < bytes.len()
        invariant
            i <= bytes.len(),
            copy@ == bytes@.subrange(0, i as int),
        decreases bytes.len() - i,
    {
        copy.push(bytes[i]);
        i = i + 1;
    }
    assert(bytes@.subrange(0, bytes.len() as int) =~= bytes@);
    copy
}

/// Whether two byte strings are equal.
pub fn bytes_eq(a: &Vec<u8>, b: &Vec<u8>) -> (eq: bool)
    ensures
        eq == (a@ == b@),
{
    if a.len() != b.len() {
        return false;
    }
    let mut i: usize = 0;
    while i < a.len()
        invariant
            i <= a.len(),
            a.len() == b.len(),
            forall|j: int| 0 <= j < i ==> a@[j] == b@[j],
        decreases a.len() - i,
    {
        if a[i] != b[i] {
            return false;
        }
        i = i + 1;
    }
    assert(a@ =~= b@);
    true
}

} // verus!

//! Timestamps of sequencer block headers.
use vstd::prelude::*;

use tendermint::Time;

use crate::types::{SequencerBlockSubset, Timestamp};

verus! {

/// The CometBFT time type, carried through unread.
#[verifier::external_type_specification]
#[verifier::external_body]
pub struct ExTime(Time);

/// The error type of CometBFT's time arithmetic, which Verus needs declared
/// beside `Time`.
#[verifier::external_type_specification]
#[verifier::external_body]
pub struct ExTendermintError(tendermint::Error);

/// Whether `ts` lies in the range of `google.protobuf.Timestamp`: from
/// 0001-01-01T00:00:00Z to 9999-12-31T23:59:59.999999999Z, with a
/// sub-second part below one second.
pub open spec fn is_valid_timestamp(ts: Timestamp) -> bool {
    &&& -62_135_596_800 <= ts.seconds <= 253_402_300_799
    &&& 0 <= ts.nanos < 1_000_000_000
}

/// The protobuf timestamp of a CometBFT time, as tendermint computes it:
/// the whole seconds of the time since the unix epoch, rounded down, and
/// the nanoseconds past that second.
pub uninterp spec fn spec_time_to_timestamp(value: Time) -> Timestamp;

/// Calls `From<tendermint::Time> for tendermint_proto::google::protobuf::Timestamp`,
/// which reads the unix seconds and the nanosecond part of the time.
/// Claimed: the result is `spec_time_to_timestamp` of the time, a function of
/// the time alone; it is a valid protobuf timestamp, since every `Time` lies
/// in years 1 to 9999 and its nanosecond part in `0..1_000_000_000`; and no
/// other time has the same timestamp, since a `Time` is a UTC date and time
/// of the day down to the nanosecond, which those seconds and nanoseconds
/// determine. Not claimed: the calendar arithmetic from date to seconds.
#[verifier::external_body]
fn time_to_timestamp(value: Time) -> (ts: Timestamp)
    ensures
        ts == spec_time_to_timestamp(value),
        is_valid_timestamp(ts),
        forall|other: Time| #[trigger] spec_time_to_timestamp(other) == ts ==> other == value,
{
    let proto = tendermint_proto::google::protobuf::Timestamp::from(value);
    Timestamp { seconds: proto.seconds, nanos: proto.nanos }
}

/// The protobuf timestamp of a CometBFT time: the unix seconds of the time
/// and its nanosecond part. Distinct times give distinct timestamps.
pub fn convert_tendermint_to_prost_timestamp(value: Time) -> (ts: Timestamp)
    ensures
        ts == spec_time_to_timestamp(value),
        is_valid_timestamp(ts),
        forall|other: Time| #[trigger] spec_time_to_timestamp(other) == ts ==> other == value,
{
    time_to_timestamp(value)
}

impl SequencerBlockSubset {
    /// The subset of a sequencer block with this hash, height, header time
    /// and rollup transactions; the time is kept as its protobuf timestamp.
    pub fn new(block_hash: Vec<u8>, height: u64, time: Time, rollup_transactions: Vec<Vec<u8>>) -> (
        subset: SequencerBlockSubset)
        ensures
            subset.block_hash == block_hash,
            subset.height == height,
            subset.time == spec_time_to_timestamp(time),
            is_valid_timestamp(subset.time),
            subset.rollup_transactions == rollup_transactions,
    {
        SequencerBlockSubset {
            block_hash,
            height,
            time: convert_tendermint_to_prost_timestamp(time),
            rollup_transactions,
        }
    }
}

} // verus!

use astria_conductor::time::convert_tendermint_to_prost_timestamp;
use astria_conductor::types::Timestamp;
use tendermint::Time;

#[test]
fn converts_unix_epoch() {
    let ts = convert_tendermint_to_prost_timestamp(Time::unix_epoch());
    assert_eq!(ts, Timestamp { seconds: 0, nanos: 0 });
}

#[test]
fn converts_seconds_and_nanos() {
    let time = Time::from_unix_timestamp(1_700_000_001, 5).unwrap();
    let ts = convert_tendermint_to_prost_timestamp(time);
    assert_eq!(ts, Timestamp { seconds: 1_700_000_001, nanos: 5 });
}

#[test]
fn converts_times_before_the_epoch() {
    let time = Time::from_unix_timestamp(-1, 999_999_999).unwrap();
    let ts = convert_tendermint_to_prost_timestamp(time);
    assert_eq!(ts, Timestamp { seconds: -1, nanos: 999_999_999 });
}

#[test]
fn converts_extreme_times() {
    let first = Time::parse_from_rfc3339("0001-01-01T00:00:00Z").unwrap();
    assert_eq!(
        convert_tendermint_to_prost_timestamp(first),
        Timestamp { seconds: -62_135_596_800, nanos: 0 }
    );
    let last = Time::parse_from_rfc3339("9999-12-31T23:59:59.999999999Z").unwrap();
    assert_eq!(
        convert_tendermint_to_prost_timestamp(last),
        Timestamp { seconds: 253_402_300_799, nanos: 999_999_999 }
    );
}

#[test]
fn block_subset_keeps_its_parts() {
    let time = Time::from_unix_timestamp(42, 7).unwrap();
    let subset = astria_conductor::types::SequencerBlockSubset::new(
        vec![1; 32],
        9,
        time,
        vec![b"tx".to_vec()],
    );
    assert_eq!(subset.block_hash, vec![1; 32]);
    assert_eq!(subset.height, 9);
    assert_eq!(subset.time, Timestamp { seconds: 42, nanos: 7 });
    assert_eq!(subset.rollup_transactions, vec![b"tx".to_vec()]);
}

#[test]
fn distinct_times_give_distinct_timestamps() {
    let a = Time::from_unix_timestamp(100, 1).unwrap();
    let b = Time::from_unix_timestamp(100, 2).unwrap();
    assert_ne!(
        convert_tendermint_to_prost_timestamp(a),
        convert_tendermint_to_prost_timestamp(b)
    );
    let ts = convert_tendermint_to_prost_timestamp(a);
    assert_eq!(Time::from_unix_timestamp(ts.seconds, ts.nanos as u32).unwrap(), a);
}

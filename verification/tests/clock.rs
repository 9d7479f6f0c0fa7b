use lua_resty_protobuf::clock::{
    current_time_unix_nano, nanos_to_timestamp, reading_to_timestamp,
};

#[test]
fn timestamps_saturate() {
    assert_eq!(nanos_to_timestamp(0), 0);
    assert_eq!(nanos_to_timestamp(1_700_000_000_000_000_000), 1_700_000_000_000_000_000);
    assert_eq!(nanos_to_timestamp(u64::MAX as u128), u64::MAX);
    assert_eq!(nanos_to_timestamp(u64::MAX as u128 + 1), u64::MAX);
    assert_eq!(nanos_to_timestamp(u128::MAX), u64::MAX);
}

#[test]
fn clock_reads_the_present_and_does_not_run_back_far() {
    let first = current_time_unix_nano();
    let second = current_time_unix_nano();
    assert!(first > 1_500_000_000_000_000_000);
    assert!(first < u64::MAX);
    assert!(second + 1_000_000_000 > first);
}

#[test]
fn clock_before_the_epoch_reads_as_zero() {
    assert_eq!(reading_to_timestamp(None), 0);
    assert_eq!(reading_to_timestamp(Some(0)), 0);
    assert_eq!(reading_to_timestamp(Some(1_700_000_000_000_000_123)), 1_700_000_000_000_000_123);
    assert_eq!(reading_to_timestamp(Some(u64::MAX as u128 + 7)), u64::MAX);
}

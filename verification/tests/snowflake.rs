use chrono::{TimeZone, Utc};
use snowflake_id::{
    Snowflake, AIRDASH_EPOCH, INCREMENT_MAX, PROCESS_MAX, TIMESTAMP_MAX, WORKER_MAX,
};

const WORKER: u8 = 8;
const PROCESS: u8 = 26;
const INCREMENT: u16 = 543;

#[test]
fn test_new() {
    let snowflake = Snowflake::new(WORKER, PROCESS, INCREMENT, AIRDASH_EPOCH);

    assert_eq!(snowflake.worker(), WORKER);
    assert_eq!(snowflake.process(), PROCESS);
    assert_eq!(snowflake.increment(), INCREMENT);
    assert_ne!(snowflake.timestamp_raw(), 0);
}

#[test]
fn test_new_with_timestamp() {
    let timestamp = Utc.with_ymd_and_hms(2022, 7, 8, 9, 10, 11).unwrap();

    let snowflake = Snowflake::new_with_timestamp(
        WORKER,
        PROCESS,
        INCREMENT,
        timestamp.timestamp_millis(),
        AIRDASH_EPOCH,
    );

    assert_eq!(snowflake.worker(), WORKER);
    assert_eq!(snowflake.process(), PROCESS);
    assert_eq!(snowflake.increment(), INCREMENT);
    assert_eq!(snowflake.timestamp(AIRDASH_EPOCH), timestamp.timestamp_millis() as u64);
}

#[test]
fn test_new_with_epoch() {
    let epoch_timestamp =
        Utc.with_ymd_and_hms(2014, 7, 8, 9, 10, 11).unwrap().timestamp_millis() as u64;

    let snowflake = Snowflake::new(WORKER, PROCESS, INCREMENT, epoch_timestamp);

    assert_eq!(snowflake.worker(), WORKER);
    assert_eq!(snowflake.process(), PROCESS);
    assert_eq!(snowflake.increment(), INCREMENT);
    assert_eq!(
        snowflake.timestamp(AIRDASH_EPOCH),
        snowflake.timestamp_raw() + AIRDASH_EPOCH
    );
}

#[test]
fn test_new_with_timestamp_and_epoch() {
    let timestamp = Utc.with_ymd_and_hms(2022, 7, 8, 9, 10, 11).unwrap();
    let epoch_timestamp =
        Utc.with_ymd_and_hms(2014, 7, 8, 9, 10, 11).unwrap().timestamp_millis() as u64;

    let snowflake = Snowflake::new_with_timestamp(
        WORKER,
        PROCESS,
        INCREMENT,
        timestamp.timestamp_millis(),
        epoch_timestamp,
    );

    assert_eq!(snowflake.worker(), WORKER);
    assert_eq!(snowflake.process(), PROCESS);
    assert_eq!(snowflake.increment(), INCREMENT);
    assert_eq!(snowflake.timestamp(epoch_timestamp), timestamp.timestamp_millis() as u64);
    assert_eq!(
        snowflake.timestamp_raw(),
        timestamp.timestamp_millis() as u64 - epoch_timestamp
    );
}

#[test]
fn test_from_value() {
    let snowflake = Snowflake::new(WORKER, PROCESS, INCREMENT, AIRDASH_EPOCH);

    let value = snowflake.value();

    let from_value = Snowflake::from_value(value);

    assert_eq!(from_value, snowflake);
}

#[test]
fn test_from_value_with_epoch() {
    let epoch_timestamp =
        Utc.with_ymd_and_hms(2014, 7, 8, 9, 10, 11).unwrap().timestamp_millis() as u64;
    let snowflake = Snowflake::new(WORKER, PROCESS, INCREMENT, epoch_timestamp);

    let value = snowflake.value();

    let from_value = Snowflake::from_value(value);

    assert_eq!(from_value, snowflake);
}

#[test]
fn test_pack_round_trip_exact() {
    let snowflake = Snowflake::new_with_timestamp(
        WORKER,
        PROCESS,
        INCREMENT,
        AIRDASH_EPOCH as i64 + 5,
        AIRDASH_EPOCH,
    );

    // timestamp 5, worker 8, process 26, increment 543, packed by hand:
    // (5 << 22) | (8 << 17) | (26 << 12) | 543
    assert_eq!(snowflake.value(), (5u64 << 22) | (8u64 << 17) | (26u64 << 12) | 543u64);
    assert_eq!(snowflake.worker(), WORKER);
    assert_eq!(snowflake.process(), PROCESS);
    assert_eq!(snowflake.increment(), INCREMENT);
    assert_eq!(snowflake.timestamp_raw(), 5);
    assert_eq!(snowflake.timestamp(AIRDASH_EPOCH), AIRDASH_EPOCH + 5);
}

#[test]
fn test_out_of_range_fields_are_masked() {
    let snowflake = Snowflake::new_with_timestamp(255, 255, 65535, AIRDASH_EPOCH as i64, AIRDASH_EPOCH);

    assert_eq!(snowflake.worker(), 255 & 0x1f);
    assert_eq!(snowflake.process(), 255 & 0x1f);
    assert_eq!(snowflake.increment(), 65535 & 0xfff);
    assert_eq!(snowflake.timestamp_raw(), 0);
}

#[test]
fn test_field_maxima_survive_packing() {
    let snowflake = Snowflake::new_with_timestamp(
        WORKER_MAX,
        PROCESS_MAX,
        INCREMENT_MAX,
        AIRDASH_EPOCH as i64 + TIMESTAMP_MAX as i64,
        AIRDASH_EPOCH,
    );

    assert_eq!(snowflake.worker(), WORKER_MAX);
    assert_eq!(snowflake.process(), PROCESS_MAX);
    assert_eq!(snowflake.increment(), INCREMENT_MAX);
    assert_eq!(snowflake.timestamp_raw(), TIMESTAMP_MAX);
    assert_eq!(snowflake.timestamp(AIRDASH_EPOCH), AIRDASH_EPOCH + TIMESTAMP_MAX);
}

#[test]
fn test_value_from_parts_exact() {
    let value = snowflake_id::snowflake::value_from_parts(5, WORKER, PROCESS, INCREMENT);

    assert_eq!(value, (5u64 << 22) | (8u64 << 17) | (26u64 << 12) | 543u64);
    assert_eq!(value, 22127135);

    let masked = snowflake_id::snowflake::value_from_parts(5, 255, 255, 65535);
    assert_eq!(masked, (5u64 << 22) | (31u64 << 17) | (31u64 << 12) | 4095u64);
}

#[test]
fn test_signed_round_trip() {
    let snowflake = Snowflake::from_value(u64::MAX - 41);

    let signed = snowflake.as_i64();

    assert_eq!(Snowflake::from(signed), snowflake);
    assert_eq!(snowflake.as_u64(), u64::MAX - 41);
    assert_eq!(Snowflake::from(snowflake.as_u64()), snowflake);
}

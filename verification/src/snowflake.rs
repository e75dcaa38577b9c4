//! The identifier value and its bit-level codec.
//!
//! An identifier is one 64-bit unsigned integer holding four bit-packed
//! fields, high to low: a 42-bit timestamp offset in milliseconds, a 5-bit
//! worker id, a 5-bit process id and a 12-bit increment. Each field is
//! masked to its width before packing, so out-of-range inputs are silently
//! truncated rather than rejected. The epoch is carried alongside, never
//! inside, the packed value.

use vstd::prelude::*;

use crate::text::dec_digits;
use crate::text::dec_val;
use crate::text::is_dec_numeral;
use crate::text::parse_u64_decimal;
use crate::text::u64_to_decimal;
use crate::text::ParseError;

verus! {

/// The packed value that the four fields produce: each field is masked to
/// its bit width, shifted to its position and combined. The timestamp is
/// truncated to 42 bits by the left shift itself.
pub open spec fn packed_value(timestamp: u64, worker: u8, process: u8, increment: u16) -> u64 {
    (timestamp << 22) | (((worker & 0x1f) as u64) << 17) | (((process & 0x1f) as u64) << 12)
        | ((increment & 0xfff) as u64)
}

/// The worker id field of a packed value: bits 21..17.
pub open spec fn worker_of(value: u64) -> u8 {
    ((value >> 17) & 0x1f) as u8
}

/// The process id field of a packed value: bits 16..12.
pub open spec fn process_of(value: u64) -> u8 {
    ((value >> 12) & 0x1f) as u8
}

/// The increment field of a packed value: bits 11..0.
pub open spec fn increment_of(value: u64) -> u16 {
    (value & 0xfff) as u16
}

/// The timestamp offset field of a packed value: bits 63..22.
pub open spec fn timestamp_of(value: u64) -> u64 {
    value >> 22
}

/// The timestamp offset that a wall-clock reading and an epoch produce:
/// their 64-bit two's-complement difference, so a wall clock before the
/// epoch is reinterpreted as a large unsigned offset.
pub open spec fn offset_bits(timestamp_ms: i64, epoch: u64) -> u64 {
    vstd::wrapping::u64_specs::wrapping_sub(timestamp_ms as u64, epoch)
}

/// Packs the four fields into one value. Fields beyond their documented
/// maxima are truncated by the mask, never rejected.
pub fn value_from_parts(timestamp: u64, worker: u8, process: u8, increment: u16) -> (value: u64)
    ensures
        value == packed_value(timestamp, worker, process, increment),
{
    let mut value: u64 = timestamp << 22;
    value = value | (((worker & 0x1f) as u64) << 17);
    value = value | (((process & 0x1f) as u64) << 12);
    value = value | ((increment & 0xfff) as u64);
    value
}

/// Relies on `chrono::Utc::now` and `chrono::DateTime::timestamp_millis`:
/// reads the current wall-clock time as milliseconds since the Unix epoch.
/// Nothing is assumed of the reading; callers state only what holds of
/// every possible clock value.
#[verifier::external_body]
fn now_millis() -> i64 {
    chrono::Utc::now().timestamp_millis()
}

/// A packed 64-bit identifier.
#[derive(Clone, Copy, Debug, PartialEq, Eq, Hash, Structural)]
pub struct Snowflake(u64);

impl View for Snowflake {
    type V = u64;

    closed spec fn view(&self) -> u64 {
        self.0
    }
}

impl Snowflake {
    /// Mints an identifier from the current wall clock. The timestamp field
    /// depends on the clock reading, so only the other three fields are
    /// pinned down; each is the masked input.
    pub fn new(worker: u8, process: u8, increment: u16, epoch: u64) -> (s: Self)
        ensures
            worker_of(s@) == worker % 32,
            process_of(s@) == process % 32,
            increment_of(s@) == increment % 4096,
    {
        let now: i64 = now_millis();
        let s = Self::new_with_timestamp(worker, process, increment, now, epoch);
        proof {
            lemma_fields_of_packed(offset_bits(now, epoch), worker, process, increment);
        }
        s
    }

    /// Builds an identifier from a given wall-clock reading, in milliseconds
    /// since the Unix epoch. The packed timestamp offset is the signed
    /// difference from the epoch, reinterpreted as unsigned; a clock before
    /// the epoch therefore packs as a large offset.
    pub fn new_with_timestamp(
        worker: u8,
        process: u8,
        increment: u16,
        timestamp_ms: i64,
        epoch: u64,
    ) -> (s: Self)
        ensures
            s@ == packed_value(offset_bits(timestamp_ms, epoch), worker, process, increment),
    {
        let bits: u64 = (#[verifier::truncate] (timestamp_ms as u64)).wrapping_sub(epoch);
        let value: u64 = value_from_parts(bits, worker, process, increment);
        Self(value)
    }

    /// Wraps an arbitrary 64-bit integer as an identifier. No validation:
    /// any value is structurally valid, even one never produced by packing.
    pub fn from_value(value: u64) -> (s: Self)
        ensures
            s@ == value,
    {
        Self(value)
    }

    /// The packed 64-bit value.
    pub fn value(&self) -> (v: u64)
        ensures
            v == self@,
    {
        self.0
    }

    /// The packed value reinterpreted bit-for-bit as a signed integer, for
    /// ecosystems without unsigned 64-bit types.
    pub fn as_i64(&self) -> (v: i64)
        ensures
            v == self@ as i64,
    {
        #[verifier::truncate]
        (self.0 as i64)
    }

    /// The packed value as an unsigned integer.
    pub fn as_u64(&self) -> (v: u64)
        ensures
            v == self@,
    {
        self.0
    }

    /// The worker id field.
    pub fn worker(&self) -> (w: u8)
        ensures
            w == worker_of(self@),
    {
        ((self.0 >> 17) & 0x1f) as u8
    }

    /// The process id field.
    pub fn process(&self) -> (p: u8)
        ensures
            p == process_of(self@),
    {
        ((self.0 >> 12) & 0x1f) as u8
    }

    /// The increment field.
    pub fn increment(&self) -> (i: u16)
        ensures
            i == increment_of(self@),
    {
        (self.0 & 0xfff) as u16
    }

    /// The timestamp offset field: elapsed milliseconds since the epoch the
    /// identifier was packed against.
    pub fn timestamp_raw(&self) -> (t: u64)
        ensures
            t == timestamp_of(self@),
    {
        self.0 >> 22
    }

    /// The absolute wall-clock timestamp, in milliseconds since the Unix
    /// epoch, recovered by adding the supplied epoch to the offset field.
    pub fn timestamp(&self, epoch: u64) -> (t: u64)
        requires
            timestamp_of(self@) + epoch <= u64::MAX,
        ensures
            t == timestamp_of(self@) + epoch,
    {
        self.timestamp_raw() + epoch
    }

    /// Parses the canonical text form: the decimal numeral of the packed
    /// value. Succeeds exactly on nonempty all-digit strings whose value
    /// fits in 64 bits; everything else is a malformed integer, never a
    /// silent wrap.
    pub fn from_str(s: &str) -> (r: Result<Self, ParseError>)
        ensures
            r is Ok <==> is_dec_numeral(s@) && dec_val(s@) <= u64::MAX,
            r matches Ok(f) ==> f@ == dec_val(s@),
            r is Err ==> r == Err::<Snowflake, ParseError>(ParseError::MalformedInteger),
    {
        match parse_u64_decimal(s) {
            Ok(v) => Ok(Self(v)),
            Err(e) => Err(e),
        }
    }

    /// The canonical text form: the decimal numeral of the packed value.
    pub fn to_decimal_string(&self) -> (t: String)
        ensures
            t@ == dec_digits(self@ as nat),
    {
        u64_to_decimal(self.0)
    }
}

impl From<u64> for Snowflake {
    /// The same wrapping as `from_value`.
    fn from(value: u64) -> (s: Self)
        ensures
            s@ == value,
    {
        Self(value)
    }
}

impl vstd::std_specs::convert::FromSpecImpl<u64> for Snowflake {
    open spec fn obeys_from_spec() -> bool {
        true
    }

    closed spec fn from_spec(value: u64) -> Self {
        Snowflake(value)
    }
}

impl From<i64> for Snowflake {
    /// Bit-for-bit reinterpretation of a signed wire value.
    fn from(value: i64) -> (s: Self)
        ensures
            s@ == value as u64,
    {
        Self(#[verifier::truncate] (value as u64))
    }
}

impl vstd::std_specs::convert::FromSpecImpl<i64> for Snowflake {
    open spec fn obeys_from_spec() -> bool {
        true
    }

    closed spec fn from_spec(value: i64) -> Self {
        Snowflake(value as u64)
    }
}

/// The timestamp offset field never exceeds 42 bits, so adding any epoch
/// below `u64::MAX - 0x3FF_FFFF_FFFF` cannot overflow.
pub proof fn lemma_timestamp_field_bound(value: u64)
    by (bit_vector)
    ensures
        timestamp_of(value) <= 0x3FF_FFFF_FFFF,
{
}

/// Unpacking a packed value yields each input masked to its field width,
/// whatever the inputs were: the fields land in disjoint bit ranges.
pub proof fn lemma_fields_of_packed(timestamp: u64, worker: u8, process: u8, increment: u16)
    ensures
        worker_of(packed_value(timestamp, worker, process, increment)) == worker % 32,
        process_of(packed_value(timestamp, worker, process, increment)) == process % 32,
        increment_of(packed_value(timestamp, worker, process, increment)) == increment % 4096,
        timestamp_of(packed_value(timestamp, worker, process, increment)) == timestamp
            % 0x400_0000_0000,
{
    assert(worker_of(packed_value(timestamp, worker, process, increment)) == worker % 32)
        by (bit_vector);
    assert(process_of(packed_value(timestamp, worker, process, increment)) == process % 32)
        by (bit_vector);
    assert(increment_of(packed_value(timestamp, worker, process, increment)) == increment % 4096)
        by (bit_vector);
    assert(timestamp_of(packed_value(timestamp, worker, process, increment)) == timestamp
        % 0x400_0000_0000) by (bit_vector);
}

/// Law: packing and unpacking round-trip. For every worker and process id
/// up to 31, increment up to 4095 and timestamp offset up to 2^42 - 1,
/// unpacking the packed value returns the same four field values.
pub proof fn lemma_pack_round_trip(timestamp: u64, worker: u8, process: u8, increment: u16)
    by (bit_vector)
    requires
        timestamp <= 0x3FF_FFFF_FFFF,
        worker <= 31,
        process <= 31,
        increment <= 4095,
    ensures
        timestamp_of(packed_value(timestamp, worker, process, increment)) == timestamp,
        worker_of(packed_value(timestamp, worker, process, increment)) == worker,
        process_of(packed_value(timestamp, worker, process, increment)) == process,
        increment_of(packed_value(timestamp, worker, process, increment)) == increment,
{
}

/// Law: packing is injective on in-range fields. Two identifiers packed
/// from in-range fields are equal only if every field agrees; in
/// particular, identifiers minted in the same millisecond with different
/// increments are distinct.
pub proof fn lemma_pack_injective(
    t1: u64,
    w1: u8,
    p1: u8,
    i1: u16,
    t2: u64,
    w2: u8,
    p2: u8,
    i2: u16,
)
    requires
        t1 <= 0x3FF_FFFF_FFFF,
        w1 <= 31,
        p1 <= 31,
        i1 <= 4095,
        t2 <= 0x3FF_FFFF_FFFF,
        w2 <= 31,
        p2 <= 31,
        i2 <= 4095,
        packed_value(t1, w1, p1, i1) == packed_value(t2, w2, p2, i2),
    ensures
        t1 == t2,
        w1 == w2,
        p1 == p2,
        i1 == i2,
{
    lemma_pack_round_trip(t1, w1, p1, i1);
    lemma_pack_round_trip(t2, w2, p2, i2);
}

/// Law: identifiers whose increments differ within one wrap cycle are
/// distinct, whatever their timestamps, workers and processes. This is why
/// up to 4096 consecutive identifiers from one generator are unique even
/// inside a single millisecond; beyond a full cycle in one millisecond,
/// collisions are the documented tradeoff.
pub proof fn lemma_distinct_increments(
    t1: u64,
    w1: u8,
    p1: u8,
    i1: u16,
    t2: u64,
    w2: u8,
    p2: u8,
    i2: u16,
)
    requires
        i1 % 4096 != i2 % 4096,
    ensures
        packed_value(t1, w1, p1, i1) != packed_value(t2, w2, p2, i2),
{
    lemma_fields_of_packed(t1, w1, p1, i1);
    lemma_fields_of_packed(t2, w2, p2, i2);
}

/// Law: a run of identifiers from one generator is pairwise distinct as
/// long as calls at the same point of the increment cycle never read the
/// same clock millisecond. The call at position `j` of a run carries
/// increment `j % 4096` and the in-range timestamp offset `t1` read then;
/// two positions at different cycle points differ in the increment field,
/// and two at the same cycle point differ in the timestamp field. The
/// premise holds whenever fewer than 4096 identifiers are minted within
/// any one millisecond of a non-decreasing clock; a full cycle inside one
/// millisecond is the documented collision tradeoff.
pub proof fn lemma_run_distinct(t1: u64, t2: u64, worker: u8, process: u8, j: int, k: int)
    requires
        0 <= j,
        0 <= k,
        j != k,
        t1 <= 0x3FF_FFFF_FFFF,
        t2 <= 0x3FF_FFFF_FFFF,
        j % 4096 == k % 4096 ==> t1 != t2,
    ensures
        packed_value(t1, worker, process, (j % 4096) as u16) != packed_value(
            t2,
            worker,
            process,
            (k % 4096) as u16,
        ),
{
    let i1 = (j % 4096) as u16;
    let i2 = (k % 4096) as u16;
    if j % 4096 == k % 4096 {
        lemma_fields_of_packed(t1, worker, process, i1);
        lemma_fields_of_packed(t2, worker, process, i2);
        assert(timestamp_of(packed_value(t1, worker, process, i1)) == t1);
        assert(timestamp_of(packed_value(t2, worker, process, i2)) == t2);
    } else {
        assert(i1 % 4096 != i2 % 4096);
        lemma_distinct_increments(t1, worker, process, i1, t2, worker, process, i2);
    }
}

/// Law: packed values order like (timestamp, increment) pairs. For one
/// worker and process and in-range fields, an identifier from an earlier
/// millisecond, or from the same millisecond with a smaller increment,
/// packs to a smaller or equal value: successive identifiers from one
/// generator are non-decreasing while the clock does not move backward and
/// the increment does not wrap within one millisecond.
pub proof fn lemma_pack_ordered(t1: u64, t2: u64, worker: u8, process: u8, i1: u16, i2: u16)
    by (bit_vector)
    requires
        t1 <= 0x3FF_FFFF_FFFF,
        t2 <= 0x3FF_FFFF_FFFF,
        i1 <= 4095,
        i2 <= 4095,
        t1 < t2 || (t1 == t2 && i1 <= i2),
    ensures
        packed_value(t1, worker, process, i1) <= packed_value(t2, worker, process, i2),
{
}

/// Law: epoch arithmetic round-trips. For a wall clock at or after the
/// epoch and within the timestamp field's range of it, an identifier built
/// from that clock reading carries exactly the elapsed offset, so adding
/// the same epoch back recovers the absolute wall-clock time.
pub proof fn lemma_epoch_arithmetic(
    timestamp_ms: i64,
    epoch: u64,
    worker: u8,
    process: u8,
    increment: u16,
)
    by (bit_vector)
    requires
        epoch <= timestamp_ms,
        timestamp_ms - epoch <= 0x3FF_FFFF_FFFF,
    ensures
        offset_bits(timestamp_ms, epoch) == timestamp_ms - epoch,
        timestamp_of(packed_value(offset_bits(timestamp_ms, epoch), worker, process, increment))
            + epoch == timestamp_ms,
{
}

/// Law: the signed 64-bit reinterpretation round-trips exactly, so an
/// identifier interchanged as a signed integer recovers the same packed
/// value.
pub proof fn lemma_signed_round_trip(value: u64)
    by (bit_vector)
    ensures
        (value as i64) as u64 == value,
{
}

} // verus!

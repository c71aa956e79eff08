//! Estimating a future block height from two observed block samples, and
//! parsing the height and timestamp fields of a block query response.

use vstd::prelude::*;

use crate::date::{valid_date_time, CivilDate, CivilDateTime};
use crate::strutil::{
    all_digits, digit_val, is_digit, lemma_dec_value_prefix_le, spec_dec_value,
};

verus! {

/// The fixed distance, in blocks, between the two samples used for the
/// block time estimation.
pub const N_BLOCKS: u64 = 50_000;

/// A block observed on the chain: its height and its timestamp, as seconds
/// since the Unix epoch (UTC).
#[derive(Clone, Copy, Debug, PartialEq, Eq, Structural)]
pub struct BlockSample {
    pub height: u64,
    pub time: i64,
}

/// Why an estimation request was rejected.
#[derive(Clone, Copy, Debug, PartialEq, Eq, Structural)]
pub enum EstimateError {
    /// The sample pair does not satisfy the exact-distance or forward-time
    /// invariants.
    MalformedSample,
    /// The two samples carry identical timestamps, so no block rate can be
    /// derived from them.
    DegenerateBlockRate,
}

/// Signed division that rounds towards zero.
pub open spec fn spec_trunc_div(a: int, b: int) -> int {
    if a >= 0 {
        a / b
    } else {
        -((-a) / b)
    }
}

/// Whether a sample pair is usable for estimation: the heights are exactly
/// `N_BLOCKS` apart and time moves strictly forward across the samples.
pub open spec fn samples_usable(latest: BlockSample, reference: BlockSample) -> bool {
    &&& latest.height - reference.height == N_BLOCKS
    &&& latest.time > reference.time
}

/// The mathematically exact estimate, before clamping to the height range:
/// the latest height plus the seconds to the target divided by the seconds
/// per block, rounded towards zero.
///
/// Seconds per block is `elapsed / N_BLOCKS`, so the quotient is computed
/// as `seconds_to_target * N_BLOCKS / elapsed`, rounding towards zero once.
pub open spec fn spec_raw_estimate(
    latest: BlockSample,
    reference: BlockSample,
    target_time: int,
) -> int {
    latest.height + spec_trunc_div(
        (target_time - latest.time) * N_BLOCKS,
        latest.time - reference.time,
    )
}

/// Clamping an estimate into the representable height range.
pub open spec fn spec_clamp_height(x: int) -> int {
    if x < 0 {
        0
    } else if x > u64::MAX {
        u64::MAX as int
    } else {
        x
    }
}

/// The full contract of `estimate`: which inputs are rejected with which
/// error, and the exact value returned for the rest.
pub open spec fn spec_estimate(
    latest: BlockSample,
    reference: BlockSample,
    target_time: int,
) -> Result<u64, EstimateError> {
    if latest.height - reference.height != N_BLOCKS || latest.time < reference.time {
        Err(EstimateError::MalformedSample)
    } else if latest.time == reference.time {
        Err(EstimateError::DegenerateBlockRate)
    } else {
        Ok(spec_clamp_height(spec_raw_estimate(latest, reference, target_time)) as u64)
    }
}

/// Estimates the block height that the chain will have reached at
/// `target_time`, from the timing observed between the two samples.
///
/// A target in the past is permitted and yields a height below the latest
/// sampled height; an estimate outside the representable height range is
/// clamped to it.  Sample pairs that are not exactly `N_BLOCKS` apart, or
/// whose timestamps run backwards, are rejected as malformed; a pair with
/// identical timestamps admits no block rate and is rejected as degenerate.
pub fn estimate(
    latest: &BlockSample,
    reference: &BlockSample,
    target_time: i64,
) -> (r: Result<u64, EstimateError>)
    ensures
        r == spec_estimate(*latest, *reference, target_time as int),
{
    if latest.height < reference.height || latest.height - reference.height != N_BLOCKS
        || latest.time < reference.time {
        return Err(EstimateError::MalformedSample);
    }
    if latest.time == reference.time {
        return Err(EstimateError::DegenerateBlockRate);
    }
    let elapsed: u128 = (latest.time as i128 - reference.time as i128) as u128;
    let diff: i128 = target_time as i128 - latest.time as i128;
    if diff >= 0 {
        let q: u128 = (diff as u128 * N_BLOCKS as u128) / elapsed;
        proof {
            vstd::arithmetic::div_mod::lemma_div_pos_is_pos(diff * N_BLOCKS, elapsed as int);
        }
        if q > u64::MAX as u128 - latest.height as u128 {
            Ok(u64::MAX)
        } else {
            Ok(latest.height + q as u64)
        }
    } else {
        let q: u128 = ((-diff) as u128 * N_BLOCKS as u128) / elapsed;
        proof {
            vstd::arithmetic::div_mod::lemma_div_pos_is_pos(-diff * N_BLOCKS, elapsed as int);
        }
        if q >= latest.height as u128 {
            Ok(0)
        } else {
            Ok(latest.height - q as u64)
        }
    }
}

/// Division truncating towards zero is monotone in the dividend, for any
/// positive divisor.
proof fn lemma_trunc_div_mono(a: int, b: int, d: int)
    requires
        a <= b,
        0 < d,
    ensures
        spec_trunc_div(a, d) <= spec_trunc_div(b, d),
{
    if a >= 0 {
        vstd::arithmetic::div_mod::lemma_div_is_ordered(a, b, d);
    } else if b >= 0 {
        vstd::arithmetic::div_mod::lemma_div_pos_is_pos(-a, d);
        vstd::arithmetic::div_mod::lemma_div_pos_is_pos(b, d);
    } else {
        vstd::arithmetic::div_mod::lemma_div_is_ordered(-b, -a, d);
    }
}

/// A later target time never yields a lower estimated height: for any
/// usable sample pair, the estimate is monotonically increasing in the
/// target time.
pub proof fn lemma_estimate_monotonic(
    latest: BlockSample,
    reference: BlockSample,
    t1: int,
    t2: int,
)
    requires
        samples_usable(latest, reference),
        t1 <= t2,
    ensures
        spec_estimate(latest, reference, t1) is Ok,
        spec_estimate(latest, reference, t2) is Ok,
        spec_estimate(latest, reference, t1)->Ok_0 <= spec_estimate(latest, reference, t2)->Ok_0,
{
    lemma_trunc_div_mono(
        (t1 - latest.time) * N_BLOCKS,
        (t2 - latest.time) * N_BLOCKS,
        latest.time - reference.time,
    );
}

/// The parse of a height field: the numeric value of a non-empty run of
/// decimal digits, when it fits the height range.
pub open spec fn spec_parse_height(s: Seq<char>) -> Option<u64> {
    if s.len() >= 1 && all_digits(s) && spec_dec_value(s) <= u64::MAX {
        Some(spec_dec_value(s) as u64)
    } else {
        None
    }
}

/// Parses the height field of a block query response: a non-empty run of
/// decimal digits whose value fits the height range.
pub fn parse_height(s: &str) -> (r: Option<u64>)
    ensures
        r == spec_parse_height(s@),
{
    let n = s.unicode_len();
    if n == 0 {
        return None;
    }
    let mut v: u64 = 0;
    let mut i: usize = 0;
    while i < n
        invariant
            i <= n,
            n == s@.len(),
            all_digits(s@.take(i as int)),
            v == spec_dec_value(s@.take(i as int)),
        decreases n - i,
    {
        let c = s.get_char(i);
        let u = c as u32;
        if u < 48 || u > 57 {
            return None;
        }
        let d = (u - 48) as u64;
        proof {
            assert(s@.take(i + 1).drop_last() =~= s@.take(i as int));
            assert(all_digits(s@.take(i + 1)));
        }
        if v > (u64::MAX - d) / 10 {
            proof {
                vstd::arithmetic::div_mod::lemma_fundamental_div_mod((u64::MAX - d) as int, 10);
                vstd::arithmetic::div_mod::lemma_mod_division_less_than_divisor(
                    (u64::MAX - d) as int,
                    10,
                );
                if all_digits(s@) {
                    lemma_dec_value_prefix_le(s@, i + 1);
                }
            }
            return None;
        }
        proof {
            vstd::arithmetic::div_mod::lemma_fundamental_div_mod((u64::MAX - d) as int, 10);
            vstd::arithmetic::div_mod::lemma_mod_division_less_than_divisor(
                (u64::MAX - d) as int,
                10,
            );
        }
        v = v * 10 + d;
        i = i + 1;
    }
    proof {
        assert(s@.take(n as int) =~= s@);
    }
    Some(v)
}

/// Whether `c` can occur in the timestamp part of a block query response:
/// a digit or one of the separators `T`, `-` and `:`.
pub open spec fn is_time_class(c: char) -> bool {
    is_digit(c) || c == 'T' || c == '-' || c == ':'
}

/// The first position at or after `i` holding a timestamp character.
pub open spec fn class_start(s: Seq<char>, i: int) -> int
    decreases s.len() - i,
    when 0 <= i <= s.len()
{
    if i < s.len() && !is_time_class(s[i]) {
        class_start(s, i + 1)
    } else {
        i
    }
}

/// The first position at or after `i` holding no timestamp character.
pub open spec fn class_end(s: Seq<char>, i: int) -> int
    decreases s.len() - i,
    when 0 <= i <= s.len()
{
    if i < s.len() && is_time_class(s[i]) {
        class_end(s, i + 1)
    } else {
        i
    }
}

/// Whether a captured run has the shape `YYYY-MM-DDTHH:MM:SS`.
pub open spec fn spec_timestamp_shape(run: Seq<char>) -> bool {
    &&& run.len() == 19
    &&& is_digit(run[0])
    &&& is_digit(run[1])
    &&& is_digit(run[2])
    &&& is_digit(run[3])
    &&& run[4] == '-'
    &&& is_digit(run[5])
    &&& is_digit(run[6])
    &&& run[7] == '-'
    &&& is_digit(run[8])
    &&& is_digit(run[9])
    &&& run[10] == 'T'
    &&& is_digit(run[11])
    &&& is_digit(run[12])
    &&& run[13] == ':'
    &&& is_digit(run[14])
    &&& is_digit(run[15])
    &&& run[16] == ':'
    &&& is_digit(run[17])
    &&& is_digit(run[18])
}

/// The value of two digits of a run.
pub open spec fn two_digits(run: Seq<char>, i: int) -> int {
    digit_val(run[i]) * 10 + digit_val(run[i + 1])
}

/// The date and time encoded in a run of the shape `YYYY-MM-DDTHH:MM:SS`.
pub open spec fn spec_run_date_time(run: Seq<char>) -> CivilDateTime {
    CivilDateTime {
        date: CivilDate {
            year: (digit_val(run[0]) * 1000 + digit_val(run[1]) * 100 + digit_val(run[2]) * 10
                + digit_val(run[3])) as i64,
            month: two_digits(run, 5) as u8,
            day: two_digits(run, 8) as u8,
        },
        hour: two_digits(run, 11) as u8,
        minute: two_digits(run, 14) as u8,
        second: two_digits(run, 17) as u8,
    }
}

/// The parse of the timestamp field of a block query response: the first
/// run of timestamp characters (digits and the separators `T`, `-`, `:`),
/// which trims a fractional-seconds part and a trailing zone marker, must
/// have the shape `YYYY-MM-DDTHH:MM:SS` and denote an existing date and
/// time of day.
pub open spec fn spec_parse_block_time(s: Seq<char>) -> Option<CivilDateTime> {
    let a = class_start(s, 0);
    if a == s.len() {
        None
    } else {
        let run = s.subrange(a, class_end(s, a));
        if spec_timestamp_shape(run) && valid_date_time(spec_run_date_time(run)) {
            Some(spec_run_date_time(run))
        } else {
            None
        }
    }
}

/// Returns whether `c` can occur in the timestamp part of a response.
fn is_time_class_char(c: char) -> (r: bool)
    ensures
        r == is_time_class(c),
{
    let u = c as u32;
    (48 <= u && u <= 57) || c == 'T' || c == '-' || c == ':'
}

/// Reads the digit at position `i` of the text.
fn digit_at(s: &str, i: usize) -> (r: Option<u8>)
    requires
        i < s@.len(),
    ensures
        match r {
            Some(d) => is_digit(s@[i as int]) && d == digit_val(s@[i as int]),
            None => !is_digit(s@[i as int]),
        },
{
    let u = s.get_char(i) as u32;
    if 48 <= u && u <= 57 {
        Some((u - 48) as u8)
    } else {
        None
    }
}

/// Parses the timestamp field of a block query response.  The first run
/// of digits and date separators is taken, which trims fractional seconds
/// and a trailing zone marker; it must have the shape
/// `YYYY-MM-DDTHH:MM:SS` and denote an existing date and time of day.
pub fn parse_block_time(s: &str) -> (r: Option<CivilDateTime>)
    ensures
        r == spec_parse_block_time(s@),
        r is Some ==> valid_date_time(r->0),
{
    let n = s.unicode_len();
    let mut a: usize = 0;
    while a < n && !is_time_class_char(s.get_char(a))
        invariant
            a <= n,
            n == s@.len(),
            class_start(s@, 0) == class_start(s@, a as int),
        decreases n - a,
    {
        a = a + 1;
    }
    if a == n {
        return None;
    }
    let mut b: usize = a;
    while b < n && is_time_class_char(s.get_char(b))
        invariant
            a <= b <= n,
            n == s@.len(),
            class_end(s@, a as int) == class_end(s@, b as int),
        decreases n - b,
    {
        b = b + 1;
    }
    let ghost run = s@.subrange(a as int, b as int);
    if b - a != 19 {
        return None;
    }
    let sep_ok = s.get_char(a + 4) == '-' && s.get_char(a + 7) == '-' && s.get_char(a + 10) == 'T'
        && s.get_char(a + 13) == ':' && s.get_char(a + 16) == ':';
    if !sep_ok {
        return None;
    }
    let d0 = digit_at(s, a);
    let d1 = digit_at(s, a + 1);
    let d2 = digit_at(s, a + 2);
    let d3 = digit_at(s, a + 3);
    let m0 = digit_at(s, a + 5);
    let m1 = digit_at(s, a + 6);
    let day0 = digit_at(s, a + 8);
    let day1 = digit_at(s, a + 9);
    let h0 = digit_at(s, a + 11);
    let h1 = digit_at(s, a + 12);
    let min0 = digit_at(s, a + 14);
    let min1 = digit_at(s, a + 15);
    let s0 = digit_at(s, a + 17);
    let s1 = digit_at(s, a + 18);
    match (d0, d1, d2, d3, m0, m1, day0, day1, h0, h1, min0, min1, s0, s1) {
        (
            Some(d0),
            Some(d1),
            Some(d2),
            Some(d3),
            Some(m0),
            Some(m1),
            Some(day0),
            Some(day1),
            Some(h0),
            Some(h1),
            Some(min0),
            Some(min1),
            Some(s0),
            Some(s1),
        ) => {
            let year: i64 = d0 as i64 * 1000 + d1 as i64 * 100 + d2 as i64 * 10 + d3 as i64;
            let month: u8 = m0 * 10 + m1;
            let day: u8 = day0 * 10 + day1;
            let hour: u8 = h0 * 10 + h1;
            let minute: u8 = min0 * 10 + min1;
            let second: u8 = s0 * 10 + s1;
            proof {
                assert(spec_timestamp_shape(run));
            }
            if year < 1 || month < 1 || month > 12 {
                return None;
            }
            if day < 1 || day > crate::date::days_in_month(year, month) {
                return None;
            }
            if hour >= 24 || minute >= 60 || second >= 60 {
                return None;
            }
            Some(
                CivilDateTime {
                    date: CivilDate { year, month, day },
                    hour,
                    minute,
                    second,
                },
            )
        },
        _ => None,
    }
}

/// A target five days (or more) past the latest sample yields an estimate
/// strictly above the latest sampled height, for any usable sample pair
/// whose timestamps span at most 21 600 000 000 seconds — the block rate
/// is then at least one block per five days — and whose latest height is
/// not already the largest representable one.  (For a wider spacing the
/// truncated block count is zero and the estimate equals the latest
/// height.)
pub proof fn lemma_estimate_five_days_ahead(
    latest: BlockSample,
    reference: BlockSample,
    target_time: int,
)
    requires
        samples_usable(latest, reference),
        latest.height < u64::MAX,
        target_time - latest.time >= 432_000,
        latest.time - reference.time <= 21_600_000_000,
    ensures
        spec_estimate(latest, reference, target_time) is Ok,
        spec_estimate(latest, reference, target_time)->Ok_0 > latest.height,
{
    let elapsed = latest.time - reference.time;
    let num = (target_time - latest.time) * N_BLOCKS;
    vstd::arithmetic::div_mod::lemma_div_by_self(elapsed);
    vstd::arithmetic::div_mod::lemma_div_is_ordered(elapsed, num, elapsed);
}

/// The estimate is a pure function of its inputs: two calls on equal
/// samples and an equal target time return the same result.
pub proof fn lemma_estimate_deterministic(
    latest1: BlockSample,
    reference1: BlockSample,
    t1: int,
    latest2: BlockSample,
    reference2: BlockSample,
    t2: int,
)
    requires
        latest1 == latest2,
        reference1 == reference2,
        t1 == t2,
    ensures
        spec_estimate(latest1, reference1, t1) == spec_estimate(latest2, reference2, t2),
{
}

} // verus!

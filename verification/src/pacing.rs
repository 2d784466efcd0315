use vstd::prelude::*;
use crate::recognizer_info::RecognizerInfo;
use crate::recognizer_options::RecognizerOptions;

verus! {

/// Nine tenths of the time that a buffer takes to play, in milliseconds,
/// rounded up to a whole one: the smallest whole number of milliseconds that
/// is not below `0.9 * 1000 * samples / (sample_rate * channel_count)`.
pub open spec fn realtime_delay_millis(samples: int, sample_rate: int, channel_count: int) -> int {
    (900 * samples + sample_rate * channel_count - 1) / (sample_rate * channel_count)
}

/// The delay that follows a buffer: [`realtime_delay_millis`] for an engine
/// that is bound to real time, nothing for any other. A delay beyond what 64
/// bits hold is cut to the largest that they do.
pub open spec fn write_delay(
    is_realtime_only: bool,
    samples: int,
    sample_rate: int,
    channel_count: int,
) -> int {
    if !is_realtime_only {
        0
    } else if realtime_delay_millis(samples, sample_rate, channel_count) > u64::MAX {
        u64::MAX as int
    } else {
        realtime_delay_millis(samples, sample_rate, channel_count)
    }
}

/// How many milliseconds to wait after a buffer of `samples` samples has
/// been handed to the engine, before `write` returns.
pub fn write_delay_millis(info: &RecognizerInfo, options: &RecognizerOptions, samples: usize) -> (millis:
    u64)
    requires
        options@.valid(),
    ensures
        millis == write_delay(
            info.is_realtime_only,
            samples as int,
            options.sample_rate as int,
            options.channel_count as int,
        ),
{
    if !info.is_realtime_only {
        return 0;
    }
    let rate: u128 = options.sample_rate as u128;
    let channels: u128 = options.channel_count as u128;
    assert(1 <= rate * channels <= 0x8000_0000 * 0x8000_0000) by (nonlinear_arith)
        requires
            1 <= rate < 0x8000_0000,
            1 <= channels < 0x8000_0000,
    ;
    let per_second: u128 = rate * channels;
    let millis: u128 = (900 * (samples as u128) + per_second - 1) / per_second;
    if millis > u64::MAX as u128 {
        u64::MAX
    } else {
        millis as u64
    }
}

/// The delay is never below nine tenths of the buffer's duration, and
/// exceeds it by less than a millisecond: with `d` the delay in milliseconds,
/// `d - 1 < 0.9 * 1000 * samples / (rate * channels) <= d`.
pub proof fn lemma_delay_covers_real_time(samples: int, sample_rate: int, channel_count: int)
    requires
        samples >= 0,
        sample_rate > 0,
        channel_count >= 1,
    ensures
        ({
            let d = realtime_delay_millis(samples, sample_rate, channel_count);
            &&& 0 <= d
            &&& 900 * samples <= d * (sample_rate * channel_count)
            &&& (d - 1) * (sample_rate * channel_count) < 900 * samples
        }),
{
    let per_second = sample_rate * channel_count;
    assert(per_second >= 1) by (nonlinear_arith)
        requires
            per_second == sample_rate * channel_count,
            sample_rate > 0,
            channel_count >= 1,
    ;
    let padded = 900 * samples + per_second - 1;
    let d = padded / per_second;
    assert(d * per_second <= padded < (d + 1) * per_second && d >= 0) by (nonlinear_arith)
        requires
            d == padded / per_second,
            per_second >= 1,
            padded >= 0,
    ;
    assert((d - 1) * per_second == d * per_second - per_second && (d + 1) * per_second == d
        * per_second + per_second) by (nonlinear_arith);
}

} // verus!

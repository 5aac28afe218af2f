//! Conditioning of raw converter readings before they enter the pipeline.

use vstd::prelude::*;

verus! {

/// How many raw readings are averaged into one sample.
pub const READINGS_PER_SAMPLE: usize = 32;

/// The sum of a run of raw readings.
pub open spec fn sum_of_readings(readings: Seq<u16>) -> int
    decreases readings.len(),
{
    if readings.len() == 0 {
        0
    } else {
        readings[0] + sum_of_readings(readings.skip(1))
    }
}

/// Appending one reading adds it to the sum.
pub proof fn lemma_sum_of_readings_push(readings: Seq<u16>, reading: u16)
    ensures
        sum_of_readings(readings.push(reading)) == sum_of_readings(readings) + reading,
    decreases readings.len(),
{
    if readings.len() == 0 {
        assert(readings.push(reading).skip(1) =~= readings);
    } else {
        assert(readings.push(reading).skip(1) =~= readings.skip(1).push(reading));
        lemma_sum_of_readings_push(readings.skip(1), reading);
    }
}

/// The sum of a run of readings is at most the largest reading times the
/// run's length.
proof fn lemma_sum_of_readings_bound(readings: Seq<u16>)
    ensures
        0 <= sum_of_readings(readings) <= 65535 * readings.len(),
    decreases readings.len(),
{
    if readings.len() > 0 {
        lemma_sum_of_readings_bound(readings.skip(1));
    }
}

/// Averages one sample's worth of raw converter readings, rounding down:
/// the noise filter in front of the decimator.
pub fn average_readings(readings: &[u16]) -> (average: u16)
    requires
        readings@.len() == READINGS_PER_SAMPLE,
    ensures
        average == sum_of_readings(readings@) / 32,
{
    let mut sum: u32 = 0;
    let mut i: usize = 0;
    proof {
        assert(readings@.take(0) =~= Seq::<u16>::empty());
    }
    while i < READINGS_PER_SAMPLE
        invariant
            i <= READINGS_PER_SAMPLE,
            readings@.len() == READINGS_PER_SAMPLE,
            sum == sum_of_readings(readings@.take(i as int)),
            sum <= 65535 * i,
        decreases READINGS_PER_SAMPLE - i,
    {
        let reading = readings[i];
        proof {
            assert(readings@.take(i + 1 as int) =~= readings@.take(i as int).push(
                readings@[i as int],
            ));
            lemma_sum_of_readings_push(readings@.take(i as int), readings@[i as int]);
        }
        sum = sum + reading as u32;
        i += 1;
    }
    proof {
        assert(readings@.take(READINGS_PER_SAMPLE as int) =~= readings@);
    }
    (sum / 32) as u16
}

} // verus!

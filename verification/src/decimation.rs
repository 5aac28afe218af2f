//! Online line decimation: per incoming sample, decide whether the
//! previously kept sample still matters for the waveform's shape.
//!
//! A middle point between two neighbours is removable when it deviates from
//! the straight line joining the neighbours by less than a tolerance band.
//! The band is widest at the temporal midpoint and closes to nothing at
//! either neighbour, and it scales with the voltage swing across the pair.
//! All of it is computed exactly: both sides of the comparison are brought
//! onto the common denominator (the time span and the tolerance scale), so
//! the decision is a strict comparison of two products of integers, with no
//! rounding anywhere.

use crate::buffer::CyclicBuffer;
use crate::buffer::CyclicWriter;
use crate::point::COORDINATE_LIMIT;
use crate::point::OscilliscopePoint;
use crate::point::point_in_range;
use vstd::prelude::*;

verus! {

/// Denominator of the tolerance factor: a factor of `n` stands for the
/// fraction `n / 1000`, so `500` is one half.
pub const TOLERANCE_FACTOR_SCALE: u32 = 1000;

/// Whether `middle` lies exactly on the straight line from `left` to
/// `right`, in cross-multiplied form (zero interpolation deviation).
pub open spec fn collinear(
    left: OscilliscopePoint,
    middle: OscilliscopePoint,
    right: OscilliscopePoint,
) -> bool {
    (middle.voltage - left.voltage) * (right.second - left.second) == (right.voltage
        - left.voltage) * (middle.second - left.second)
}

/// The removal decision, stated exactly.
///
/// With `dv` the voltage swing, `dt` the time span and `u` the middle
/// point's offset from `left`:
/// - a swing smaller than `min_voltage_difference` is detail not worth
///   keeping: removable outright;
/// - a zero time span cannot be interpolated over: removable outright;
/// - otherwise the middle point is removable exactly when its deviation
///   from the interpolated line is strictly below the tolerance
///   `(tolerance_factor / 2000) · proximity · |dv|`, where `proximity`
///   falls linearly from one at the temporal midpoint to zero at either
///   end. Multiplying the strict comparison through by `|dt|` and the
///   tolerance scale gives the integer form written here.
pub open spec fn spec_removable(
    left: OscilliscopePoint,
    middle: OscilliscopePoint,
    right: OscilliscopePoint,
    tolerance_factor: int,
    min_voltage_difference: int,
) -> bool {
    let dv = right.voltage - left.voltage;
    if vstd::math::abs(dv) < min_voltage_difference {
        true
    } else if right.second == left.second {
        true
    } else {
        let dt = right.second - left.second;
        let u = middle.second - left.second;
        let deviation_scaled = (left.voltage - middle.voltage) * dt + dv * u;
        2000 * (vstd::math::abs(deviation_scaled) as int) < tolerance_factor * ((vstd::math::abs(
            dt,
        ) as int) - (vstd::math::abs(dt - 2 * u) as int)) * (vstd::math::abs(dv) as int)
    }
}

/// The product of two values bounded in magnitude is bounded by the
/// product of the bounds.
proof fn lemma_mul_bound(a: int, b: int, bound_a: int, bound_b: int)
    by (nonlinear_arith)
    requires
        -bound_a <= a <= bound_a,
        -bound_b <= b <= bound_b,
        0 <= bound_a,
        0 <= bound_b,
    ensures
        -(bound_a * bound_b) <= a * b <= bound_a * bound_b,
{
}

/// Decides whether `middle` may be dropped from the stream running from
/// `left` to `right`, exactly as `spec_removable` states it.
pub fn is_middle_point_removable_complicated(
    left: &OscilliscopePoint,
    middle: &OscilliscopePoint,
    right: &OscilliscopePoint,
    tolerance_factor: u32,
    min_voltage_difference: i64,
) -> (removable: bool)
    requires
        point_in_range(*left),
        point_in_range(*middle),
        point_in_range(*right),
        tolerance_factor <= TOLERANCE_FACTOR_SCALE,
        0 <= min_voltage_difference,
    ensures
        removable == spec_removable(
            *left,
            *middle,
            *right,
            tolerance_factor as int,
            min_voltage_difference as int,
        ),
{
    let dv: i128 = right.voltage as i128 - left.voltage as i128;
    let abs_dv: i128 = if dv < 0 {
        -dv
    } else {
        dv
    };
    if abs_dv < min_voltage_difference as i128 {
        return true;
    }
    let dt: i128 = right.second as i128 - left.second as i128;
    if dt == 0 {
        return true;
    }
    let u: i128 = middle.second as i128 - left.second as i128;
    let base: i128 = left.voltage as i128 - middle.voltage as i128;
    proof {
        lemma_mul_bound(base as int, dt as int, 2 * (COORDINATE_LIMIT as int), 2 * (
        COORDINATE_LIMIT as int));
        lemma_mul_bound(dv as int, u as int, 2 * (COORDINATE_LIMIT as int), 2 * (
        COORDINATE_LIMIT as int));
    }
    let deviation_scaled: i128 = base * dt + dv * u;
    let abs_deviation: i128 = if deviation_scaled < 0 {
        -deviation_scaled
    } else {
        deviation_scaled
    };
    let abs_dt: i128 = if dt < 0 {
        -dt
    } else {
        dt
    };
    let off_center: i128 = dt - 2 * u;
    let abs_off_center: i128 = if off_center < 0 {
        -off_center
    } else {
        off_center
    };
    let proximity_scaled: i128 = abs_dt - abs_off_center;
    proof {
        lemma_mul_bound(tolerance_factor as int, proximity_scaled as int, 1000, 6 * (
        COORDINATE_LIMIT as int));
    }
    let tolerance_part: i128 = (tolerance_factor as i128) * proximity_scaled;
    proof {
        lemma_mul_bound(tolerance_part as int, abs_dv as int, 6000 * (COORDINATE_LIMIT as int), 2
            * (COORDINATE_LIMIT as int));
    }
    let deviation_side: i128 = 2000 * abs_deviation;
    let tolerance_side: i128 = tolerance_part * abs_dv;
    deviation_side < tolerance_side
}

/// Parameters of the decimation filter, validated by the caller: the
/// tolerance factor is a fraction of `TOLERANCE_FACTOR_SCALE` between zero
/// and one, the minimum voltage swing is non-negative microvolts, and the
/// heartbeat interval is non-negative microseconds.
#[derive(Clone, Copy, Debug, PartialEq, Eq, Structural)]
pub struct DecimatorConfig {
    pub tolerance_factor: u32,
    pub min_voltage_difference: i64,
    pub heartbeat_interval: i64,
}

/// The configuration lies within the ranges the filter is specified for.
pub open spec fn config_valid(config: DecimatorConfig) -> bool {
    &&& config.tolerance_factor <= TOLERANCE_FACTOR_SCALE
    &&& 0 <= config.min_voltage_difference
    &&& 0 <= config.heartbeat_interval
}

/// The filter's whole state: the two most recently kept samples. `last` is
/// the speculatively kept newest sample — it sits in the buffer's newest
/// slot and may still be coalesced away; `before_last` is already final.
#[derive(Clone, Copy, Debug, PartialEq, Eq, Structural)]
pub struct DecimatorState {
    pub before_last: OscilliscopePoint,
    pub last: OscilliscopePoint,
}

/// Both retained samples lie within the coordinate bound.
pub open spec fn state_in_range(state: DecimatorState) -> bool {
    &&& point_in_range(state.before_last)
    &&& point_in_range(state.last)
}

/// The speculative sample lies more than the heartbeat interval after the
/// last final sample: it must be kept, so that the stream advances even on
/// an unchanging signal.
pub open spec fn heartbeat_due(state: DecimatorState, config: DecimatorConfig) -> bool {
    state.last.second - state.before_last.second > config.heartbeat_interval
}

/// Whether a step on `new` keeps the speculative sample: either the
/// heartbeat forces it, or `new` shows that the speculative sample bends
/// the waveform too much to be dropped.
pub open spec fn spec_keeps(
    state: DecimatorState,
    new: OscilliscopePoint,
    config: DecimatorConfig,
) -> bool {
    heartbeat_due(state, config) || !spec_removable(
        state.before_last,
        state.last,
        new,
        config.tolerance_factor as int,
        config.min_voltage_difference as int,
    )
}

/// What one fed sample did to the buffer.
#[derive(Clone, Copy, Debug, PartialEq, Eq, Structural)]
pub enum FeedOutcome {
    /// The previously kept sample became final and the new sample was
    /// appended behind it.
    Appended,
    /// The previously kept sample became final, but the buffer was full:
    /// the new sample was dropped and counted as missed.
    Dropped,
    /// The new sample coalesced into the speculative newest slot.
    Coalesced,
}

impl DecimatorState {
    /// A fresh filter that has seen one sample: both retained samples are
    /// that sample, so nothing is due and nothing can be interpolated yet.
    pub fn new(initial: OscilliscopePoint) -> (state: DecimatorState)
        ensures
            state.before_last == initial,
            state.last == initial,
    {
        DecimatorState { before_last: initial, last: initial }
    }

    /// Advances the filter by one raw sample and reports whether the
    /// speculative sample is to be kept. The new sample always becomes the
    /// speculative one; `before_last` advances only on keep.
    pub fn step(&mut self, new: OscilliscopePoint, config: &DecimatorConfig) -> (keeps: bool)
        requires
            state_in_range(*old(self)),
            point_in_range(new),
            config_valid(*config),
        ensures
            keeps == spec_keeps(*old(self), new, *config),
            final(self).last == new,
            final(self).before_last == if spec_keeps(*old(self), new, *config) {
                old(self).last
            } else {
                old(self).before_last
            },
            state_in_range(*final(self)),
    {
        let elapsed: i64 = self.last.second - self.before_last.second;
        let keeps: bool = if elapsed > config.heartbeat_interval {
            true
        } else {
            !is_middle_point_removable_complicated(
                &self.before_last,
                &self.last,
                &new,
                config.tolerance_factor,
                config.min_voltage_difference,
            )
        };
        if keeps {
            self.before_last = self.last;
        }
        self.last = new;
        keeps
    }

    /// Feeds one raw sample through the filter into the buffer: on keep the
    /// new sample is appended as the next speculative entry (or dropped and
    /// counted when only the reserved slot is free); otherwise it coalesces
    /// into the newest unread entry, or restarts an emptied buffer.
    pub fn feed(
        &mut self,
        writer: &mut CyclicWriter,
        buffer: &mut CyclicBuffer<OscilliscopePoint>,
        new: OscilliscopePoint,
        config: &DecimatorConfig,
    ) -> (outcome: FeedOutcome)
        requires
            state_in_range(*old(self)),
            point_in_range(new),
            config_valid(*config),
            old(buffer).wf(),
        ensures
            final(self).last == new,
            final(self).before_last == if spec_keeps(*old(self), new, *config) {
                old(self).last
            } else {
                old(self).before_last
            },
            state_in_range(*final(self)),
            final(buffer).wf(),
            final(buffer).capacity() == old(buffer).capacity(),
            final(buffer).read_pos() == old(buffer).read_pos(),
            final(buffer).writer_available() == old(buffer).writer_available(),
            final(buffer).reader_available() == old(buffer).reader_available(),
            (outcome == FeedOutcome::Coalesced) == !spec_keeps(*old(self), new, *config),
            spec_keeps(*old(self), new, *config) && old(buffer).count() < old(buffer).capacity()
                - 1 ==> {
                &&& outcome == FeedOutcome::Appended
                &&& final(buffer).unread() == old(buffer).unread().push(new)
                &&& final(buffer).count() == old(buffer).count() + 1
                &&& final(buffer).missed_count() == old(buffer).missed_count()
            },
            spec_keeps(*old(self), new, *config) && old(buffer).count() == old(buffer).capacity()
                - 1 ==> {
                &&& outcome == FeedOutcome::Dropped
                &&& final(buffer).unread() == old(buffer).unread()
                &&& final(buffer).count() == old(buffer).count()
                &&& final(buffer).missed_count() == if old(buffer).missed_count() < u64::MAX {
                    old(buffer).missed_count() + 1
                } else {
                    old(buffer).missed_count()
                }
            },
            !spec_keeps(*old(self), new, *config) ==> {
                &&& final(buffer).missed_count() == old(buffer).missed_count()
                &&& if old(buffer).count() >= 1 {
                    &&& final(buffer).unread() == old(buffer).unread().update(
                        old(buffer).count() - 1,
                        new,
                    )
                    &&& final(buffer).count() == old(buffer).count()
                } else {
                    &&& final(buffer).unread() == seq![new]
                    &&& final(buffer).count() == 1
                }
            },
    {
        let keeps = self.step(new, config);
        if keeps {
            match writer.append(buffer, new) {
                Ok(_) => FeedOutcome::Appended,
                Err(_) => FeedOutcome::Dropped,
            }
        } else {
            writer.replace_last_or_append(buffer, new);
            FeedOutcome::Coalesced
        }
    }
}

/// A voltage swing below the configured minimum makes the middle point
/// removable unconditionally, whatever the middle point is.
pub proof fn lemma_below_min_difference_removable(
    left: OscilliscopePoint,
    middle: OscilliscopePoint,
    right: OscilliscopePoint,
    tolerance_factor: int,
    min_voltage_difference: int,
)
    requires
        vstd::math::abs(right.voltage - left.voltage) < min_voltage_difference,
    ensures
        spec_removable(left, middle, right, tolerance_factor, min_voltage_difference),
{
}

/// With a zero tolerance factor and a zero minimum swing, a removable
/// middle point must lie exactly on the line through its neighbours. The
/// strict comparison in fact accepts no middle point at all at zero
/// tolerance — a non-negative deviation is never strictly below zero — so
/// an accepted point is collinear a fortiori.
pub proof fn lemma_zero_tolerance_keeps_only_collinear(
    left: OscilliscopePoint,
    middle: OscilliscopePoint,
    right: OscilliscopePoint,
)
    requires
        left.second != right.second,
    ensures
        spec_removable(left, middle, right, 0, 0) ==> collinear(left, middle, right),
{
    let dv = right.voltage - left.voltage;
    let dt = right.second - left.second;
    let u = middle.second - left.second;
    let deviation_scaled = (left.voltage - middle.voltage) * dt + dv * u;
    assert(0 * ((vstd::math::abs(dt) as int) - (vstd::math::abs(dt - 2 * u) as int)) == 0);
    assert(0 * ((vstd::math::abs(dt) as int) - (vstd::math::abs(dt - 2 * u) as int)) * (
    vstd::math::abs(dv) as int) == 0) by (nonlinear_arith);
    assert(!spec_removable(left, middle, right, 0, 0));
}

/// On a perfect ramp the interior points go: a middle point collinear with
/// its neighbours, strictly between them in time, with any voltage swing
/// across the pair, is removable at every positive tolerance factor.
pub proof fn lemma_collinear_interior_removable(
    left: OscilliscopePoint,
    middle: OscilliscopePoint,
    right: OscilliscopePoint,
    tolerance_factor: int,
    min_voltage_difference: int,
)
    requires
        collinear(left, middle, right),
        left.second < middle.second < right.second,
        left.voltage != right.voltage,
        tolerance_factor >= 1,
    ensures
        spec_removable(left, middle, right, tolerance_factor, min_voltage_difference),
{
    let dv = right.voltage - left.voltage;
    if vstd::math::abs(dv) < min_voltage_difference {
    } else {
        let dt = right.second - left.second;
        let u = middle.second - left.second;
        let deviation_scaled = (left.voltage - middle.voltage) * dt + dv * u;
        assert(deviation_scaled == 0) by (nonlinear_arith)
            requires
                (middle.voltage - left.voltage) * (right.second - left.second) == (right.voltage
                    - left.voltage) * (middle.second - left.second),
                deviation_scaled == (left.voltage - middle.voltage) * (right.second - left.second)
                    + (right.voltage - left.voltage) * (middle.second - left.second),
        ;
        assert(2000 * (vstd::math::abs(deviation_scaled) as int) == 0);
        let proximity_scaled = (vstd::math::abs(dt) as int) - (vstd::math::abs(dt - 2 * u) as int);
        assert(proximity_scaled >= 1);
        assert((vstd::math::abs(dv) as int) >= 1);
        assert(tolerance_factor * proximity_scaled * (vstd::math::abs(dv) as int) >= 1)
            by (nonlinear_arith)
            requires
                tolerance_factor >= 1,
                proximity_scaled >= 1,
                (vstd::math::abs(dv) as int) >= 1,
        ;
    }
}

/// When the heartbeat interval has elapsed between the two kept samples,
/// the step keeps the speculative sample no matter what arrives.
pub proof fn lemma_heartbeat_forces_keep(
    state: DecimatorState,
    new: OscilliscopePoint,
    config: DecimatorConfig,
)
    requires
        heartbeat_due(state, config),
    ensures
        spec_keeps(state, new, config),
{
}

/// Between heartbeats, a removable sample is coalesced: the step emits
/// nothing into the stream for it.
pub proof fn lemma_removable_coalesces(
    state: DecimatorState,
    new: OscilliscopePoint,
    config: DecimatorConfig,
)
    requires
        !heartbeat_due(state, config),
        spec_removable(
            state.before_last,
            state.last,
            new,
            config.tolerance_factor as int,
            config.min_voltage_difference as int,
        ),
    ensures
        !spec_keeps(state, new, config),
{
}

} // verus!

use scope_stream::buffer::CyclicBuffer;
use scope_stream::decimation::is_middle_point_removable_complicated;
use scope_stream::decimation::DecimatorConfig;
use scope_stream::decimation::DecimatorState;
use scope_stream::decimation::FeedOutcome;
use scope_stream::point::OscilliscopePoint;
use scope_stream::point::COORDINATE_LIMIT;

fn p(voltage: i64, second: i64) -> OscilliscopePoint {
    OscilliscopePoint { voltage, second }
}

#[test]
fn near_collinear_middle_point_is_removable() {
    // Samples (t=0, v=0), (t=0.05, v=0.01), (t=0.1, v=0.02) in micro-units,
    // with a tolerance factor of one half and a minimum swing of 0.01 V.
    let left = p(0, 0);
    let middle = p(10_000, 50_000);
    let right = p(20_000, 100_000);
    assert!(is_middle_point_removable_complicated(
        &left, &middle, &right, 500, 10_000
    ));
}

#[test]
fn bent_middle_point_is_not_removable() {
    let left = p(0, 0);
    let bent = p(19_000, 50_000);
    let right = p(20_000, 100_000);
    assert!(!is_middle_point_removable_complicated(
        &left, &bent, &right, 500, 10_000
    ));
}

#[test]
fn zero_tolerance_accepts_no_deviating_point() {
    let left = p(0, 0);
    let off_line = p(10_001, 50_000);
    let right = p(20_000, 100_000);
    assert!(!is_middle_point_removable_complicated(
        &left, &off_line, &right, 0, 0
    ));

    // The comparison is strict, so even an exactly collinear point is kept
    // when the tolerance factor is zero.
    let on_line = p(10_000, 50_000);
    assert!(!is_middle_point_removable_complicated(
        &left, &on_line, &right, 0, 0
    ));
}

#[test]
fn sub_threshold_swing_is_removable_regardless_of_middle() {
    let left = p(0, 0);
    let wild = p(9_999_999, 50_000);
    let right = p(5_000, 100_000);
    assert!(is_middle_point_removable_complicated(
        &left, &wild, &right, 0, 6_000
    ));
}

#[test]
fn zero_time_span_is_removable() {
    let left = p(0, 500);
    let middle = p(123_456, 500);
    let right = p(999_999, 500);
    assert!(is_middle_point_removable_complicated(
        &left, &middle, &right, 0, 0
    ));
}

#[test]
fn extreme_coordinates_are_decided_exactly() {
    // Collinear through the origin at the outermost coordinates the filter
    // accepts: still removable at the smallest positive tolerance.
    let left = p(-COORDINATE_LIMIT, -COORDINATE_LIMIT);
    let middle = p(0, 0);
    let right = p(COORDINATE_LIMIT, COORDINATE_LIMIT);
    assert!(is_middle_point_removable_complicated(
        &left, &middle, &right, 1, 0
    ));

    // One microvolt off the line at the same extremes: kept at zero
    // tolerance.
    let off = p(1, 0);
    assert!(!is_middle_point_removable_complicated(
        &left, &off, &right, 0, 0
    ));
}

#[test]
fn linear_ramp_keeps_only_endpoints_and_bend() {
    let config = DecimatorConfig {
        tolerance_factor: 500,
        min_voltage_difference: 0,
        heartbeat_interval: 1_000_000,
    };
    let start = p(0, 0);
    let mut buffer: CyclicBuffer<OscilliscopePoint> = CyclicBuffer::new(p(0, 0), 16);
    let mut writer = buffer.take_writer().unwrap();
    let reader = buffer.take_reader().unwrap();
    writer.append(&mut buffer, start).unwrap();
    let mut state = DecimatorState::new(start);

    // A perfect ramp: every interior point coalesces into the newest slot.
    for i in 1..=4 {
        let outcome = state.feed(&mut writer, &mut buffer, p(10 * i, 10 * i), &config);
        if i == 1 {
            assert_eq!(outcome, FeedOutcome::Appended);
        } else {
            assert_eq!(outcome, FeedOutcome::Coalesced);
        }
    }
    // A sharp bend: the ramp's provisional endpoint becomes final.
    let outcome = state.feed(&mut writer, &mut buffer, p(0, 50), &config);
    assert_eq!(outcome, FeedOutcome::Appended);

    let batch = reader.get_batch_holder(&buffer);
    assert_eq!(batch.first_segment(), &vec![p(0, 0), p(40, 40), p(0, 50)]);
    assert!(batch.second_segment().is_empty());
}

#[test]
fn heartbeat_emits_on_a_flat_signal() {
    let config = DecimatorConfig {
        tolerance_factor: 500,
        min_voltage_difference: 10,
        heartbeat_interval: 100,
    };
    let start = p(0, 0);
    let mut buffer: CyclicBuffer<OscilliscopePoint> = CyclicBuffer::new(p(0, 0), 16);
    let mut writer = buffer.take_writer().unwrap();
    let reader = buffer.take_reader().unwrap();
    writer.append(&mut buffer, start).unwrap();
    let mut state = DecimatorState::new(start);

    // A flat signal below the minimum swing: everything coalesces ...
    for t in [30, 60, 90, 120] {
        let outcome = state.feed(&mut writer, &mut buffer, p(0, t), &config);
        assert_eq!(outcome, FeedOutcome::Coalesced);
    }
    // ... until the heartbeat interval has elapsed since the last kept
    // sample; then the stream advances even though nothing changed.
    let outcome = state.feed(&mut writer, &mut buffer, p(0, 150), &config);
    assert_eq!(outcome, FeedOutcome::Appended);

    let batch = reader.get_batch_holder(&buffer);
    assert_eq!(batch.first_segment(), &vec![p(0, 120), p(0, 150)]);
}

#[test]
fn kept_sample_is_dropped_when_the_buffer_is_full() {
    let config = DecimatorConfig {
        tolerance_factor: 0,
        min_voltage_difference: 0,
        heartbeat_interval: 1_000_000,
    };
    let start = p(0, 0);
    let mut buffer: CyclicBuffer<OscilliscopePoint> = CyclicBuffer::new(p(0, 0), 3);
    let mut writer = buffer.take_writer().unwrap();
    let reader = buffer.take_reader().unwrap();
    writer.append(&mut buffer, start).unwrap();
    let mut state = DecimatorState::new(start);

    // Zero tolerance keeps everything; the second kept sample no longer
    // fits and is dropped, leaving the buffer exactly as it was.
    let first = state.feed(&mut writer, &mut buffer, p(7, 10), &config);
    assert_eq!(first, FeedOutcome::Appended);
    let second = state.feed(&mut writer, &mut buffer, p(9, 20), &config);
    assert_eq!(second, FeedOutcome::Dropped);
    assert_eq!(buffer.missed_so_far(), 1);
    assert_eq!(buffer.entry_count(), 2);

    let batch = reader.get_batch_holder(&buffer);
    assert_eq!(batch.first_segment(), &vec![p(0, 0), p(7, 10)]);
}

#[test]
fn coalescing_restarts_an_emptied_buffer() {
    let config = DecimatorConfig {
        tolerance_factor: 500,
        min_voltage_difference: 1_000,
        heartbeat_interval: 1_000_000,
    };
    let start = p(0, 0);
    let mut buffer: CyclicBuffer<OscilliscopePoint> = CyclicBuffer::new(p(0, 0), 8);
    let mut writer = buffer.take_writer().unwrap();
    let reader = buffer.take_reader().unwrap();
    writer.append(&mut buffer, start).unwrap();
    let mut state = DecimatorState::new(start);

    // The reader consumes everything, including the speculative sample.
    reader.get_batch_holder(&buffer).release(&mut buffer);
    assert_eq!(buffer.entry_count(), 0);

    // The next coalesced sample cannot replace a consumed slot: it starts
    // the unread run afresh instead.
    let outcome = state.feed(&mut writer, &mut buffer, p(1, 30), &config);
    assert_eq!(outcome, FeedOutcome::Coalesced);
    assert_eq!(buffer.entry_count(), 1);
    let batch = reader.get_batch_holder(&buffer);
    assert_eq!(batch.first_segment(), &vec![p(1, 30)]);
}

use scope_stream::buffer::BufferError;
use scope_stream::buffer::CyclicBuffer;
use scope_stream::frame::encode_frame;
use scope_stream::point::point_to_bytes;
use scope_stream::point::points_to_bytes;
use scope_stream::point::OscilliscopePoint;

#[test]
fn seven_appends_fill_a_buffer_of_eight() {
    let mut buffer: CyclicBuffer<u64> = CyclicBuffer::new(0, 8);
    let mut writer = buffer.take_writer().unwrap();
    for value in 1..=7 {
        assert_eq!(writer.append(&mut buffer, value), Ok(()));
    }
    assert_eq!(buffer.entry_count(), 7);
    assert_eq!(buffer.missed_so_far(), 0);

    let rejected = writer.append(&mut buffer, 8);
    assert_eq!(rejected, Err(BufferError::Overwrite));
    assert_eq!(buffer.missed_so_far(), 1);
    assert_eq!(buffer.entry_count(), 7);
}

#[test]
fn overflow_leaves_contents_unchanged() {
    let mut buffer: CyclicBuffer<u64> = CyclicBuffer::new(0, 4);
    let mut writer = buffer.take_writer().unwrap();
    let reader = buffer.take_reader().unwrap();
    for value in [11, 22, 33] {
        assert_eq!(writer.append(&mut buffer, value), Ok(()));
    }
    assert_eq!(writer.append(&mut buffer, 44), Err(BufferError::Overwrite));
    assert_eq!(buffer.missed_so_far(), 1);

    let batch = reader.get_batch_holder(&buffer);
    assert_eq!(batch.first_segment(), &vec![11, 22, 33]);
    assert!(batch.second_segment().is_empty());
}

#[test]
fn handles_are_exclusive_until_released() {
    let mut buffer: CyclicBuffer<u64> = CyclicBuffer::new(0, 4);
    let writer = buffer.take_writer().unwrap();
    assert!(buffer.take_writer().is_none());
    let reader = buffer.take_reader().unwrap();
    assert!(buffer.take_reader().is_none());

    reader.release(&mut buffer);
    assert!(buffer.take_reader().is_some());
    drop(writer);
}

#[test]
fn batch_covers_both_segments_of_a_wrapped_range() {
    let mut buffer: CyclicBuffer<u64> = CyclicBuffer::new(0, 5);
    let mut writer = buffer.take_writer().unwrap();
    let reader = buffer.take_reader().unwrap();
    for value in [11, 22, 33, 44] {
        writer.append(&mut buffer, value).unwrap();
    }
    let batch = reader.get_batch_holder(&buffer);
    assert_eq!(batch.first_segment(), &vec![11, 22, 33, 44]);
    assert!(batch.second_segment().is_empty());
    batch.release(&mut buffer);
    assert_eq!(buffer.entry_count(), 0);

    // The read position now sits just before the physical end: the next
    // run of appends wraps, and the view comes back in two segments whose
    // concatenation is the unread run in logical order.
    for value in [55, 66, 77] {
        writer.append(&mut buffer, value).unwrap();
    }
    let wrapped = reader.get_batch_holder(&buffer);
    assert_eq!(wrapped.num_entries(), 3);
    assert_eq!(wrapped.first_segment(), &vec![55]);
    assert_eq!(wrapped.second_segment(), &vec![66, 77]);
    wrapped.release(&mut buffer);
    assert_eq!(buffer.entry_count(), 0);
}

#[test]
fn release_advances_to_the_captured_boundary_only() {
    let mut buffer: CyclicBuffer<u64> = CyclicBuffer::new(0, 6);
    let mut writer = buffer.take_writer().unwrap();
    let reader = buffer.take_reader().unwrap();
    for value in [1, 2, 3] {
        writer.append(&mut buffer, value).unwrap();
    }
    let batch = reader.get_batch_holder(&buffer);

    // More data arrives while the view is held: releasing consumes only
    // what the view covered, and the next view starts exactly there.
    writer.append(&mut buffer, 4).unwrap();
    assert_eq!(batch.num_entries(), 3);
    batch.release(&mut buffer);
    assert_eq!(buffer.entry_count(), 1);
    let next = reader.get_batch_holder(&buffer);
    assert_eq!(next.first_segment(), &vec![4]);
}

#[test]
fn reserving_holds_back_the_newest_entries() {
    let mut buffer: CyclicBuffer<u64> = CyclicBuffer::new(0, 6);
    let mut writer = buffer.take_writer().unwrap();
    let reader = buffer.take_reader().unwrap();
    for value in [1, 2, 3] {
        writer.append(&mut buffer, value).unwrap();
    }

    let short_by_one = reader.get_batch_holder_reserving(&buffer, 1);
    assert_eq!(short_by_one.first_segment(), &vec![1, 2]);
    assert!(short_by_one.second_segment().is_empty());
    short_by_one.release(&mut buffer);
    assert_eq!(buffer.entry_count(), 1);

    let nothing_left = reader.get_batch_holder_reserving(&buffer, 5);
    assert_eq!(nothing_left.num_entries(), 0);
    nothing_left.release(&mut buffer);
    assert_eq!(buffer.entry_count(), 1);
}

#[test]
fn replace_last_fails_once_consumed() {
    let mut buffer: CyclicBuffer<u64> = CyclicBuffer::new(0, 4);
    let mut writer = buffer.take_writer().unwrap();
    let reader = buffer.take_reader().unwrap();

    // Nothing has ever been appended: nothing to replace.
    assert_eq!(writer.replace_last(&mut buffer, 9), Err(BufferError::Stale));

    writer.append(&mut buffer, 1).unwrap();
    assert_eq!(writer.replace_last(&mut buffer, 2), Ok(()));

    let batch = reader.get_batch_holder(&buffer);
    assert_eq!(batch.first_segment(), &vec![2]);
    batch.release(&mut buffer);

    // The slot has been consumed: replacing is stale, falling back appends.
    assert_eq!(writer.replace_last(&mut buffer, 3), Err(BufferError::Stale));
    writer.replace_last_or_append(&mut buffer, 4);
    assert_eq!(buffer.entry_count(), 1);
    let after = reader.get_batch_holder(&buffer);
    assert_eq!(after.first_segment(), &vec![4]);
}

#[test]
fn wrapped_batch_bytes_concatenate_in_logical_order() {
    let p = |voltage: i64, second: i64| OscilliscopePoint { voltage, second };
    let mut buffer: CyclicBuffer<OscilliscopePoint> = CyclicBuffer::new(p(0, 0), 4);
    let mut writer = buffer.take_writer().unwrap();
    let reader = buffer.take_reader().unwrap();
    for i in 1..=3 {
        writer.append(&mut buffer, p(i, 10 * i)).unwrap();
    }
    reader.get_batch_holder(&buffer).release(&mut buffer);
    for i in 4..=6 {
        writer.append(&mut buffer, p(i, 10 * i)).unwrap();
    }

    let batch = reader.get_batch_holder(&buffer);
    assert_eq!(batch.first_segment().len(), 1);
    assert_eq!(batch.second_segment().len(), 2);
    let mut bytes = points_to_bytes(batch.first_segment());
    bytes.extend_from_slice(&points_to_bytes(batch.second_segment()));
    let expected = points_to_bytes(&vec![p(4, 40), p(5, 50), p(6, 60)]);
    assert_eq!(bytes, expected);
}

#[test]
fn point_bytes_are_little_endian_pairs() {
    let point = OscilliscopePoint { voltage: 1, second: -1 };
    let bytes = point_to_bytes(&point);
    assert_eq!(bytes[..8], [1, 0, 0, 0, 0, 0, 0, 0]);
    assert_eq!(bytes[8..], [0xff; 8]);

    let pair = points_to_bytes(&vec![point, point]);
    assert_eq!(pair.len(), 32);
    assert_eq!(pair[..16], bytes[..]);
    assert_eq!(pair[16..], bytes[..]);
}

#[test]
fn batch_bytes_frame_like_any_payload() {
    let p = |voltage: i64, second: i64| OscilliscopePoint { voltage, second };
    let mut buffer: CyclicBuffer<OscilliscopePoint> = CyclicBuffer::new(p(0, 0), 8);
    let mut writer = buffer.take_writer().unwrap();
    let reader = buffer.take_reader().unwrap();
    for i in 0..3 {
        writer.append(&mut buffer, p(i, i)).unwrap();
    }
    let batch = reader.get_batch_holder(&buffer);
    let payload = points_to_bytes(batch.first_segment());
    let frame = encode_frame(&payload);
    assert_eq!(frame[0], 0x82);
    assert_eq!(frame[1], 48);
    assert_eq!(&frame[2..], &payload[..]);
}

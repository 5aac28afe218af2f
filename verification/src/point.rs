//! The sample record that flows through the pipeline, and its wire encoding.

use crate::buffer::CyclicBatch;
use vstd::prelude::*;

verus! {

/// Largest magnitude that either coordinate of a point may take. Keeping
/// both coordinates within this bound lets the decimation arithmetic run in
/// 128-bit integers without overflow. At one millionth of a unit per count
/// this still spans ten billion volts and three hundred years.
pub const COORDINATE_LIMIT: i64 = 10_000_000_000_000_000;

/// One captured sample. Both coordinates are fixed-point values in
/// millionths of their unit: `voltage` counts microvolts and `second`
/// counts microseconds, so the record is a pair of plain integers that can
/// be reinterpreted as bytes for the wire.
#[derive(Clone, Copy, Debug, PartialEq, Eq, Structural)]
pub struct OscilliscopePoint {
    pub voltage: i64,
    pub second: i64,
}

/// Both coordinates of the point lie within `COORDINATE_LIMIT`.
pub open spec fn point_in_range(p: OscilliscopePoint) -> bool {
    &&& -COORDINATE_LIMIT <= p.voltage <= COORDINATE_LIMIT
    &&& -COORDINATE_LIMIT <= p.second <= COORDINATE_LIMIT
}

/// The eight bytes of a 64-bit value, least significant first.
pub open spec fn u64_le_bytes(x: u64) -> Seq<u8> {
    seq![
        (x & 0xff) as u8,
        ((x >> 8) & 0xff) as u8,
        ((x >> 16) & 0xff) as u8,
        ((x >> 24) & 0xff) as u8,
        ((x >> 32) & 0xff) as u8,
        ((x >> 40) & 0xff) as u8,
        ((x >> 48) & 0xff) as u8,
        ((x >> 56) & 0xff) as u8,
    ]
}

/// The sixteen bytes of one point on the wire: the voltage, then the
/// timestamp, each as a two's-complement 64-bit value in little-endian
/// byte order.
pub open spec fn point_bytes(p: OscilliscopePoint) -> Seq<u8> {
    u64_le_bytes(p.voltage as u64) + u64_le_bytes(p.second as u64)
}

/// The bytes of a run of points, in order.
pub open spec fn points_bytes(points: Seq<OscilliscopePoint>) -> Seq<u8>
    decreases points.len(),
{
    if points.len() == 0 {
        Seq::empty()
    } else {
        point_bytes(points[0]) + points_bytes(points.skip(1))
    }
}

/// Appending one point to a run appends its sixteen bytes to the run's bytes.
pub proof fn lemma_points_bytes_push(points: Seq<OscilliscopePoint>, p: OscilliscopePoint)
    ensures
        points_bytes(points.push(p)) == points_bytes(points) + point_bytes(p),
    decreases points.len(),
{
    if points.len() == 0 {
        assert(points.push(p)[0] == p);
        assert(points.push(p).skip(1) =~= points);
        assert(points_bytes(points) == Seq::<u8>::empty());
        assert(points_bytes(points.push(p)) =~= points_bytes(points) + point_bytes(p));
    } else {
        assert(points.push(p).skip(1) =~= points.skip(1).push(p));
        lemma_points_bytes_push(points.skip(1), p);
        assert(points_bytes(points.push(p)) =~= points_bytes(points) + point_bytes(p));
    }
}

/// The bytes of two runs laid end to end are the bytes of the first run
/// followed by the bytes of the second.
pub proof fn lemma_points_bytes_concat(left: Seq<OscilliscopePoint>, right: Seq<OscilliscopePoint>)
    ensures
        points_bytes(left + right) == points_bytes(left) + points_bytes(right),
    decreases right.len(),
{
    if right.len() == 0 {
        assert(left + right =~= left);
        assert(points_bytes(left) + points_bytes(right) =~= points_bytes(left));
    } else {
        let front = right.take(right.len() - 1);
        let back = right[right.len() - 1];
        assert(right =~= front.push(back));
        assert(left + right =~= (left + front).push(back));
        lemma_points_bytes_concat(left, front);
        lemma_points_bytes_push(left + front, back);
        lemma_points_bytes_push(front, back);
        assert(points_bytes(left + right) =~= points_bytes(left) + points_bytes(right));
    }
}

/// Concatenating a batch view's segments, first then second, yields
/// exactly the bytes of the run of entries the view covers — the entries
/// from the read position it was captured at up to its boundary — however
/// that run wraps around the buffer's physical end.
pub proof fn lemma_batch_bytes_concatenate(
    batch: CyclicBatch<OscilliscopePoint>,
    covered: Seq<OscilliscopePoint>,
)
    requires
        batch.first_seq() + batch.second_seq() == covered,
    ensures
        points_bytes(batch.first_seq()) + points_bytes(batch.second_seq()) == points_bytes(
            covered,
        ),
{
    lemma_points_bytes_concat(batch.first_seq(), batch.second_seq());
}

/// The sixteen wire bytes of one point.
pub fn point_to_bytes(p: &OscilliscopePoint) -> (bytes: Vec<u8>)
    ensures
        bytes@ == point_bytes(*p),
{
    let v = p.voltage as u64;
    let s = p.second as u64;
    let mut bytes: Vec<u8> = Vec::new();
    bytes.push((v & 0xff) as u8);
    bytes.push(((v >> 8) & 0xff) as u8);
    bytes.push(((v >> 16) & 0xff) as u8);
    bytes.push(((v >> 24) & 0xff) as u8);
    bytes.push(((v >> 32) & 0xff) as u8);
    bytes.push(((v >> 40) & 0xff) as u8);
    bytes.push(((v >> 48) & 0xff) as u8);
    bytes.push(((v >> 56) & 0xff) as u8);
    bytes.push((s & 0xff) as u8);
    bytes.push(((s >> 8) & 0xff) as u8);
    bytes.push(((s >> 16) & 0xff) as u8);
    bytes.push(((s >> 24) & 0xff) as u8);
    bytes.push(((s >> 32) & 0xff) as u8);
    bytes.push(((s >> 40) & 0xff) as u8);
    bytes.push(((s >> 48) & 0xff) as u8);
    bytes.push(((s >> 56) & 0xff) as u8);
    proof {
        assert(bytes@ =~= point_bytes(*p));
    }
    bytes
}

/// The wire bytes of a run of points, in order.
pub fn points_to_bytes(points: &Vec<OscilliscopePoint>) -> (bytes: Vec<u8>)
    ensures
        bytes@ == points_bytes(points@),
{
    let mut bytes: Vec<u8> = Vec::new();
    let mut i: usize = 0;
    while i < points.len()
        invariant
            i <= points@.len(),
            bytes@ == points_bytes(points@.take(i as int)),
        decreases points@.len() - i,
    {
        let mut one = point_to_bytes(&points[i]);
        let mut j: usize = 0;
        let ghost before = bytes@;
        while j < one.len()
            invariant
                j <= one@.len(),
                bytes@ == before + one@.take(j as int),
            decreases one@.len() - j,
        {
            let b = one[j];
            bytes.push(b);
            proof {
                assert(one@.take(j + 1 as int) =~= one@.take(j as int).push(one@[j as int]));
            }
            j += 1;
        }
        proof {
            assert(one@.take(one@.len() as int) =~= one@);
            assert(points@.take(i + 1 as int) =~= points@.take(i as int).push(points@[i as int]));
            lemma_points_bytes_push(points@.take(i as int), points@[i as int]);
        }
        i += 1;
    }
    proof {
        assert(points@.take(points@.len() as int) =~= points@);
    }
    bytes
}

} // verus!

//! Binary wire framing: one self-delimited message per payload.

use vstd::prelude::*;

verus! {

/// First byte of every frame: final-fragment flag set, binary opcode.
pub const FRAME_LEAD_BYTE: u8 = 0x82;

/// Largest payload whose length fits in the header's own length byte.
pub const SHORT_PAYLOAD_MAX: usize = 126;

/// Largest payload whose length is carried as two big-endian bytes.
pub const TWO_BYTE_PAYLOAD_MAX: usize = 65535;

/// A payload length at or beyond this bound is a fatal misuse of the
/// encoder, not a runtime condition: callers must stay below it.
pub const PAYLOAD_LENGTH_CEILING: u64 = 0x8000_0000_0000_0000;

/// A length as two bytes, most significant first.
pub open spec fn length_bytes_2(n: int) -> Seq<u8> {
    seq![(n / 0x100) as u8, (n % 0x100) as u8]
}

/// A length as eight bytes, most significant first.
pub open spec fn length_bytes_8(n: int) -> Seq<u8> {
    seq![
        ((n / 0x100000000000000) % 0x100) as u8,
        ((n / 0x1000000000000) % 0x100) as u8,
        ((n / 0x10000000000) % 0x100) as u8,
        ((n / 0x100000000) % 0x100) as u8,
        ((n / 0x1000000) % 0x100) as u8,
        ((n / 0x10000) % 0x100) as u8,
        ((n / 0x100) % 0x100) as u8,
        (n % 0x100) as u8,
    ]
}

/// The wire frame for a payload. An empty payload produces no bytes at all.
/// Otherwise the frame is the lead byte, then a length field picked by the
/// payload's length (the length itself up to 126; the marker 126 and two
/// big-endian bytes up to 65535; the marker 127 and eight big-endian bytes
/// beyond that), then the payload verbatim.
pub open spec fn frame_bytes(payload: Seq<u8>) -> Seq<u8> {
    let n = payload.len() as int;
    if n == 0 {
        Seq::empty()
    } else if n <= 126 {
        seq![FRAME_LEAD_BYTE, n as u8] + payload
    } else if n <= 65535 {
        seq![FRAME_LEAD_BYTE, 126u8] + length_bytes_2(n) + payload
    } else {
        seq![FRAME_LEAD_BYTE, 127u8] + length_bytes_8(n) + payload
    }
}

/// Encodes one payload as a wire frame, in memory. The caller hands the
/// result to the transport whole, header first, payload after.
pub fn encode_frame(payload: &[u8]) -> (frame: Vec<u8>)
    requires
        payload@.len() < PAYLOAD_LENGTH_CEILING,
    ensures
        frame@ == frame_bytes(payload@),
{
    let n: usize = payload.len();
    let mut frame: Vec<u8> = Vec::new();
    if n == 0 {
        proof {
            assert(frame@ =~= frame_bytes(payload@));
        }
        return frame;
    }
    frame.push(FRAME_LEAD_BYTE);
    if n <= SHORT_PAYLOAD_MAX {
        frame.push(n as u8);
    } else if n <= TWO_BYTE_PAYLOAD_MAX {
        frame.push(126);
        frame.push((n / 0x100) as u8);
        frame.push((n % 0x100) as u8);
    } else {
        frame.push(127);
        let w: u64 = n as u64;
        frame.push(((w / 0x100000000000000) % 0x100) as u8);
        frame.push(((w / 0x1000000000000) % 0x100) as u8);
        frame.push(((w / 0x10000000000) % 0x100) as u8);
        frame.push(((w / 0x100000000) % 0x100) as u8);
        frame.push(((w / 0x1000000) % 0x100) as u8);
        frame.push(((w / 0x10000) % 0x100) as u8);
        frame.push(((w / 0x100) % 0x100) as u8);
        frame.push((w % 0x100) as u8);
    }
    let ghost header = frame@;
    proof {
        assert(header + payload@ =~= frame_bytes(payload@));
    }
    let mut i: usize = 0;
    while i < payload.len()
        invariant
            i <= payload@.len(),
            frame@ == header + payload@.take(i as int),
        decreases payload@.len() - i,
    {
        let b = payload[i];
        frame.push(b);
        proof {
            assert(payload@.take(i + 1 as int) =~= payload@.take(i as int).push(payload@[i as int]));
        }
        i += 1;
    }
    proof {
        assert(payload@.take(payload@.len() as int) =~= payload@);
    }
    frame
}

} // verus!

//! A bounded single-producer/single-consumer ring buffer.
//!
//! The buffer is an owned object constructed once; the exclusive writer and
//! reader handles are taken once each and moved into the producing and the
//! consuming side. One slot is permanently reserved so that a full buffer
//! can be told from an empty one: at most `capacity - 1` entries are ever
//! unread. The reader consumes through batch views whose release — and only
//! whose release — advances the read position.

use vstd::pervasive::VecAdditionalExecFns;
use vstd::prelude::*;

verus! {

/// Recoverable buffer failures. Both are expected outcomes under load:
/// callers continue by dropping data, never by blocking or by silently
/// overwriting unconsumed entries.
#[derive(Clone, Copy, Debug, PartialEq, Eq, Structural)]
pub enum BufferError {
    /// Appending would overwrite an entry the reader has not yet consumed;
    /// the buffer is unchanged and the rejected value is counted as missed.
    Overwrite,
    /// The most recently appended slot has already been consumed, so it can
    /// no longer be replaced in place.
    Stale,
}

/// The ring buffer itself. `entries` never changes length after
/// construction; `read_index` and `write_index` both stay below that
/// length. The unread entries are those from `read_index` (inclusive) to
/// `write_index` (exclusive), wrapping past the end of the slot array.
pub struct CyclicBuffer<T> {
    entries: Vec<T>,
    read_index: usize,
    write_index: usize,
    missed: u64,
    writer_available: bool,
    reader_available: bool,
}

/// Exclusive right to append to a buffer, and to overwrite the most
/// recently appended slot in place while it has not been consumed. At most
/// one writer exists per buffer at a time; only `take_writer` hands one out.
pub struct CyclicWriter {
    handle: (),
}

/// Exclusive right to construct and release batch views over a buffer. At
/// most one reader exists per buffer at a time; only `take_reader` hands
/// one out.
pub struct CyclicReader {
    handle: (),
}

/// A read-only view over unread entries, captured as at most two segments:
/// the run up to the physical end of the slot array, and — only when the
/// readable range wraps — the run from its start. The view carries the
/// boundary it was captured with; the buffer's read position advances to
/// that boundary when, and only when, the view is released.
pub struct CyclicBatch<T> {
    first: Vec<T>,
    second: Vec<T>,
    start: usize,
    reads_until: usize,
}

/// A position `delta` slots after `pos` on a ring of `cap` slots, for
/// `pos < cap` and `delta <= cap`.
pub open spec fn wrap_ahead(pos: int, delta: int, cap: int) -> int {
    if pos + delta < cap {
        pos + delta
    } else {
        pos + delta - cap
    }
}

impl<T> CyclicBuffer<T> {
    /// Number of slots, fixed at construction.
    pub closed spec fn capacity(self) -> int {
        self.entries@.len() as int
    }

    /// Index of the oldest unread entry.
    pub closed spec fn read_pos(self) -> int {
        self.read_index as int
    }

    /// Index of the slot the next append will fill.
    pub closed spec fn write_pos(self) -> int {
        self.write_index as int
    }

    /// How many appends have been rejected for want of space.
    pub closed spec fn missed_count(self) -> int {
        self.missed as int
    }

    /// Whether the one writer handle is still unclaimed.
    pub closed spec fn writer_available(self) -> bool {
        self.writer_available
    }

    /// Whether the one reader handle is still unclaimed.
    pub closed spec fn reader_available(self) -> bool {
        self.reader_available
    }

    /// Well-formedness: the indices address slots, and there are at least
    /// three slots — room for the decimator's two-sample history beside the
    /// permanently reserved slot.
    pub open spec fn wf(self) -> bool {
        &&& 3 <= self.capacity()
        &&& 0 <= self.read_pos() < self.capacity()
        &&& 0 <= self.write_pos() < self.capacity()
    }

    /// The wrap-aware distance from the read position to the write
    /// position: how many entries are appended but not yet released.
    pub open spec fn count(self) -> int {
        if self.read_pos() <= self.write_pos() {
            self.write_pos() - self.read_pos()
        } else {
            self.capacity() - self.read_pos() + self.write_pos()
        }
    }

    /// The unread entries in logical order: oldest first.
    pub closed spec fn unread(self) -> Seq<T> {
        if self.read_index <= self.write_index {
            self.entries@.subrange(self.read_pos(), self.write_pos())
        } else {
            self.entries@.subrange(self.read_pos(), self.capacity()) + self.entries@.subrange(
                0,
                self.write_pos(),
            )
        }
    }

    /// Builds a buffer with every slot holding `filler`; no entry is
    /// unread, nothing has been missed, and both handles are available.
    pub fn new(filler: T, capacity: usize) -> (buffer: CyclicBuffer<T>) where T: Copy
        requires
            3 <= capacity,
        ensures
            buffer.wf(),
            buffer.capacity() == capacity,
            buffer.read_pos() == 0,
            buffer.write_pos() == 0,
            buffer.unread() == Seq::<T>::empty(),
            buffer.missed_count() == 0,
            buffer.writer_available(),
            buffer.reader_available(),
    {
        let mut entries: Vec<T> = Vec::new();
        let mut i: usize = 0;
        while i < capacity
            invariant
                i <= capacity,
                entries@.len() == i,
            decreases capacity - i,
        {
            entries.push(filler);
            i += 1;
        }
        let buffer = CyclicBuffer {
            entries,
            read_index: 0,
            write_index: 0,
            missed: 0,
            writer_available: true,
            reader_available: true,
        };
        proof {
            assert(buffer.unread() =~= Seq::<T>::empty());
        }
        buffer
    }

    /// Claims the one writer handle: hands it out and marks it taken, or
    /// reports that it is already gone. The buffer's contents are untouched.
    pub fn take_writer(&mut self) -> (writer: Option<CyclicWriter>)
        ensures
            final(self).capacity() == old(self).capacity(),
            final(self).read_pos() == old(self).read_pos(),
            final(self).write_pos() == old(self).write_pos(),
            final(self).unread() == old(self).unread(),
            final(self).missed_count() == old(self).missed_count(),
            final(self).reader_available() == old(self).reader_available(),
            !final(self).writer_available(),
            writer is Some <==> old(self).writer_available(),
    {
        if self.writer_available {
            self.writer_available = false;
            Some(CyclicWriter { handle: () })
        } else {
            None
        }
    }

    /// Claims the one reader handle, exactly as `take_writer` does for the
    /// writer.
    pub fn take_reader(&mut self) -> (reader: Option<CyclicReader>)
        ensures
            final(self).capacity() == old(self).capacity(),
            final(self).read_pos() == old(self).read_pos(),
            final(self).write_pos() == old(self).write_pos(),
            final(self).unread() == old(self).unread(),
            final(self).missed_count() == old(self).missed_count(),
            final(self).writer_available() == old(self).writer_available(),
            !final(self).reader_available(),
            reader is Some <==> old(self).reader_available(),
    {
        if self.reader_available {
            self.reader_available = false;
            Some(CyclicReader { handle: () })
        } else {
            None
        }
    }

    /// The number of appended-but-unreleased entries. Always below the
    /// capacity: one slot is permanently reserved.
    pub fn entry_count(&self) -> (count: usize)
        requires
            self.wf(),
        ensures
            count == self.count(),
            count == self.unread().len(),
            count < self.capacity(),
    {
        proof {
            lemma_unread_matches_count(*self);
        }
        if self.read_index <= self.write_index {
            self.write_index - self.read_index
        } else {
            (self.entries.len() - self.read_index) + self.write_index
        }
    }

    /// Records one more rejected append. The count saturates rather than
    /// wrap; everything else is untouched.
    pub fn increment_missed(&mut self)
        ensures
            final(self).capacity() == old(self).capacity(),
            final(self).read_pos() == old(self).read_pos(),
            final(self).write_pos() == old(self).write_pos(),
            final(self).unread() == old(self).unread(),
            final(self).writer_available() == old(self).writer_available(),
            final(self).reader_available() == old(self).reader_available(),
            final(self).missed_count() == if old(self).missed_count() < u64::MAX {
                old(self).missed_count() + 1
            } else {
                old(self).missed_count()
            },
    {
        if self.missed < u64::MAX {
            self.missed = self.missed + 1;
        }
    }

    /// How many appends have been rejected so far.
    pub fn missed_so_far(&self) -> (missed: u64)
        ensures
            missed == self.missed_count(),
    {
        self.missed
    }
}

/// The unread entries number exactly `count()`, and always fewer than the
/// capacity: under any sequence of appends, replacements and releases that
/// keeps the buffer well formed, the reserved slot is never used.
pub proof fn lemma_unread_matches_count<T>(buffer: CyclicBuffer<T>)
    requires
        buffer.wf(),
    ensures
        buffer.unread().len() == buffer.count(),
        0 <= buffer.count() < buffer.capacity(),
{
}

impl CyclicWriter {
    /// Appends `value` behind the newest unread entry. When only the
    /// reserved slot is free the buffer is left exactly as it was, the
    /// value is dropped, and the miss is counted — unread data is never
    /// overwritten.
    pub fn append<T: Copy>(
        &mut self,
        buffer: &mut CyclicBuffer<T>,
        value: T,
    ) -> (result: Result<(), BufferError>)
        requires
            old(buffer).wf(),
        ensures
            final(buffer).wf(),
            final(buffer).capacity() == old(buffer).capacity(),
            final(buffer).read_pos() == old(buffer).read_pos(),
            final(buffer).writer_available() == old(buffer).writer_available(),
            final(buffer).reader_available() == old(buffer).reader_available(),
            old(buffer).count() == old(buffer).capacity() - 1 ==> {
                &&& result == Err::<(), BufferError>(BufferError::Overwrite)
                &&& final(buffer).unread() == old(buffer).unread()
                &&& final(buffer).write_pos() == old(buffer).write_pos()
                &&& final(buffer).missed_count() == if old(buffer).missed_count() < u64::MAX {
                    old(buffer).missed_count() + 1
                } else {
                    old(buffer).missed_count()
                }
            },
            old(buffer).count() < old(buffer).capacity() - 1 ==> {
                &&& result == Ok::<(), BufferError>(())
                &&& final(buffer).unread() == old(buffer).unread().push(value)
                &&& final(buffer).write_pos() == wrap_ahead(
                    old(buffer).write_pos(),
                    1,
                    old(buffer).capacity(),
                )
                &&& final(buffer).missed_count() == old(buffer).missed_count()
            },
    {
        let count_before = buffer.entry_count();
        if count_before >= buffer.entries.len() - 1 {
            buffer.increment_missed();
            return Err(BufferError::Overwrite);
        }
        let w = buffer.write_index;
        buffer.entries.set(w, value);
        buffer.write_index = if w + 1 == buffer.entries.len() {
            0
        } else {
            w + 1
        };
        proof {
            assert(buffer.unread() =~= old(buffer).unread().push(value));
        }
        Ok(())
    }

    /// Overwrites the most recently appended slot in place. This succeeds
    /// exactly when that slot is still unread; once the reader has consumed
    /// it the replacement is stale, and the buffer is left unchanged.
    pub fn replace_last<T: Copy>(
        &mut self,
        buffer: &mut CyclicBuffer<T>,
        value: T,
    ) -> (result: Result<(), BufferError>)
        requires
            old(buffer).wf(),
        ensures
            final(buffer).wf(),
            final(buffer).capacity() == old(buffer).capacity(),
            final(buffer).read_pos() == old(buffer).read_pos(),
            final(buffer).write_pos() == old(buffer).write_pos(),
            final(buffer).missed_count() == old(buffer).missed_count(),
            final(buffer).writer_available() == old(buffer).writer_available(),
            final(buffer).reader_available() == old(buffer).reader_available(),
            old(buffer).count() == 0 ==> {
                &&& result == Err::<(), BufferError>(BufferError::Stale)
                &&& final(buffer).unread() == old(buffer).unread()
            },
            old(buffer).count() >= 1 ==> {
                &&& result == Ok::<(), BufferError>(())
                &&& final(buffer).unread() == old(buffer).unread().update(
                    old(buffer).count() - 1,
                    value,
                )
            },
    {
        let count = buffer.entry_count();
        if count == 0 {
            return Err(BufferError::Stale);
        }
        let last = if buffer.write_index == 0 {
            buffer.entries.len() - 1
        } else {
            buffer.write_index - 1
        };
        buffer.entries.set(last, value);
        proof {
            assert(buffer.unread() =~= old(buffer).unread().update(
                old(buffer).count() - 1,
                value,
            ));
        }
        Ok(())
    }

    /// Coalesces a speculatively kept value: replaces the newest unread
    /// entry, or — when the reader has already consumed everything — starts
    /// afresh by appending. The append cannot be refused: an empty buffer
    /// always has room.
    pub fn replace_last_or_append<T: Copy>(&mut self, buffer: &mut CyclicBuffer<T>, value: T)
        requires
            old(buffer).wf(),
        ensures
            final(buffer).wf(),
            final(buffer).capacity() == old(buffer).capacity(),
            final(buffer).read_pos() == old(buffer).read_pos(),
            final(buffer).missed_count() == old(buffer).missed_count(),
            final(buffer).writer_available() == old(buffer).writer_available(),
            final(buffer).reader_available() == old(buffer).reader_available(),
            old(buffer).count() >= 1 ==> {
                &&& final(buffer).unread() == old(buffer).unread().update(
                    old(buffer).count() - 1,
                    value,
                )
                &&& final(buffer).write_pos() == old(buffer).write_pos()
                &&& final(buffer).count() == old(buffer).count()
            },
            old(buffer).count() == 0 ==> {
                &&& final(buffer).unread() == seq![value]
                &&& final(buffer).count() == 1
            },
    {
        match self.replace_last(buffer, value) {
            Ok(()) => (),
            Err(_) => {
                let result = self.append(buffer, value);
                proof {
                    assert(result == Ok::<(), BufferError>(()));
                    assert(final(buffer).unread() =~= seq![value]);
                }
            },
        }
    }
}

/// How many of `count` unread entries a batch with `reserve` entries held
/// back covers: all but the most recent `reserve`, or none when fewer than
/// `reserve` exist.
pub open spec fn batched_entries(count: int, reserve: int) -> int {
    if count >= reserve {
        count - reserve
    } else {
        0
    }
}

impl CyclicReader {
    /// Captures a view over every unread entry. The read position does not
    /// move until the view is released.
    pub fn get_batch_holder<T: Copy>(&self, buffer: &CyclicBuffer<T>) -> (batch: CyclicBatch<T>)
        requires
            buffer.wf(),
        ensures
            batch.valid_for(*buffer),
            batch.first_seq() + batch.second_seq() == buffer.unread(),
            batch.len() == buffer.count(),
    {
        let batch = self.get_batch_holder_reserving(buffer, 0);
        proof {
            assert(buffer.unread().take(buffer.unread().len() as int) =~= buffer.unread());
            lemma_unread_matches_count(*buffer);
        }
        batch
    }

    /// Captures a view over all unread entries but the most recent
    /// `reserve` of them, so that the consumer stays clear of the slot the
    /// producer may still replace in place. The read position does not move
    /// until the view is released.
    pub fn get_batch_holder_reserving<T: Copy>(
        &self,
        buffer: &CyclicBuffer<T>,
        reserve: usize,
    ) -> (batch: CyclicBatch<T>)
        requires
            buffer.wf(),
        ensures
            batch.valid_for(*buffer),
            batch.len() == batched_entries(buffer.count(), reserve as int),
            batch.first_seq() + batch.second_seq() == buffer.unread().take(
                batched_entries(buffer.count(), reserve as int),
            ),
    {
        proof {
            lemma_unread_matches_count(*buffer);
        }
        let cap = buffer.entries.len();
        let count = buffer.entry_count();
        let kept: usize = if count >= reserve {
            count - reserve
        } else {
            0
        };
        let until_end = cap - buffer.read_index;
        let first_len: usize = if kept < until_end {
            kept
        } else {
            until_end
        };
        let second_len: usize = kept - first_len;
        let seg_end: usize = buffer.read_index + first_len;
        let mut first: Vec<T> = Vec::new();
        let mut pos: usize = buffer.read_index;
        while pos < seg_end
            invariant
                buffer.wf(),
                buffer.read_pos() <= pos <= seg_end,
                seg_end <= buffer.capacity(),
                first@ == buffer.entries@.subrange(buffer.read_pos(), pos as int),
            decreases seg_end - pos,
        {
            let e = buffer.entries[pos];
            first.push(e);
            proof {
                assert(buffer.entries@.subrange(buffer.read_pos(), pos + 1 as int)
                    =~= buffer.entries@.subrange(buffer.read_pos(), pos as int).push(
                    buffer.entries@[pos as int],
                ));
            }
            pos += 1;
        }
        let mut second: Vec<T> = Vec::new();
        let mut j: usize = 0;
        while j < second_len
            invariant
                buffer.wf(),
                j <= second_len,
                second_len <= buffer.capacity(),
                second@ == buffer.entries@.subrange(0, j as int),
            decreases second_len - j,
        {
            let e = buffer.entries[j];
            second.push(e);
            proof {
                assert(buffer.entries@.subrange(0, j + 1 as int) =~= buffer.entries@.subrange(
                    0,
                    j as int,
                ).push(buffer.entries@[j as int]));
            }
            j += 1;
        }
        let reads_until = if kept < until_end {
            buffer.read_index + kept
        } else {
            kept - until_end
        };
        let batch = CyclicBatch { first, second, start: buffer.read_index, reads_until };
        proof {
            assert(batch.first_seq() + batch.second_seq() =~= buffer.unread().take(
                batched_entries(buffer.count(), reserve as int),
            ));
        }
        batch
    }

    /// Gives the reader handle back, making it available to take again.
    /// Nothing else about the buffer changes.
    pub fn release<T>(self, buffer: &mut CyclicBuffer<T>)
        ensures
            final(buffer).capacity() == old(buffer).capacity(),
            final(buffer).read_pos() == old(buffer).read_pos(),
            final(buffer).write_pos() == old(buffer).write_pos(),
            final(buffer).unread() == old(buffer).unread(),
            final(buffer).missed_count() == old(buffer).missed_count(),
            final(buffer).writer_available() == old(buffer).writer_available(),
            final(buffer).reader_available(),
    {
        buffer.reader_available = true;
    }
}

impl<T> CyclicBatch<T> {
    /// The entries of the first segment, in logical order.
    pub closed spec fn first_seq(self) -> Seq<T> {
        self.first@
    }

    /// The entries of the second segment: empty unless the readable range
    /// wraps past the end of the slot array.
    pub closed spec fn second_seq(self) -> Seq<T> {
        self.second@
    }

    /// How many entries the view covers.
    pub open spec fn len(self) -> int {
        (self.first_seq().len() + self.second_seq().len()) as int
    }

    /// The read position the view was captured at.
    pub closed spec fn start_pos(self) -> int {
        self.start as int
    }

    /// The boundary the read position advances to on release.
    pub closed spec fn boundary(self) -> int {
        self.reads_until as int
    }

    /// The view still corresponds to the buffer: it was captured at the
    /// buffer's current read position, covers no more than the unread
    /// entries, and its boundary lies where its length says. Appends and
    /// in-place replacements by the writer preserve this; only releasing
    /// the view itself consumes it.
    pub open spec fn valid_for(self, buffer: CyclicBuffer<T>) -> bool {
        &&& buffer.wf()
        &&& self.start_pos() == buffer.read_pos()
        &&& 0 <= self.len() <= buffer.count()
        &&& self.boundary() == wrap_ahead(buffer.read_pos(), self.len(), buffer.capacity())
    }

    /// The first segment.
    pub fn first_segment(&self) -> (segment: &Vec<T>)
        ensures
            segment@ == self.first_seq(),
    {
        &self.first
    }

    /// The second segment; empty unless the readable range wraps.
    pub fn second_segment(&self) -> (segment: &Vec<T>)
        ensures
            segment@ == self.second_seq(),
    {
        &self.second
    }

    /// How many entries the view covers.
    pub fn num_entries(&self) -> (count: usize)
        requires
            self.len() <= usize::MAX,
        ensures
            count == self.len(),
    {
        self.first.len() + self.second.len()
    }

    /// Releases the view: the read position advances to the captured
    /// boundary, consuming exactly the viewed entries — the next view
    /// starts where this one ended. Taking the view by value makes a second
    /// release of the same view impossible.
    pub fn release(self, buffer: &mut CyclicBuffer<T>)
        requires
            self.valid_for(*old(buffer)),
        ensures
            final(buffer).wf(),
            final(buffer).capacity() == old(buffer).capacity(),
            final(buffer).write_pos() == old(buffer).write_pos(),
            final(buffer).missed_count() == old(buffer).missed_count(),
            final(buffer).writer_available() == old(buffer).writer_available(),
            final(buffer).reader_available() == old(buffer).reader_available(),
            final(buffer).read_pos() == self.boundary(),
            final(buffer).count() == old(buffer).count() - self.len(),
            final(buffer).unread() == old(buffer).unread().skip(self.len()),
    {
        proof {
            lemma_unread_matches_count(*buffer);
        }
        buffer.read_index = self.reads_until;
        proof {
            assert(buffer.unread() =~= old(buffer).unread().skip(self.len()));
        }
    }
}

} // verus!

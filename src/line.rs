use vstd::prelude::*;

use crate::channel::{holds_words, lemma_words_round_trip, read_words, same_outside, words_at, write_words};
use crate::record::LineRecord;

verus! {

/// Bytes taken by one line record: six 4-byte words.
pub const LINE_RECORD_BYTES: usize = 24;

/// Byte offset of line record `index`.
pub open spec fn line_offset(index: int) -> int {
    index * 24
}

/// `after` is `before` with line record `index` replaced by `line`, every
/// other byte kept.
pub open spec fn line_stored(after: Seq<u8>, before: Seq<u8>, index: int, line: LineRecord) -> bool {
    &&& holds_words(after, line_offset(index), line.words())
    &&& same_outside(after, before, line_offset(index), line_offset(index) + 24)
}

/// The line record read from slot `index` of a region.
pub open spec fn line_in(region: Seq<u8>, index: int) -> LineRecord {
    LineRecord::from_words(words_at(region, line_offset(index), 6))
}

/// The layout of a line channel: exactly `max_lines` line records, written by
/// an outside producer and read back whole. A slot never written reads as the
/// zero-length line at the origin.
pub struct LineBuffer {
    max_lines: usize,
}

impl LineBuffer {
    #[verifier::type_invariant]
    spec fn fits(self) -> bool {
        self.max_lines * 24 <= usize::MAX
    }

    /// How many records the channel holds.
    pub closed spec fn capacity(self) -> nat {
        self.max_lines as nat
    }

    pub fn new(max_lines: usize) -> (r: LineBuffer)
        requires
            max_lines * 24 <= usize::MAX,
        ensures
            r.capacity() == max_lines,
    {
        LineBuffer { max_lines }
    }

    pub fn max_lines(&self) -> (r: usize)
        ensures
            r == self.capacity(),
    {
        self.max_lines
    }

    /// The length in bytes of the region that backs the channel.
    pub fn byte_len(&self) -> (r: usize)
        ensures
            r == self.capacity() * 24,
    {
        proof {
            use_type_invariant(self);
        }
        self.max_lines * LINE_RECORD_BYTES
    }

    /// Stores `line` in slot `index`, as the producer of the channel does.
    pub fn set_record(&self, region: &mut [u8], index: usize, line: &LineRecord)
        requires
            index < self.capacity(),
            self.capacity() * 24 <= old(region)@.len(),
        ensures
            line_stored(final(region)@, old(region)@, index as int, *line),
    {
        proof {
            use_type_invariant(self);
        }
        let words = line.to_words();
        write_words(region, index * LINE_RECORD_BYTES, words.as_slice());
    }

    /// Every record of the channel in slot order: always exactly `max_lines`
    /// of them, whether written or not.
    pub fn read_all(&self, region: &[u8]) -> (r: Vec<LineRecord>)
        requires
            self.capacity() * 24 <= region@.len(),
        ensures
            r@.len() == self.capacity(),
            forall|i: int| 0 <= i < r@.len() ==> #[trigger] r@[i] == line_in(region@, i),
    {
        proof {
            use_type_invariant(self);
        }
        let n = self.max_lines;
        let mut r: Vec<LineRecord> = Vec::new();
        let mut i: usize = 0;
        while i < n
            invariant
                i <= n,
                n * 24 <= region@.len(),
                n * 24 <= usize::MAX,
                r@.len() == i,
                forall|k: int| 0 <= k < i ==> #[trigger] r@[k] == line_in(region@, k),
            decreases n - i,
        {
            let words = read_words(region, i * LINE_RECORD_BYTES, 6);
            r.push(LineRecord::of_words(&words));
            i = i + 1;
        }
        r
    }
}

/// Reading a line record back gives exactly the line that was written there.
pub proof fn lemma_line_round_trip(after: Seq<u8>, before: Seq<u8>, index: int, line: LineRecord)
    requires
        0 <= index,
        line_stored(after, before, index, line),
    ensures
        line_in(after, index) == line,
{
    line.lemma_words_inverse();
    lemma_words_round_trip(after, line_offset(index), line.words());
}

} // verus!

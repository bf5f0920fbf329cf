use vstd::prelude::*;

use crate::channel::{holds_words, lemma_words_round_trip, read_words, same_outside, words_at, write_words};
use crate::record::PoseRecord;

verus! {

/// Bytes taken by one pose record: twelve 4-byte words.
pub const POSE_RECORD_BYTES: usize = 48;

/// Byte offset of pose record `index`.
pub open spec fn pose_offset(index: int) -> int {
    index * 48
}

/// `after` is `before` with pose record `index` replaced by `pose`: the
/// record's twelve words are stored in order, and every other byte is kept.
pub open spec fn pose_stored(after: Seq<u8>, before: Seq<u8>, index: int, pose: PoseRecord) -> bool {
    &&& holds_words(after, pose_offset(index), pose.words())
    &&& same_outside(after, before, pose_offset(index), pose_offset(index) + 48)
}

/// The pose record read from slot `index` of a region.
pub open spec fn pose_in(region: Seq<u8>, index: int) -> PoseRecord {
    PoseRecord::from_words(words_at(region, pose_offset(index), 12))
}

/// The layout of a pose channel: one fixed-size record per camera index, for
/// `max_records` cameras.
pub struct PoseBuffer {
    max_records: usize,
}

impl PoseBuffer {
    #[verifier::type_invariant]
    spec fn fits(self) -> bool {
        self.max_records * 48 <= usize::MAX
    }

    /// How many records the channel holds.
    pub closed spec fn capacity(self) -> nat {
        self.max_records as nat
    }

    pub fn new(max_records: usize) -> (r: PoseBuffer)
        requires
            max_records * 48 <= usize::MAX,
        ensures
            r.capacity() == max_records,
    {
        PoseBuffer { max_records }
    }

    pub fn max_records(&self) -> (r: usize)
        ensures
            r == self.capacity(),
    {
        self.max_records
    }

    /// The length in bytes of the region that backs the channel.
    pub fn byte_len(&self) -> (r: usize)
        ensures
            r == self.capacity() * 48,
    {
        proof {
            use_type_invariant(self);
        }
        self.max_records * POSE_RECORD_BYTES
    }

    /// The byte offset of record `index`, or `None` when the channel has no
    /// such record.
    pub fn record_offset(&self, index: usize) -> (r: Option<usize>)
        ensures
            index < self.capacity() <==> r is Some,
            r matches Some(off) ==> off == pose_offset(index as int),
    {
        proof {
            use_type_invariant(self);
        }
        if index < self.max_records {
            Some(index * POSE_RECORD_BYTES)
        } else {
            None
        }
    }

    /// Writes the pose of camera `index`: its translation, then the three
    /// rotation columns, at the record's fixed offset. An index past the
    /// channel's capacity is a programming error and is not admitted.
    pub fn set_record(&self, region: &mut [u8], index: usize, pose: &PoseRecord)
        requires
            index < self.capacity(),
            self.capacity() * 48 <= old(region)@.len(),
        ensures
            pose_stored(final(region)@, old(region)@, index as int, *pose),
    {
        proof {
            use_type_invariant(self);
        }
        let words = pose.to_words();
        write_words(region, index * POSE_RECORD_BYTES, words.as_slice());
    }

    /// Reads the pose stored for camera `index`.
    pub fn get_record(&self, region: &[u8], index: usize) -> (r: PoseRecord)
        requires
            index < self.capacity(),
            self.capacity() * 48 <= region@.len(),
        ensures
            r == pose_in(region@, index as int),
    {
        proof {
            use_type_invariant(self);
        }
        let words = read_words(region, index * POSE_RECORD_BYTES, 12);
        PoseRecord::of_words(&words)
    }
}

/// Reading a pose record back gives exactly the pose that was written there.
pub proof fn lemma_pose_round_trip(after: Seq<u8>, before: Seq<u8>, index: int, pose: PoseRecord)
    requires
        0 <= index,
        pose_stored(after, before, index, pose),
    ensures
        pose_in(after, index) == pose,
{
    pose.lemma_words_inverse();
    lemma_words_round_trip(after, pose_offset(index), pose.words());
}

/// Writing the pose of one camera leaves the record of every other camera as
/// it was.
pub proof fn lemma_pose_write_keeps_other_records(
    after: Seq<u8>,
    before: Seq<u8>,
    index: int,
    pose: PoseRecord,
    other: int,
)
    requires
        0 <= index,
        0 <= other,
        other != index,
        pose_offset(other) + 48 <= before.len(),
        pose_stored(after, before, index, pose),
    ensures
        pose_in(after, other) == pose_in(before, other),
{
    let base = pose_offset(other);
    assert(index < other ==> index + 1 <= other);
    assert(other < index ==> other + 1 <= index);
    assert(index < other ==> pose_offset(index) + 48 <= base) by (nonlinear_arith)
        requires
            index < other ==> index + 1 <= other,
            base == other * 48,
            pose_offset(index) == index * 48,
    ;
    assert(other < index ==> base + 48 <= pose_offset(index)) by (nonlinear_arith)
        requires
            other < index ==> other + 1 <= index,
            base == other * 48,
            pose_offset(index) == index * 48,
    ;
    assert forall|j: int| 0 <= j < 12 implies #[trigger] words_at(after, base, 12)[j] == words_at(
        before,
        base,
        12,
    )[j] by {
        assert(after.subrange(base + 4 * j, base + 4 * j + 4) =~= before.subrange(
            base + 4 * j,
            base + 4 * j + 4,
        ));
    }
    assert(words_at(after, base, 12) =~= words_at(before, base, 12));
}

} // verus!

use vstd::bytes::*;
use vstd::prelude::*;
use vstd::slice::*;

verus! {

/// The 32-bit word stored little-endian at byte `off` of `s`.
pub open spec fn word_at(s: Seq<u8>, off: int) -> u32 {
    spec_u32_from_le_bytes(s.subrange(off, off + 4))
}

/// The four bytes at `base + 4 * j` of `s` hold word `j` of `ws`, for each `j`.
pub open spec fn holds_words(s: Seq<u8>, base: int, ws: Seq<u32>) -> bool {
    &&& 0 <= base
    &&& base + 4 * ws.len() <= s.len()
    &&& forall|j: int|
        0 <= j < ws.len() ==> #[trigger] s.subrange(base + 4 * j, base + 4 * j + 4)
            == spec_u32_to_le_bytes(ws[j])
}

/// `a` and `b` have the same length and agree on every byte outside `[lo, hi)`.
pub open spec fn same_outside(a: Seq<u8>, b: Seq<u8>, lo: int, hi: int) -> bool {
    &&& a.len() == b.len()
    &&& forall|k: int| 0 <= k < a.len() && !(lo <= k < hi) ==> #[trigger] a[k] == b[k]
}

/// The words read back from `count` consecutive 4-byte slots of `s` starting at `base`.
pub open spec fn words_at(s: Seq<u8>, base: int, count: nat) -> Seq<u32> {
    Seq::new(count, |j: int| word_at(s, base + 4 * j))
}

/// Fills the whole region with zero bytes, as a newly created segment is.
pub fn zero_fill(region: &mut [u8])
    ensures
        final(region)@.len() == old(region)@.len(),
        forall|k: int| 0 <= k < final(region)@.len() ==> #[trigger] final(region)@[k] == 0,
{
    let n = region.len();
    let mut i: usize = 0;
    while i < n
        invariant
            n == region@.len(),
            i <= n,
            region@.len() == old(region)@.len(),
            forall|k: int| 0 <= k < i ==> #[trigger] region@[k] == 0,
        decreases n - i,
    {
        region[i] = 0;
        i = i + 1;
    }
}

/// Copies `data` into the region at `offset`. The whole range must lie inside
/// the region; every byte outside it keeps its value.
pub fn write_bytes_at(region: &mut [u8], offset: usize, data: &[u8])
    requires
        offset + data@.len() <= old(region)@.len(),
    ensures
        final(region)@ == old(region)@.subrange(0, offset as int) + data@ + old(region)@.subrange(
            offset + data@.len(),
            old(region)@.len() as int,
        ),
{
    let n = data.len();
    let total = region.len();
    let mut i: usize = 0;
    while i < n
        invariant
            n == data@.len(),
            i <= n,
            total == old(region)@.len(),
            offset + n <= total,
            region@.len() == old(region)@.len(),
            forall|k: int| offset <= k < offset + i ==> #[trigger] region@[k] == data@[k - offset],
            forall|k: int|
                0 <= k < region@.len() && !(offset <= k < offset + i) ==> #[trigger] region@[k]
                    == old(region)@[k],
        decreases n - i,
    {
        region[offset + i] = data[i];
        i = i + 1;
    }
    assert(region@ =~= old(region)@.subrange(0, offset as int) + data@ + old(region)@.subrange(
        offset + data@.len(),
        old(region)@.len() as int,
    ));
}

/// Stores each word of `ws` little-endian in consecutive 4-byte slots of the
/// region starting at `base`; every byte outside those slots keeps its value.
pub fn write_words(region: &mut [u8], base: usize, ws: &[u32])
    requires
        base + 4 * ws@.len() <= old(region)@.len(),
    ensures
        holds_words(final(region)@, base as int, ws@),
        same_outside(final(region)@, old(region)@, base as int, base + 4 * ws@.len()),
{
    let n = ws.len();
    let total = region.len();
    let mut j: usize = 0;
    while j < n
        invariant
            n == ws@.len(),
            j <= n,
            total == old(region)@.len(),
            base + 4 * n <= total,
            holds_words(region@, base as int, ws@.subrange(0, j as int)),
            same_outside(region@, old(region)@, base as int, base + 4 * j),
        decreases n - j,
    {
        let bytes = u32_to_le_bytes(ws[j]);
        let off = base + 4 * j;
        let ghost before = region@;
        write_bytes_at(region, off, bytes.as_slice());
        proof {
            let after = region@;
            assert forall|i: int| 0 <= i < j + 1 implies #[trigger] after.subrange(
                base + 4 * i,
                base + 4 * i + 4,
            ) == spec_u32_to_le_bytes(ws@.subrange(0, j + 1)[i]) by {
                if i < j {
                    assert(after.subrange(base + 4 * i, base + 4 * i + 4) =~= before.subrange(
                        base + 4 * i,
                        base + 4 * i + 4,
                    ));
                    assert(ws@.subrange(0, j as int)[i] == ws@.subrange(0, j + 1)[i]);
                } else {
                    assert(after.subrange(base + 4 * i, base + 4 * i + 4) =~= bytes@);
                }
            }
        }
        j = j + 1;
    }
    assert(ws@.subrange(0, n as int) =~= ws@);
}

/// Reads `count` little-endian words from consecutive 4-byte slots of the
/// region starting at `base`.
pub fn read_words(region: &[u8], base: usize, count: usize) -> (r: Vec<u32>)
    requires
        base + 4 * count <= region@.len(),
    ensures
        r@ == words_at(region@, base as int, count as nat),
{
    let total = region.len();
    let mut r: Vec<u32> = Vec::new();
    let mut j: usize = 0;
    while j < count
        invariant
            j <= count,
            total == region@.len(),
            base + 4 * count <= total,
            r@ =~= words_at(region@, base as int, j as nat),
        decreases count - j,
    {
        let off = base + 4 * j;
        let w = u32_from_le_bytes(slice_subrange(region, off, off + 4));
        r.push(w);
        j = j + 1;
    }
    r
}

/// Words stored by `write_words` read back unchanged.
pub proof fn lemma_words_round_trip(s: Seq<u8>, base: int, ws: Seq<u32>)
    requires
        holds_words(s, base, ws),
    ensures
        words_at(s, base, ws.len()) == ws,
{
    lemma_auto_spec_u32_to_from_le_bytes();
    assert forall|j: int| 0 <= j < ws.len() implies #[trigger] words_at(s, base, ws.len())[j]
        == ws[j] by {
        assert(s.subrange(base + 4 * j, base + 4 * j + 4) == spec_u32_to_le_bytes(ws[j]));
    }
    assert(words_at(s, base, ws.len()) =~= ws);
}

/// What an attempt to create a named segment reported.
#[derive(Clone, Copy, Debug, PartialEq, Eq, Structural)]
pub enum CreateOutcome {
    /// A new region of the requested size now exists under the name.
    Created,
    /// A region with that name already exists.
    NameTaken,
    /// Creation failed for any other reason.
    Failed,
}

/// What the host does next with a segment after trying to create it.
#[derive(Clone, Copy, Debug, PartialEq, Eq, Structural)]
pub enum OpenStep {
    /// Keep the new region and fill it with zero bytes.
    ZeroFill,
    /// Attach to the region that already exists, leaving its bytes as they are.
    Attach,
    /// Give up: the segment cannot be set up.
    Abort,
}

/// Create-or-attach: a taken name is the ordinary path for a process that
/// joins second; any other failure ends the setup.
pub fn step_after_create(outcome: CreateOutcome) -> (r: OpenStep)
    ensures
        outcome == CreateOutcome::Created ==> r == OpenStep::ZeroFill,
        outcome == CreateOutcome::NameTaken ==> r == OpenStep::Attach,
        outcome == CreateOutcome::Failed ==> r == OpenStep::Abort,
{
    match outcome {
        CreateOutcome::Created => OpenStep::ZeroFill,
        CreateOutcome::NameTaken => OpenStep::Attach,
        CreateOutcome::Failed => OpenStep::Abort,
    }
}

/// Readies the bytes of a segment that `step` kept: a region this process
/// created is zero-filled over its whole length, an attached one keeps what
/// the other processes wrote.
pub fn prepare_region(step: OpenStep, region: &mut [u8])
    requires
        step != OpenStep::Abort,
    ensures
        final(region)@.len() == old(region)@.len(),
        step == OpenStep::ZeroFill ==> forall|k: int|
            0 <= k < final(region)@.len() ==> #[trigger] final(region)@[k] == 0,
        step == OpenStep::Attach ==> final(region)@ == old(region)@,
{
    if let OpenStep::ZeroFill = step {
        zero_fill(region);
    }
}

/// Why an existing segment cannot be used.
#[derive(Clone, Copy, Debug, PartialEq, Eq, Structural)]
pub enum SegmentError {
    /// The region found under the name does not have the requested length.
    SizeMismatch { requested: usize, found: usize },
}

/// Accepts an attached region only when its length is the one requested.
pub fn check_attached(requested: usize, found: usize) -> (r: Result<(), SegmentError>)
    ensures
        requested == found <==> r is Ok,
        requested != found ==> r == Err::<(), SegmentError>(
            SegmentError::SizeMismatch { requested, found },
        ),
{
    if requested == found {
        Ok(())
    } else {
        Err(SegmentError::SizeMismatch { requested, found })
    }
}

} // verus!

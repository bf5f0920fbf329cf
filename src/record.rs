use vstd::prelude::*;

verus! {

/// A point or direction whose three coordinates are given as the bit
/// patterns of 32-bit floats.
#[derive(Clone, Copy, Debug, PartialEq, Eq, Structural)]
pub struct Vec3Bits {
    pub x: u32,
    pub y: u32,
    pub z: u32,
}

impl Vec3Bits {
    pub open spec fn words(self) -> Seq<u32> {
        seq![self.x, self.y, self.z]
    }

    pub fn new(x: u32, y: u32, z: u32) -> (r: Vec3Bits)
        ensures
            r == (Vec3Bits { x, y, z }),
    {
        Vec3Bits { x, y, z }
    }

    /// The origin: all three coordinates are `0.0`, whose bit pattern is zero.
    pub fn zero() -> (r: Vec3Bits)
        ensures
            r == (Vec3Bits { x: 0, y: 0, z: 0 }),
    {
        Vec3Bits { x: 0, y: 0, z: 0 }
    }

    /// The three coordinates starting at word `j` of `ws`.
    pub open spec fn at(ws: Seq<u32>, j: int) -> Vec3Bits {
        Vec3Bits { x: ws[j], y: ws[j + 1], z: ws[j + 2] }
    }
}

/// A camera pose: its translation, then the three columns of its 3x3
/// rotation matrix.
#[derive(Clone, Copy, Debug, PartialEq, Eq, Structural)]
pub struct PoseRecord {
    pub translation: Vec3Bits,
    pub x_axis: Vec3Bits,
    pub y_axis: Vec3Bits,
    pub z_axis: Vec3Bits,
}

impl PoseRecord {
    /// The twelve words of the record in storage order.
    pub open spec fn words(self) -> Seq<u32> {
        self.translation.words() + self.x_axis.words() + self.y_axis.words()
            + self.z_axis.words()
    }

    /// The record whose storage order is `ws`.
    pub open spec fn from_words(ws: Seq<u32>) -> PoseRecord {
        PoseRecord {
            translation: Vec3Bits::at(ws, 0),
            x_axis: Vec3Bits::at(ws, 3),
            y_axis: Vec3Bits::at(ws, 6),
            z_axis: Vec3Bits::at(ws, 9),
        }
    }

    pub fn to_words(&self) -> (r: Vec<u32>)
        ensures
            r@ == self.words(),
    {
        let r = vec![
            self.translation.x, self.translation.y, self.translation.z,
            self.x_axis.x, self.x_axis.y, self.x_axis.z,
            self.y_axis.x, self.y_axis.y, self.y_axis.z,
            self.z_axis.x, self.z_axis.y, self.z_axis.z,
        ];
        assert(r@ =~= self.words());
        r
    }

    pub fn of_words(ws: &Vec<u32>) -> (r: PoseRecord)
        requires
            ws@.len() == 12,
        ensures
            r == PoseRecord::from_words(ws@),
    {
        PoseRecord {
            translation: Vec3Bits { x: ws[0], y: ws[1], z: ws[2] },
            x_axis: Vec3Bits { x: ws[3], y: ws[4], z: ws[5] },
            y_axis: Vec3Bits { x: ws[6], y: ws[7], z: ws[8] },
            z_axis: Vec3Bits { x: ws[9], y: ws[10], z: ws[11] },
        }
    }

    pub proof fn lemma_words_inverse(self)
        ensures
            self.words().len() == 12,
            PoseRecord::from_words(self.words()) == self,
    {
    }
}

/// A line segment from `start` to `end`.
#[derive(Clone, Copy, Debug, PartialEq, Eq, Structural)]
pub struct LineRecord {
    pub start: Vec3Bits,
    pub end: Vec3Bits,
}

impl LineRecord {
    /// The six words of the record in storage order.
    pub open spec fn words(self) -> Seq<u32> {
        self.start.words() + self.end.words()
    }

    /// The record whose storage order is `ws`.
    pub open spec fn from_words(ws: Seq<u32>) -> LineRecord {
        LineRecord { start: Vec3Bits::at(ws, 0), end: Vec3Bits::at(ws, 3) }
    }

    pub fn new(start: Vec3Bits, end: Vec3Bits) -> (r: LineRecord)
        ensures
            r == (LineRecord { start, end }),
    {
        LineRecord { start, end }
    }

    pub fn to_words(&self) -> (r: Vec<u32>)
        ensures
            r@ == self.words(),
    {
        let r = vec![
            self.start.x, self.start.y, self.start.z,
            self.end.x, self.end.y, self.end.z,
        ];
        assert(r@ =~= self.words());
        r
    }

    pub fn of_words(ws: &Vec<u32>) -> (r: LineRecord)
        requires
            ws@.len() == 6,
        ensures
            r == LineRecord::from_words(ws@),
    {
        LineRecord {
            start: Vec3Bits { x: ws[0], y: ws[1], z: ws[2] },
            end: Vec3Bits { x: ws[3], y: ws[4], z: ws[5] },
        }
    }

    pub proof fn lemma_words_inverse(self)
        ensures
            self.words().len() == 6,
            LineRecord::from_words(self.words()) == self,
    {
    }
}

} // verus!

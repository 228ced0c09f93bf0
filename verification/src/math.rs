use vstd::prelude::*;

verus! {

/// A single-precision number, carried by its 32-bit pattern.
///
/// The renderer never does arithmetic on scene values: it stores them and
/// uploads them. Holding the bit pattern keeps equality exact.
#[derive(Debug, Clone, Copy, PartialEq, Eq, Structural)]
pub struct Scalar {
    pub bits: u32,
}

/// The bit pattern of the number zero.
pub const ZERO_BITS: u32 = 0;

/// The bit pattern of the number one.
pub const ONE_BITS: u32 = 0x3F80_0000;

impl Scalar {
    pub open spec fn spec_zero() -> Scalar {
        Scalar { bits: ZERO_BITS }
    }

    pub open spec fn spec_one() -> Scalar {
        Scalar { bits: ONE_BITS }
    }

    /// The value with the bit pattern `bits`.
    pub fn from_bits(bits: u32) -> (s: Scalar)
        ensures
            s.bits == bits,
    {
        Scalar { bits }
    }

    #[verifier::when_used_as_spec(spec_zero)]
    pub fn zero() -> (s: Scalar)
        ensures
            s == Scalar::spec_zero(),
    {
        Scalar { bits: ZERO_BITS }
    }

    #[verifier::when_used_as_spec(spec_one)]
    pub fn one() -> (s: Scalar)
        ensures
            s == Scalar::spec_one(),
    {
        Scalar { bits: ONE_BITS }
    }

    /// Whether the magnitude is zero, for either sign.
    pub open spec fn spec_is_zero(self) -> bool {
        self.bits == 0 || self.bits == 0x8000_0000
    }

    #[verifier::when_used_as_spec(spec_is_zero)]
    pub fn is_zero(self) -> (b: bool)
        ensures
            b == self.spec_is_zero(),
    {
        self.bits == 0 || self.bits == 0x8000_0000
    }
}

#[derive(Debug, Clone, Copy, PartialEq, Eq, Structural)]
pub struct Vec2 {
    pub x: Scalar,
    pub y: Scalar,
}

#[derive(Debug, Clone, Copy, PartialEq, Eq, Structural)]
pub struct Vec3 {
    pub x: Scalar,
    pub y: Scalar,
    pub z: Scalar,
}

#[derive(Debug, Clone, Copy, PartialEq, Eq, Structural)]
pub struct Vec4 {
    pub x: Scalar,
    pub y: Scalar,
    pub z: Scalar,
    pub w: Scalar,
}

/// A 4x4 matrix held by its columns.
#[derive(Debug, Clone, Copy, PartialEq, Eq, Structural)]
pub struct Mat4 {
    pub x: Vec4,
    pub y: Vec4,
    pub z: Vec4,
    pub w: Vec4,
}

impl Vec2 {
    pub fn new(x: Scalar, y: Scalar) -> (v: Vec2)
        ensures
            v == (Vec2 { x, y }),
    {
        Vec2 { x, y }
    }

    pub open spec fn words(self) -> Seq<u32> {
        seq![self.x.bits, self.y.bits]
    }
}

impl Vec3 {
    pub fn new(x: Scalar, y: Scalar, z: Scalar) -> (v: Vec3)
        ensures
            v == (Vec3 { x, y, z }),
    {
        Vec3 { x, y, z }
    }

    pub open spec fn spec_zero() -> Vec3 {
        Vec3 { x: Scalar::spec_zero(), y: Scalar::spec_zero(), z: Scalar::spec_zero() }
    }

    #[verifier::when_used_as_spec(spec_zero)]
    pub fn zero() -> (v: Vec3)
        ensures
            v == Vec3::spec_zero(),
    {
        Vec3 { x: Scalar::zero(), y: Scalar::zero(), z: Scalar::zero() }
    }

    pub open spec fn words(self) -> Seq<u32> {
        seq![self.x.bits, self.y.bits, self.z.bits]
    }
}

impl Vec4 {
    pub fn new(x: Scalar, y: Scalar, z: Scalar, w: Scalar) -> (v: Vec4)
        ensures
            v == (Vec4 { x, y, z, w }),
    {
        Vec4 { x, y, z, w }
    }

    pub open spec fn spec_zero() -> Vec4 {
        Vec4 {
            x: Scalar::spec_zero(),
            y: Scalar::spec_zero(),
            z: Scalar::spec_zero(),
            w: Scalar::spec_zero(),
        }
    }

    #[verifier::when_used_as_spec(spec_zero)]
    pub fn zero() -> (v: Vec4)
        ensures
            v == Vec4::spec_zero(),
    {
        Vec4 { x: Scalar::zero(), y: Scalar::zero(), z: Scalar::zero(), w: Scalar::zero() }
    }

    pub open spec fn words(self) -> Seq<u32> {
        seq![self.x.bits, self.y.bits, self.z.bits, self.w.bits]
    }
}

impl Mat4 {
    pub fn from_cols(x: Vec4, y: Vec4, z: Vec4, w: Vec4) -> (m: Mat4)
        ensures
            m == (Mat4 { x, y, z, w }),
    {
        Mat4 { x, y, z, w }
    }

    pub open spec fn spec_identity() -> Mat4 {
        let o = Scalar::spec_zero();
        let i = Scalar::spec_one();
        Mat4 {
            x: Vec4 { x: i, y: o, z: o, w: o },
            y: Vec4 { x: o, y: i, z: o, w: o },
            z: Vec4 { x: o, y: o, z: i, w: o },
            w: Vec4 { x: o, y: o, z: o, w: i },
        }
    }

    #[verifier::when_used_as_spec(spec_identity)]
    pub fn identity() -> (m: Mat4)
        ensures
            m == Mat4::spec_identity(),
    {
        let o = Scalar::zero();
        let i = Scalar::one();
        Mat4 {
            x: Vec4 { x: i, y: o, z: o, w: o },
            y: Vec4 { x: o, y: i, z: o, w: o },
            z: Vec4 { x: o, y: o, z: i, w: o },
            w: Vec4 { x: o, y: o, z: o, w: i },
        }
    }

    /// The sixteen entries, column after column.
    pub open spec fn words(self) -> Seq<u32> {
        self.x.words() + self.y.words() + self.z.words() + self.w.words()
    }

    /// The sixteen entries, ready for upload.
    pub fn to_words(&self) -> (words: Vec<u32>)
        ensures
            words@ == self.words(),
    {
        let mut words: Vec<u32> = Vec::new();
        words.push(self.x.x.bits);
        words.push(self.x.y.bits);
        words.push(self.x.z.bits);
        words.push(self.x.w.bits);
        words.push(self.y.x.bits);
        words.push(self.y.y.bits);
        words.push(self.y.z.bits);
        words.push(self.y.w.bits);
        words.push(self.z.x.bits);
        words.push(self.z.y.bits);
        words.push(self.z.z.bits);
        words.push(self.z.w.bits);
        words.push(self.w.x.bits);
        words.push(self.w.y.bits);
        words.push(self.w.z.bits);
        words.push(self.w.w.bits);
        assert(words@ =~= self.words());
        words
    }

    /// The `i`-th row: the `i`-th entry of each column.
    pub fn row_at(&self, i: usize) -> (row: Vec4)
        ensures
            row == self.row(i as int),
    {
        if i == 0 {
            Vec4 { x: self.x.x, y: self.y.x, z: self.z.x, w: self.w.x }
        } else if i == 1 {
            Vec4 { x: self.x.y, y: self.y.y, z: self.z.y, w: self.w.y }
        } else if i == 2 {
            Vec4 { x: self.x.z, y: self.y.z, z: self.z.z, w: self.w.z }
        } else {
            Vec4 { x: self.x.w, y: self.y.w, z: self.z.w, w: self.w.w }
        }
    }

    /// The `i`-th row: the `i`-th entry of each column. Every `i` beyond the
    /// third row gives the fourth.
    pub open spec fn row(self, i: int) -> Vec4 {
        if i == 0 {
            Vec4 { x: self.x.x, y: self.y.x, z: self.z.x, w: self.w.x }
        } else if i == 1 {
            Vec4 { x: self.x.y, y: self.y.y, z: self.z.y, w: self.w.y }
        } else if i == 2 {
            Vec4 { x: self.x.z, y: self.y.z, z: self.z.z, w: self.w.z }
        } else {
            Vec4 { x: self.x.w, y: self.y.w, z: self.z.w, w: self.w.w }
        }
    }
}

} // verus!

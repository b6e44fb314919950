//! The row-major 4x4 transform.
//!
//! Entries are carried as opaque 32-bit scalar encodings (IEEE-754 binary32
//! bit patterns); the scalar arithmetic itself happens outside the verified
//! core, which receives already computed scalars and proves where they land.
//! The matrix keeps four staged rows and a cached flat form: the flat form
//! equals the rows whenever the dirty flag is clear, every row mutation sets
//! the flag, and reading the flat form flushes first.

use vstd::prelude::*;

verus! {

/// A rotation axis.
#[derive(Clone, Copy, PartialEq, Eq, Structural, Debug)]
pub enum Axis {
    X,
    Y,
    Z,
}

/// The encoding of the scalar one (IEEE-754 binary32).
pub const SCALAR_ONE: u32 = 0x3F80_0000;

/// The encoding of the scalar zero (IEEE-754 binary32).
pub const SCALAR_ZERO: u32 = 0;

/// The mathematical state of a transform: staged rows, cached flat form,
/// and the dirty flag that tracks whether the cache is stale.
pub struct Mat4View {
    pub rows: Seq<u32>,
    pub flat: Seq<u32>,
    pub dirty: bool,
}

impl Mat4View {
    /// Both forms hold sixteen entries, and a clean cache equals the rows.
    pub open spec fn wf(self) -> bool {
        &&& self.rows.len() == 16
        &&& self.flat.len() == 16
        &&& !self.dirty ==> self.flat == self.rows
    }
}

/// The sixteen entries of the identity transform, row-major.
pub open spec fn identity_bits() -> Seq<u32> {
    seq![
        SCALAR_ONE, SCALAR_ZERO, SCALAR_ZERO, SCALAR_ZERO,
        SCALAR_ZERO, SCALAR_ONE, SCALAR_ZERO, SCALAR_ZERO,
        SCALAR_ZERO, SCALAR_ZERO, SCALAR_ONE, SCALAR_ZERO,
        SCALAR_ZERO, SCALAR_ZERO, SCALAR_ZERO, SCALAR_ONE,
    ]
}

/// Row-major entries after writing translation offsets into row 3: exactly
/// entries 12, 13 and 14 change.
pub open spec fn translated(rows: Seq<u32>, x: u32, y: u32, z: u32) -> Seq<u32> {
    rows.update(12, x).update(13, y).update(14, z)
}

/// Row-major entries after writing scaled diagonals of rows 0, 1 and 2:
/// exactly entries 0, 5 and 10 change.
pub open spec fn stretched(rows: Seq<u32>, x: u32, y: u32, z: u32) -> Seq<u32> {
    rows.update(0, x).update(5, y).update(10, z)
}

/// The entries of an elementary rotation about `axis`, given the encodings
/// of the angle's cosine, sine and negated sine, placed by the right-handed
/// convention.
pub open spec fn rotation_bits(axis: Axis, cos_b: u32, sin_b: u32, neg_sin_b: u32) -> Seq<u32> {
    match axis {
        Axis::X => seq![
            SCALAR_ONE, SCALAR_ZERO, SCALAR_ZERO, SCALAR_ZERO,
            SCALAR_ZERO, cos_b, neg_sin_b, SCALAR_ZERO,
            SCALAR_ZERO, sin_b, cos_b, SCALAR_ZERO,
            SCALAR_ZERO, SCALAR_ZERO, SCALAR_ZERO, SCALAR_ONE,
        ],
        Axis::Y => seq![
            cos_b, SCALAR_ZERO, sin_b, SCALAR_ZERO,
            SCALAR_ZERO, SCALAR_ONE, SCALAR_ZERO, SCALAR_ZERO,
            neg_sin_b, SCALAR_ZERO, cos_b, SCALAR_ZERO,
            SCALAR_ZERO, SCALAR_ZERO, SCALAR_ZERO, SCALAR_ONE,
        ],
        Axis::Z => seq![
            cos_b, neg_sin_b, SCALAR_ZERO, SCALAR_ZERO,
            sin_b, cos_b, SCALAR_ZERO, SCALAR_ZERO,
            SCALAR_ZERO, SCALAR_ZERO, SCALAR_ONE, SCALAR_ZERO,
            SCALAR_ZERO, SCALAR_ZERO, SCALAR_ZERO, SCALAR_ONE,
        ],
    }
}

/// A row-major 4x4 transform with a lazily flushed flat form.
pub struct Mat4 {
    rows: Vec<u32>,
    flat: Vec<u32>,
    dirty: bool,
}

impl View for Mat4 {
    type V = Mat4View;

    closed spec fn view(&self) -> Mat4View {
        Mat4View { rows: self.rows@, flat: self.flat@, dirty: self.dirty }
    }
}

impl Mat4 {
    /// The all-zero transform, with a clean cache.
    pub fn new() -> (r: Mat4)
        ensures
            r@.wf(),
            !r@.dirty,
            r@.rows == Seq::new(16, |i: int| SCALAR_ZERO),
            r@.flat == r@.rows,
    {
        let mut rows: Vec<u32> = Vec::new();
        let mut flat: Vec<u32> = Vec::new();
        let mut i: usize = 0;
        while i < 16
            invariant
                i <= 16,
                rows@ == Seq::new(i as nat, |j: int| SCALAR_ZERO),
                flat@ == rows@,
            decreases 16 - i,
        {
            rows.push(SCALAR_ZERO);
            flat.push(SCALAR_ZERO);
            proof {
                assert(rows@ =~= Seq::new((i + 1) as nat, |j: int| SCALAR_ZERO));
                assert(flat@ =~= rows@);
            }
            i = i + 1;
        }
        let r = Mat4 { rows, flat, dirty: false };
        proof {
            assert(r@.rows =~= Seq::new(16, |i: int| SCALAR_ZERO));
        }
        r
    }

    /// A transform whose rows and flat form both hold `data`, with a clean
    /// cache.
    pub fn from_data(data: Vec<u32>) -> (r: Mat4)
        requires
            data@.len() == 16,
        ensures
            r@.wf(),
            !r@.dirty,
            r@.rows == data@,
            r@.flat == data@,
    {
        let mut copy: Vec<u32> = Vec::new();
        let mut i: usize = 0;
        while i < data.len()
            invariant
                i <= data@.len(),
                copy@ == data@.take(i as int),
            decreases data@.len() - i,
        {
            copy.push(data[i]);
            proof {
                assert(copy@ =~= data@.take(i + 1));
            }
            i = i + 1;
        }
        proof {
            assert(data@.take(data@.len() as int) =~= data@);
        }
        Mat4 { rows: copy, flat: data, dirty: false }
    }

    /// The identity transform.
    pub fn identity() -> (r: Mat4)
        ensures
            r@.wf(),
            !r@.dirty,
            r@.rows == identity_bits(),
            r@.flat == identity_bits(),
    {
        let mut data: Vec<u32> = Vec::new();
        let mut i: usize = 0;
        while i < 16
            invariant
                i <= 16,
                data@.len() == i,
                forall|j: int| 0 <= j < i ==> data@[j] == identity_bits()[j],
            decreases 16 - i,
        {
            if i == 0 || i == 5 || i == 10 || i == 15 {
                data.push(SCALAR_ONE);
            } else {
                data.push(SCALAR_ZERO);
            }
            i = i + 1;
        }
        proof {
            assert(data@ =~= identity_bits());
        }
        Mat4::from_data(data)
    }

    /// One staged entry, by row and column.
    pub fn entry(&self, row: usize, col: usize) -> (r: u32)
        requires
            self@.wf(),
            row < 4,
            col < 4,
        ensures
            r == self@.rows[row * 4 + col],
    {
        self.rows[row * 4 + col]
    }

    /// Rewrites the flat form from the rows and clears the dirty flag.
    pub fn flush_rows(&mut self)
        requires
            old(self)@.wf(),
        ensures
            final(self)@.wf(),
            !final(self)@.dirty,
            final(self)@.rows == old(self)@.rows,
            final(self)@.flat == old(self)@.rows,
    {
        let mut i: usize = 0;
        while i < 16
            invariant
                i <= 16,
                self@.rows.len() == 16,
                self@.flat.len() == 16,
                self@.rows == old(self)@.rows,
                forall|j: int| 0 <= j < i ==> self@.flat[j] == self@.rows[j],
                forall|j: int| i <= j < 16 ==> self@.flat[j] == old(self)@.flat[j],
            decreases 16 - i,
        {
            let v = self.rows[i];
            self.flat.set(i, v);
            i = i + 1;
        }
        self.dirty = false;
        proof {
            assert(self@.flat =~= self@.rows);
        }
    }

    /// The flat row-major form: flushes first if and only if the cache is
    /// stale, then hands out a copy of the sixteen entries.
    pub fn get(&mut self) -> (r: Vec<u32>)
        requires
            old(self)@.wf(),
        ensures
            final(self)@.wf(),
            !final(self)@.dirty,
            final(self)@.rows == old(self)@.rows,
            final(self)@.flat == old(self)@.rows,
            r@ == old(self)@.rows,
    {
        if self.dirty {
            self.flush_rows();
        }
        let mut out: Vec<u32> = Vec::new();
        let mut i: usize = 0;
        while i < 16
            invariant
                i <= 16,
                self@.flat.len() == 16,
                out@ == self@.flat.take(i as int),
            decreases 16 - i,
        {
            out.push(self.flat[i]);
            proof {
                assert(out@ =~= self@.flat.take(i + 1));
            }
            i = i + 1;
        }
        proof {
            assert(self@.flat.take(16) =~= self@.flat);
        }
        out
    }

    /// Writes already computed translation offsets into row 3: entries 12,
    /// 13 and 14 take the offsets, nothing else moves, and the cache goes
    /// stale.
    pub fn apply_translation(&mut self, x: u32, y: u32, z: u32)
        requires
            old(self)@.wf(),
        ensures
            final(self)@.wf(),
            final(self)@.dirty,
            final(self)@.rows == translated(old(self)@.rows, x, y, z),
            final(self)@.flat == old(self)@.flat,
    {
        self.rows.set(12, x);
        self.rows.set(13, y);
        self.rows.set(14, z);
        self.dirty = true;
    }

    /// Writes already computed scaled diagonals of rows 0, 1 and 2: entries
    /// 0, 5 and 10 take the products, nothing else moves, and the cache
    /// goes stale.
    pub fn apply_stretch(&mut self, x: u32, y: u32, z: u32)
        requires
            old(self)@.wf(),
        ensures
            final(self)@.wf(),
            final(self)@.dirty,
            final(self)@.rows == stretched(old(self)@.rows, x, y, z),
            final(self)@.flat == old(self)@.flat,
    {
        self.rows.set(0, x);
        self.rows.set(5, y);
        self.rows.set(10, z);
        self.dirty = true;
    }

    /// A fresh elementary rotation about `axis` from the already computed
    /// cosine, sine and negated sine of the angle, placed by the standard
    /// right-handed convention, with a clean cache.
    pub fn rotation(axis: Axis, cos_b: u32, sin_b: u32, neg_sin_b: u32) -> (r: Mat4)
        ensures
            r@.wf(),
            !r@.dirty,
            r@.rows == rotation_bits(axis, cos_b, sin_b, neg_sin_b),
            r@.flat == r@.rows,
    {
        let mut data: Vec<u32> = Vec::new();
        match axis {
            Axis::X => {
                data.push(SCALAR_ONE);
                data.push(SCALAR_ZERO);
                data.push(SCALAR_ZERO);
                data.push(SCALAR_ZERO);
                data.push(SCALAR_ZERO);
                data.push(cos_b);
                data.push(neg_sin_b);
                data.push(SCALAR_ZERO);
                data.push(SCALAR_ZERO);
                data.push(sin_b);
                data.push(cos_b);
                data.push(SCALAR_ZERO);
                data.push(SCALAR_ZERO);
                data.push(SCALAR_ZERO);
                data.push(SCALAR_ZERO);
                data.push(SCALAR_ONE);
            },
            Axis::Y => {
                data.push(cos_b);
                data.push(SCALAR_ZERO);
                data.push(sin_b);
                data.push(SCALAR_ZERO);
                data.push(SCALAR_ZERO);
                data.push(SCALAR_ONE);
                data.push(SCALAR_ZERO);
                data.push(SCALAR_ZERO);
                data.push(neg_sin_b);
                data.push(SCALAR_ZERO);
                data.push(cos_b);
                data.push(SCALAR_ZERO);
                data.push(SCALAR_ZERO);
                data.push(SCALAR_ZERO);
                data.push(SCALAR_ZERO);
                data.push(SCALAR_ONE);
            },
            Axis::Z => {
                data.push(cos_b);
                data.push(neg_sin_b);
                data.push(SCALAR_ZERO);
                data.push(SCALAR_ZERO);
                data.push(sin_b);
                data.push(cos_b);
                data.push(SCALAR_ZERO);
                data.push(SCALAR_ZERO);
                data.push(SCALAR_ZERO);
                data.push(SCALAR_ZERO);
                data.push(SCALAR_ONE);
                data.push(SCALAR_ZERO);
                data.push(SCALAR_ZERO);
                data.push(SCALAR_ZERO);
                data.push(SCALAR_ZERO);
                data.push(SCALAR_ONE);
            },
        }
        proof {
            assert(data@ =~= rotation_bits(axis, cos_b, sin_b, neg_sin_b));
        }
        Mat4::from_data(data)
    }
}

/// Writing translation offsets into the identity transform changes exactly
/// the translation row: the flat indices 12, 13 and 14 hold the offsets and
/// every other entry keeps its identity value.
pub proof fn lemma_translated_identity(x: u32, y: u32, z: u32)
    ensures
        translated(identity_bits(), x, y, z)[12] == x,
        translated(identity_bits(), x, y, z)[13] == y,
        translated(identity_bits(), x, y, z)[14] == z,
        forall|i: int|
            0 <= i < 16 && i != 12 && i != 13 && i != 14
                ==> #[trigger] translated(identity_bits(), x, y, z)[i] == identity_bits()[i],
{
}

/// Stretching the identity transform scales only the diagonal of the upper
/// three rows: the flat indices 0, 5 and 10 hold the supplied products, the
/// remaining entries of those rows stay at the zero encoding, and the last
/// row keeps its identity values.
pub proof fn lemma_stretched_identity(x: u32, y: u32, z: u32)
    ensures
        stretched(identity_bits(), x, y, z)[0] == x,
        stretched(identity_bits(), x, y, z)[5] == y,
        stretched(identity_bits(), x, y, z)[10] == z,
        forall|i: int|
            0 <= i < 16 && i != 0 && i != 5 && i != 10
                ==> #[trigger] stretched(identity_bits(), x, y, z)[i] == identity_bits()[i],
        forall|i: int|
            0 <= i < 12 && i != 0 && i != 5 && i != 10
                ==> #[trigger] stretched(identity_bits(), x, y, z)[i] == SCALAR_ZERO,
{
}

} // verus!

//! Column-major 4x4 matrices over `i64` model units.
//!
//! World matrices for instances are composed here.  Entry `(column c,
//! row r)` of a matrix lives at index `4 * c + r`, the layout the GPU
//! receives the matrix in.

use vstd::prelude::*;

verus! {

/// A 3-component vector of model units (translation, scale).
#[derive(Clone, Copy, PartialEq, Eq, Structural, Debug)]
pub struct Vec3I {
    pub x: i64,
    pub y: i64,
    pub z: i64,
}

/// A column-major 3x3 matrix; `m` holds 9 entries, entry (c, r) at `3 * c + r`.
#[derive(Clone, PartialEq, Eq, Debug)]
pub struct Mat3I {
    pub m: Vec<i64>,
}

/// A column-major 4x4 matrix; `m` holds 16 entries, entry (c, r) at `4 * c + r`.
#[derive(Clone, PartialEq, Eq, Debug)]
pub struct Mat4I {
    pub m: Vec<i64>,
}

/// The sequence of mathematical integers behind a sequence of `i64`.
pub open spec fn ints(s: Seq<i64>) -> Seq<int> {
    Seq::new(s.len(), |i: int| s[i] as int)
}

/// Every entry of `s` lies in `[-b, b]`.
pub open spec fn bounded(s: Seq<int>, b: int) -> bool {
    forall|i: int| 0 <= i < s.len() ==> -b <= #[trigger] s[i] <= b
}

/// Entry (c, r) of the product of two column-major 4x4 matrices.
pub open spec fn prod_entry(a: Seq<int>, b: Seq<int>, c: int, r: int) -> int {
    a[0 + r] * b[4 * c + 0]
        + a[4 + r] * b[4 * c + 1]
        + a[8 + r] * b[4 * c + 2]
        + a[12 + r] * b[4 * c + 3]
}

/// The product of two column-major 4x4 matrices.
pub open spec fn mat_prod(a: Seq<int>, b: Seq<int>) -> Seq<int> {
    Seq::new(16, |i: int| prod_entry(a, b, i / 4, i % 4))
}

/// Bound on a product of two bounded factors.
proof fn lemma_mul_bound(x: int, y: int, bx: int, by: int)
    requires
        -bx <= x <= bx,
        -by <= y <= by,
        0 <= bx,
        0 <= by,
    ensures
        -(bx * by) <= x * y <= bx * by,
{
    assert(-(bx * by) <= x * y <= bx * by) by (nonlinear_arith)
        requires
            -bx <= x <= bx,
            -by <= y <= by,
            0 <= bx,
            0 <= by,
    ;
}

/// Bound on one entry of a matrix product with bounded factors.
pub proof fn lemma_prod_entry_bound(a: Seq<int>, b: Seq<int>, c: int, r: int, ba: int, bb: int)
    requires
        a.len() == 16,
        b.len() == 16,
        bounded(a, ba),
        bounded(b, bb),
        0 <= ba,
        0 <= bb,
        0 <= c < 4,
        0 <= r < 4,
    ensures
        -(4 * (ba * bb)) <= prod_entry(a, b, c, r) <= 4 * (ba * bb),
{
    lemma_mul_bound(a[0 + r], b[4 * c + 0], ba, bb);
    lemma_mul_bound(a[4 + r], b[4 * c + 1], ba, bb);
    lemma_mul_bound(a[8 + r], b[4 * c + 2], ba, bb);
    lemma_mul_bound(a[12 + r], b[4 * c + 3], ba, bb);
}

/// Bound on every entry of a matrix product with bounded factors.
pub proof fn lemma_mat_prod_bound(a: Seq<int>, b: Seq<int>, ba: int, bb: int)
    requires
        a.len() == 16,
        b.len() == 16,
        bounded(a, ba),
        bounded(b, bb),
        0 <= ba,
        0 <= bb,
    ensures
        bounded(mat_prod(a, b), 4 * (ba * bb)),
{
    assert forall|i: int| 0 <= i < 16 implies -(4 * (ba * bb)) <= #[trigger] mat_prod(a, b)[i]
        <= 4 * (ba * bb) by {
        lemma_prod_entry_bound(a, b, i / 4, i % 4, ba, bb);
    }
}

/// Factors handed to `mat_mul` as the left operand stay within this bound.
pub const MUL_LEFT_BOUND: i64 = 65536;

/// Factors handed to `mat_mul` as the right operand stay within this bound.
pub const MUL_RIGHT_BOUND: i64 = 4294967296;

impl Mat4I {
    /// The matrix holds exactly its 16 entries.
    pub open spec fn wf(self) -> bool {
        self.m@.len() == 16
    }

    /// The matrix viewed as a sequence of mathematical integers.
    pub open spec fn view_int(self) -> Seq<int> {
        ints(self.m@)
    }
}

/// The matrix that scales each axis, as a sequence of entries.
pub open spec fn scale_seq(s: Vec3I) -> Seq<int> {
    seq![
        s.x as int, 0, 0, 0,
        0, s.y as int, 0, 0,
        0, 0, s.z as int, 0,
        0, 0, 0, 1,
    ]
}

/// A 3x3 rotation embedded in a 4x4 matrix, as a sequence of entries.
pub open spec fn rotation_seq(r: Mat3I) -> Seq<int> {
    seq![
        r.m@[0] as int, r.m@[1] as int, r.m@[2] as int, 0,
        r.m@[3] as int, r.m@[4] as int, r.m@[5] as int, 0,
        r.m@[6] as int, r.m@[7] as int, r.m@[8] as int, 0,
        0, 0, 0, 1,
    ]
}

/// The matrix that translates by `t`, as a sequence of entries.
pub open spec fn translation_seq(t: Vec3I) -> Seq<int> {
    seq![
        1, 0, 0, 0,
        0, 1, 0, 0,
        0, 0, 1, 0,
        t.x as int, t.y as int, t.z as int, 1,
    ]
}

/// The matrix that scales each axis by the components of `s`.
pub fn scale_matrix(s: Vec3I) -> (res: Mat4I)
    ensures
        res.wf(),
        res.view_int() == scale_seq(s),
{
    let m: Vec<i64> = vec![s.x, 0, 0, 0, 0, s.y, 0, 0, 0, 0, s.z, 0, 0, 0, 0, 1];
    let res = Mat4I { m };
    proof {
        assert(res.view_int() =~= scale_seq(s));
    }
    res
}

/// A 3x3 rotation embedded in a 4x4 matrix.
pub fn rotation_matrix(r: &Mat3I) -> (res: Mat4I)
    requires
        r.m@.len() == 9,
    ensures
        res.wf(),
        res.view_int() == rotation_seq(*r),
{
    let m: Vec<i64> = vec![
        r.m[0], r.m[1], r.m[2], 0,
        r.m[3], r.m[4], r.m[5], 0,
        r.m[6], r.m[7], r.m[8], 0,
        0, 0, 0, 1,
    ];
    let res = Mat4I { m };
    proof {
        assert(res.view_int() =~= rotation_seq(*r));
    }
    res
}

/// The matrix that translates by `t`.
pub fn translation_matrix(t: Vec3I) -> (res: Mat4I)
    ensures
        res.wf(),
        res.view_int() == translation_seq(t),
{
    let m: Vec<i64> = vec![1, 0, 0, 0, 0, 1, 0, 0, 0, 0, 1, 0, t.x, t.y, t.z, 1];
    let res = Mat4I { m };
    proof {
        assert(res.view_int() =~= translation_seq(t));
    }
    res
}

/// The product of two 4x4 matrices, entry for entry.
pub fn mat_mul(a: &Mat4I, b: &Mat4I) -> (res: Mat4I)
    requires
        a.wf(),
        b.wf(),
        bounded(a.view_int(), MUL_LEFT_BOUND as int),
        bounded(b.view_int(), MUL_RIGHT_BOUND as int),
    ensures
        res.wf(),
        res.view_int() == mat_prod(a.view_int(), b.view_int()),
        bounded(res.view_int(), 4 * (MUL_LEFT_BOUND as int * MUL_RIGHT_BOUND as int)),
{
    let ghost sa = a.view_int();
    let ghost sb = b.view_int();
    let mut out: Vec<i64> = Vec::new();
    let mut c: usize = 0;
    while c < 4
        invariant
            a.wf(),
            b.wf(),
            sa == a.view_int(),
            sb == b.view_int(),
            bounded(sa, MUL_LEFT_BOUND as int),
            bounded(sb, MUL_RIGHT_BOUND as int),
            c <= 4,
            out@.len() == 4 * c,
            forall|i: int|
                0 <= i < out@.len() ==> #[trigger] out@[i] as int == prod_entry(
                    sa,
                    sb,
                    i / 4,
                    i % 4,
                ),
        decreases 4 - c,
    {
        let mut r: usize = 0;
        while r < 4
            invariant
                a.wf(),
                b.wf(),
                sa == a.view_int(),
                sb == b.view_int(),
                bounded(sa, MUL_LEFT_BOUND as int),
                bounded(sb, MUL_RIGHT_BOUND as int),
                c < 4,
                r <= 4,
                out@.len() == 4 * c + r,
                forall|i: int|
                    0 <= i < out@.len() ==> #[trigger] out@[i] as int == prod_entry(
                        sa,
                        sb,
                        i / 4,
                        i % 4,
                    ),
            decreases 4 - r,
        {
            proof {
                lemma_prod_entry_bound(
                    sa,
                    sb,
                    c as int,
                    r as int,
                    MUL_LEFT_BOUND as int,
                    MUL_RIGHT_BOUND as int,
                );
                assert(sa[0 + r as int] == a.m@[0 + r as int] as int);
                assert(sa[4 + r as int] == a.m@[4 + r as int] as int);
                assert(sa[8 + r as int] == a.m@[8 + r as int] as int);
                assert(sa[12 + r as int] == a.m@[12 + r as int] as int);
                lemma_mul_bound(
                    sa[0 + r as int],
                    sb[4 * c as int + 0],
                    MUL_LEFT_BOUND as int,
                    MUL_RIGHT_BOUND as int,
                );
                lemma_mul_bound(
                    sa[4 + r as int],
                    sb[4 * c as int + 1],
                    MUL_LEFT_BOUND as int,
                    MUL_RIGHT_BOUND as int,
                );
                lemma_mul_bound(
                    sa[8 + r as int],
                    sb[4 * c as int + 2],
                    MUL_LEFT_BOUND as int,
                    MUL_RIGHT_BOUND as int,
                );
                lemma_mul_bound(
                    sa[12 + r as int],
                    sb[4 * c as int + 3],
                    MUL_LEFT_BOUND as int,
                    MUL_RIGHT_BOUND as int,
                );
            }
            let e: i64 = a.m[r] * b.m[4 * c] + a.m[4 + r] * b.m[4 * c + 1] + a.m[8 + r] * b.m[4 * c
                + 2] + a.m[12 + r] * b.m[4 * c + 3];
            out.push(e);
            proof {
                assert(out@[out@.len() - 1] as int == prod_entry(
                    sa,
                    sb,
                    (4 * c + r) as int / 4,
                    (4 * c + r) as int % 4,
                ));
            }
            r = r + 1;
        }
        c = c + 1;
    }
    let res = Mat4I { m: out };
    proof {
        assert(res.view_int() =~= mat_prod(sa, sb));
        lemma_mat_prod_bound(sa, sb, MUL_LEFT_BOUND as int, MUL_RIGHT_BOUND as int);
    }
    res
}

} // verus!

//! 4x4 transformation matrices, held as 32-bit float bit patterns.
//!
//! This core never reads individual float values: it builds translation
//! matrices out of whole bit patterns, composes transforms through the
//! matrix arithmetic of an outside crate, and hands the 64-byte result to
//! the GPU as-is.

use vstd::prelude::*;

verus! {

/// Bit pattern of the 32-bit float value one.
pub const ONE_BITS: u32 = 0x3F80_0000;

/// The column-major 4x4 translation matrix by `(x, y)`, entrywise, where
/// `x` and `y` are bit patterns of 32-bit floats.
pub open spec fn translation_bits(x: u32, y: u32) -> Seq<u32> {
    seq![
        ONE_BITS, 0, 0, 0,
        0, ONE_BITS, 0, 0,
        0, 0, ONE_BITS, 0,
        x, y, 0, ONE_BITS,
    ]
}

/// The column-major 4x4 identity matrix, entrywise. The bit pattern of the
/// 32-bit float value zero is zero, so this is a translation by nothing.
pub open spec fn identity_bits() -> Seq<u32> {
    translation_bits(0, 0)
}

/// What multiplying two column-major 4x4 matrices of 32-bit float bit
/// patterns yields, entrywise, under standard 32-bit float arithmetic.
pub uninterp spec fn mat_mul_bits(a: Seq<u32>, b: Seq<u32>) -> Seq<u32>;

/// Whether `w` is the bit pattern of a finite 32-bit float of magnitude
/// below 2^62: its biased exponent field stays below 0xBD.
///
/// Products of two such values and four-term sums of those products stay
/// finite, so composing matrices of them never produces a NaN, and the
/// result's bit pattern depends on the entries alone. A NaN produced by
/// the hardware carries no such guarantee: its payload differs between
/// machines.
pub open spec fn bounded_float_bits(w: u32) -> bool {
    (w / 0x80_0000) % 0x100 < 0xBD
}

/// Whether every entry of a matrix is a bounded float bit pattern.
pub open spec fn bounded_matrix(m: Seq<u32>) -> bool {
    forall|i: int| 0 <= i < m.len() ==> bounded_float_bits(#[trigger] m[i])
}

/// A translation by bounded coordinates is bounded throughout: its other
/// entries are zero and one.
pub proof fn lemma_translation_bounded(x: u32, y: u32)
    requires
        bounded_float_bits(x),
        bounded_float_bits(y),
    ensures
        bounded_matrix(translation_bits(x, y)),
{
    let s = translation_bits(x, y);
    assert(bounded_float_bits(ONE_BITS));
    assert(bounded_float_bits(0));
    assert forall|i: int| 0 <= i < s.len() implies bounded_float_bits(#[trigger] s[i]) by {
        if i == 12 {
            assert(s[i] == x);
        } else if i == 13 {
            assert(s[i] == y);
        } else if i == 0 || i == 5 || i == 10 || i == 15 {
            assert(s[i] == ONE_BITS);
        } else {
            assert(s[i] == 0);
        }
    }
}

/// A 2-D affine transformation, stored as a column-major 4x4 matrix of
/// 32-bit float bit patterns.
#[derive(Clone, Copy, PartialEq, Eq, Debug)]
pub struct Transformation {
    /// The matrix entries in column-major order, each the bit pattern of a
    /// 32-bit float.
    pub matrix: [u32; 16],
}

impl Transformation {
    /// The identity transformation.
    pub fn identity() -> (t: Transformation)
        ensures
            t.matrix@ == identity_bits(),
    {
        let t = Transformation {
            matrix: [
                ONE_BITS, 0, 0, 0,
                0, ONE_BITS, 0, 0,
                0, 0, ONE_BITS, 0,
                0, 0, 0, ONE_BITS,
            ],
        };
        proof {
            assert(t.matrix@ =~= identity_bits());
        }
        t
    }

    /// The translation by `(x, y)`, where `x` and `y` are bit patterns of
    /// 32-bit floats.
    pub fn translate(x: u32, y: u32) -> (t: Transformation)
        ensures
            t.matrix@ == translation_bits(x, y),
    {
        let t = Transformation {
            matrix: [
                ONE_BITS, 0, 0, 0,
                0, ONE_BITS, 0, 0,
                0, 0, ONE_BITS, 0,
                x, y, 0, ONE_BITS,
            ],
        };
        proof {
            assert(t.matrix@ =~= translation_bits(x, y));
        }
        t
    }
}

/// Relies on glam's `Mat4::mul_mat4` for the column-major matrix product:
/// every backend computes each result column as the same four products
/// summed in the same order, plain IEEE multiplies and adds. On bounded
/// entries every product and sum stays finite, so no NaN arises and the
/// result's bit pattern depends on the entries alone. `bytemuck::cast`
/// only reinterprets the entries between bit patterns and floats.
#[verifier::external_body]
pub(crate) fn mat_mul(a: &Transformation, b: &Transformation) -> (r: Transformation)
    requires
        bounded_matrix(a.matrix@),
        bounded_matrix(b.matrix@),
    ensures
        r.matrix@ == mat_mul_bits(a.matrix@, b.matrix@),
{
    let left = glam::Mat4::from_cols_array(&bytemuck::cast(a.matrix));
    let right = glam::Mat4::from_cols_array(&bytemuck::cast(b.matrix));
    Transformation { matrix: bytemuck::cast(left.mul_mat4(&right).to_cols_array()) }
}

/// Decides whether every entry of a transformation is a bounded float bit
/// pattern, so that an unverified caller can test it before composing.
pub fn matrix_is_bounded(t: &Transformation) -> (r: bool)
    ensures
        r == bounded_matrix(t.matrix@),
{
    let mut k: usize = 0;
    while k < 16
        invariant
            k <= 16,
            forall|j: int| 0 <= j < k ==> bounded_float_bits(#[trigger] t.matrix@[j]),
        decreases 16 - k,
    {
        let w = t.matrix[k];
        if (w / 0x80_0000) % 0x100 >= 0xBD {
            proof {
                assert(!bounded_float_bits(t.matrix@[k as int]));
            }
            return false;
        }
        k = k + 1;
    }
    true
}

/// Per-item uniform data: one transform, laid out as 64 bytes so that
/// consecutive items sit at consecutive 64-byte dynamic offsets.
#[derive(Clone, Copy, PartialEq, Eq, Debug)]
pub struct Uniforms {
    /// The item's transform, column-major, as 32-bit float bit patterns.
    pub transform: [u32; 16],
}

impl Default for Uniforms {
    /// The identity transform.
    fn default() -> (u: Uniforms)
        ensures
            u.transform@ == identity_bits(),
    {
        let t = Transformation::identity();
        Uniforms { transform: t.matrix }
    }
}

} // verus!

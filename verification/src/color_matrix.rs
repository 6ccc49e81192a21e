//! Decisions and data layout of a CSS/SVG-style 4x5 color-matrix pass.
//!
//! The matrix is row-major: four rows (R, G, B, A output channels) of five
//! values each, `[r, g, b, a, offset]`, the layout of SVG's
//! `feColorMatrix type="matrix"`. Each output channel is
//! `dot(row[0..4], input_rgba) + row[4]`.

use vstd::prelude::*;

verus! {

/// Uniform parameters of the color-matrix pass, in the order the shader
/// reads them: the four coefficient rows, then the four offsets.
pub struct ColorMatrixParams<T> {
    pub row_r: [T; 4],
    pub row_g: [T; 4],
    pub row_b: [T; 4],
    pub row_a: [T; 4],
    pub offset: [T; 4],
}

impl<T> ColorMatrixParams<T> {
    /// The coefficient row of output channel `channel` (0 = R, 1 = G,
    /// 2 = B, 3 = A).
    pub open spec fn row(self, channel: int) -> Seq<T> {
        if channel == 0 {
            self.row_r@
        } else if channel == 1 {
            self.row_g@
        } else if channel == 2 {
            self.row_b@
        } else {
            self.row_a@
        }
    }

    /// The entry that stands where column `col` of row `channel` of the
    /// row-major matrix belongs: a coefficient for `col < 4`, the channel's
    /// offset for `col == 4`.
    pub open spec fn entry(self, channel: int, col: int) -> T {
        if col < 4 {
            self.row(channel)[col]
        } else {
            self.offset@[channel]
        }
    }
}

/// Whether the pass records any GPU work for a `width` x `height` region.
pub open spec fn covers_pixels(width: u32, height: u32) -> bool {
    width != 0 && height != 0
}

/// Whether applying the matrix to a `width` x `height` region records any
/// work: an empty region is left alone.
pub fn should_apply(width: u32, height: u32) -> (apply: bool)
    ensures
        apply == covers_pixels(width, height),
        apply <==> (width > 0 && height > 0),
{
    width != 0 && height != 0
}

/// The matrix is applied to every region with at least one pixel in each
/// direction, whatever its aspect ratio, and to no other.
pub proof fn lemma_applies_exactly_to_nonempty(width: u32, height: u32)
    ensures
        covers_pixels(width, height) <==> (width > 0 && height > 0),
{
}

impl<T: Copy> ColorMatrixParams<T> {
    /// Splits a row-major 4x5 matrix into the shader's layout: the first four
    /// values of each row become that channel's coefficients, the fifth its
    /// offset.
    pub fn from_row_major(matrix: &[T; 20]) -> (params: Self)
        ensures
            forall|channel: int, col: int|
                0 <= channel < 4 && 0 <= col < 5 ==> #[trigger] params.entry(channel, col)
                    == matrix@[5 * channel + col],
    {
        let params = ColorMatrixParams {
            row_r: [matrix[0], matrix[1], matrix[2], matrix[3]],
            row_g: [matrix[5], matrix[6], matrix[7], matrix[8]],
            row_b: [matrix[10], matrix[11], matrix[12], matrix[13]],
            row_a: [matrix[15], matrix[16], matrix[17], matrix[18]],
            offset: [matrix[4], matrix[9], matrix[14], matrix[19]],
        };
        assert forall|channel: int, col: int|
            0 <= channel < 4 && 0 <= col < 5 implies #[trigger] params.entry(channel, col)
                == matrix@[5 * channel + col] by {
            if col < 4 {
                if channel == 0 {
                } else if channel == 1 {
                } else if channel == 2 {
                } else {
                }
            }
        }
        params
    }
}

/// The parameter layout loses nothing: every entry of the 4x5 matrix has a
/// place of its own, so a matrix is determined by its parameters.
pub proof fn lemma_layout_keeps_every_entry<T>(m1: Seq<T>, m2: Seq<T>, p1: ColorMatrixParams<T>, p2: ColorMatrixParams<T>)
    requires
        m1.len() == 20,
        m2.len() == 20,
        forall|channel: int, col: int|
            0 <= channel < 4 && 0 <= col < 5 ==> #[trigger] p1.entry(channel, col) == m1[5 * channel + col],
        forall|channel: int, col: int|
            0 <= channel < 4 && 0 <= col < 5 ==> #[trigger] p2.entry(channel, col) == m2[5 * channel + col],
        p1 == p2,
    ensures
        m1 == m2,
{
    assert forall|k: int| 0 <= k < 20 implies m1[k] == m2[k] by {
        let channel = k / 5;
        let col = k % 5;
        assert(p1.entry(channel, col) == m1[5 * channel + col]);
        assert(p2.entry(channel, col) == m2[5 * channel + col]);
    }
    assert(m1 =~= m2);
}

} // verus!

use vstd::prelude::*;

use crate::buffer::{BufferAbs, PixelBuffer};
use vstd::arithmetic::div_mod::{
    lemma_div_pos_is_pos, lemma_fundamental_div_mod, lemma_fundamental_div_mod_converse,
    lemma_mod_pos_bound,
};
use vstd::arithmetic::mul::lemma_mul_inequality;

verus! {

/// The byte at offset `i` of a horizontally flipped raster comes from this
/// offset of the original: same row, same channel, mirrored column.
pub open spec fn flip_index(i: int, w: int) -> int {
    let stride = 4 * w;
    let row = i / stride;
    let rem = i % stride;
    let col = rem / 4;
    let ch = rem % 4;
    row * stride + 4 * (w - 1 - col) + ch
}

/// The raster `p`, of rows `w` pixels wide, with each row reversed
/// pixel-wise; channel values and row order are untouched.
pub open spec fn flip_pixels(p: Seq<u8>, w: int) -> Seq<u8> {
    Seq::new(p.len(), |i: int| p[flip_index(i, w)])
}

/// The buffer with the same dimensions and each row reversed.
pub open spec fn flip_view(b: BufferAbs) -> BufferAbs {
    BufferAbs { width: b.width, height: b.height, pixels: flip_pixels(b.pixels, b.width as int) }
}

/// Mirroring a byte offset within its row stays inside the raster and is
/// its own inverse.
pub proof fn lemma_flip_index_involutive(i: int, w: int, h: int)
    requires
        0 < w,
        0 <= h,
        0 <= i < 4 * w * h,
    ensures
        0 <= flip_index(i, w) < 4 * w * h,
        flip_index(flip_index(i, w), w) == i,
{
    let stride = 4 * w;
    let row = i / stride;
    let rem = i % stride;
    let col = rem / 4;
    let ch = rem % 4;
    lemma_fundamental_div_mod(i, stride);
    lemma_mod_pos_bound(i, stride);
    lemma_div_pos_is_pos(i, stride);
    lemma_fundamental_div_mod(rem, 4);
    lemma_mod_pos_bound(rem, 4);
    lemma_div_pos_is_pos(rem, 4);
    assert(col < w);
    assert(row < h) by {
        if row >= h {
            lemma_mul_inequality(h, row, stride);
            assert(false);
        }
    };
    let mcol = w - 1 - col;
    let r2 = 4 * mcol + ch;
    let j = row * stride + r2;
    assert(flip_index(i, w) == j);
    assert(0 <= row * stride) by {
        lemma_mul_inequality(0, row, stride);
    };
    assert(j < stride * h) by {
        lemma_mul_inequality(row, h - 1, stride);
        assert((h - 1) * stride + stride == h * stride) by (nonlinear_arith);
    };
    lemma_fundamental_div_mod_converse(j, stride, row, r2);
    lemma_fundamental_div_mod_converse(r2, 4, mcol, ch);
    assert(flip_index(j, w) == row * stride + 4 * col + ch);
    assert(flip_index(j, w) == i);
}

/// Law: the horizontal flip is self-inverse. Flipping a well-formed buffer
/// twice reproduces the original bit for bit.
pub proof fn lemma_flip_self_inverse(b: BufferAbs)
    requires
        b.wf(),
    ensures
        flip_view(flip_view(b)) == b,
{
    let w = b.width as int;
    let h = b.height as int;
    let p = b.pixels;
    let q = flip_pixels(p, w);
    if w > 0 {
        assert forall|i: int| 0 <= i < p.len() implies flip_pixels(q, w)[i] == p[i] by {
            lemma_flip_index_involutive(i, w, h);
        };
    } else {
        assert(p.len() == 0) by (nonlinear_arith)
            requires
                p.len() == 4 * w * h,
                w == 0,
        ;
    }
    assert(flip_pixels(q, w) =~= p);
    assert(flip_view(flip_view(b)) =~= b);
}

/// Reverses each pixel row of the buffer in place: the pixel at column `x`
/// trades places with the one at column `width - 1 - x`. A no-op on buffers
/// with zero width or height.
pub fn flip_horizontal(buffer: &mut PixelBuffer)
    requires
        old(buffer).wf(),
    ensures
        final(buffer).wf(),
        final(buffer)@ == flip_view(old(buffer)@),
{
    let ghost w_i = old(buffer)@.width as int;
    let ghost h_i = old(buffer)@.height as int;
    let len = buffer.pixels.len();
    if len == 0 {
        proof {
            assert(flip_pixels(old(buffer)@.pixels, w_i) =~= old(buffer)@.pixels);
            assert(flip_view(old(buffer)@) =~= old(buffer)@);
        }
        return;
    }
    proof {
        assert(w_i >= 1 && h_i >= 1) by (nonlinear_arith)
            requires
                4 * w_i * h_i > 0,
                w_i >= 0,
                h_i >= 0,
        ;
        assert(4 * w_i <= 4 * w_i * h_i) by (nonlinear_arith)
            requires
                w_i >= 0,
                h_i >= 1,
        ;
    }
    let wu: usize = buffer.width as usize;
    let stride: usize = 4 * wu;
    let mut out: Vec<u8> = Vec::with_capacity(len);
    let mut i: usize = 0;
    while i < len
        invariant
            *buffer == *old(buffer),
            buffer.wf(),
            0 < w_i,
            0 < h_i,
            w_i == buffer@.width,
            h_i == buffer@.height,
            wu == w_i,
            stride == 4 * w_i,
            len == buffer.pixels@.len(),
            len == 4 * w_i * h_i,
            i <= len,
            out@.len() == i,
            forall|j: int| 0 <= j < i ==> out@[j] == buffer.pixels@[flip_index(j, w_i)],
        decreases len - i,
    {
        let row = i / stride;
        let rem = i % stride;
        let col = rem / 4;
        let ch = rem % 4;
        proof {
            lemma_flip_index_involutive(i as int, w_i, h_i);
            lemma_fundamental_div_mod(i as int, stride as int);
            lemma_mod_pos_bound(i as int, stride as int);
            lemma_div_pos_is_pos(i as int, stride as int);
            lemma_fundamental_div_mod(rem as int, 4);
            lemma_mod_pos_bound(rem as int, 4);
        }
        let src = row * stride + 4 * (wu - 1 - col) + ch;
        proof {
            assert(src == flip_index(i as int, w_i));
        }
        out.push(buffer.pixels[src]);
        i = i + 1;
    }
    proof {
        assert(out@ =~= flip_pixels(buffer.pixels@, w_i));
    }
    buffer.pixels = out;
    proof {
        assert(buffer@ =~= flip_view(old(buffer)@));
    }
}

} // verus!

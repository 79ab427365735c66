//! The RGBA8 pixel buffer: its size contract and the vertical flip that
//! readback needs, the GPU's row order being bottom-to-top.

use vstd::arithmetic::div_mod::lemma_multiply_divide_lt;
use vstd::prelude::*;

verus! {

/// The buffer a `width` by `height` RGBA8 image needs: four bytes per
/// pixel, row-major.
pub open spec fn image_buffer_len_spec(width: int, height: int) -> int {
    width * height * 4
}

/// The byte length of a `width` by `height` RGBA8 buffer, or `None` where
/// it cannot be addressed on this machine.
pub fn image_buffer_len(width: u32, height: u32) -> (r: Option<usize>)
    ensures
        r matches Some(n) ==> n == image_buffer_len_spec(width as int, height as int),
        r is Some <==> image_buffer_len_spec(width as int, height as int) <= usize::MAX,
{
    let wh = match (width as usize).checked_mul(height as usize) {
        Some(v) => v,
        None => {
            proof {
                assert(width * height * 4 >= width * height) by (nonlinear_arith);
            }
            return None;
        },
    };
    match wh.checked_mul(4) {
        Some(v) => Some(v),
        None => None,
    }
}

/// The vertical mirror of a row-major buffer: byte `i` of the result is
/// byte `i` of the source with the row index reversed.
pub open spec fn flip_vertical_spec(s: Seq<u8>, width: int, height: int) -> Seq<u8>
    recommends
        s.len() == width * height * 4,
{
    let row = width * 4;
    Seq::new(s.len(), |i: int| s[(height - 1 - i / row) * row + i % row])
}

/// Mirror an RGBA8 buffer top to bottom, as framebuffer readback needs.
pub fn flip_vertical(pixels: &[u8], width: u32, height: u32) -> (r: Vec<u8>)
    requires
        pixels@.len() == image_buffer_len_spec(width as int, height as int),
    ensures
        r@.len() == pixels@.len(),
        r@ == flip_vertical_spec(pixels@, width as int, height as int),
{
    let ghost flipped = flip_vertical_spec(pixels@, width as int, height as int);
    let len = pixels.len();
    let mut r: Vec<u8> = Vec::new();
    if width == 0 || height == 0 {
        proof {
            assert(pixels@.len() == 0) by (nonlinear_arith)
                requires
                    pixels@.len() == (width as int) * (height as int) * 4,
                    width == 0 || height == 0,
            ;
            assert(flipped =~= r@);
        }
        return r;
    }
    proof {
        assert(pixels@.len() == (height as int) * ((width as int) * 4)) by (nonlinear_arith)
            requires
                pixels@.len() == (width as int) * (height as int) * 4,
        ;
        assert((width as int) * 4 <= pixels@.len()) by (nonlinear_arith)
            requires
                pixels@.len() == (height as int) * ((width as int) * 4),
                height >= 1,
                width >= 0,
        ;
    }
    let row: usize = (width as usize) * 4;
    let mut i: usize = 0;
    while i < len
        invariant
            0 <= i <= len,
            len == pixels@.len(),
            row == (width as int) * 4,
            1 <= row <= len,
            height >= 1,
            pixels@.len() == (height as int) * (row as int),
            pixels@.len() <= usize::MAX,
            flipped == flip_vertical_spec(pixels@, width as int, height as int),
            flipped.len() == pixels@.len(),
            r@.len() == i,
            forall|j: int| 0 <= j < i ==> r@[j] == flipped[j],
        decreases len - i,
    {
        let q = i / row;
        let rem = i % row;
        proof {
            assert(i < (row as int) * (height as int)) by (nonlinear_arith)
                requires
                    i < (height as int) * (row as int),
            ;
            lemma_multiply_divide_lt(i as int, row as int, height as int);
            assert(q < height);
            assert((height as int - 1 - q) * (row as int) + rem < pixels@.len())
                by (nonlinear_arith)
                requires
                    0 <= q < height as int,
                    0 <= rem < row as int,
                    q == i as int / row as int,
                    pixels@.len() == (height as int) * (row as int),
            ;
        }
        let src = (height as usize - 1 - q) * row + rem;
        let b = pixels[src];
        r.push(b);
        proof {
            assert(flipped[i as int] == pixels@[(height as int - 1 - i as int / row as int) * (
            row as int) + i as int % row as int]);
            assert(r@[i as int] == flipped[i as int]);
        }
        i = i + 1;
    }
    proof {
        assert(r@ =~= flipped);
    }
    r
}

} // verus!

use vstd::prelude::*;

use crate::error::PipelineError;

verus! {

/// The mathematical value of a pixel buffer: its dimensions and the raw
/// RGBA bytes, row-major, four bytes per pixel, no padding.
#[verifier::ext_equal]
pub ghost struct BufferAbs {
    pub width: u32,
    pub height: u32,
    pub pixels: Seq<u8>,
}

impl BufferAbs {
    /// A buffer is well formed when it holds exactly four bytes for each of
    /// its `width * height` pixels.
    pub open spec fn wf(self) -> bool {
        self.pixels.len() == 4 * self.width * self.height
    }
}

/// An in-memory RGBA raster, owned by one pipeline stage at a time.
#[derive(Clone, Debug, PartialEq)]
pub struct PixelBuffer {
    pub width: u32,
    pub height: u32,
    pub pixels: Vec<u8>,
}

impl View for PixelBuffer {
    type V = BufferAbs;

    open spec fn view(&self) -> BufferAbs {
        BufferAbs { width: self.width, height: self.height, pixels: self.pixels@ }
    }
}

impl PixelBuffer {
    pub open spec fn wf(&self) -> bool {
        self@.wf()
    }
}

/// Allocates a zeroed buffer of `width * height` RGBA pixels. Fails with
/// `Allocation` exactly when `width * height * 4` does not fit in `usize`.
pub fn create(width: u32, height: u32) -> (r: Result<PixelBuffer, PipelineError>)
    ensures
        r is Ok <==> 4 * width * height <= usize::MAX,
        r matches Ok(b) ==> b.wf() && b@ == (BufferAbs {
            width,
            height,
            pixels: Seq::new((4 * width * height) as nat, |i: int| 0u8),
        }),
        r is Err ==> r == Err::<PixelBuffer, PipelineError>(PipelineError::Allocation),
{
    match (width as usize).checked_mul(height as usize) {
        None => {
            proof {
                assert(4 * width * height > usize::MAX) by (nonlinear_arith)
                    requires
                        (width as int) * (height as int) > usize::MAX,
                        width >= 0,
                        height >= 0,
                ;
            }
            Err(PipelineError::Allocation)
        },
        Some(area) => match area.checked_mul(4) {
            None => {
                proof {
                    assert(4 * width * height > usize::MAX) by (nonlinear_arith)
                        requires
                            (area as int) * 4 > usize::MAX,
                            area == (width as int) * (height as int),
                    ;
                }
                Err(PipelineError::Allocation)
            },
            Some(len) => {
                proof {
                    assert(len == 4 * width * height) by (nonlinear_arith)
                        requires
                            len == (area as int) * 4,
                            area == (width as int) * (height as int),
                    ;
                }
                let mut pixels: Vec<u8> = Vec::new();
                let mut i: usize = 0;
                while i < len
                    invariant
                        len == 4 * width * height,
                        i <= len,
                        pixels@.len() == i,
                        forall|j: int| 0 <= j < i ==> pixels@[j] == 0u8,
                    decreases len - i,
                {
                    pixels.push(0u8);
                    i = i + 1;
                }
                proof {
                    assert(pixels@ =~= Seq::new((4 * width * height) as nat, |j: int| 0u8));
                }
                Ok(PixelBuffer { width, height, pixels })
            },
        },
    }
}

} // verus!

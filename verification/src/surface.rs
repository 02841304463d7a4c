use vstd::prelude::*;

use crate::buffer::{BufferAbs, PixelBuffer};
use crate::error::PipelineError;

verus! {

/// The mathematical value of a drawable surface: whether its handle is
/// attached, whether anything was ever pushed to it, and the pixel grid it
/// currently displays.
#[verifier::ext_equal]
pub ghost struct SurfaceAbs {
    pub attached: bool,
    pub written: bool,
    pub width: u32,
    pub height: u32,
    pub pixels: Seq<u8>,
}

impl SurfaceAbs {
    pub open spec fn wf(self) -> bool {
        self.pixels.len() == 4 * self.width * self.height
    }
}

/// A stateful drawable surface. Its displayed content is the single source
/// of truth between pipeline runs; the pipeline reads and writes it only
/// through `push` and `pull`.
#[derive(Debug)]
pub struct Surface {
    pub attached: bool,
    pub written: bool,
    pub width: u32,
    pub height: u32,
    pub pixels: Vec<u8>,
}

impl View for Surface {
    type V = SurfaceAbs;

    open spec fn view(&self) -> SurfaceAbs {
        SurfaceAbs {
            attached: self.attached,
            written: self.written,
            width: self.width,
            height: self.height,
            pixels: self.pixels@,
        }
    }
}

impl Surface {
    pub open spec fn wf(&self) -> bool {
        self@.wf()
    }

    /// A fresh surface: nothing displayed yet, zero by zero pixels.
    pub fn new(attached: bool) -> (s: Surface)
        ensures
            s.wf(),
            s@ == (SurfaceAbs {
                attached,
                written: false,
                width: 0,
                height: 0,
                pixels: Seq::<u8>::empty(),
            }),
    {
        let s = Surface { attached, written: false, width: 0, height: 0, pixels: Vec::new() };
        proof {
            assert(s@ =~= (SurfaceAbs {
                attached,
                written: false,
                width: 0,
                height: 0,
                pixels: Seq::<u8>::empty(),
            }));
        }
        s
    }
}

/// The surface state after a successful push of buffer `b`: resized to the
/// buffer's dimensions, displaying its pixels verbatim.
pub open spec fn push_spec(s: SurfaceAbs, b: BufferAbs) -> SurfaceAbs {
    SurfaceAbs {
        attached: s.attached,
        written: true,
        width: b.width,
        height: b.height,
        pixels: b.pixels,
    }
}

/// What a pull returns on surface state `s`: the displayed grid as a fresh
/// buffer, or the error the state forces.
pub open spec fn pull_spec(s: SurfaceAbs) -> Result<BufferAbs, PipelineError> {
    if !s.attached {
        Err(PipelineError::SurfaceUnavailable)
    } else if !s.written {
        Err(PipelineError::EmptySurface)
    } else {
        Ok(BufferAbs { width: s.width, height: s.height, pixels: s.pixels })
    }
}

/// Law: a push followed immediately by a pull on the same surface returns
/// a buffer equal to the one pushed, on any attached surface.
pub proof fn lemma_push_pull_round_trip(s: SurfaceAbs, b: BufferAbs)
    requires
        s.attached,
    ensures
        pull_spec(push_spec(s, b)) == Ok::<BufferAbs, PipelineError>(b),
{
    assert(pull_spec(push_spec(s, b)).unwrap() =~= b);
}

/// Copies the bytes of `src` into a fresh vector.
fn copy_bytes(src: &Vec<u8>) -> (r: Vec<u8>)
    ensures
        r@ == src@,
{
    let mut r: Vec<u8> = Vec::with_capacity(src.len());
    let mut i: usize = 0;
    while i < src.len()
        invariant
            i <= src@.len(),
            r@ =~= src@.take(i as int),
        decreases src@.len() - i,
    {
        r.push(src[i]);
        proof {
            assert(r@ =~= src@.take(i + 1 as int));
        }
        i = i + 1;
    }
    proof {
        assert(r@ =~= src@);
    }
    r
}

/// Resizes the surface to the buffer's dimensions and writes the buffer's
/// pixels onto it verbatim, consuming the buffer. Fails with
/// `SurfaceUnavailable`, leaving the surface untouched, exactly when the
/// handle is not attached.
pub fn push(surface: &mut Surface, buffer: PixelBuffer) -> (r: Result<(), PipelineError>)
    requires
        old(surface).wf(),
        buffer.wf(),
    ensures
        final(surface).wf(),
        r is Ok <==> old(surface)@.attached,
        r is Ok ==> final(surface)@ == push_spec(old(surface)@, buffer@),
        r is Err ==> r == Err::<(), PipelineError>(PipelineError::SurfaceUnavailable)
            && final(surface)@ == old(surface)@,
{
    if !surface.attached {
        return Err(PipelineError::SurfaceUnavailable);
    }
    surface.width = buffer.width;
    surface.height = buffer.height;
    surface.pixels = buffer.pixels;
    surface.written = true;
    proof {
        assert(surface@ =~= push_spec(old(surface)@, buffer@));
    }
    Ok(())
}

/// Reads the surface's currently displayed grid and dimensions into a new
/// buffer. Fails with `SurfaceUnavailable` when the handle is not attached,
/// and with `EmptySurface` when nothing was ever pushed.
pub fn pull(surface: &Surface) -> (r: Result<PixelBuffer, PipelineError>)
    requires
        surface.wf(),
    ensures
        r is Ok <==> pull_spec(surface@) is Ok,
        r matches Ok(b) ==> b.wf() && pull_spec(surface@) == Ok::<BufferAbs, PipelineError>(b@),
        r matches Err(e) ==> pull_spec(surface@) == Err::<BufferAbs, PipelineError>(e),
{
    if !surface.attached {
        return Err(PipelineError::SurfaceUnavailable);
    }
    if !surface.written {
        return Err(PipelineError::EmptySurface);
    }
    let pixels = copy_bytes(&surface.pixels);
    let b = PixelBuffer { width: surface.width, height: surface.height, pixels };
    proof {
        assert(b@ =~= pull_spec(surface@).unwrap());
    }
    Ok(b)
}

} // verus!

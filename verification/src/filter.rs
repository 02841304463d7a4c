use vstd::prelude::*;

use crate::buffer::{BufferAbs, PixelBuffer};
use crate::error::PipelineError;

verus! {

/// The raster that the "twenties" preset produces from raster `p`: a fixed
/// per-pixel remap of the colour channels, a pure function of the bytes.
/// The curve averages each pixel's three colour channels and adds the fixed
/// offsets 18, 12 and 20 to them, saturating at 255; alpha is untouched.
pub uninterp spec fn twenties_of(p: Seq<u8>) -> Seq<u8>;

/// The names the filter catalog registers. A single preset is on offer:
/// "twenties", a slightly blue-tinted historical tone remap.
pub open spec fn filter_known(name: Seq<char>) -> bool {
    name == "twenties"@
}

/// The buffer after the preset ran: same dimensions, remapped pixels.
pub open spec fn filter_view(b: BufferAbs) -> BufferAbs {
    BufferAbs { width: b.width, height: b.height, pixels: twenties_of(b.pixels) }
}

/// Relies on photon_rs::filters::filter with the "twenties" preset, which
/// runs photon_rs::monochrome::monochrome with fixed channel offsets: it
/// rewrites the colour channels of each four-byte pixel in place, reading
/// nothing but the raw bytes, so the result is a function of the bytes
/// alone and keeps their count.
#[verifier::external_body]
fn photon_twenties(pixels: &Vec<u8>, width: u32, height: u32) -> (r: Vec<u8>)
    requires
        pixels@.len() == 4 * width * height,
    ensures
        r@ == twenties_of(pixels@),
        r@.len() == pixels@.len(),
{
    let mut img = photon_rs::PhotonImage::new(pixels.clone(), width, height);
    photon_rs::filters::filter(&mut img, "twenties");
    img.get_raw_pixels()
}

/// Applies the named preset to the buffer in place. The result is a pure,
/// deterministic function of the pixel bytes, and the dimensions never
/// change. Fails with `UnknownFilter`, leaving the buffer untouched,
/// exactly when `name` is not a registered preset.
pub fn apply_filter(buffer: &mut PixelBuffer, name: &str) -> (r: Result<(), PipelineError>)
    requires
        old(buffer).wf(),
    ensures
        final(buffer).wf(),
        r is Ok <==> filter_known(name@),
        r is Ok ==> final(buffer)@ == filter_view(old(buffer)@),
        r is Err ==> r == Err::<(), PipelineError>(PipelineError::UnknownFilter)
            && *final(buffer) == *old(buffer),
{
    let requested: String = name.to_owned();
    let registered: String = "twenties".to_owned();
    if requested == registered {
        buffer.pixels = photon_twenties(&buffer.pixels, buffer.width, buffer.height);
        proof {
            assert(buffer@ =~= filter_view(old(buffer)@));
        }
        Ok(())
    } else {
        Err(PipelineError::UnknownFilter)
    }
}

/// Law: a named filter is deterministic — equal buffers give equal
/// results, so applying the same preset to two fresh decodes of the same
/// bytes yields identical output both times.
pub proof fn lemma_filter_deterministic(a: BufferAbs, b: BufferAbs)
    requires
        a == b,
    ensures
        filter_view(a) == filter_view(b),
{
}

} // verus!

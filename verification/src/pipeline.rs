use vstd::prelude::*;

use crate::buffer::BufferAbs;
use crate::decode::{decode, decode_spec, decoded_view};
use crate::error::PipelineError;
use crate::filter::{apply_filter, filter_view};
use crate::flip::{flip_horizontal, flip_pixels, flip_view, lemma_flip_self_inverse};
use crate::surface::{pull, pull_spec, push, push_spec, Surface, SurfaceAbs};

verus! {

/// What a load run displays for `bytes`: the decoded image with the preset
/// filter applied, when the bytes decode at all.
pub open spec fn loaded_view(bytes: Seq<u8>) -> Option<BufferAbs> {
    match decoded_view(bytes) {
        Some(b) => Some(filter_view(b)),
        None => None,
    }
}

/// Law: a load run is deterministic. The same bytes decode to the same
/// buffer and the preset filter remaps it to the same pixels, so two fresh
/// runs display identical output.
pub proof fn lemma_load_deterministic(b1: Seq<u8>, b2: Seq<u8>)
    requires
        b1 == b2,
    ensures
        loaded_view(b1) == loaded_view(b2),
{
}

/// One full load run: decode the bytes, apply the "twenties" preset, and
/// push the result onto the surface. Fails with `Decode` on malformed
/// bytes and otherwise with `SurfaceUnavailable` on a detached surface; on
/// any failure the surface is untouched.
pub fn load_image(surface: &mut Surface, bytes: &Vec<u8>) -> (r: Result<(), PipelineError>)
    requires
        old(surface).wf(),
    ensures
        final(surface).wf(),
        r is Ok <==> (decode_spec(bytes@) is Some && old(surface)@.attached),
        r is Ok ==> final(surface)@ == push_spec(old(surface)@, loaded_view(bytes@).unwrap()),
        decode_spec(bytes@) is None ==> r == Err::<(), PipelineError>(PipelineError::Decode),
        decode_spec(bytes@) is Some && !old(surface)@.attached ==> r == Err::<(),
            PipelineError,
        >(PipelineError::SurfaceUnavailable),
        r is Err ==> final(surface)@ == old(surface)@,
{
    match decode(bytes) {
        Err(e) => Err(e),
        Ok(mut buffer) => {
            match apply_filter(&mut buffer, "twenties") {
                Err(e) => Err(e),
                Ok(()) => push(surface, buffer),
            }
        },
    }
}

/// The surface with the grid it displays flipped horizontally.
pub open spec fn flipped_surface(s: SurfaceAbs) -> SurfaceAbs {
    SurfaceAbs {
        attached: s.attached,
        written: s.written,
        width: s.width,
        height: s.height,
        pixels: flip_pixels(s.pixels, s.width as int),
    }
}

/// One full flip run: pull whatever the surface currently displays, flip
/// it horizontally, and push it back. Fails with `SurfaceUnavailable` on a
/// detached surface and with `EmptySurface` when nothing was ever pushed;
/// on any failure the surface is untouched.
pub fn flip_displayed(surface: &mut Surface) -> (r: Result<(), PipelineError>)
    requires
        old(surface).wf(),
    ensures
        final(surface).wf(),
        r is Ok <==> (old(surface)@.attached && old(surface)@.written),
        r is Ok ==> final(surface)@ == flipped_surface(old(surface)@),
        r matches Err(e) ==> pull_spec(old(surface)@) == Err::<BufferAbs, PipelineError>(e)
            && final(surface)@ == old(surface)@,
{
    match pull(surface) {
        Err(e) => Err(e),
        Ok(mut buffer) => {
            flip_horizontal(&mut buffer);
            let r = push(surface, buffer);
            proof {
                assert(surface@ =~= flipped_surface(old(surface)@));
            }
            r
        },
    }
}

/// Law: two flip runs in a row restore what the surface displayed, bit for
/// bit.
pub proof fn lemma_flip_displayed_twice_restores(s: SurfaceAbs)
    requires
        s.wf(),
    ensures
        flipped_surface(flipped_surface(s)) == s,
{
    let b = BufferAbs { width: s.width, height: s.height, pixels: s.pixels };
    lemma_flip_self_inverse(b);
    assert(flip_view(flip_view(b)).pixels == s.pixels);
    assert(flipped_surface(flipped_surface(s)) =~= s);
}

} // verus!

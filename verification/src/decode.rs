use vstd::prelude::*;

use crate::buffer::{BufferAbs, PixelBuffer};
use crate::error::PipelineError;

verus! {

/// What the external decoder makes of `bytes`: `None` when they are not a
/// well-formed encoded image, otherwise the decoded width, height and RGBA
/// bytes. Decoding is a pure function of the bytes.
pub uninterp spec fn decode_spec(bytes: Seq<u8>) -> Option<(u32, u32, Seq<u8>)>;

/// The decoded bytes as a buffer value, when they decode at all.
pub open spec fn decoded_view(bytes: Seq<u8>) -> Option<BufferAbs> {
    match decode_spec(bytes) {
        Some((w, h, p)) => Some(BufferAbs { width: w, height: h, pixels: p }),
        None => None,
    }
}

/// Relies on photon_rs::native::open_image_from_bytes: it decodes the
/// bytes alone, returns an error exactly when they are not a well-formed
/// encoded image, and on success converts the decoded image to RGBA, four
/// bytes for each of its width x height pixels.
#[verifier::external_body]
fn photon_decode(bytes: &Vec<u8>) -> (r: Option<(u32, u32, Vec<u8>)>)
    ensures
        r is Some <==> decode_spec(bytes@) is Some,
        r matches Some(t) ==> decode_spec(bytes@) == Some((t.0, t.1, t.2@))
            && t.2@.len() == 4 * t.0 * t.1,
{
    match photon_rs::native::open_image_from_bytes(bytes.as_slice()) {
        Ok(img) => Some((img.get_width(), img.get_height(), img.get_raw_pixels())),
        Err(_) => None,
    }
}

/// Decodes raw encoded image bytes into a fresh, well-formed pixel buffer.
/// Fails with `Decode`, and returns no buffer at all, exactly when the
/// bytes are not a well-formed encoded image.
pub fn decode(bytes: &Vec<u8>) -> (r: Result<PixelBuffer, PipelineError>)
    ensures
        r is Ok <==> decoded_view(bytes@) is Some,
        r matches Ok(b) ==> b.wf() && decoded_view(bytes@) == Some(b@),
        r is Err ==> r == Err::<PixelBuffer, PipelineError>(PipelineError::Decode),
{
    match photon_decode(bytes) {
        Some((width, height, pixels)) => {
            let b = PixelBuffer { width, height, pixels };
            proof {
                assert(b@ =~= decoded_view(bytes@).unwrap());
            }
            Ok(b)
        },
        None => Err(PipelineError::Decode),
    }
}

} // verus!

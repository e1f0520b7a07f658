use vstd::prelude::*;

verus! {

/// The grayscale, 8-bit-depth PNG encoding of a row-major pixel buffer with
/// the given dimensions. The byte layout of the container is left
/// unspecified; the library relies only on the encoding being a function of
/// the dimensions and bytes alone.
pub uninterp spec fn png_gray_of(width: u16, height: u16, data: Seq<u8>) -> Seq<u8>;

/// Relies on png's `Encoder` (grayscale colour type, 8-bit depth) writing to
/// an in-memory buffer: with one byte per pixel the encoding succeeds exactly
/// when both dimensions are nonzero, and its output depends on the
/// dimensions and pixel bytes alone.
#[verifier::external_body]
pub(crate) fn encode_png_gray(width: u16, height: u16, data: &Vec<u8>) -> (r: Option<Vec<u8>>)
    requires
        data@.len() == (width as int) * (height as int),
    ensures
        width > 0 && height > 0 ==> r is Some,
        width == 0 || height == 0 ==> r is None,
        r is Some ==> r->0@ == png_gray_of(width, height, data@),
{
    let mut out: Vec<u8> = Vec::new();
    let mut enc = png::Encoder::new(&mut out, width as u32, height as u32);
    enc.set_color(png::ColorType::Grayscale);
    enc.set_depth(png::BitDepth::Eight);
    let mut writer = match enc.write_header() {
        Ok(w) => w,
        Err(_) => return None,
    };
    if writer.write_image_data(data).is_err() {
        return None;
    }
    if writer.finish().is_err() {
        return None;
    }
    Some(out)
}

} // verus!

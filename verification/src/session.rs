use vstd::prelude::*;

verus! {

/// The fixed, deliberately low-fidelity pixel format negotiated for every
/// session: 8 bits per pixel, true colour with small channel maxima, chosen
/// to keep hashes stable and bandwidth small.
#[derive(Clone, Copy, Debug, PartialEq, Eq, Structural)]
pub struct PixelFormat {
    pub bits_per_pixel: u8,
    pub depth: u8,
    pub big_endian: bool,
    pub true_colour: bool,
    pub red_max: u16,
    pub green_max: u16,
    pub blue_max: u16,
    pub red_shift: u8,
    pub green_shift: u8,
    pub blue_shift: u8,
}

/// The update encodings a session restricts the server to: raw pixel blocks
/// and desktop-resize notifications, nothing else.
#[derive(Clone, Copy, Debug, PartialEq, Eq, Structural)]
pub enum EncodingKind {
    Raw,
    DesktopSize,
}

/// The pixel format every session negotiates.
pub fn preferred_pixel_format() -> (r: PixelFormat)
    ensures
        r.bits_per_pixel == 8,
        r.depth == 8,
        !r.big_endian,
        r.true_colour,
        r.red_max == 8,
        r.green_max == 8,
        r.blue_max == 4,
        r.red_shift == 5,
        r.green_shift == 2,
        r.blue_shift == 0,
{
    PixelFormat {
        bits_per_pixel: 8,
        depth: 8,
        big_endian: false,
        true_colour: true,
        red_max: 8,
        green_max: 8,
        blue_max: 4,
        red_shift: 5,
        green_shift: 2,
        blue_shift: 0,
    }
}

/// The update encodings every session requests, in order.
pub fn preferred_encodings() -> (r: Vec<EncodingKind>)
    ensures
        r@ == seq![EncodingKind::Raw, EncodingKind::DesktopSize],
{
    let r = vec![EncodingKind::Raw, EncodingKind::DesktopSize];
    proof {
        assert(r@ =~= seq![EncodingKind::Raw, EncodingKind::DesktopSize]);
    }
    r
}

/// The per-session state of a virtual-console connection: the current frame
/// size as last reported by the server, whether every executed command's
/// resulting frame is recorded, and whether the operator breakpoint prompt is
/// active. `debug` can be turned off at runtime by the operator, never back
/// on; `record` is fixed for the session's lifetime. The transport itself is
/// owned by the driver and is exclusive to one control thread.
#[derive(Debug)]
pub struct VncConnection {
    pub width: u16,
    pub height: u16,
    pub record: bool,
    pub debug: bool,
}

impl VncConnection {
    /// A fresh session at the negotiated size.
    pub fn new(width: u16, height: u16, record: bool, debug: bool) -> (r: VncConnection)
        ensures
            r.width == width,
            r.height == height,
            r.record == record,
            r.debug == debug,
    {
        VncConnection { width, height, record, debug }
    }
}

} // verus!

use vstd::prelude::*;

use crate::digest::{hash_spec, hex_encode, sha1_digest};
use crate::errors::CoreError;

verus! {

/// A sub-region of a frame, in pixels.
#[derive(Clone, Copy, Debug, PartialEq, Eq, Structural)]
pub struct Rect {
    pub left: u16,
    pub top: u16,
    pub width: u16,
    pub height: u16,
}

impl Rect {
    /// Whether the rectangle lies fully inside a frame of the given size.
    pub open spec fn fits(&self, width: u16, height: u16) -> bool {
        self.top + self.height <= height && self.left + self.width <= width
    }
}

/// The byte at column `x` of row `y` of a row-major buffer `w` pixels wide.
pub open spec fn cell(d: Seq<u8>, w: int, x: int, y: int) -> u8 {
    d[y * w + x]
}

/// The row-major bytes of the sub-region `rc` of a snapshot.
pub open spec fn region_bytes(s: &VncScreenshot, rc: Rect) -> Seq<u8> {
    Seq::new(
        (rc.width as nat) * (rc.height as nat),
        |k: int|
            s.pixel(rc.left + k % (rc.width as int), rc.top + k / (rc.width as int)),
    )
}

/// A successful `trim` returns exactly the region's bytes: the pixel-wise
/// characterization of a trimmed snapshot determines its whole buffer.
pub proof fn lemma_trim_bytes(src: &VncScreenshot, t: &VncScreenshot, rc: Rect)
    requires
        t.wf(),
        t.width == rc.width,
        t.height == rc.height,
        forall|x: int, y: int|
            0 <= x < rc.width && 0 <= y < rc.height ==> #[trigger] t.pixel(x, y) == src.pixel(
                rc.left + x,
                rc.top + y,
            ),
    ensures
        t.data@ == region_bytes(src, rc),
{
    let w = rc.width as int;
    let h = rc.height as int;
    assert(region_bytes(src, rc).len() == w * h);
    assert forall|k: int| 0 <= k < t.data@.len() implies t.data@[k] == region_bytes(src, rc)[k] by {
        assert(w > 0) by (nonlinear_arith)
            requires
                0 <= k < w * h,
                0 <= w,
        ;
        let x = k % w;
        let y = k / w;
        vstd::arithmetic::div_mod::lemma_fundamental_div_mod(k, w);
        vstd::arithmetic::div_mod::lemma_mod_bound(k, w);
        assert(0 <= y < h) by (nonlinear_arith)
            requires
                k == w * y + x,
                0 <= x < w,
                0 <= k < w * h,
        ;
        assert(k == w * (k / w) + (k % w));
        assert(y * w + x == k) by (nonlinear_arith)
            requires
                k == w * y + x,
        ;
        assert(t.pixel(x, y) == t.data@[k]);
        assert(t.pixel(x, y) == src.pixel(rc.left + x, rc.top + y));
        assert(region_bytes(src, rc)[k] == src.pixel(rc.left + x, rc.top + y));
    }
    assert(t.data@ =~= region_bytes(src, rc));
}

/// A full- or sub-frame pixel snapshot: one byte per pixel, row-major.
#[derive(Debug)]
pub struct VncScreenshot {
    pub data: Vec<u8>,
    pub width: u16,
    pub height: u16,
}

impl VncScreenshot {
    /// The snapshot invariant: the buffer holds exactly one byte per pixel.
    pub open spec fn wf(&self) -> bool {
        self.data@.len() == self.width as int * self.height as int
    }

    /// The pixel at column `x` of row `y`.
    pub open spec fn pixel(&self, x: int, y: int) -> u8 {
        cell(self.data@, self.width as int, x, y)
    }

    /// The content hash of the snapshot: lowercase hex of the SHA-1 digest of
    /// the raw pixel bytes. Dimensions are not part of the hashed input.
    pub fn hash(&self) -> (r: String)
        ensures
            r@ == hash_spec(self.data@),
    {
        let d = sha1_digest(self.data.as_slice());
        hex_encode(d.as_slice())
    }

    /// The snapshot as a grayscale, 8-bit-depth PNG; nothing if a dimension
    /// is zero, which the container cannot represent.
    pub fn encode_png(&self) -> (r: Option<Vec<u8>>)
        requires
            self.wf(),
        ensures
            r is Some <==> self.width > 0 && self.height > 0,
            r is Some ==> r->0@ == crate::artifact::png_gray_of(
                self.width,
                self.height,
                self.data@,
            ),
    {
        crate::artifact::encode_png_gray(self.width, self.height, &self.data)
    }

    /// Extract the sub-region `rect` as a new snapshot, copied row-major, so
    /// that output pixel `(x, y)` equals source pixel
    /// `(rect.left + x, rect.top + y)`. Returns a bounds error, and copies
    /// nothing, exactly when the rectangle does not fit.
    pub fn trim(&self, rect: Rect) -> (r: Result<VncScreenshot, CoreError>)
        requires
            self.wf(),
        ensures
            r is Ok <==> rect.fits(self.width, self.height),
            r is Err ==> r->Err_0 is Bounds,
            r is Ok ==> {
                let t = r->Ok_0;
                &&& t.wf()
                &&& t.width == rect.width
                &&& t.height == rect.height
                &&& forall|x: int, y: int|
                    0 <= x < rect.width && 0 <= y < rect.height ==> #[trigger] t.pixel(x, y)
                        == self.pixel(rect.left + x, rect.top + y)
            },
    {
        if !(rect.top as usize + rect.height as usize <= self.height as usize && rect.left as usize
            + rect.width as usize <= self.width as usize) {
            return Err(CoreError::Bounds);
        }
        let w = rect.width as usize;
        let h = rect.height as usize;
        let src_w = self.width as usize;
        let mut data: Vec<u8> = Vec::new();
        let mut y: usize = 0;
        while y < h
            invariant
                self.wf(),
                y <= h,
                w == rect.width,
                h == rect.height,
                src_w == self.width,
                rect.fits(self.width, self.height),
                data@.len() == y * w,
                forall|xx: int, yy: int|
                    0 <= xx < w && 0 <= yy < y ==> #[trigger] cell(data@, w as int, xx, yy)
                        == self.pixel(rect.left + xx, rect.top + yy),
            decreases h - y,
        {
            let mut x: usize = 0;
            while x < w
                invariant
                    self.wf(),
                    y < h,
                    x <= w,
                    w == rect.width,
                    h == rect.height,
                    src_w == self.width,
                    rect.fits(self.width, self.height),
                    data@.len() == y * w + x,
                    forall|xx: int, yy: int|
                        0 <= xx < w && 0 <= yy < y ==> #[trigger] cell(data@, w as int, xx, yy)
                            == self.pixel(rect.left + xx, rect.top + yy),
                    forall|xx: int|
                        0 <= xx < x ==> #[trigger] cell(data@, w as int, xx, y as int)
                            == self.pixel(rect.left + xx, rect.top + y as int),
                decreases w - x,
            {
                let row = y + rect.top as usize;
                let col = x + rect.left as usize;
                proof {
                    assert(row * src_w + col < src_w * (self.height as int) && row * src_w + col
                        < 0x1_0000_0000) by (nonlinear_arith)
                        requires
                            0 <= row < self.height as int,
                            0 <= col < src_w,
                            src_w == self.width as int,
                            self.height <= 0xffff,
                            src_w <= 0xffff,
                    ;
                }
                let idx = row * src_w + col;
                let ghost d0 = data@;
                data.push(self.data[idx]);
                proof {
                    assert forall|xx: int, yy: int|
                        0 <= xx < w && 0 <= yy < y implies #[trigger] cell(data@, w as int, xx, yy)
                        == self.pixel(rect.left + xx, rect.top + yy) by {
                        assert(0 <= yy * (w as int) + xx && yy * (w as int) + xx < y * (w as int))
                            by (nonlinear_arith)
                            requires
                                0 <= xx < w,
                                0 <= yy < y,
                        ;
                        assert(cell(d0, w as int, xx, yy) == self.pixel(
                            rect.left + xx,
                            rect.top + yy,
                        ));
                        assert(data@[yy * (w as int) + xx] == d0[yy * (w as int) + xx]);
                    }
                    assert forall|xx: int|
                        0 <= xx < x + 1 implies #[trigger] cell(data@, w as int, xx, y as int)
                        == self.pixel(rect.left + xx, rect.top + y as int) by {
                        if xx < x {
                            assert(cell(d0, w as int, xx, y as int) == self.pixel(
                                rect.left + xx,
                                rect.top + y as int,
                            ));
                            assert(data@[y * (w as int) + xx] == d0[y * (w as int) + xx]);
                        } else {
                            assert(xx == x);
                            assert(y * (w as int) + x == d0.len());
                            assert(data@[y * (w as int) + x] == self.data@[row * (src_w as int)
                                + col]);
                            assert(self.pixel(rect.left + xx, rect.top + y as int)
                                == self.data@[(rect.top + y as int) * (self.width as int)
                                + (rect.left + xx)]);
                        }
                    }
                }
                x += 1;
            }
            proof {
                assert((y + 1) * w == y * w + w) by (nonlinear_arith);
            }
            y += 1;
        }
        let ghost final_data = data@;
        proof {
            assert(h * w == rect.width as int * rect.height as int) by (nonlinear_arith)
                requires
                    w == rect.width as int,
                    h == rect.height as int,
            ;
        }
        let t = VncScreenshot { data, width: rect.width, height: rect.height };
        proof {
            assert forall|x: int, y: int|
                0 <= x < rect.width && 0 <= y < rect.height implies #[trigger] t.pixel(x, y)
                == self.pixel(rect.left + x, rect.top + y) by {
                assert(t.pixel(x, y) == cell(final_data, w as int, x, y));
            }
        }
        Ok(t)
    }
}

} // verus!

use image::{DynamicImage, ImageFormat, RgbaImage};
use vstd::arithmetic::div_mod::lemma_fundamental_div_mod_converse;
use vstd::prelude::*;

verus! {

/// A picture as 8-bit RGBA bytes, row by row, four bytes a pixel.
pub struct RgbaFrame {
    pub width: u32,
    pub height: u32,
    pub rgba: Vec<u8>,
}

impl RgbaFrame {
    /// The buffer holds exactly `width * height` pixels.
    pub open spec fn wf(&self) -> bool {
        self.rgba@.len() == self.width * self.height * 4
    }
}

/// The block that a crop of `w` by `h` at `(x, y)` really covers in a
/// picture `iw` by `ih`: the corner is pulled inside the picture and the
/// size cut at its right and bottom edges.
pub open spec fn clamp_crop(iw: int, ih: int, x: int, y: int, w: int, h: int) -> (int, int, int, int) {
    let cx = if x < iw { x } else { iw };
    let cy = if y < ih { y } else { ih };
    let cw = if w < iw - cx { w } else { iw - cx };
    let ch = if h < ih - cy { h } else { ih - cy };
    (cx, cy, cw, ch)
}

/// The RGBA bytes of the `w` by `h` block whose top-left pixel is `(x, y)`
/// in a picture `iw` pixels wide, row by row.
pub open spec fn crop_bytes(src: Seq<u8>, iw: int, x: int, y: int, w: int, h: int) -> Seq<u8> {
    Seq::new((w * h * 4) as nat, |k: int| src[((y + k / (w * 4)) * iw + x) * 4 + k % (w * 4)])
}

/// The part of `frame` that a crop of `w` by `h` at `(x, y)` covers, cut to
/// the picture as `clamp_crop` says, as a picture of its own.
pub fn crop_frame(frame: &RgbaFrame, x: u32, y: u32, w: u32, h: u32) -> (r: RgbaFrame)
    requires
        frame.wf(),
    ensures
        r.wf(),
        ({
            let (cx, cy, cw, ch) = clamp_crop(frame.width as int, frame.height as int, x as int, y as int, w as int, h as int);
            &&& r.width == cw
            &&& r.height == ch
            &&& r.rgba@ == crop_bytes(frame.rgba@, frame.width as int, cx, cy, cw, ch)
        }),
{
    let iw = frame.width;
    let ih = frame.height;
    let cx = if x < iw { x } else { iw };
    let cy = if y < ih { y } else { ih };
    let cw = if w < iw - cx { w } else { iw - cx };
    let ch = if h < ih - cy { h } else { ih - cy };
    let ghost want = crop_bytes(frame.rgba@, iw as int, cx as int, cy as int, cw as int, ch as int);
    let total: usize = frame.rgba.len();
    let mut out: Vec<u8> = Vec::new();
    let mut j: u32 = 0;
    while j < ch
        invariant
            frame.wf(),
            total == frame.rgba@.len(),
            iw == frame.width,
            ih == frame.height,
            cx + cw <= iw,
            cy + ch <= ih,
            j <= ch,
            want == crop_bytes(frame.rgba@, iw as int, cx as int, cy as int, cw as int, ch as int),
            out@.len() == j * (cw * 4),
            forall|k: int| 0 <= k < out@.len() ==> out@[k] == want[k],
        decreases ch - j,
    {
        proof {
            let row: int = cy + j;
            assert((row + 1) * iw * 4 <= ih * iw * 4) by (nonlinear_arith)
                requires
                    row + 1 <= ih,
                    iw >= 0,
            ;
            assert((row * iw + cx + cw) * 4 <= (row + 1) * iw * 4) by (nonlinear_arith)
                requires
                    cx + cw <= iw,
                    row >= 0,
            ;
            assert(ih * iw * 4 == iw * ih * 4) by (nonlinear_arith);
            assert((j + 1) * (cw * 4) <= ch * (cw * 4)) by (nonlinear_arith)
                requires
                    j + 1 <= ch,
                    cw >= 0,
            ;
            assert(ch * (cw * 4) == cw * ch * 4) by (nonlinear_arith);
            assert(cw * ch * 4 <= usize::MAX) by (nonlinear_arith)
                requires
                    cw <= iw,
                    ch <= ih,
                    iw * ih * 4 <= usize::MAX,
            ;
            assert(row * iw <= usize::MAX) by (nonlinear_arith)
                requires
                    (row * iw + cx + cw) * 4 <= total,
                    cx >= 0,
                    cw >= 0,
                    total <= usize::MAX,
            ;
        }
        let row_start: usize = ((cy + j) as usize * iw as usize + cx as usize) * 4;
        let rw: usize = cw as usize * 4;
        let mut b: usize = 0;
        while b < rw
            invariant
                frame.wf(),
                total == frame.rgba@.len(),
                iw == frame.width,
                j < ch,
                rw == cw * 4,
                b <= rw,
                row_start == ((cy + j) * iw + cx) * 4,
                row_start + rw <= frame.rgba@.len(),
                want == crop_bytes(frame.rgba@, iw as int, cx as int, cy as int, cw as int, ch as int),
                (j + 1) * (cw * 4) <= cw * ch * 4,
                out@.len() == j * (cw * 4) + b,
                forall|k: int| 0 <= k < out@.len() ==> out@[k] == want[k],
            decreases rw - b,
        {
            let ghost k: int = out@.len() as int;
            proof {
                lemma_fundamental_div_mod_converse(k, rw as int, j as int, b as int);
                assert(k < cw * ch * 4) by (nonlinear_arith)
                    requires
                        k == j * (cw * 4) + b,
                        b < cw * 4,
                        (j + 1) * (cw * 4) <= cw * ch * 4,
                ;
                assert(want[k] == frame.rgba@[row_start + b]);
            }
            out.push(frame.rgba[row_start + b]);
            b = b + 1;
        }
        proof {
            assert((j + 1) * (cw * 4) == j * (cw * 4) + cw * 4) by (nonlinear_arith);
        }
        j = j + 1;
    }
    proof {
        assert(ch * (cw * 4) == cw * ch * 4) by (nonlinear_arith);
        assert(out@ =~= want);
    }
    RgbaFrame { width: cw, height: ch, rgba: out }
}

/// What the `image` crate writes for an RGBA picture of the given size and
/// bytes when asked for PNG; `None` where its encoder reports an error.
pub uninterp spec fn png_encoding(width: u32, height: u32, rgba: Seq<u8>) -> Option<Seq<u8>>;

/// Calls `RgbaImage::from_raw` and `DynamicImage::write_to` with
/// `ImageFormat::Png` into an in-memory buffer.
/// Claimed: the outcome is a function of the size and the bytes alone
/// (`png_encoding`). The buffer length is required to match the size, which
/// is what `from_raw` accepts and what the PNG encoder asserts.
#[verifier::external_body]
fn encode_png(width: u32, height: u32, rgba: Vec<u8>) -> (r: Option<Vec<u8>>)
    requires
        rgba@.len() == width * height * 4,
    ensures
        match r {
            Some(bytes) => png_encoding(width, height, rgba@) == Some(bytes@),
            None => png_encoding(width, height, rgba@) is None,
        },
{
    let image = match RgbaImage::from_raw(width, height, rgba) {
        Some(image) => image,
        None => return None,
    };
    let mut buffer = std::io::Cursor::new(Vec::<u8>::new());
    match DynamicImage::ImageRgba8(image).write_to(&mut buffer, ImageFormat::Png) {
        Ok(()) => Some(buffer.into_inner()),
        Err(_) => None,
    }
}

/// The size of the selection as a request sends it: each side at least one
/// pixel, and the corner pulled to zero where it lies left of or above the
/// picture.
pub open spec fn request_crop(left: int, top: int, right: int, bottom: int) -> (int, int, int, int) {
    let w = right - left;
    let h = bottom - top;
    (
        if left < 0 { 0 } else { left },
        if top < 0 { 0 } else { top },
        if w < 1 { 1 } else { w },
        if h < 1 { 1 } else { h },
    )
}

/// The selected part of the captured picture, encoded as PNG for an OCR or
/// translation request: the selection's corner (at least zero) and size (at
/// least one pixel each way) are cut to the picture, then encoded.
pub fn selection_png(frame: &RgbaFrame, left: i32, top: i32, right: i32, bottom: i32) -> (r: Option<Vec<u8>>)
    requires
        frame.wf(),
        i32::MIN <= right - left <= i32::MAX,
        i32::MIN <= bottom - top <= i32::MAX,
    ensures
        ({
            let (x, y, w, h) = request_crop(left as int, top as int, right as int, bottom as int);
            let (cx, cy, cw, ch) = clamp_crop(frame.width as int, frame.height as int, x, y, w, h);
            let want = png_encoding(cw as u32, ch as u32, crop_bytes(frame.rgba@, frame.width as int, cx, cy, cw, ch));
            match r {
                Some(bytes) => want == Some(bytes@),
                None => want is None,
            }
        }),
{
    let w: i32 = right - left;
    let h: i32 = bottom - top;
    let x: u32 = if left < 0 { 0 } else { left as u32 };
    let y: u32 = if top < 0 { 0 } else { top as u32 };
    let cw: u32 = if w < 1 { 1 } else { w as u32 };
    let chh: u32 = if h < 1 { 1 } else { h as u32 };
    let crop = crop_frame(frame, x, y, cw, chh);
    encode_png(crop.width, crop.height, crop.rgba)
}

} // verus!

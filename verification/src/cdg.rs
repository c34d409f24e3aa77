//! CDG / CD2: TH04's 16-colour planar sprite and background format (ReC98
//! `th03/formats/cdg.h` / `cdg_load.cpp`).
//!
//! ```text
//! 0x00  u16 bitplane_size  = (width/8) * height
//! 0x02  i16 width          (multiple of 32)
//! 0x04  i16 height
//! 0x06  i16 offset_at_bottom_left  (runtime only)
//! 0x08  u16 vram_dword_w           (runtime only)
//! 0x0A  u8  image_count
//! 0x0B  i8  plane_layout    0 = 4 colour planes, 1 = alpha + 4 colour, 2 = alpha
//! 0x0C  u8[4] zero
//! 0x10  image data          image_count x (planes x bitplane_size)
//! ```
//! Colour planes are ordered B, R, G, E, so a pixel's palette index is
//! `B | R<<1 | G<<2 | E<<3`. Rows are stored bottom to top.

use vstd::prelude::*;
use crate::mpn::{bit_of, planar_bit};
use crate::par::le16;

verus! {

pub const PALETTE_LEN: usize = 16;
const HEADER_LEN: usize = 16;

#[derive(Clone, Copy, Debug, PartialEq, Eq)]
pub enum PlaneLayout {
    /// 4 planes: B R G E
    Colors,
    /// 5 planes: alpha B R G E
    ColorsAndAlpha,
    /// 1 plane
    Alpha,
}

pub open spec fn layout_of(v: u8) -> PlaneLayout {
    if v == 1 {
        PlaneLayout::ColorsAndAlpha
    } else if v == 2 {
        PlaneLayout::Alpha
    } else {
        PlaneLayout::Colors
    }
}

pub open spec fn spec_plane_count(l: PlaneLayout) -> int {
    match l {
        PlaneLayout::Colors => 4,
        PlaneLayout::ColorsAndAlpha => 5,
        PlaneLayout::Alpha => 1,
    }
}

pub open spec fn spec_has_alpha(l: PlaneLayout) -> bool {
    l == PlaneLayout::ColorsAndAlpha || l == PlaneLayout::Alpha
}

impl PlaneLayout {
    fn from_u8(v: u8) -> (r: Self)
        ensures
            r == layout_of(v),
    {
        match v {
            1 => PlaneLayout::ColorsAndAlpha,
            2 => PlaneLayout::Alpha,
            _ => PlaneLayout::Colors,
        }
    }

    /// Total planes stored per image.
    pub fn plane_count(self) -> (r: usize)
        ensures
            r == spec_plane_count(self),
    {
        match self {
            PlaneLayout::Colors => 4,
            PlaneLayout::ColorsAndAlpha => 5,
            PlaneLayout::Alpha => 1,
        }
    }

    fn has_alpha(self) -> (r: bool)
        ensures
            r == spec_has_alpha(self),
    {
        match self {
            PlaneLayout::Colors => false,
            _ => true,
        }
    }
}

pub struct Cdg {
    pub bitplane_size: usize,
    pub width: usize,
    pub height: usize,
    pub image_count: usize,
    pub plane_layout: PlaneLayout,
    /// Everything after the 16-byte header.
    pub body: Vec<u8>,
}

/// Little-endian `i16` at `i`, clamped below at 0.
pub open spec fn le_i16_clamped(d: Seq<u8>, i: int) -> int {
    if le16(d, i) >= 0x8000 { 0 } else { le16(d, i) }
}

pub open spec fn cdg_accepts(d: Seq<u8>) -> bool {
    &&& d.len() >= 16
    &&& le16(d, 0) != 0
    &&& le_i16_clamped(d, 2) != 0
    &&& le_i16_clamped(d, 2) % 8 == 0
    &&& le_i16_clamped(d, 4) != 0
}

/// RGBA output byte `k` of an image (`w` x `h`, planes of `bps` bytes) whose
/// planes are `img`; output rows run top to bottom, stored rows bottom to top.
/// An image without colour planes (`colored` false) takes palette entry 0.
pub open spec fn cdg_byte(
    pal: Seq<[u8; 3]>,
    img: Seq<u8>,
    alpha: bool,
    colored: bool,
    bps: int,
    w: int,
    h: int,
    k: int,
) -> u8 {
    let q = k / 4;
    let x = q % w;
    let y = h - 1 - q / w;
    let colors = if alpha { img.subrange(bps, img.len() as int) } else { img };
    let idx = if colored { crate::mpn::planar_index(colors, bps, w / 8, x, y) } else { 0 };
    if k % 4 == 3 {
        if alpha {
            let byte = y * (w / 8) + x / 8;
            if bit_of(img[byte], 0x80u8 >> ((x % 8) as u8)) == 1 { 255 } else { 0 }
        } else {
            255
        }
    } else {
        pal[idx]@[k % 4]
    }
}

impl Cdg {
    pub fn parse(bytes: &[u8]) -> (r: Option<Cdg>)
        ensures
            r is Some <==> cdg_accepts(bytes@),
            r matches Some(c) ==> {
                &&& c.bitplane_size == le16(bytes@, 0)
                &&& c.width == le_i16_clamped(bytes@, 2)
                &&& c.height == le_i16_clamped(bytes@, 4)
                &&& c.image_count == if bytes@[10] == 0 { 1 } else { bytes@[10] as int }
                &&& c.plane_layout == layout_of(bytes@[11])
                &&& c.body@ == bytes@.subrange(16, bytes@.len() as int)
            },
    {
        if bytes.len() < HEADER_LEN {
            return None;
        }
        let bps = (bytes[0] as u16 + 256 * (bytes[1] as u16)) as usize;
        let w16 = bytes[2] as u16 + 256 * (bytes[3] as u16);
        let h16 = bytes[4] as u16 + 256 * (bytes[5] as u16);
        let width: usize = if w16 >= 0x8000 { 0 } else { w16 as usize };
        let height: usize = if h16 >= 0x8000 { 0 } else { h16 as usize };
        if bps == 0 || width == 0 || width % 8 != 0 || height == 0 {
            return None;
        }
        Some(Cdg {
            bitplane_size: bps,
            width,
            height,
            image_count: if bytes[10] == 0 { 1 } else { bytes[10] as usize },
            plane_layout: PlaneLayout::from_u8(bytes[11]),
            body: vstd::slice::slice_to_vec(vstd::slice::slice_subrange(bytes, HEADER_LEN, bytes.len())),
        })
    }

    /// Bytes occupied by one image (all of its planes).
    pub open spec fn spec_image_stride(&self) -> int {
        self.bitplane_size * spec_plane_count(self.plane_layout)
    }

    fn image_stride(&self) -> (r: usize)
        requires
            self.bitplane_size <= 0xffff,
        ensures
            r == self.spec_image_stride(),
    {
        self.bitplane_size * self.plane_layout.plane_count()
    }

    /// Image `n` lies within the data.
    pub open spec fn has_image(&self, n: int) -> bool {
        n * self.spec_image_stride() + self.spec_image_stride() <= self.body@.len()
    }

    /// Whether `decode_rgba` can decode image `n`: the sizes fit machine
    /// integers and every row of every plane lies within the plane.
    pub fn can_decode(&self, n: usize) -> (r: bool)
        ensures
            r == ({
                &&& self.bitplane_size <= 0xffff
                &&& self.width % 8 == 0
                &&& self.width * self.height * 4 <= usize::MAX
                &&& n * self.spec_image_stride() > usize::MAX
                    || n * self.spec_image_stride() + self.spec_image_stride() <= usize::MAX
                &&& self.has_image(n as int) ==> (self.width / 8) * self.height <= self.bitplane_size
            }),
    {
        if self.bitplane_size > 0xffff || self.width % 8 != 0 {
            return false;
        }
        let area_ok = match self.width.checked_mul(self.height) {
            Some(a) => a.checked_mul(4).is_some(),
            None => {
                assert(self.width * self.height * 4 > usize::MAX) by (nonlinear_arith)
                    requires
                        self.width * self.height > usize::MAX,
                ;
                false
            },
        };
        if !area_ok {
            return false;
        }
        assert(self.width * self.height * 4 <= usize::MAX);
        let stride = self.image_stride();
        let blen = self.body.len();
        let (in_range, has) = match n.checked_mul(stride) {
            None => {
                assert(!self.has_image(n as int)) by (nonlinear_arith)
                    requires
                        n * stride > usize::MAX,
                        stride >= 0,
                        blen == self.body@.len(),
                        blen <= usize::MAX,
                        stride == self.spec_image_stride(),
                ;
                (true, false)
            },
            Some(start) => match start.checked_add(stride) {
                None => (false, false),
                Some(end) => (true, end <= self.body.len()),
            },
        };
        if !in_range {
            return false;
        }
        assert(has == self.has_image(n as int));
        if has {
            let rows = match (self.width / 8).checked_mul(self.height) {
                Some(r) => r <= self.bitplane_size,
                None => {
                    assert((self.width / 8) * self.height > self.bitplane_size);
                    false
                },
            };
            rows
        } else {
            true
        }
    }

    /// Decode image `n` to RGBA8 (`width * height * 4` bytes) through the
    /// 16-colour `palette`. With an alpha plane, pixels whose alpha bit is
    /// clear become fully transparent; an alpha-only image takes its colour
    /// from palette entry 0. `None` when image `n` lies beyond the data.
    pub fn decode_rgba(&self, n: usize, palette: &[[u8; 3]; PALETTE_LEN]) -> (r: Option<Vec<u8>>)
        requires
            self.bitplane_size <= 0xffff,
            self.width % 8 == 0,
            self.width * self.height * 4 <= usize::MAX,
            n * self.spec_image_stride() > usize::MAX || n * self.spec_image_stride() + self.spec_image_stride() <= usize::MAX,
            // Every row of every plane must lie within the plane.
            self.has_image(n as int) ==> (self.width / 8) * self.height <= self.bitplane_size,
        ensures
            r is Some <==> self.has_image(n as int),
            r matches Some(out) ==> out@ == Seq::new(
                (self.width * self.height * 4) as nat,
                |k: int| cdg_byte(
                    palette@,
                    self.body@.subrange(n * self.spec_image_stride(), n * self.spec_image_stride() + self.spec_image_stride()),
                    spec_has_alpha(self.plane_layout),
                    self.plane_layout != PlaneLayout::Alpha,
                    self.bitplane_size as int,
                    self.width as int,
                    self.height as int,
                    k,
                ),
            ),
    {
        let len = self.body.len();
        let stride = self.image_stride();
        let base = match n.checked_mul(stride) {
            Some(b) => b,
            None => return None,
        };
        if base + stride > self.body.len() {
            return None;
        }
        let img = vstd::slice::slice_subrange(self.body.as_slice(), base, base + stride);
        let bps = self.bitplane_size;
        let alpha = self.plane_layout.has_alpha();
        let colored = match self.plane_layout {
            PlaneLayout::Alpha => false,
            _ => true,
        };
        let colors = if alpha { vstd::slice::slice_subrange(img, bps, img.len()) } else { img };
        let w = self.width;
        let h = self.height;
        let bpr = w / 8;
        let total = w * h;
        let ghost expect = Seq::new(
            (total * 4) as nat,
            |k: int| cdg_byte(palette@, img@, alpha, colored, bps as int, w as int, h as int, k),
        );
        assert(bpr * h <= bps);
        assert(colored ==> colors@.len() == 4 * bps);
        let mut out: Vec<u8> = Vec::new();
        let mut q: usize = 0;
        while q < total
            invariant
                q <= total,
                total == w * h,
                w > 0 ==> bpr == w / 8,
                bpr == w / 8,
                w % 8 == 0,
                bpr * h <= bps,
                img@.len() == stride,
                stride == bps * spec_plane_count(self.plane_layout),
                alpha == spec_has_alpha(self.plane_layout),
                colored == (self.plane_layout != PlaneLayout::Alpha),
                colored ==> colors@.len() == 4 * bps,
                bps <= 0xffff,
                colors@ == if alpha { img@.subrange(bps as int, img@.len() as int) } else { img@ },
                expect.len() == total * 4,
                out@.len() == q * 4,
                forall|k: int| 0 <= k < q * 4 ==> out@[k] == #[trigger] expect[k],
                forall|k: int| 0 <= k < expect.len() ==> #[trigger] expect[k] == cdg_byte(palette@, img@, alpha, colored, bps as int, w as int, h as int, k),
            decreases total - q,
        {
            let x = q % w;
            let oy = q / w;
            assert(oy < h) by (nonlinear_arith)
                requires q < total, total == w * h, oy == q / w, w > 0;
            let y = h - 1 - oy;
            assert(y * bpr + bpr <= bpr * h) by (nonlinear_arith)
                requires y < h, bpr >= 0;
            let byte = y * bpr + x / 8;
            assert(x / 8 < bpr);
            let mask = 0x80u8 >> ((x % 8) as u8);
            let idx = if colored {
                planar_bit(colors, byte, mask) + 2 * planar_bit(colors, bps + byte, mask)
                    + 4 * planar_bit(colors, 2 * bps + byte, mask) + 8 * planar_bit(colors, 3 * bps + byte, mask)
            } else {
                0
            };
            let c = palette[idx as usize];
            let a: u8 = if alpha {
                if planar_bit(img, byte, mask) == 1 { 255 } else { 0 }
            } else {
                255
            };
            out.push(c[0]);
            out.push(c[1]);
            out.push(c[2]);
            out.push(a);
            assert forall|k: int| q * 4 <= k < q * 4 + 4 implies out@[k] == #[trigger] expect[k] by {
                assert(k / 4 == q);
            }
            q = q + 1;
        }
        assert(out@ =~= expect);
        Some(out)
    }
}

/// Parse a TH04 `.RGB` palette: 16 entries, 4 bits per channel, stored
/// G, R, B, expanded to 8-bit (`v * 17`). Entries beyond the data are black.
pub fn parse_palette(rgb: &[u8]) -> (pal: [[u8; 3]; PALETTE_LEN])
    ensures
        forall|i: int| 0 <= i < 16 ==> (#[trigger] pal@[i])@ == if i * 3 + 2 < rgb@.len() {
            seq![
                ((rgb@[i * 3 + 1] & 0x0fu8) * 17) as u8,
                ((rgb@[i * 3] & 0x0fu8) * 17) as u8,
                ((rgb@[i * 3 + 2] & 0x0fu8) * 17) as u8,
            ]
        } else {
            seq![0u8, 0u8, 0u8]
        },
{
    let mut pal = [[0u8; 3]; PALETTE_LEN];
    let mut i: usize = 0;
    while i < PALETTE_LEN
        invariant
            i <= 16,
            forall|j: int| i <= j < 16 ==> (#[trigger] pal@[j])@ == seq![0u8, 0u8, 0u8],
            forall|j: int| 0 <= j < i ==> (#[trigger] pal@[j])@ == if j * 3 + 2 < rgb@.len() {
                seq![
                    ((rgb@[j * 3 + 1] & 0x0fu8) * 17) as u8,
                    ((rgb@[j * 3] & 0x0fu8) * 17) as u8,
                    ((rgb@[j * 3 + 2] & 0x0fu8) * 17) as u8,
                ]
            } else {
                seq![0u8, 0u8, 0u8]
            },
        decreases 16 - i,
    {
        if i * 3 + 2 < rgb.len() {
            let gb = rgb[i * 3];
            let rb = rgb[i * 3 + 1];
            let bb = rgb[i * 3 + 2];
            let g0 = gb & 0x0f;
            let r0 = rb & 0x0f;
            let b0 = bb & 0x0f;
            assert(g0 <= 15 && r0 <= 15 && b0 <= 15) by (bit_vector)
                requires g0 == gb & 0x0fu8, r0 == rb & 0x0fu8, b0 == bb & 0x0fu8;
            let c = [r0 * 17, g0 * 17, b0 * 17];
            pal[i] = c;
        }
        i = i + 1;
    }
    pal
}

proof fn lemma_mask_bit(b: u8, s: u8)
    requires
        s < 8,
    ensures
        bit_of(b, 0x80u8 >> s) == ((b >> ((7 - s) as u8)) & 1u8) as int,
{
    assert((b & (0x80u8 >> s) != 0) == ((b >> ((7 - s) as u8)) & 1u8 == 1u8)) by (bit_vector)
        requires
            s < 8;
    assert((b >> ((7 - s) as u8)) & 1u8 <= 1u8) by (bit_vector);
}

/// Rows are stored bottom to top. In an image `w` pixels wide and `h` rows
/// high with four colour planes (B, R, G, E; `bps` bytes each, `w / 8` bytes
/// a row, a pixel's bit the byte's bit `7 - x % 8`) and no alpha plane, the
/// pixel in output row `r` (counted from the top) and column `x` takes the
/// palette entry made of its bits in stored row `h - 1 - r`, and is opaque.
pub proof fn law_cdg_rows_bottom_up(pal: Seq<[u8; 3]>, img: Seq<u8>, bps: int, w: int, h: int, r: int, x: int, c: int)
    requires
        0 < w,
        w % 8 == 0,
        0 <= r < h,
        0 <= x < w,
        0 <= c < 4,
    ensures
        ({
            let j = (h - 1 - r) * (w / 8) + x / 8;
            let s = (7 - x % 8) as u8;
            let idx = ((img[j] >> s) & 1u8) + 2 * ((img[bps + j] >> s) & 1u8) + 4 * ((img[2 * bps + j] >> s) & 1u8)
                + 8 * ((img[3 * bps + j] >> s) & 1u8);
            let k = 4 * (r * w + x) + c;
            &&& c < 3 ==> cdg_byte(pal, img, false, true, bps, w, h, k) == pal[idx]@[c]
            &&& c == 3 ==> cdg_byte(pal, img, false, true, bps, w, h, k) == 255
        }),
{
    let k = 4 * (r * w + x) + c;
    let q = r * w + x;
    assert(k / 4 == q) by (nonlinear_arith) requires k == 4 * q + c, 0 <= c < 4;
    assert(q % w == x && q / w == r) by (nonlinear_arith) requires q == r * w + x, 0 <= x < w, 0 <= r;
    assert(k % 4 == c) by (nonlinear_arith) requires k == 4 * q + c, 0 <= c < 4;
    let xs = (x % 8) as u8;
    assert((7 - xs) as u8 == (7 - x % 8) as u8);
    let j = (h - 1 - r) * (w / 8) + x / 8;
    lemma_mask_bit(img[j], xs);
    lemma_mask_bit(img[bps + j], xs);
    lemma_mask_bit(img[2 * bps + j], xs);
    lemma_mask_bit(img[3 * bps + j], xs);
}

/// With an alpha plane (stored first, then B, R, G, E) rows are stored
/// bottom to top as well: the pixel in output row `r` and column `x` is
/// opaque exactly when its bit in stored row `h - 1 - r` of the alpha plane
/// is set, and takes the palette entry made of its bits in that row of the
/// colour planes.
pub proof fn law_cdg_alpha_rows_bottom_up(pal: Seq<[u8; 3]>, img: Seq<u8>, bps: int, w: int, h: int, r: int, x: int, c: int)
    requires
        0 < w,
        w % 8 == 0,
        0 <= r < h,
        0 <= x < w,
        0 <= c < 4,
        (w / 8) * h <= bps,
        5 * bps <= img.len(),
    ensures
        ({
            let j = (h - 1 - r) * (w / 8) + x / 8;
            let s = (7 - x % 8) as u8;
            let idx = ((img[bps + j] >> s) & 1u8) + 2 * ((img[2 * bps + j] >> s) & 1u8)
                + 4 * ((img[3 * bps + j] >> s) & 1u8) + 8 * ((img[4 * bps + j] >> s) & 1u8);
            let k = 4 * (r * w + x) + c;
            &&& c < 3 ==> cdg_byte(pal, img, true, true, bps, w, h, k) == pal[idx]@[c]
            &&& c == 3 ==> cdg_byte(pal, img, true, true, bps, w, h, k) == (if (img[j] >> s) & 1u8 == 1 { 255u8 } else { 0u8 })
        }),
{
    let k = 4 * (r * w + x) + c;
    let q = r * w + x;
    assert(k / 4 == q) by (nonlinear_arith) requires k == 4 * q + c, 0 <= c < 4;
    assert(q % w == x && q / w == r) by (nonlinear_arith) requires q == r * w + x, 0 <= x < w, 0 <= r;
    assert(k % 4 == c) by (nonlinear_arith) requires k == 4 * q + c, 0 <= c < 4;
    let xs = (x % 8) as u8;
    let j = (h - 1 - r) * (w / 8) + x / 8;
    assert(0 <= j < bps) by (nonlinear_arith)
        requires
            j == (h - 1 - r) * (w / 8) + x / 8,
            0 <= r < h,
            0 <= x < w,
            w % 8 == 0,
            (w / 8) * h <= bps;
    let colors = img.subrange(bps, img.len() as int);
    assert(colors[j] == img[bps + j]);
    assert(colors[bps + j] == img[2 * bps + j]);
    assert(colors[2 * bps + j] == img[3 * bps + j]);
    assert(colors[3 * bps + j] == img[4 * bps + j]);
    lemma_mask_bit(img[j], xs);
    lemma_mask_bit(img[bps + j], xs);
    lemma_mask_bit(img[2 * bps + j], xs);
    lemma_mask_bit(img[3 * bps + j], xs);
    lemma_mask_bit(img[4 * bps + j], xs);
}

} // verus!

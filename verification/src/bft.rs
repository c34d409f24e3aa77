//! BFNT (`.BFT`): master.lib's "Bold FoNT" sprite format, used by TH04 for the
//! player and enemy sprite sheets (`MIKO*.BFT`, `MARI.BFT`, `ST0n.BFT`, ...).
//!
//! ```text
//! 0x00  char id[5]   = "BFNT\x1a"
//! 0x05  u8  col, 0x06 u8 ver, 0x07 u8 x00
//! 0x08  u16 Xdots     sprite width
//! 0x0A  u16 Ydots     sprite height
//! 0x0C  u16 START     first character code
//! 0x0E  u16 END       last character code
//! 0x10  char font_name[8], 0x18 u32 time, 0x1C u16 extSize, 0x1E u16 hdrSize
//! 0x20  u8 palette[48]   16 x (B, R, G)
//! 0x50  patterns        (END-START+1) x (Xdots*Ydots/2) bytes, chunky 4bpp
//! ```
//!
//! Each pattern is stored as chunky 4bpp (2 pixels per byte, high nibble =
//! left pixel).

use vstd::prelude::*;
use crate::par::le16;

verus! {

pub const PALETTE_LEN: usize = 16;
const HEADER_LEN: usize = 32;
const PALETTE_LEN_BYTES: usize = 48;

pub struct Bft {
    pub width: usize,
    pub height: usize,
    pub start: u16,
    pub count: usize,
    pub palette: [[u8; 3]; PALETTE_LEN],
    pub data: Vec<u8>,
    pub patbytes: usize,
}

/// The file starts with the `BFNT\x1a` signature.
pub open spec fn has_bfnt_magic(d: Seq<u8>) -> bool {
    d.len() >= 5 && d[0] == 0x42 && d[1] == 0x46 && d[2] == 0x4e && d[3] == 0x54 && d[4] == 0x1a
}

/// `Bft::parse` accepts `d`.
pub open spec fn bft_accepts(d: Seq<u8>) -> bool {
    &&& d.len() >= 80
    &&& has_bfnt_magic(d)
    &&& le16(d, 8) != 0
    &&& le16(d, 8) % 2 == 0
    &&& le16(d, 10) != 0
    &&& le16(d, 14) >= le16(d, 12)
}

/// Palette entry `i` of the file: stored B, R, G, returned as R, G, B.
pub open spec fn bft_palette_entry(d: Seq<u8>, i: int) -> Seq<u8> {
    seq![d[32 + i * 3 + 1], d[32 + i * 3 + 2], d[32 + i * 3]]
}

/// The 4-bit palette index of pixel `p` (row-major) of a chunky pattern `pat`
/// whose rows are `w` pixels wide.
pub open spec fn chunky_index(pat: Seq<u8>, w: int, p: int) -> u8 {
    let byte = pat[p / 2];
    if (p % w) % 2 == 0 { byte >> 4u8 } else { byte & 0x0fu8 }
}

/// RGBA output byte `k` for a pixel of palette index `idx`.
pub open spec fn rgba_byte(pal: Seq<[u8; 3]>, idx: u8, k: int, transparent: Option<u8>) -> u8 {
    if k % 4 == 3 {
        if transparent == Some(idx) { 0 } else { 255 }
    } else {
        pal[idx as int]@[k % 4]
    }
}

impl Bft {
    /// The pattern bytes after the header and palette.
    pub open spec fn pattern_data(&self) -> Seq<u8> {
        self.data@
    }

    /// Bytes per pattern.
    pub open spec fn pattern_bytes(&self) -> int {
        self.patbytes as int
    }

    pub open spec fn wf(&self) -> bool {
        &&& self.width <= 0xffff
        &&& self.height <= 0xffff
        &&& self.width % 2 == 0
        &&& self.patbytes == self.width * self.height / 2
    }

    /// Parse the header, palette and pattern data; `None` when the signature
    /// or the dimensions are wrong.
    pub fn parse(bytes: &[u8]) -> (r: Option<Bft>)
        requires
            // The character count is computed in 16 bits: a full 0..=0xffff
            // range overflows it.
            !(bft_accepts(bytes@) && le16(bytes@, 14) - le16(bytes@, 12) == 0xffff),
        ensures
            r is Some <==> bft_accepts(bytes@),
            r matches Some(b) ==> {
                &&& b.wf()
                &&& b.width == le16(bytes@, 8)
                &&& b.height == le16(bytes@, 10)
                &&& b.start == le16(bytes@, 12)
                &&& b.count == le16(bytes@, 14) - le16(bytes@, 12) + 1
                &&& forall|i: int| 0 <= i < 16 ==> (#[trigger] b.palette@[i])@ == bft_palette_entry(bytes@, i)
                &&& b.pattern_data() == bytes@.subrange(80, bytes@.len() as int)
                &&& b.pattern_bytes() == b.width * b.height / 2
            },
    {
        if bytes.len() < HEADER_LEN + PALETTE_LEN_BYTES || !(bytes[0] == 0x42 && bytes[1] == 0x46
            && bytes[2] == 0x4e && bytes[3] == 0x54 && bytes[4] == 0x1a) {
            return None;
        }
        let width = (bytes[8] as u16 + 256 * (bytes[9] as u16)) as usize;
        let height = (bytes[10] as u16 + 256 * (bytes[11] as u16)) as usize;
        let start = bytes[12] as u16 + 256 * (bytes[13] as u16);
        let end = bytes[14] as u16 + 256 * (bytes[15] as u16);
        if width == 0 || width % 2 != 0 || height == 0 || end < start {
            return None;
        }
        let mut palette = [[0u8; 3]; PALETTE_LEN];
        let mut i: usize = 0;
        while i < PALETTE_LEN
            invariant
                i <= 16,
                bytes@.len() >= 80,
                forall|j: int| 0 <= j < i ==> (#[trigger] palette@[j])@ == bft_palette_entry(bytes@, j),
            decreases 16 - i,
        {
            let b = HEADER_LEN + i * 3;
            let c = [bytes[b + 1], bytes[b + 2], bytes[b]];
            assert(c@ == bft_palette_entry(bytes@, i as int));
            palette[i] = c;
            i = i + 1;
        }
        let pat_start = HEADER_LEN + PALETTE_LEN_BYTES;
        assert(width * height <= 0xffff * 0xffff) by (nonlinear_arith)
            requires width <= 0xffff, height <= 0xffff;
        let data = vstd::slice::slice_to_vec(vstd::slice::slice_subrange(bytes, pat_start, bytes.len()));
        Some(Bft {
            width,
            height,
            start,
            count: (end - start + 1) as usize,
            palette,
            data,
            patbytes: width * height / 2,
        })
    }

    /// Decode pattern `n` to RGBA8 (`width * height * 4` bytes). Palette index
    /// `transparent` (when given) becomes fully transparent. `None` when
    /// pattern `n` lies beyond the data.
    pub fn decode_rgba(&self, n: usize, transparent: Option<u8>) -> (r: Option<Vec<u8>>)
        requires
            self.wf(),
            self.width * self.height * 4 <= usize::MAX,
            n * self.pattern_bytes() > usize::MAX || n * self.pattern_bytes() + self.pattern_bytes() <= usize::MAX,
        ensures
            r is Some <==> (n * self.pattern_bytes() <= usize::MAX
                && n * self.pattern_bytes() + self.pattern_bytes() <= self.pattern_data().len()),
            r matches Some(out) ==> out@ == Seq::new(
                (self.width * self.height * 4) as nat,
                |k: int| rgba_byte(
                    self.palette@,
                    chunky_index(
                        self.pattern_data().subrange(n * self.pattern_bytes(), n * self.pattern_bytes() + self.pattern_bytes()),
                        self.width as int,
                        k / 4,
                    ),
                    k,
                    transparent,
                ),
            ),
    {
        let base = match n.checked_mul(self.patbytes) {
            Some(b) => b,
            None => return None,
        };
        if base + self.patbytes > self.data.len() {
            return None;
        }
        let pat = vstd::slice::slice_subrange(self.data.as_slice(), base, base + self.patbytes);
        let w = self.width;
        let total = self.width * self.height;
        let ghost expect = Seq::new(
            (total * 4) as nat,
            |k: int| rgba_byte(self.palette@, chunky_index(pat@, w as int, k / 4), k, transparent),
        );
        let ghost hw = w / 2;
        assert(w * self.height == 2 * (hw * self.height)) by (nonlinear_arith)
            requires w == 2 * hw;
        let mut out: Vec<u8> = Vec::new();
        let mut p: usize = 0;
        while p < total
            invariant
                p <= total,
                total == w * self.height,
                total % 2 == 0,
                w % 2 == 0,
                w <= 0xffff,
                self.height <= 0xffff,
                pat@.len() == total / 2,
                expect.len() == total * 4,
                out@.len() == p * 4,
                forall|k: int| 0 <= k < p * 4 ==> out@[k] == #[trigger] expect[k],
                forall|k: int| 0 <= k < expect.len() ==> #[trigger] expect[k] == rgba_byte(self.palette@, chunky_index(pat@, w as int, k / 4), k, transparent),
            decreases total - p,
        {
            assert(p / 2 < total / 2);
            let x = p % w;
            let byte = pat[p / 2];
            let idx = if x % 2 == 0 { byte >> 4u8 } else { byte & 0x0fu8 };
            assert(idx < 16) by (bit_vector)
                requires idx == byte >> 4u8 || idx == byte & 0x0fu8;
            let c = self.palette[idx as usize];
            out.push(c[0]);
            out.push(c[1]);
            out.push(c[2]);
            out.push(if transparent == Some(idx) { 0 } else { 255 });
            assert forall|k: int| p * 4 <= k < p * 4 + 4 implies out@[k] == #[trigger] expect[k] by {
                assert(k / 4 == p);
            }
            p = p + 1;
        }
        assert(out@ =~= expect);
        Some(out)
    }
}

} // verus!

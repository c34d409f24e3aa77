//! MPN (`.MPN`): TH04's stage background tileset, a palette plus a set of
//! 16x16 planar 16-colour tiles (ReC98 `th02/formats/mpn.hpp`).
//!
//! Layout: 6-byte header (`"MPTN"`, `u8 count` stored minus 1, `u8 unused`),
//! a 48-byte RGB palette, then `count+1` tiles. Each tile is 4 planes
//! (B, R, G, E), plane after plane, 16x16x1bpp = 32 bytes per plane.

use vstd::prelude::*;

verus! {

const HEADER: usize = 6;
const PALETTE_BYTES: usize = 48;
pub const TILE_W: usize = 16;
pub const TILE_H: usize = 16;
pub const TILE_BYTES: usize = 128;

pub struct Mpn {
    pub count: usize,
    pub palette: [[u8; 3]; 16],
    pub tiles: Vec<u8>,
}

/// `Mpn::parse` accepts `d`: long enough and tagged `MPTN`.
pub open spec fn mpn_accepts(d: Seq<u8>) -> bool {
    d.len() >= 54 && d[0] == 0x4d && d[1] == 0x50 && d[2] == 0x54 && d[3] == 0x4e
}

/// 1 when bit `mask` is set in `b`, else 0.
pub open spec fn bit_of(b: u8, mask: u8) -> int {
    if b & mask != 0 { 1 } else { 0 }
}

/// Palette index of pixel (`x`, `y`) of a planar image with four colour planes
/// of `plane` bytes each, `bpr` bytes per row (plane order B, R, G, E).
pub open spec fn planar_index(t: Seq<u8>, plane: int, bpr: int, x: int, y: int) -> int {
    let byte = y * bpr + x / 8;
    let mask = 0x80u8 >> ((x % 8) as u8);
    bit_of(t[byte], mask) + 2 * bit_of(t[plane + byte], mask) + 4 * bit_of(t[2 * plane + byte], mask)
        + 8 * bit_of(t[3 * plane + byte], mask)
}

/// RGBA output byte `k` of a decoded tile.
pub open spec fn mpn_tile_byte(pal: Seq<[u8; 3]>, t: Seq<u8>, k: int, transparent: Option<u8>) -> u8 {
    let p = k / 4;
    let idx = planar_index(t, 32, 2, p % 16, p / 16);
    if k % 4 == 3 {
        if transparent == Some(idx as u8) { 0 } else { 255 }
    } else {
        pal[idx]@[k % 4]
    }
}

pub fn planar_bit(t: &[u8], i: usize, mask: u8) -> (r: u8)
    requires
        i < t@.len(),
    ensures
        r == bit_of(t@[i as int], mask),
{
    if t[i] & mask != 0 { 1 } else { 0 }
}

impl Mpn {
    pub fn parse(d: &[u8]) -> (r: Option<Mpn>)
        ensures
            r is Some <==> mpn_accepts(d@),
            r matches Some(m) ==> {
                &&& m.count == d@[4] + 1
                &&& forall|i: int| 0 <= i < 16 ==> (#[trigger] m.palette@[i])@ == d@.subrange(6 + i * 3, 9 + i * 3)
                &&& m.tiles@ == d@.subrange(54, d@.len() as int)
            },
    {
        if d.len() < HEADER + PALETTE_BYTES || !(d[0] == 0x4d && d[1] == 0x50 && d[2] == 0x54 && d[3] == 0x4e) {
            return None;
        }
        let count = d[4] as usize + 1;
        let mut palette = [[0u8; 3]; 16];
        let mut i: usize = 0;
        while i < 16
            invariant
                i <= 16,
                d@.len() >= 54,
                forall|j: int| 0 <= j < i ==> (#[trigger] palette@[j])@ == d@.subrange(6 + j * 3, 9 + j * 3),
            decreases 16 - i,
        {
            let b = HEADER + i * 3;
            let c = [d[b], d[b + 1], d[b + 2]];
            assert(c@ =~= d@.subrange(6 + i * 3, 9 + i * 3));
            palette[i] = c;
            i = i + 1;
        }
        let start = HEADER + PALETTE_BYTES;
        Some(Mpn { count, palette, tiles: vstd::slice::slice_to_vec(vstd::slice::slice_subrange(d, start, d.len())) })
    }

    /// Decode tile `i` (16x16) to RGBA8; palette index `transparent` gets
    /// alpha 0. `None` when tile `i` lies beyond the data.
    pub fn decode_tile(&self, i: usize, transparent: Option<u8>) -> (r: Option<Vec<u8>>)
        requires
            i * 128 > usize::MAX || i * 128 + 128 <= usize::MAX,
        ensures
            r is Some <==> i * 128 + 128 <= self.tiles@.len(),
            r matches Some(out) ==> out@ == Seq::new(
                1024,
                |k: int| mpn_tile_byte(self.palette@, self.tiles@.subrange(i * 128, i * 128 + 128), k, transparent),
            ),
    {
        let len = self.tiles.len();
        let base = match i.checked_mul(TILE_BYTES) {
            Some(b) => b,
            None => return None,
        };
        if base + TILE_BYTES > self.tiles.len() {
            return None;
        }
        let t = vstd::slice::slice_subrange(self.tiles.as_slice(), base, base + TILE_BYTES);
        let ghost expect = Seq::new(1024, |k: int| mpn_tile_byte(self.palette@, t@, k, transparent));
        let mut out: Vec<u8> = Vec::new();
        let mut p: usize = 0;
        while p < 256
            invariant
                p <= 256,
                t@.len() == 128,
                out@.len() == p * 4,
                forall|k: int| 0 <= k < p * 4 ==> out@[k] == #[trigger] expect[k],
                forall|k: int| 0 <= k < 1024 ==> #[trigger] expect[k] == mpn_tile_byte(self.palette@, t@, k, transparent),
            decreases 256 - p,
        {
            let x = p % 16;
            let y = p / 16;
            let byte = y * 2 + x / 8;
            let mask = 0x80u8 >> ((x % 8) as u8);
            let idx = planar_bit(t, byte, mask) + 2 * planar_bit(t, 32 + byte, mask)
                + 4 * planar_bit(t, 64 + byte, mask) + 8 * planar_bit(t, 96 + byte, mask);
            let c = self.palette[idx as usize];
            out.push(c[0]);
            out.push(c[1]);
            out.push(c[2]);
            out.push(if transparent == Some(idx) { 0 } else { 255 });
            assert forall|k: int| p * 4 <= k < p * 4 + 4 implies out@[k] == #[trigger] expect[k] by {
                assert(k / 4 == p);
            }
            p = p + 1;
        }
        assert(out@ =~= expect);
        Some(out)
    }
}

} // verus!

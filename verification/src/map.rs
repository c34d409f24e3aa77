//! MAP (`.MAP`): TH04 stage background tile layout (ReC98
//! `th04/formats/map.hpp`). A small header, then sections of
//! `ROWS_PER_SECTION` rows of `TILES_MEMORY_X` tiles. Each tile is a
//! precalculated 2-byte VRAM offset; the tileset index is
//! `offset / VRAM_TILE_STRIDE` (16 rows x 80-byte VRAM rows).

use vstd::prelude::*;
use crate::par::le16;

verus! {

pub const ROWS_PER_SECTION: usize = 5;
/// 512 / 16; only the first `TILES_X` are visible.
pub const TILES_MEMORY_X: usize = 32;
/// Visible columns (PLAYFIELD_W / 16).
pub const TILES_X: usize = 24;
const HEADER: usize = 8;
const SECTION_BYTES: usize = 320;
pub const VRAM_TILE_STRIDE: usize = 1280;

pub struct TileMap {
    /// `sections[s][row][col]` = raw tile value (VRAM offset).
    pub sections: Vec<[[u16; 32]; 5]>,
}

/// The raw tile value at (`s`, `r`, `c`) in the file `d`.
pub open spec fn map_cell(d: Seq<u8>, s: int, r: int, c: int) -> int {
    le16(d, 8 + s * 320 + (r * 32 + c) * 2)
}

fn read_row(d: &[u8], o: usize) -> (row: [u16; 32])
    requires
        o + 64 <= d.len(),
    ensures
        forall|c: int| 0 <= c < 32 ==> #[trigger] row@[c] == le16(d@, o + c * 2),
{
    let mut row = [0u16; 32];
    let mut c: usize = 0;
    while c < 32
        invariant
            c <= 32,
            o + 64 <= d.len(),
            forall|j: int| 0 <= j < c ==> #[trigger] row@[j] == le16(d@, o + j * 2),
        decreases 32 - c,
    {
        row[c] = d[o + c * 2] as u16 + 256 * (d[o + c * 2 + 1] as u16);
        c = c + 1;
    }
    row
}

impl TileMap {
    /// Parse every whole section after the 8-byte header; `None` when the
    /// header itself is missing.
    pub fn parse(d: &[u8]) -> (r: Option<TileMap>)
        ensures
            r is Some <==> d@.len() >= 8,
            r matches Some(m) ==> {
                &&& m.sections@.len() == (d@.len() - 8) / 320
                &&& forall|s: int, row: int, c: int|
                    0 <= s < m.sections@.len() && 0 <= row < 5 && 0 <= c < 32
                        ==> #[trigger] m.sections@[s]@[row]@[c] == map_cell(d@, s, row, c)
            },
    {
        if d.len() < HEADER {
            return None;
        }
        let n = (d.len() - HEADER) / SECTION_BYTES;
        let mut sections: Vec<[[u16; 32]; 5]> = Vec::new();
        let mut s: usize = 0;
        while s < n
            invariant
                s <= n,
                n == (d@.len() - 8) / 320,
                d@.len() >= 8,
                sections@.len() == s,
                forall|t: int, row: int, c: int|
                    0 <= t < s && 0 <= row < 5 && 0 <= c < 32
                        ==> #[trigger] sections@[t]@[row]@[c] == map_cell(d@, t, row, c),
            decreases n - s,
        {
            assert(8 + s * 320 + 320 <= d@.len()) by (nonlinear_arith)
                requires s < n, n == (d@.len() - 8) / 320, d@.len() >= 8;
            assert(d@.len() == d.len());
            let mut sec = [[0u16; 32]; 5];
            let mut r: usize = 0;
            while r < 5
                invariant
                    r <= 5,
                    8 + s * 320 + 320 <= d.len(),
                    forall|row: int, c: int|
                        0 <= row < r && 0 <= c < 32 ==> #[trigger] sec@[row]@[c] == map_cell(d@, s as int, row, c),
                decreases 5 - r,
            {
                let row = read_row(d, HEADER + s * SECTION_BYTES + r * 64);
                sec[r] = row;
                r = r + 1;
            }
            sections.push(sec);
            s = s + 1;
        }
        Some(TileMap { sections })
    }

    /// Tileset index for a raw tile value.
    pub fn tile_index(value: u16) -> (r: usize)
        ensures
            r == value / 1280,
    {
        value as usize / VRAM_TILE_STRIDE
    }
}

} // verus!

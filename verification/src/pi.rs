//! PI: the Yanagisawa "Pi" image format, used by TH04 for all full-screen art
//! (title, opening cels, endings). Unlike CDG these embed their own 16-colour
//! palette, decode to chunky 4bpp (2 pixels per byte), and are stored top-down.
//!
//! Follows master.lib `graph_pi_load_pack.asm`, the loader TH04 uses. The
//! compression is Yanagisawa's: per-"previous colour" move-to-front colour
//! tables with a short prefix code, gamma-coded run lengths, and planar
//! back-references (same 2 dots / the row(s) above, optionally shifted a pixel).

use vstd::prelude::*;

verus! {

/// A decoded PI image.
pub struct Pi {
    pub width: usize,
    pub height: usize,
    /// 16-entry RGB palette.
    pub palette: [[u8; 3]; 16],
    /// One palette index (0..15) per pixel, row-major, top-down.
    pub indices: Vec<u8>,
}

/// First position at or after `from` holding `v`.
pub open spec fn find_byte(d: Seq<u8>, from: int, v: u8) -> Option<int>
    decreases d.len() - from,
{
    if from < 0 || from >= d.len() {
        None
    } else if d[from] == v {
        Some(from)
    } else {
        find_byte(d, from + 1, v)
    }
}

/// Big-endian `u16` at `i`.
pub open spec fn be16(d: Seq<u8>, i: int) -> int {
    d[i] * 256 + d[i + 1]
}

/// Position of the byte after the comment (`0x1A`) and dummy (`0x00`) fields.
pub open spec fn pi_fields_at(d: Seq<u8>) -> Option<int> {
    match find_byte(d, 2, 0x1a) {
        Some(c) => match find_byte(d, c + 1, 0) {
            Some(z) => Some(z + 1),
            None => None,
        },
        None => None,
    }
}

/// Position of the width field.
pub open spec fn pi_size_at(d: Seq<u8>, f: int) -> int {
    f + 10 + be16(d, f + 8)
}

/// A palette channel as stored (PC-98 levels in the high nibble), with raw
/// values below 16 expanded.
pub open spec fn pi_chan(v: u8) -> u8 {
    if v < 16 { (v * 17) as u8 } else { v }
}

/// The header of `d` is well formed: signature, comment, 16 colours, the
/// machine fields, dimensions (even width, nonzero) and, unless the mode's
/// top bit says otherwise, a 48-byte palette.
pub open spec fn pi_header_ok(d: Seq<u8>) -> bool {
    &&& d.len() >= 2 && d[0] == 0x50 && d[1] == 0x69
    &&& pi_fields_at(d) matches Some(f) && {
        &&& f + 10 <= d.len()
        &&& d[f + 3] == 4
        &&& pi_size_at(d, f) + 4 <= d.len()
        &&& be16(d, pi_size_at(d, f)) != 0
        &&& be16(d, pi_size_at(d, f)) % 2 == 0
        &&& be16(d, pi_size_at(d, f) + 2) != 0
        &&& (d[f] & 0x80u8 == 0 ==> pi_size_at(d, f) + 4 + 48 <= d.len())
    }
}

/// The palette the header gives (black when the mode's top bit is set).
pub open spec fn pi_palette_entry(d: Seq<u8>, f: int, i: int) -> Seq<u8> {
    let p = pi_size_at(d, f) + 4 + i * 3;
    if d[f] & 0x80u8 == 0 {
        seq![pi_chan(d[p]), pi_chan(d[p + 1]), pi_chan(d[p + 2])]
    } else {
        seq![0u8, 0u8, 0u8]
    }
}

/// Bit `k` of the MSB-first bit stream over `d`.
pub open spec fn stream_bit(d: Seq<u8>, k: int) -> u32 {
    ((d[k / 8] >> ((7 - k % 8) as u8)) & 1u8) as u32
}

/// Bit `k`, where the stream has one.
pub open spec fn bit_at(d: Seq<u8>, k: int) -> Option<u32> {
    if 0 <= k < d.len() * 8 { Some(stream_bit(d, k)) } else { None }
}

/// The `n` bits from `k`, most significant first.
pub open spec fn bits_val(d: Seq<u8>, k: int, n: nat) -> int
    decreases n,
{
    if n == 0 { 0 } else { bits_val(d, k, (n - 1) as nat) * 2 + stream_bit(d, k + n - 1) }
}

/// The `n` bits from `k` as the reader returns them (kept to 32 bits), where
/// the stream has them.
pub open spec fn bits_at(d: Seq<u8>, k: int, n: nat) -> Option<u32> {
    if 0 <= k && k + n <= d.len() * 8 { Some((bits_val(d, k, n) % 0x1_0000_0000) as u32) } else { None }
}

/// The prefix code of a colour read at `k`: where its index bits start, how
/// many there are, and the base they are added to.
pub open spec fn color_prefix(d: Seq<u8>, k: int) -> Option<(int, nat, int)> {
    match bit_at(d, k) {
        None => None,
        Some(b0) => if b0 == 1 {
            Some((k + 1, 1nat, 0int))
        } else {
            match bit_at(d, k + 1) {
                None => None,
                Some(b1) => if b1 == 0 {
                    Some((k + 2, 1nat, 2int))
                } else {
                    match bit_at(d, k + 2) {
                        None => None,
                        Some(b2) => if b2 == 0 { Some((k + 3, 2nat, 4int)) } else { Some((k + 3, 3nat, 8int)) },
                    }
                },
            }
        },
    }
}

/// The table with the entry at `pos` of the row starting at `base` moved to
/// the row's end.
pub open spec fn mtf(ct: Seq<u8>, base: int, pos: int) -> Seq<u8> {
    Seq::new(ct.len(), |i: int| if pos <= i < base + 15 { ct[i + 1] } else if i == base + 15 { ct[pos] } else { ct[i] })
}

/// A colour read at `k` after colour `prev`: the position after it, the
/// updated tables and the colour.
#[verifier::opaque]
pub open spec fn color_read(d: Seq<u8>, k: int, ct: Seq<u8>, prev: u8) -> Option<(int, Seq<u8>, u8)> {
    match color_prefix(d, k) {
        None => None,
        Some(pf) => match bits_at(d, pf.0, pf.1) {
            None => None,
            Some(dl) => {
                let base = (prev % 16) as int * 16;
                let pos = base + 15 - (pf.2 + dl);
                Some((pf.0 + pf.1, mtf(ct, base, pos), ct[pos]))
            },
        },
    }
}

/// The set bits counted from `k + c` up to the first clear one.
pub open spec fn ones_from(d: Seq<u8>, k: int, c: nat) -> Option<nat>
    decreases 64 - c,
{
    if c >= 64 {
        None
    } else {
        match bit_at(d, k + c) {
            None => None,
            Some(b) => if b == 1 { ones_from(d, k, c + 1) } else { Some(c) },
        }
    }
}

/// A run length read at `k`: `n` set bits, a clear one, then `n` more bits
/// below a leading one (1 when `n` is 0). The position after it and the length.
#[verifier::opaque]
pub open spec fn length_read(d: Seq<u8>, k: int) -> Option<(int, u64)> {
    match ones_from(d, k, 0) {
        None => None,
        Some(n) => if n == 0 {
            Some((k + 1, 1u64))
        } else {
            match bits_at(d, k + n + 1, n) {
                None => None,
                Some(v) => Some((k + 2 * n + 1, (1u64 << (n as u64)) | (v as u64))),
            }
        },
    }
}

/// The two colours of a byte (high nibble first).
pub open spec fn pair_byte(c1: u8, c2: u8) -> u8 {
    (c1 << 4u8) | c2
}

/// Literal colour pairs from `k`: two colours per byte (the first read after
/// `last`, the second after the first), each pair followed by a bit asking
/// for another, until the buffer is full. The position, tables, buffer and
/// write index after them.
pub open spec fn color_pairs(d: Seq<u8>, k: int, ct: Seq<u8>, out: Seq<u8>, di: int, last: u8, total: int)
    -> Option<(int, Seq<u8>, Seq<u8>, int)>
    decreases total - di,
{
    match color_read(d, k, ct, last) {
        None => None,
        Some(a) => match color_read(d, a.0, a.1, a.2) {
            None => None,
            Some(c) => if di >= total {
                Some((c.0, c.1, out, di))
            } else {
                let out2 = out.update(di, pair_byte(a.2, c.2));
                match bit_at(d, c.0) {
                    None => None,
                    Some(more) => if more == 0 {
                        Some((c.0 + 1, c.1, out2, di + 1))
                    } else {
                        color_pairs(d, c.0 + 1, c.1, out2, di + 1, c.2, total)
                    },
                }
            },
        },
    }
}

/// `n` bytes copied one at a time from `si` to `di` (an overlapping copy sees
/// the bytes it has just written), stopping at the end of the buffer.
pub open spec fn copy_run(out: Seq<u8>, di: int, si: int, n: nat, total: int) -> (Seq<u8>, int)
    decreases n,
{
    if n == 0 || di >= total {
        (out, di)
    } else {
        copy_run(out.update(di, out[si]), di + 1, si + 1, (n - 1) as nat, total)
    }
}

/// The byte straddling bytes `a` and `b`: the low half of `a`, then the high
/// half of `b`.
pub open spec fn straddle(a: u8, b: u8) -> u8 {
    ((((a as u32) << 8u32) | (b as u32)) >> 4u32) as u8
}

/// Like `copy_run`, but each byte taken half a byte later.
pub open spec fn shifted_run(out: Seq<u8>, di: int, si: int, n: nat, total: int) -> (Seq<u8>, int)
    decreases n,
{
    if n == 0 || di >= total || si + 1 >= total {
        (out, di)
    } else {
        shifted_run(out.update(di, straddle(out[si], out[si + 1])), di + 1, si + 1, (n - 1) as nat, total)
    }
}

/// The copy a position code `p` (1 to 4) makes in a picture `width` pixels
/// wide: from the row above, two rows above, or the row above shifted a
/// pixel either way.
pub open spec fn back_copy(out: Seq<u8>, di: int, p: int, width: int, l: nat, total: int) -> (Seq<u8>, int) {
    if p == 1 {
        copy_run(out, di, di - width / 2, l, total)
    } else if p == 2 {
        copy_run(out, di, di - width, l, total)
    } else if p == 3 {
        shifted_run(out, di, di - width / 2, l, total)
    } else {
        shifted_run(out, di, di - width / 2 - 1, l, total)
    }
}

/// The position code read at `k` (two bits; a third after `3`) and the
/// position after it.
pub open spec fn pos_code(d: Seq<u8>, k: int) -> Option<(int, int)> {
    match bits_at(d, k, 2) {
        None => None,
        Some(p0) => if p0 == 3 {
            match bit_at(d, k + 2) {
                None => None,
                Some(e) => Some((3 + e as int, k + 3)),
            }
        } else {
            Some((p0 as int, k + 2))
        },
    }
}

/// One step of the decoder from state (bit position, tables, buffer, write
/// index, previous position code): a position code, then literal colour
/// pairs when it repeats the previous code, else a run length and a copy
/// (code 0: from one or two bytes back, by whether the last byte's two
/// pixels agree).
pub open spec fn pi_iter(d: Seq<u8>, width: int, total: int, st: (int, Seq<u8>, Seq<u8>, int, int))
    -> Option<(int, Seq<u8>, Seq<u8>, int, int)>
{
    let out = st.2;
    let di = st.3;
    match pos_code(d, st.0) {
        None => None,
        Some(pc) => if pc.0 == st.4 {
            match color_pairs(d, pc.1, st.1, out, di, out[di - 1] & 0x0fu8, total) {
                None => None,
                Some(c) => Some((c.0, c.1, c.2, c.3, -1)),
            }
        } else {
            match length_read(d, pc.1) {
                None => None,
                Some(lr) => {
                    let r = if pc.0 == 0 {
                        let bb = out[di - 1];
                        let dist: int = if (bb >> 4u8) == (bb & 0x0fu8) { 1 } else { 2 };
                        copy_run(out, di, di - dist, lr.1 as nat, total)
                    } else {
                        back_copy(out, di, pc.0, width, lr.1 as nat, total)
                    };
                    Some((lr.0, st.1, r.0, r.1, pc.0))
                },
            }
        },
    }
}

/// Decoder steps until the buffer is full, for at most `fuel` steps.
pub open spec fn pi_run(d: Seq<u8>, width: int, total: int, st: (int, Seq<u8>, Seq<u8>, int, int), fuel: nat)
    -> Option<(int, Seq<u8>, Seq<u8>, int, int)>
    decreases fuel,
{
    if st.3 >= total {
        Some(st)
    } else if fuel == 0 {
        None
    } else {
        match pi_iter(d, width, total, st) {
            None => None,
            Some(s2) => pi_run(d, width, total, s2, (fuel - 1) as nat),
        }
    }
}

/// The initial colour tables: row `r` lists `r + 1, r + 2, ...` (mod 16).
pub open spec fn ct_init() -> Seq<u8> {
    Seq::new(256, |i: int| ((i / 16 + i % 16 + 1) % 16) as u8)
}

/// One colour index per pixel from the decoded buffer (two padding rows
/// first, then two pixels per byte, high nibble first).
pub open spec fn unpack(out: Seq<u8>, width: int, height: int) -> Seq<u8> {
    Seq::new((width * height) as nat, |q: int| {
        let byte = out[width + (q / width) * (width / 2) + (q % width) / 2];
        if (q % width) % 2 == 0 { byte >> 4u8 } else { byte & 0x0fu8 }
    })
}

/// The pixels of a stream whose header is well formed and whose bit stream
/// starts at bit `k0`: two padding rows of the first colour pair, then
/// decoder steps until the buffer is full; `None` where the stream runs out.
pub open spec fn pi_body(d: Seq<u8>, k0: int, width: int, height: int) -> Option<Seq<u8>> {
    let total = width + (width / 2) * height;
    match color_read(d, k0, ct_init(), 0) {
        None => None,
        Some(a) => match color_read(d, a.0, a.1, a.2) {
            None => None,
            Some(c) => {
                let fb = pair_byte(a.2, c.2);
                let out0 = Seq::new(total as nat, |i: int| if i < width { fb } else { 0u8 });
                match pi_run(d, width, total, (c.0, c.1, out0, width, -1), total as nat) {
                    None => None,
                    Some(st) => Some(unpack(st.2, width, height)),
                }
            },
        },
    }
}

/// The pixels of a PI stream: `None` where its header is not well formed or
/// its bit stream runs out.
pub open spec fn pi_decode(d: Seq<u8>) -> Option<Seq<u8>> {
    if pi_header_ok(d) {
        let f = pi_fields_at(d).unwrap();
        let sz = pi_size_at(d, f);
        let pal: int = if d[f] & 0x80u8 == 0 { 48 } else { 0 };
        pi_body(d, (sz + 4 + pal) * 8, be16(d, sz), be16(d, sz + 2))
    } else {
        None
    }
}

/// MSB-first bit reader over the stream; `k` counts the bits consumed.
struct Bits {
    k: usize,
}

impl Bits {
    fn bit(&mut self, d: &[u8]) -> (r: Option<u32>)
        requires
            old(self).k <= d@.len() * 8,
            d@.len() * 8 <= usize::MAX,
        ensures
            final(self).k <= d@.len() * 8,
            old(self).k < d@.len() * 8 ==> r == Some(stream_bit(d@, old(self).k as int))
                && final(self).k == old(self).k + 1,
            old(self).k >= d@.len() * 8 ==> r is None,
            r matches Some(b) ==> b <= 1,
    {
        let byte = self.k / 8;
        if byte >= d.len() {
            return None;
        }
        let sh = (7 - self.k % 8) as u8;
        let db = d[byte];
        let v = (db >> sh) & 1u8;
        assert(v <= 1) by (bit_vector) requires v == (db >> sh) & 1u8;
        self.k = self.k + 1;
        Some(v as u32)
    }

    fn bits(&mut self, d: &[u8], n: u32) -> (r: Option<u32>)
        requires
            old(self).k <= d@.len() * 8,
            d@.len() * 8 <= usize::MAX,
        ensures
            final(self).k <= d@.len() * 8,
            r == bits_at(d@, old(self).k as int, n as nat),
            r is Some ==> final(self).k == old(self).k + n,
            n <= 8 ==> (r matches Some(v) ==> v < 256),
            n <= 3 ==> (r matches Some(v) ==> v < 8),
            n == 2 ==> (r matches Some(v) ==> v < 4),
    {
        let mut v: u32 = 0;
        let mut i: u32 = 0;
        assert(0u32 < (1u32 << 0u32)) by (bit_vector);
        while i < n
            invariant
                i <= n,
                self.k <= d@.len() * 8,
                d@.len() * 8 <= usize::MAX,
                self.k == old(self).k + i,
                i <= 8 ==> v < (1u32 << i),
                v as int == bits_val(d@, old(self).k as int, i as nat) % 0x1_0000_0000,
            decreases n - i,
        {
            let ghost kb = self.k as int;
            let b = match self.bit(d) {
                Some(b) => b,
                None => return None,
            };
            proof {
                if i < 8 {
                    assert((v << 1u32) | b < (1u32 << ((i + 1) as u32))) by (bit_vector)
                        requires v < (1u32 << i), b <= 1, i < 8;
                }
                assert(((v << 1u32) | b) as int == ((v as int) * 2 + b as int) % 0x1_0000_0000) by (bit_vector)
                    requires b <= 1;
                let x = bits_val(d@, old(self).k as int, i as nat);
                assert(bits_val(d@, old(self).k as int, (i + 1) as nat) == x * 2 + stream_bit(d@, kb));
                assert((x * 2 + b) % 0x1_0000_0000 == ((x % 0x1_0000_0000) * 2 + b) % 0x1_0000_0000) by {
                    vstd::arithmetic::div_mod::lemma_mul_mod_noop_left(x, 2, 0x1_0000_0000);
                    vstd::arithmetic::div_mod::lemma_add_mod_noop(x * 2, b as int, 0x1_0000_0000);
                    vstd::arithmetic::div_mod::lemma_add_mod_noop((x % 0x1_0000_0000) * 2, b as int, 0x1_0000_0000);
                }
            }
            v = (v << 1u32) | b;
            i = i + 1;
        }
        proof {
            if n <= 8 {
                assert(1u32 << n <= 256) by (bit_vector) requires n <= 8;
            }
            if n <= 3 {
                assert(1u32 << n <= 8) by (bit_vector) requires n <= 3;
            }
            if n == 2 {
                assert(1u32 << n == 4) by (bit_vector) requires n == 2;
            }
        }
        Some(v)
    }
}

/// Move-to-front read of one colour: a prefix code selects a position in the
/// table row of the previous colour, and that entry moves to the row's end.
fn read_color(d: &[u8], b: &mut Bits, ct: &mut [u8; 256], prev: u8) -> (r: Option<u8>)
    requires
        old(b).k <= d@.len() * 8,
        d@.len() * 8 <= usize::MAX,
        forall|i: int| 0 <= i < 256 ==> #[trigger] old(ct)@[i] < 16,
    ensures
        final(b).k <= d@.len() * 8,
        forall|i: int| 0 <= i < 256 ==> #[trigger] final(ct)@[i] < 16,
        r matches Some(c) ==> c < 16,
        match color_read(d@, old(b).k as int, old(ct)@, prev) {
            None => r is None,
            Some(c) => r == Some(c.2) && final(b).k == c.0 && final(ct)@ == c.1,
        },
{
    reveal(color_read);
    let ghost k0 = b.k as int;
    let (a, h): (u32, u32) = if b.bit(d)? == 1 {
        (0, 0)
    } else if b.bit(d)? == 0 {
        (2, 0)
    } else if b.bit(d)? == 0 {
        (4, 1)
    } else {
        (8, 2)
    };
    assert(color_prefix(d@, k0) == Some((b.k as int, (h + 1) as nat, a as int)));
    let dl = b.bits(d, h + 1)?;
    let s = a + dl;
    assert(s <= 15);
    let idx = ((s ^ 15u32) & 0xffu32) as usize;
    assert((s ^ 15u32) & 0xffu32 == 15 - s) by (bit_vector) requires s <= 15;
    let base = (prev as usize % 16) * 16;
    let pos = base + idx;
    let color = ct[pos];
    let ghost ct0 = ct@;
    let mut k = pos;
    while k < base + 15
        invariant
            pos <= k <= base + 15,
            base + 15 < 256,
            ct@.len() == 256,
            forall|i: int| 0 <= i < 256 ==> #[trigger] ct@[i] < 16,
            forall|i: int| pos <= i < k ==> #[trigger] ct@[i] == ct0[i + 1],
            forall|i: int| 0 <= i < 256 && !(pos <= i < k) ==> #[trigger] ct@[i] == ct0[i],
        decreases base + 15 - k,
    {
        ct[k] = ct[k + 1];
        k = k + 1;
    }
    ct[base + 15] = color;
    assert(ct@ =~= mtf(ct0, base as int, pos as int));
    Some(color)
}

/// Gamma-coded run length: `n` one-bits, a zero, then `n` more bits.
fn read_length(d: &[u8], b: &mut Bits) -> (r: Option<u64>)
    requires
        old(b).k <= d@.len() * 8,
        d@.len() * 8 <= usize::MAX,
    ensures
        final(b).k <= d@.len() * 8,
        r matches Some(l) ==> l >= 1,
        match length_read(d@, old(b).k as int) {
            None => r is None,
            Some(x) => r == Some(x.1) && final(b).k == x.0,
        },
{
    reveal(length_read);
    let mut cnt: u32 = 0;
    let ghost k0 = b.k as int;
    loop
        invariant_except_break
            b.k == k0 + cnt,
        invariant
            k0 >= 0,
            k0 == old(b).k as int,
            b.k <= d@.len() * 8,
            d@.len() * 8 <= usize::MAX,
            cnt < 64,
            forall|j: int| k0 <= j < k0 + cnt ==> #[trigger] stream_bit(d@, j) == 1,
            ones_from(d@, k0, 0) == ones_from(d@, k0, cnt as nat),
        ensures
            b.k == k0 + cnt + 1,
            ones_from(d@, k0, 0) == Some(cnt as nat),
        decreases d@.len() * 8 - b.k,
    {
        let ghost kb = b.k as int;
        let bit = match b.bit(d) {
            Some(x) => x,
            None => {
                assert(ones_from(d@, k0, cnt as nat) is None);
                reveal(length_read);
                return None;
            },
        };
        if bit != 1 {
            assert(ones_from(d@, k0, cnt as nat) == Some(cnt as nat));
            break;
        }
        assert(stream_bit(d@, kb) == 1);
        if cnt == 63 {
            // 64 set bits in a row: a length no 64-bit shift can hold.
            assert(ones_from(d@, k0, 64) is None);
            assert(ones_from(d@, k0, 63) == ones_from(d@, k0, 64));
            reveal(length_read);
            return None;
        }
        assert(ones_from(d@, k0, cnt as nat) == ones_from(d@, k0, (cnt + 1) as nat));
        cnt = cnt + 1;
    }
    if cnt == 0 {
        Some(1)
    } else {
        let v = b.bits(d, cnt)? as u64;
        let r = (1u64 << cnt) | v;
        assert(r >= 1) by (bit_vector) requires r == (1u64 << cnt) | v, cnt < 64;
        Some(r)
    }
}

/// Copy up to `l` bytes one at a time from `si` on to `di` on (`copy_run`).
fn copy_bytes(out: &mut Vec<u8>, di: &mut usize, si: usize, l: u64, total: usize)
    requires
        old(out)@.len() == total,
        si < *old(di) <= total,
    ensures
        (final(out)@, *final(di) as int) == copy_run(old(out)@, *old(di) as int, si as int, l as nat, total as int),
        final(out)@.len() == total,
        *final(di) <= total,
        *old(di) < total && l >= 1 ==> *final(di) > *old(di),
{
    let ghost out0 = out@;
    let ghost di0 = *di as int;
    let mut s = si;
    let mut n: u64 = 0;
    while n < l
        invariant
            n <= l,
            out@.len() == total,
            s < *di <= total,
            copy_run(out@, *di as int, s as int, (l - n) as nat, total as int)
                == copy_run(out0, di0, si as int, l as nat, total as int),
            *di == di0 + n,
        ensures
            copy_run(out@, *di as int, s as int, (l - n) as nat, total as int) == (out@, *di as int),
            n == l || *di >= total,
        decreases l - n,
    {
        if *di >= total {
            break;
        }
        let v = out[s];
        out.set(*di, v);
        *di = *di + 1;
        s = s + 1;
        n = n + 1;
    }
}

/// Copy up to `l` bytes one at a time, each straddling the bytes at `si` and
/// `si + 1` (`shifted_run`).
fn copy_shifted(out: &mut Vec<u8>, di: &mut usize, si: usize, l: u64, total: usize)
    requires
        old(out)@.len() == total,
        si < *old(di) <= total,
    ensures
        (final(out)@, *final(di) as int) == shifted_run(old(out)@, *old(di) as int, si as int, l as nat, total as int),
        final(out)@.len() == total,
        *final(di) <= total,
        *old(di) < total && l >= 1 ==> *final(di) > *old(di),
{
    let ghost out0 = out@;
    let ghost di0 = *di as int;
    let mut s = si;
    let mut n: u64 = 0;
    while n < l
        invariant
            n <= l,
            out@.len() == total,
            s < *di <= total,
            shifted_run(out@, *di as int, s as int, (l - n) as nat, total as int)
                == shifted_run(out0, di0, si as int, l as nat, total as int),
            *di == di0 + n,
        ensures
            shifted_run(out@, *di as int, s as int, (l - n) as nat, total as int) == (out@, *di as int),
            n == l || *di >= total,
        decreases l - n,
    {
        if *di >= total || s + 1 >= total {
            break;
        }
        let a = out[s] as u32;
        let c = out[s + 1] as u32;
        out.set(*di, #[verifier::truncate] ((((a << 8u32) | c) >> 4u32) as u8));
        *di = *di + 1;
        s = s + 1;
        n = n + 1;
    }
}

/// Literal colour pairs (`color_pairs`), the first after the colour of the
/// last byte written.
#[verifier::rlimit(50)]
fn read_pairs(d: &[u8], b: &mut Bits, ct: &mut [u8; 256], out: &mut Vec<u8>, di: &mut usize, total: usize) -> (r: Option<()>)
    requires
        old(b).k <= d@.len() * 8,
        d@.len() * 8 <= usize::MAX,
        forall|i: int| 0 <= i < 256 ==> #[trigger] old(ct)@[i] < 16,
        old(out)@.len() == total,
        1 <= *old(di) < total,
    ensures
        final(b).k <= d@.len() * 8,
        forall|i: int| 0 <= i < 256 ==> #[trigger] final(ct)@[i] < 16,
        final(out)@.len() == total,
        *final(di) <= total,
        r is Some ==> *old(di) < *final(di),
        match color_pairs(d@, old(b).k as int, old(ct)@, old(out)@, *old(di) as int,
            old(out)@[*old(di) - 1] & 0x0fu8, total as int) {
            None => r is None,
            Some(c) => r is Some && final(b).k == c.0 && final(ct)@ == c.1 && final(out)@ == c.2 && *final(di) == c.3,
        },
{
    let ghost goal = color_pairs(d@, b.k as int, ct@, out@, *di as int, out@[*di - 1] & 0x0fu8, total as int);
    let ghost di0 = *di;
    let prev_byte = out[*di - 1];
    let mut last = prev_byte & 0x0f;
    assert(last < 16) by (bit_vector) requires last == prev_byte & 0x0fu8;
    loop
        invariant_except_break
            color_pairs(d@, b.k as int, ct@, out@, *di as int, last, total as int) == goal,
        invariant
            b.k <= d@.len() * 8,
            d@.len() * 8 <= usize::MAX,
            forall|i: int| 0 <= i < 256 ==> #[trigger] ct@[i] < 16,
            out@.len() == total,
            di0 <= *di <= total,
            di0 < total,
            last < 16,
            goal == color_pairs(d@, old(b).k as int, old(ct)@, old(out)@, *old(di) as int,
                old(out)@[*old(di) - 1] & 0x0fu8, total as int),
        ensures
            b.k <= d@.len() * 8,
            forall|i: int| 0 <= i < 256 ==> #[trigger] ct@[i] < 16,
            out@.len() == total,
            di0 < *di <= total,
            goal == Some((b.k as int, ct@, out@, *di as int)),
        decreases total - *di,
    {
        let ghost kh = b.k as int;
        let ghost cth = ct@;
        let ghost outh = out@;
        let ghost dih = *di as int;
        let ghost lasth = last;
        let c1 = match read_color(d, b, ct, last) {
            Some(c) => c,
            None => {
                assert(color_pairs(d@, kh, cth, outh, dih, lasth, total as int) is None);
                return None;
            },
        };
        let ghost k1 = b.k as int;
        let ghost ct1 = ct@;
        let c2 = match read_color(d, b, ct, c1) {
            Some(c) => c,
            None => {
                assert(color_read(d@, k1, ct1, c1) is None);
                assert(color_pairs(d@, kh, cth, outh, dih, lasth, total as int) is None);
                return None;
            },
        };
        if *di >= total {
            break;
        }
        let byte = (c1 << 4u8) | c2;
        out.set(*di, byte);
        *di = *di + 1;
        last = c2;
        let ghost k2 = b.k as int;
        let more = match b.bit(d) {
            Some(m) => m,
            None => {
                assert(bit_at(d@, k2) is None);
                assert(color_pairs(d@, kh, cth, outh, dih, lasth, total as int) is None);
                return None;
            },
        };
        assert(color_pairs(d@, kh, cth, outh, dih, lasth, total as int) == if more == 0 {
            Some((b.k as int, ct@, out@, *di as int))
        } else {
            color_pairs(d@, b.k as int, ct@, out@, *di as int, last, total as int)
        });
        if more == 0 {
            break;
        }
    }
    Some(())
}

fn read_byte(d: &[u8], pos: &mut usize) -> (r: Option<u8>)
    ensures
        old(pos) < d@.len() ==> r == Some(d@[*old(pos) as int]) && *final(pos) == *old(pos) + 1,
        old(pos) >= d@.len() ==> r is None,
{
    if *pos < d.len() {
        let v = d[*pos];
        *pos = *pos + 1;
        Some(v)
    } else {
        None
    }
}


/// Whether a data stream is one `Pi::parse` can read: its bit count fits a
/// `usize`.
pub fn stream_ok(data: &[u8]) -> (r: bool)
    ensures
        r == (data@.len() * 8 <= usize::MAX),
{
    data.len() <= usize::MAX / 8
}

/// Decode the bit stream from byte `pos` of a picture `width` x `height`
/// (`pi_body`): the colour tables, two padding rows of the first colour pair,
/// decoder steps until the buffer is full, then one index per pixel.
fn decode_body(data: &[u8], pos: usize, width: usize, height: usize) -> (r: Option<Vec<u8>>)
    requires
        data@.len() * 8 <= usize::MAX,
        pos <= data@.len(),
        2 <= width <= 0xffff,
        width % 2 == 0,
        1 <= height <= 0xffff,
    ensures
        match pi_body(data@, pos * 8, width as int, height as int) {
            None => r is None,
            Some(ix) => r matches Some(v) && v@ == ix,
        },
        r matches Some(v) ==> v@.len() == width * height && forall|i: int| 0 <= i < v@.len() ==> #[trigger] v@[i] < 16,
{
    let ghost d = data@;
    // Per-previous-colour move-to-front tables: 16 rows of 16.
    let mut ct = [0u8; 256];
    let mut i: usize = 0;
    while i < 256
        invariant
            i <= 256,
            ct@.len() == 256,
            forall|j: int| 0 <= j < i ==> #[trigger] ct@[j] == ct_init()[j],
        decreases 256 - i,
    {
        ct[i] = ((i / 16 + i % 16 + 1) % 16) as u8;
        i = i + 1;
    }
    assert(ct@ =~= ct_init());
    assert forall|j: int| 0 <= j < 256 implies #[trigger] ct@[j] < 16 by {
        assert(ct@[j] == ct_init()[j]);
    }

    let mut b = Bits { k: pos * 8 };
    let bpr = width / 2;
    assert(bpr * height <= 0x8000 * 0xffff) by (nonlinear_arith)
        requires bpr <= 0x8000, height <= 0xffff;
    let total = width + bpr * height;
    let ghost k0 = b.k as int;
    let c1 = match read_color(data, &mut b, &mut ct, 0) {
        Some(c) => c,
        None => return None,
    };
    let ghost ka = b.k as int;
    let ghost cta = ct@;
    let c2 = match read_color(data, &mut b, &mut ct, c1) {
        Some(c) => c,
        None => {
            assert(color_read(d, ka, cta, c1) is None);
            return None;
        },
    };
    let fb = (c1 << 4u8) | c2;
    let mut out: Vec<u8> = Vec::new();
    let mut q: usize = 0;
    while q < total
        invariant
            q <= total,
            width <= total,
            out@.len() == q,
            forall|j: int| 0 <= j < q ==> #[trigger] out@[j] == if j < width { fb } else { 0u8 },
        decreases total - q,
    {
        if q < width {
            out.push(fb);
        } else {
            out.push(0);
        }
        q = q + 1;
    }
    let ghost out0 = Seq::new(total as nat, |j: int| if j < width { fb } else { 0u8 });
    assert(out@ =~= out0);
    let mut di: usize = width;
    let mut prev_pos: i32 = -1;
    let ghost st0 = (b.k as int, ct@, out@, di as int, -1int);
    let ghost goal = pi_run(d, width as int, total as int, st0, total as nat);
    assert(pi_body(d, pos * 8, width as int, height as int) == match goal {
        None => None,
        Some(st) => Some(unpack(st.2, width as int, height as int)),
    });
    let ghost mut fuel: nat = total as nat;
    while di < total
        invariant
            width <= di <= total,
            total == width + bpr * height,
            bpr == width / 2,
            width % 2 == 0,
            2 <= width <= 0xffff,
            out@.len() == total,
            -1 <= prev_pos <= 4,
            b.k <= d.len() * 8,
            d == data@,
            d.len() * 8 <= usize::MAX,
            forall|j: int| 0 <= j < 256 ==> #[trigger] ct@[j] < 16,
            fuel + di >= total + 1,
            pi_run(d, width as int, total as int, (b.k as int, ct@, out@, di as int, prev_pos as int), fuel) == goal,
            pi_body(d, pos * 8, width as int, height as int) == match goal {
                None => None,
                Some(st) => Some(unpack(st.2, width as int, height as int)),
            },
        decreases total - di,
    {
        let ghost st = (b.k as int, ct@, out@, di as int, prev_pos as int);
        let ghost ks = b.k as int;
        let p0 = match b.bits(data, 2) {
            Some(x) => x,
            None => {
                assert(pos_code(d, ks) is None);
                assert(pi_iter(d, width as int, total as int, st) is None);
                return None;
            },
        };
        let mut p = p0 as i32;
        if p0 == 3 {
            let ghost k3 = b.k as int;
            match b.bit(data) {
                Some(e) => {
                    p = 3 + e as i32;
                },
                None => {
                    assert(bit_at(d, k3) is None);
                    assert(pos_code(d, ks) is None);
                    assert(pi_iter(d, width as int, total as int, st) is None);
                    return None;
                },
            }
        }
        assert(pos_code(d, ks) == Some((p as int, b.k as int)));
        if p == prev_pos {
            let ghost kp = b.k as int;
            let ok = read_pairs(data, &mut b, &mut ct, &mut out, &mut di, total);
            if ok.is_none() {
                assert(pi_iter(d, width as int, total as int, st) is None);
                return None;
            }
            prev_pos = -1;
        } else {
            let ghost kl = b.k as int;
            let l = match read_length(data, &mut b) {
                Some(l) => l,
                None => {
                    assert(length_read(d, kl) is None);
                    assert(pi_iter(d, width as int, total as int, st) is None);
                    return None;
                },
            };
            if p == 0 {
                let bb = out[di - 1];
                let dist: usize = if (bb >> 4u8) == (bb & 0x0fu8) { 1 } else { 2 };
                let start = di - dist;
                copy_bytes(&mut out, &mut di, start, l, total);
            } else {
                // Back-reference: the row above (p = 1), two rows above (2),
                // or the row above shifted half a byte either way (3, 4).
                let w = width as u32;
                let (mut ax, bh): (u32, u32) = if p == 1 {
                    (w, 0)
                } else if p == 2 {
                    let v = w << 1u32;
                    (v & 0xffff, (v >> 16u32) & 1)
                } else if p == 3 {
                    (w - 1, 0)
                } else {
                    (w + 1, 0)
                };
                let ax0 = ax;
                let cf0 = bh & 1;
                let ncf = ax & 1;
                ax = ((cf0 << 15u32) | (ax >> 1u32)) & 0xffff;
                let cf = ncf;
                proof {
                    if p == 1 {
                        assert(ax == w / 2 && cf == 0) by (bit_vector)
                            requires w >= 2, w <= 0xffff, w % 2 == 0, ax0 == w, bh == 0, cf0 == bh & 1,
                                ax == ((cf0 << 15u32) | (ax0 >> 1u32)) & 0xffff, cf == ax0 & 1;
                    } else if p == 2 {
                        assert(ax == w && cf == 0) by (bit_vector)
                            requires w >= 2, w <= 0xffff, w % 2 == 0, ax0 == (w << 1u32) & 0xffff,
                                bh == ((w << 1u32) >> 16u32) & 1, cf0 == bh & 1,
                                ax == ((cf0 << 15u32) | (ax0 >> 1u32)) & 0xffff, cf == ax0 & 1;
                    } else if p == 3 {
                        assert(ax + 1 == w / 2 && cf == 1) by (bit_vector)
                            requires w >= 2, w <= 0xffff, w % 2 == 0, ax0 + 1 == w, bh == 0, cf0 == bh & 1,
                                ax == ((cf0 << 15u32) | (ax0 >> 1u32)) & 0xffff, cf == ax0 & 1;
                    } else {
                        assert(ax == w / 2 && cf == 1) by (bit_vector)
                            requires w >= 2, w <= 0xffff, w % 2 == 0, ax0 == w + 1, bh == 0, cf0 == bh & 1,
                                ax == ((cf0 << 15u32) | (ax0 >> 1u32)) & 0xffff, cf == ax0 & 1;
                    }
                }
                let start = di - ax as usize - cf as usize;
                if cf == 0 {
                    copy_bytes(&mut out, &mut di, start, l, total);
                } else {
                    copy_shifted(&mut out, &mut di, start, l, total);
                }
            }
            prev_pos = p;
        }
        assert(pi_iter(d, width as int, total as int, st) == Some((b.k as int, ct@, out@, di as int, prev_pos as int)));
        proof {
            fuel = (fuel - 1) as nat;
        }
    }
    assert(goal == Some((b.k as int, ct@, out@, di as int, prev_pos as int)));

    // Unpack the image (skipping the 2 padding rows) to one index per pixel.
    assert(width * height <= 0xffff * 0xffff) by (nonlinear_arith)
        requires width <= 0xffff, height <= 0xffff;
    let n = width * height;
    let ghost img = unpack(out@, width as int, height as int);
    let mut indices: Vec<u8> = Vec::new();
    let mut q: usize = 0;
    while q < n
        invariant
            q <= n,
            n == width * height,
            out@.len() == total,
            total == width + bpr * height,
            bpr == width / 2,
            width % 2 == 0,
            width >= 2,
            img == unpack(out@, width as int, height as int),
            indices@.len() == q,
            forall|j: int| 0 <= j < q ==> #[trigger] indices@[j] == img[j] && indices@[j] < 16,
        decreases n - q,
    {
        let y = q / width;
        let x = q % width;
        assert(y < height) by (nonlinear_arith)
            requires q < n, n == width * height, y == q / width, width > 0;
        assert(y * bpr + bpr <= bpr * height) by (nonlinear_arith)
            requires y < height, bpr >= 0;
        let byte = out[width + y * bpr + x / 2];
        let v = if x % 2 == 0 { byte >> 4u8 } else { byte & 0x0fu8 };
        assert(v < 16) by (bit_vector) requires v == byte >> 4u8 || v == byte & 0x0fu8;
        assert(v == img[q as int]);
        indices.push(v);
        q = q + 1;
    }
    assert(indices@ =~= img);
    Some(indices)
}

impl Pi {
    /// Decode a PI image. `None` when the header is malformed, the data
    /// ends before the image does, or a run length's prefix reaches 64 set
    /// bits (a length no 64-bit shift can hold).
    pub fn parse(data: &[u8]) -> (r: Option<Pi>)
        requires
            data@.len() * 8 <= usize::MAX,
        ensures
            r is Some <==> pi_decode(data@) is Some,
            r matches Some(pi) ==> {
                let f = pi_fields_at(data@).unwrap();
                &&& pi_header_ok(data@)
                &&& pi.width == be16(data@, pi_size_at(data@, f))
                &&& pi.height == be16(data@, pi_size_at(data@, f) + 2)
                &&& forall|i: int| 0 <= i < 16 ==> (#[trigger] pi.palette@[i])@ == pi_palette_entry(data@, f, i)
                &&& pi.indices@ == pi_decode(data@).unwrap()
                &&& pi.indices@.len() == pi.width * pi.height
                &&& forall|i: int| 0 <= i < pi.indices@.len() ==> #[trigger] pi.indices@[i] < 16
            },
    {
        let len = data.len();
        let mut pos: usize = 0;
        if read_byte(data, &mut pos)? != 0x50 || read_byte(data, &mut pos)? != 0x69 {
            return None;
        }
        // Comment, then dummy.
        loop
            invariant_except_break
                find_byte(data@, 2, 0x1a) == find_byte(data@, pos as int, 0x1a),
            invariant
                2 <= pos <= len,
                len == data@.len(),
            ensures
                find_byte(data@, 2, 0x1a) == Some(pos - 1),
            decreases len - pos,
        {
            if read_byte(data, &mut pos)? == 0x1a {
                break;
            }
        }
        let ghost c = pos - 1;
        assert(find_byte(data@, 2, 0x1a) == Some(c));
        loop
            invariant_except_break
                find_byte(data@, c + 1, 0) == find_byte(data@, pos as int, 0),
            invariant
                c + 1 <= pos <= len,
                len == data@.len(),
                find_byte(data@, 2, 0x1a) == Some(c),
            ensures
                find_byte(data@, c + 1, 0) == Some(pos - 1),
            decreases len - pos,
        {
            if read_byte(data, &mut pos)? == 0 {
                break;
            }
        }
        let ghost f = pos as int;
        assert(pi_fields_at(data@) == Some(f));
        let mode = read_byte(data, &mut pos)?;
        let _aspect_x = read_byte(data, &mut pos)?;
        let _aspect_y = read_byte(data, &mut pos)?;
        if read_byte(data, &mut pos)? != 4 {
            return None;
        }
        let mut m: usize = 0;
        while m < 4
            invariant
                m <= 4,
                pos == f + 4 + m,
                pos <= len,
                len == data@.len(),
                pi_fields_at(data@) == Some(f),
            decreases 4 - m,
        {
            read_byte(data, &mut pos)?;
            m = m + 1;
        }
        let hi = read_byte(data, &mut pos)? as usize;
        let lo = read_byte(data, &mut pos)? as usize;
        let maexlen = hi * 256 + lo;
        assert(maexlen == be16(data@, f + 8));
        if maexlen > len - pos {
            return None;
        }
        pos = pos + maexlen;
        let ghost sz = pos as int;
        assert(sz == pi_size_at(data@, f));
        let w_hi = read_byte(data, &mut pos)? as usize;
        let w_lo = read_byte(data, &mut pos)? as usize;
        let h_hi = read_byte(data, &mut pos)? as usize;
        let h_lo = read_byte(data, &mut pos)? as usize;
        let width = w_hi * 256 + w_lo;
        let height = h_hi * 256 + h_lo;
        if width == 0 || width % 2 != 0 || height == 0 {
            return None;
        }
        let mut palette = [[0u8; 3]; 16];
        if mode & 0x80 == 0 {
            if len - pos < 48 {
                return None;
            }
            let mut i: usize = 0;
            while i < 16
                invariant
                    i <= 16,
                    len == data@.len(),
                    pos == sz + 4 + 3 * i,
                    sz + 4 + 48 <= len,
                    f + 10 <= sz,
                    sz == pi_size_at(data@, f),
                    mode == data@[f],
                    mode & 0x80u8 == 0,
                    forall|j: int| 0 <= j < i ==> (#[trigger] palette@[j])@ == pi_palette_entry(data@, f, j),
                decreases 16 - i,
            {
                let r0 = read_byte(data, &mut pos)?;
                let g0 = read_byte(data, &mut pos)?;
                let b0 = read_byte(data, &mut pos)?;
                let slot = [
                    if r0 < 16 { r0 * 17 } else { r0 },
                    if g0 < 16 { g0 * 17 } else { g0 },
                    if b0 < 16 { b0 * 17 } else { b0 },
                ];
                assert(slot@ == pi_palette_entry(data@, f, i as int));
                palette[i] = slot;
                i = i + 1;
            }
        } else {
            assert forall|j: int| 0 <= j < 16 implies (#[trigger] palette@[j])@ == pi_palette_entry(data@, f, j) by {
                assert(palette@[j]@ =~= seq![0u8, 0u8, 0u8]);
            }
        }
        assert(pi_header_ok(data@));

        let indices = decode_body(data, pos, width, height)?;
        Some(Pi { width, height, palette, indices })
    }

    /// Expand to RGBA8 (`width * height * 4`, opaque).
    pub fn to_rgba(&self) -> (out: Vec<u8>)
        requires
            self.indices@.len() * 4 <= usize::MAX,
        ensures
            out@.len() == self.indices@.len() * 4,
            forall|k: int| 0 <= k < out@.len() ==> #[trigger] out@[k] == if k % 4 == 3 {
                255u8
            } else {
                self.palette@[(self.indices@[k / 4] & 0x0fu8) as int]@[k % 4]
            },
    {
        let mut out: Vec<u8> = Vec::new();
        let n = self.indices.len();
        let mut i: usize = 0;
        while i < n
            invariant
                i <= n,
                n == self.indices@.len(),
                n * 4 <= usize::MAX,
                out@.len() == i * 4,
                forall|k: int| 0 <= k < out@.len() ==> #[trigger] out@[k] == if k % 4 == 3 {
                    255u8
                } else {
                    self.palette@[(self.indices@[k / 4] & 0x0fu8) as int]@[k % 4]
                },
            decreases n - i,
        {
            let raw = self.indices[i];
            let idx = raw & 0x0f;
            assert(idx < 16) by (bit_vector) requires idx == raw & 0x0fu8;
            let c = self.palette[idx as usize];
            out.push(c[0]);
            out.push(c[1]);
            out.push(c[2]);
            out.push(255);
            assert forall|k: int| i * 4 <= k < i * 4 + 4 implies #[trigger] out@[k] == if k % 4 == 3 {
                255u8
            } else {
                self.palette@[(self.indices@[k / 4] & 0x0fu8) as int]@[k % 4]
            } by {
                assert(k / 4 == i);
            }
            i = i + 1;
        }
        out
    }
}

/// `2^n`.
spec fn pow2n(n: nat) -> int
    decreases n,
{
    if n == 0 { 1 } else { 2 * pow2n((n - 1) as nat) }
}

proof fn lemma_bits_val_bound(d: Seq<u8>, k: int, n: nat)
    requires
        0 <= k,
        k + n <= d.len() * 8,
    ensures
        0 <= bits_val(d, k, n) < pow2n(n),
    decreases n,
{
    if n > 0 {
        lemma_bits_val_bound(d, k, (n - 1) as nat);
        let b = d[(k + n - 1) / 8];
        let sh = (7 - (k + n - 1) % 8) as u8;
        assert((b >> sh) & 1u8 <= 1u8) by (bit_vector);
    }
}

/// A colour read from tables of colours (entries below 16) is a colour, and
/// the tables it leaves are tables of colours.
proof fn lemma_color_read_colors(d: Seq<u8>, k: int, ct: Seq<u8>, prev: u8)
    requires
        ct.len() == 256,
        forall|i: int| 0 <= i < 256 ==> #[trigger] ct[i] < 16,
        color_read(d, k, ct, prev) is Some,
    ensures
        ({
            let r = color_read(d, k, ct, prev).unwrap();
            &&& r.2 < 16
            &&& r.1.len() == 256
            &&& forall|i: int| 0 <= i < 256 ==> #[trigger] r.1[i] < 16
        }),
{
    reveal(color_read);
    let pf = color_prefix(d, k).unwrap();
    lemma_bits_val_bound(d, pf.0, pf.1);
    assert(pow2n(1) == 2 && pow2n(2) == 4 && pow2n(3) == 8) by {
        reveal_with_fuel(pow2n, 4);
    }
}

/// `n` bytes copied from behind the write position into a buffer whose
/// bytes before it are all `fb`: every byte up to where the copy stops is
/// `fb`.
proof fn lemma_copy_fill(out: Seq<u8>, di: int, si: int, n: nat, total: int, fb: u8)
    requires
        out.len() == total,
        0 <= si < di <= total,
        forall|i: int| 0 <= i < di ==> #[trigger] out[i] == fb,
    ensures
        ({
            let r = copy_run(out, di, si, n, total);
            &&& r.0.len() == total
            &&& r.1 == (if di + n < total { di + n } else { total })
            &&& forall|i: int| 0 <= i < r.1 ==> #[trigger] r.0[i] == fb
        }),
    decreases n,
{
    if n > 0 && di < total {
        lemma_copy_fill(out.update(di, out[si]), di + 1, si + 1, (n - 1) as nat, total, fb);
    }
}

/// Pixels pair up high nibble first. In a picture `width` pixels wide (an
/// even number) whose stream opens with the colours `a` then `b` and then
/// copies that first pair over the whole picture (position code 0 with a run
/// at least as long as the picture's bytes), every even column shows `a`
/// and every odd column `b`.
pub proof fn law_pi_pair_order(d: Seq<u8>, k0: int, width: int, height: int)
    requires
        width >= 2,
        width % 2 == 0,
        height >= 1,
        color_read(d, k0, ct_init(), 0) is Some,
        ({
            let a = color_read(d, k0, ct_init(), 0).unwrap();
            color_read(d, a.0, a.1, a.2) is Some
        }),
        ({
            let a = color_read(d, k0, ct_init(), 0).unwrap();
            let c = color_read(d, a.0, a.1, a.2).unwrap();
            &&& pos_code(d, c.0) matches Some(pc) && pc.0 == 0
            &&& length_read(d, pos_code(d, c.0).unwrap().1) matches Some(lr) && lr.1 >= (width / 2) * height
        }),
    ensures
        ({
            let a = color_read(d, k0, ct_init(), 0).unwrap();
            let c = color_read(d, a.0, a.1, a.2).unwrap();
            pi_body(d, k0, width, height) == Some(Seq::new((width * height) as nat,
                |q: int| if (q % width) % 2 == 0 { a.2 } else { c.2 }))
        }),
{
    let a = color_read(d, k0, ct_init(), 0).unwrap();
    assert forall|i: int| 0 <= i < 256 implies #[trigger] ct_init()[i] < 16 by {}
    lemma_color_read_colors(d, k0, ct_init(), 0);
    let c = color_read(d, a.0, a.1, a.2).unwrap();
    lemma_color_read_colors(d, a.0, a.1, a.2);
    let x = a.2;
    let y = c.2;
    let fb = pair_byte(x, y);
    assert(fb >> 4u8 == x && fb & 0x0fu8 == y) by (bit_vector)
        requires
            fb == (x << 4u8) | y,
            x < 16,
            y < 16;
    let total = width + (width / 2) * height;
    assert(total > width) by (nonlinear_arith) requires width >= 2, height >= 1, total == width + (width / 2) * height;
    let out0 = Seq::new(total as nat, |i: int| if i < width { fb } else { 0u8 });
    let pc = pos_code(d, c.0).unwrap();
    let lr = length_read(d, pc.1).unwrap();
    let dist: int = if (fb >> 4u8) == (fb & 0x0fu8) { 1 } else { 2 };
    lemma_copy_fill(out0, width, width - dist, lr.1 as nat, total, fb);
    let r = copy_run(out0, width, width - dist, lr.1 as nat, total);
    let st0 = (c.0, c.1, out0, width, -1int);
    let s2 = (lr.0, c.1, r.0, r.1, 0int);
    assert(pi_iter(d, width, total, st0) == Some(s2));
    assert(pi_run(d, width, total, s2, (total - 1) as nat) == Some(s2));
    assert(pi_run(d, width, total, st0, total as nat) == Some(s2));
    let img = Seq::new((width * height) as nat, |q: int| if (q % width) % 2 == 0 { x } else { y });
    assert forall|q: int| 0 <= q < width * height implies #[trigger] unpack(r.0, width, height)[q] == img[q] by {
        let idx = width + (q / width) * (width / 2) + (q % width) / 2;
        assert(0 <= idx < total) by (nonlinear_arith)
            requires
                idx == width + (q / width) * (width / 2) + (q % width) / 2,
                0 <= q < width * height,
                width >= 2,
                width % 2 == 0,
                total == width + (width / 2) * height;
        assert(r.0[idx] == fb);
    }
    assert(unpack(r.0, width, height) =~= img);
}

/// Rows come top to bottom and pixels high nibble first. In a 2x2 picture
/// whose stream opens with the colours `a` then `b`, copies that pair into
/// the first row (position code 0, run length 1), then repeats the code and
/// so gives the second row as the literal colours `c` then `e`, the pixels
/// are `a`, `b` (top row) and `c`, `e` (bottom row).
pub proof fn law_pi_rows_in_order(d: Seq<u8>, k0: int)
    requires
        color_read(d, k0, ct_init(), 0) is Some,
        ({
            let a = color_read(d, k0, ct_init(), 0).unwrap();
            color_read(d, a.0, a.1, a.2) is Some
        }),
        ({
            let a = color_read(d, k0, ct_init(), 0).unwrap();
            let b = color_read(d, a.0, a.1, a.2).unwrap();
            &&& pos_code(d, b.0) matches Some(pc) && pc.0 == 0
            &&& length_read(d, pos_code(d, b.0).unwrap().1) matches Some(lr) && lr.1 == 1
        }),
        ({
            let a = color_read(d, k0, ct_init(), 0).unwrap();
            let b = color_read(d, a.0, a.1, a.2).unwrap();
            let k2 = length_read(d, pos_code(d, b.0).unwrap().1).unwrap().0;
            &&& pos_code(d, k2) matches Some(pc) && pc.0 == 0
            &&& color_read(d, pos_code(d, k2).unwrap().1, b.1, b.2) is Some
        }),
        ({
            let a = color_read(d, k0, ct_init(), 0).unwrap();
            let b = color_read(d, a.0, a.1, a.2).unwrap();
            let k2 = length_read(d, pos_code(d, b.0).unwrap().1).unwrap().0;
            let c = color_read(d, pos_code(d, k2).unwrap().1, b.1, b.2).unwrap();
            &&& color_read(d, c.0, c.1, c.2) is Some
            &&& bit_at(d, color_read(d, c.0, c.1, c.2).unwrap().0) == Some(0u32)
        }),
    ensures
        ({
            let a = color_read(d, k0, ct_init(), 0).unwrap();
            let b = color_read(d, a.0, a.1, a.2).unwrap();
            let k2 = length_read(d, pos_code(d, b.0).unwrap().1).unwrap().0;
            let c = color_read(d, pos_code(d, k2).unwrap().1, b.1, b.2).unwrap();
            let e = color_read(d, c.0, c.1, c.2).unwrap();
            pi_body(d, k0, 2, 2) == Some(seq![a.2, b.2, c.2, e.2])
        }),
{
    let a = color_read(d, k0, ct_init(), 0).unwrap();
    assert forall|i: int| 0 <= i < 256 implies #[trigger] ct_init()[i] < 16 by {}
    lemma_color_read_colors(d, k0, ct_init(), 0);
    let b = color_read(d, a.0, a.1, a.2).unwrap();
    lemma_color_read_colors(d, a.0, a.1, a.2);
    let pc = pos_code(d, b.0).unwrap();
    let lr = length_read(d, pc.1).unwrap();
    let pc2 = pos_code(d, lr.0).unwrap();
    let c = color_read(d, pc2.1, b.1, b.2).unwrap();
    lemma_color_read_colors(d, pc2.1, b.1, b.2);
    let e = color_read(d, c.0, c.1, c.2).unwrap();
    lemma_color_read_colors(d, c.0, c.1, c.2);
    let fb = pair_byte(a.2, b.2);
    let x = a.2;
    let y = b.2;
    assert(fb >> 4u8 == x && fb & 0x0fu8 == y) by (bit_vector)
        requires
            fb == (x << 4u8) | y,
            x < 16,
            y < 16;
    let g = pair_byte(c.2, e.2);
    let u = c.2;
    let v = e.2;
    assert(g >> 4u8 == u && g & 0x0fu8 == v) by (bit_vector)
        requires
            g == (u << 4u8) | v,
            u < 16,
            v < 16;
    let out0 = Seq::new(4, |i: int| if i < 2 { fb } else { 0u8 });
    let dist: int = if (fb >> 4u8) == (fb & 0x0fu8) { 1 } else { 2 };
    lemma_copy_fill(out0, 2, 2 - dist, 1, 4, fb);
    let r = copy_run(out0, 2, 2 - dist, 1, 4);
    let st0 = (b.0, b.1, out0, 2int, -1int);
    let s1 = (lr.0, b.1, r.0, r.1, 0int);
    assert(pi_iter(d, 2, 4, st0) == Some(s1));
    assert(r.0[2] & 0x0fu8 == y);
    let out2 = r.0.update(3, g);
    assert(color_pairs(d, pc2.1, b.1, r.0, 3, y, 4) == Some((e.0 + 1, e.1, out2, 4int)));
    let s2 = (e.0 + 1, e.1, out2, 4int, -1int);
    assert(pi_iter(d, 2, 4, s1) == Some(s2));
    assert(pi_run(d, 2, 4, s2, 2) == Some(s2));
    assert(pi_run(d, 2, 4, s1, 3) == Some(s2));
    assert(pi_run(d, 2, 4, st0, 4) == Some(s2));
    assert(unpack(out2, 2, 2) =~= seq![x, y, u, v]);
}

} // verus!

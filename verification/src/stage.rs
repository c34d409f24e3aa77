//! STD: TH04 stage data, one `ST0n.STD` per stage (ReC98
//! `th04/formats/std.cpp`):
//!
//! ```text
//! 0x00  u16 size          total bytes after this field (= file_len - 2)
//! 0x02  u8  map_chunk      length of the map-section-order chunk
//!       u8[map_chunk]      map_section_order
//!       u8  scroll_chunk    length of the scroll-speed chunk
//!       u8[scroll_chunk]    scroll_speeds
//!       u8  enemy_count
//!       { u8 len; u8[len] } * enemy_count    enemy scripts
//!       u8                  (one padding byte)
//!       u8[..]              stage timeline bytecode
//! ```

use vstd::prelude::*;
use crate::par::le16;

verus! {

/// Hard cap from ReC98 (`STD_ENEMY_SCRIPT_COUNT`).
pub const MAX_ENEMY_SCRIPTS: usize = 32;

/// One enemy spawn from the stage timeline: `enemies_add(script, x, y, arg)`.
#[derive(Debug, Clone, Copy, PartialEq, Eq)]
pub struct Spawn {
    /// Index into [`Std::enemy_scripts`].
    pub script_index: u8,
    /// Spawn position (subpixels, signed; y = -256 starts above the screen).
    pub x: i16,
    pub y: i16,
    pub arg: u8,
}

/// All spawns that fire on a given stage frame.
#[derive(Debug, Clone)]
pub struct TimelineFrame {
    pub frame: u16,
    pub spawns: Vec<Spawn>,
}

#[derive(Debug, Clone)]
pub struct Std {
    /// Tile-section id for each vertically scrolled section, in order.
    pub map_section_order: Vec<u8>,
    /// Per-section scroll speed.
    pub scroll_speeds: Vec<u8>,
    /// Enemy behaviour scripts (raw bytecode), up to `MAX_ENEMY_SCRIPTS`.
    pub enemy_scripts: Vec<Vec<u8>>,
    /// Stage timeline bytecode.
    pub timeline: Vec<u8>,
}

/// Offset just past `k` length-prefixed chunks starting at `o`, if they all fit.
pub open spec fn skip_chunks(d: Seq<u8>, o: int, k: nat) -> Option<int>
    decreases k,
{
    if k == 0 {
        Some(o)
    } else {
        match skip_chunks(d, o, (k - 1) as nat) {
            Some(p) => if 0 <= p < d.len() && p + 1 + d[p] <= d.len() {
                Some(p + 1 + d[p])
            } else {
                None
            },
            None => None,
        }
    }
}

/// Offset of the byte after the scroll-speed chunk (the enemy count).
pub open spec fn enemy_count_at(d: Seq<u8>) -> int {
    3 + d[2] + 1 + d[3 + d[2] as int]
}

/// `Std::parse` accepts `d`.
pub open spec fn std_accepts(d: Seq<u8>) -> bool {
    &&& d.len() >= 4
    &&& le16(d, 0) + 2 == d.len()
    &&& 3 + d[2] < d.len()
    &&& enemy_count_at(d) < d.len()
    &&& d[enemy_count_at(d)] <= 32
    &&& skip_chunks(d, enemy_count_at(d) + 1, d[enemy_count_at(d)] as nat) matches Some(p) && p < d.len()
}

/// The `i`-th length-prefixed chunk starting at `o`.
pub open spec fn chunk(d: Seq<u8>, o: int, i: nat) -> Seq<u8> {
    let p = skip_chunks(d, o, i).unwrap();
    d.subrange(p + 1, p + 1 + d[p])
}

pub open spec fn to_i16(v: int) -> i16 {
    if v >= 0x8000 { (v - 0x10000) as i16 } else { v as i16 }
}

/// The 8-byte spawn record at `j`.
pub open spec fn spawn_at(tl: Seq<u8>, j: int) -> Spawn {
    Spawn { script_index: tl[j], x: to_i16(le16(tl, j + 1)), y: to_i16(le16(tl, j + 3)), arg: tl[j + 5] }
}

/// Number of the `count` spawn records at `j` that fit in the timeline.
pub open spec fn spawns_fitting(tl: Seq<u8>, j: int, count: int) -> int {
    let room = (tl.len() - j) / 8;
    if room < 0 { 0 } else if count < room { count } else { room }
}

/// The decoded timeline from position `i` on: per record `u16 frame`,
/// `u8 count`, then `count` 8-byte spawns; a frame of 0, or running out of
/// bytes, ends it. A record whose spawns run past the end keeps those that fit.
pub open spec fn timeline_from(tl: Seq<u8>, i: int) -> Seq<(u16, Seq<Spawn>)>
    decreases tl.len() - i,
{
    if i < 0 || i + 2 > tl.len() || le16(tl, i) == 0 || i + 2 >= tl.len() {
        Seq::empty()
    } else {
        let n = spawns_fitting(tl, i + 3, tl[i + 2] as int);
        let spawns = Seq::new(n as nat, |k: int| spawn_at(tl, i + 3 + 8 * k));
        seq![(le16(tl, i) as u16, spawns)] + timeline_from(tl, i + 3 + 8 * n)
    }
}

/// The two bytes that store `v` (`0 <= v < 65536`), low byte first.
pub open spec fn le16_bytes(v: int) -> Seq<u8> {
    seq![(v % 256) as u8, (v / 256) as u8]
}

/// The unsigned 16-bit value that stores the signed `v`.
pub open spec fn from_i16(v: i16) -> int {
    if v < 0 { v + 0x10000 } else { v as int }
}

/// The 8-byte record of spawn `sp`, with `q` in its two unused bytes.
pub open spec fn spawn_record(sp: Spawn, q: (u8, u8)) -> Seq<u8> {
    seq![sp.script_index] + le16_bytes(from_i16(sp.x)) + le16_bytes(from_i16(sp.y)) + seq![sp.arg, q.0, q.1]
}

/// The records of `sps` back to back, `qs` giving each one's unused bytes.
pub open spec fn spawn_records(sps: Seq<Spawn>, qs: Seq<(u8, u8)>) -> Seq<u8>
    decreases sps.len(),
{
    if sps.len() == 0 {
        Seq::empty()
    } else {
        spawn_record(sps[0], qs[0]) + spawn_records(sps.drop_first(), qs.drop_first())
    }
}

/// The timeline records of `recs` back to back: per record the frame, the
/// spawn count and the spawns.
pub open spec fn timeline_bytes(recs: Seq<(u16, Seq<Spawn>)>, qs: Seq<Seq<(u8, u8)>>) -> Seq<u8>
    decreases recs.len(),
{
    if recs.len() == 0 {
        Seq::empty()
    } else {
        le16_bytes(recs[0].0 as int) + seq![recs[0].1.len() as u8] + spawn_records(recs[0].1, qs[0])
            + timeline_bytes(recs.drop_first(), qs.drop_first())
    }
}

/// Records the timeline can hold: no frame 0, at most 255 spawns each, and
/// the unused bytes of each spawn.
pub open spec fn records_ok(recs: Seq<(u16, Seq<Spawn>)>, qs: Seq<Seq<(u8, u8)>>) -> bool {
    &&& qs.len() == recs.len()
    &&& forall|k: int| 0 <= k < recs.len() ==> (#[trigger] recs[k]).0 != 0 && recs[k].1.len() <= 255
        && qs[k].len() == recs[k].1.len()
}

proof fn lemma_le16_bytes(d: Seq<u8>, i: int, v: int)
    requires
        0 <= v < 0x10000,
        0 <= i,
        i + 2 <= d.len(),
        d.subrange(i, i + 2) == le16_bytes(v),
    ensures
        le16(d, i) == v,
{
    assert(d[i] == d.subrange(i, i + 2)[0]);
    assert(d[i + 1] == d.subrange(i, i + 2)[1]);
    vstd::arithmetic::div_mod::lemma_fundamental_div_mod(v, 256);
}

proof fn lemma_spawn_records_len(sps: Seq<Spawn>, qs: Seq<(u8, u8)>)
    requires
        qs.len() == sps.len(),
    ensures
        spawn_records(sps, qs).len() == 8 * sps.len(),
    decreases sps.len(),
{
    if sps.len() > 0 {
        lemma_spawn_records_len(sps.drop_first(), qs.drop_first());
    }
}

/// Each record of `spawn_records` decodes to its spawn.
proof fn lemma_spawn_records_decode(tl: Seq<u8>, j: int, sps: Seq<Spawn>, qs: Seq<(u8, u8)>)
    requires
        qs.len() == sps.len(),
        0 <= j,
        j + 8 * sps.len() <= tl.len(),
        tl.subrange(j, j + 8 * sps.len()) == spawn_records(sps, qs),
    ensures
        forall|k: int| 0 <= k < sps.len() ==> #[trigger] spawn_at(tl, j + 8 * k) == sps[k],
    decreases sps.len(),
{
    if sps.len() > 0 {
        lemma_spawn_records_len(sps.drop_first(), qs.drop_first());
        let r0 = spawn_record(sps[0], qs[0]);
        assert(tl.subrange(j, j + 8) =~= r0) by {
            assert(tl.subrange(j, j + 8) =~= tl.subrange(j, j + 8 * sps.len()).subrange(0, 8));
        }
        assert(tl.subrange(j + 8, j + 8 + 8 * (sps.len() - 1)) =~= spawn_records(sps.drop_first(), qs.drop_first())) by {
            assert(tl.subrange(j + 8, j + 8 + 8 * (sps.len() - 1)) =~= tl.subrange(j, j + 8 * sps.len()).subrange(8, (8 * sps.len()) as int));
        }
        lemma_spawn_records_decode(tl, j + 8, sps.drop_first(), qs.drop_first());
        let sp = sps[0];
        let r8 = tl.subrange(j, j + 8);
        assert(tl.subrange(j + 1, j + 3) =~= r8.subrange(1, 3));
        assert(tl.subrange(j + 3, j + 5) =~= r8.subrange(3, 5));
        assert(r0.subrange(1, 3) =~= le16_bytes(from_i16(sp.x)));
        assert(r0.subrange(3, 5) =~= le16_bytes(from_i16(sp.y)));
        assert(tl[j] == r0[0] && tl[j + 5] == r0[5]);
        lemma_le16_bytes(tl, j + 1, from_i16(sp.x));
        lemma_le16_bytes(tl, j + 3, from_i16(sp.y));
        assert(spawn_at(tl, j) == sp);
        assert forall|k: int| 0 <= k < sps.len() implies #[trigger] spawn_at(tl, j + 8 * k) == sps[k] by {
            if k > 0 {
                assert(spawn_at(tl, (j + 8) + 8 * (k - 1)) == sps.drop_first()[k - 1]);
                assert(j + 8 * k == (j + 8) + 8 * (k - 1));
            }
        }
    }
}

proof fn lemma_timeline_bytes_decode(tl: Seq<u8>, i: int, recs: Seq<(u16, Seq<Spawn>)>, qs: Seq<Seq<(u8, u8)>>, len: int)
    requires
        records_ok(recs, qs),
        0 <= i,
        len == timeline_bytes(recs, qs).len(),
        i + len + 2 <= tl.len(),
        tl.subrange(i, i + len) == timeline_bytes(recs, qs),
        tl[i + len] == 0 && tl[i + len + 1] == 0,
    ensures
        timeline_from(tl, i) == recs,
    decreases recs.len(),
{
    if recs.len() == 0 {
        assert(le16(tl, i) == 0);
    } else {
        let f = recs[0].0;
        let sps = recs[0].1;
        let c = sps.len() as int;
        assert(recs[0].0 != 0 && c <= 255 && qs[0].len() == c);
        lemma_spawn_records_len(sps, qs[0]);
        let head = le16_bytes(f as int) + seq![c as u8] + spawn_records(sps, qs[0]);
        let tail = timeline_bytes(recs.drop_first(), qs.drop_first());
        assert(timeline_bytes(recs, qs) == head + tail);
        assert(head.len() == 3 + 8 * c);
        let whole = tl.subrange(i, i + len);
        assert(tl.subrange(i, i + 2) =~= whole.subrange(0, 2));
        assert(whole.subrange(0, 2) =~= le16_bytes(f as int));
        lemma_le16_bytes(tl, i, f as int);
        assert(tl[i + 2] == whole[2]);
        assert(tl.subrange(i + 3, i + 3 + 8 * c) =~= whole.subrange(3, (3 + 8 * c) as int));
        assert(whole.subrange(3, (3 + 8 * c) as int) =~= spawn_records(sps, qs[0]));
        lemma_spawn_records_decode(tl, i + 3, sps, qs[0]);
        let n = spawns_fitting(tl, i + 3, tl[i + 2] as int);
        assert((tl.len() - (i + 3)) / 8 >= c) by {
            assert(tl.len() - (i + 3) >= 8 * c);
        }
        assert(n == c);
        assert(Seq::new(n as nat, |k: int| spawn_at(tl, i + 3 + 8 * k)) =~= sps);
        let rest = recs.drop_first();
        let rqs = qs.drop_first();
        assert(records_ok(rest, rqs)) by {
            assert forall|k: int| 0 <= k < rest.len() implies (#[trigger] rest[k]).0 != 0 && rest[k].1.len() <= 255
                && rqs[k].len() == rest[k].1.len() by {
                assert(rest[k] == recs[k + 1]);
            }
        }
        let i2 = i + 3 + 8 * c;
        assert(tl.subrange(i2, i2 + tail.len()) =~= whole.subrange((3 + 8 * c) as int, len));
        assert(whole.subrange((3 + 8 * c) as int, len) =~= tail);
        lemma_timeline_bytes_decode(tl, i2, rest, rqs, tail.len() as int);
    }
}

/// Decoding inverts the record encoding: a timeline made of records (no
/// frame 0, at most 255 spawns each, anything in each spawn's two unused
/// bytes), then a zero frame, then any bytes, decodes to exactly those
/// records; the bytes after the zero frame are ignored.
pub proof fn law_timeline_roundtrip(recs: Seq<(u16, Seq<Spawn>)>, qs: Seq<Seq<(u8, u8)>>, rest: Seq<u8>)
    requires
        records_ok(recs, qs),
    ensures
        timeline_from(timeline_bytes(recs, qs) + seq![0u8, 0u8] + rest, 0) == recs,
{
    let b = timeline_bytes(recs, qs);
    let tl = b + seq![0u8, 0u8] + rest;
    assert(tl.subrange(0, b.len() as int) =~= b);
    assert(tl[b.len() as int] == 0u8 && tl[b.len() + 1int] == 0u8);
    lemma_timeline_bytes_decode(tl, 0, recs, qs, b.len() as int);
}

fn read_i16(d: &[u8], i: usize) -> (r: i16)
    requires
        i + 1 < d.len(),
    ensures
        r == to_i16(le16(d@, i as int)),
{
    let v: u16 = d[i] as u16 + 256 * (d[i + 1] as u16);
    if v >= 0x8000 {
        (v as i32 - 0x10000) as i16
    } else {
        v as i16
    }
}

fn take_vec(d: &[u8], off: usize, n: usize) -> (r: Vec<u8>)
    requires
        off + n <= d.len(),
    ensures
        r@ == d@.subrange(off as int, off + n),
{
    vstd::slice::slice_to_vec(vstd::slice::slice_subrange(d, off, off + n))
}

/// The fields `Std::parse` reads from an accepted `d`: the map sections,
/// the scroll speeds, the enemy scripts (length-prefixed chunks) and the
/// timeline after the pad byte.
pub open spec fn std_fields(d: Seq<u8>, s: Std) -> bool {
    let o = enemy_count_at(d);
    let p = skip_chunks(d, o + 1, d[o] as nat).unwrap();
    &&& s.map_section_order@ =~= d.subrange(3, 3 + d[2])
    &&& s.scroll_speeds@ =~= d.subrange(4 + d[2], o)
    &&& s.enemy_scripts@.len() == d[o]
    &&& forall|i: int| 0 <= i < s.enemy_scripts@.len()
        ==> (#[trigger] s.enemy_scripts@[i])@ =~= chunk(d, o + 1, i as nat)
    &&& s.timeline@ =~= d.subrange(p + 1, d.len() as int)
}

/// Length-prefixed chunks back to back: each chunk's length byte, then the
/// chunk.
pub open spec fn prefixed(cs: Seq<Seq<u8>>) -> Seq<u8>
    decreases cs.len(),
{
    if cs.len() == 0 {
        Seq::empty()
    } else {
        prefixed(cs.drop_last()) + seq![cs.last().len() as u8] + cs.last()
    }
}

/// The bytes of a `.STD` file with size field `size` and pad byte `pad`
/// around the fields of `s`.
pub open spec fn std_layout(size: Seq<u8>, s: Std, pad: u8) -> Seq<u8> {
    size + seq![s.map_section_order@.len() as u8] + s.map_section_order@ + seq![s.scroll_speeds@.len() as u8]
        + s.scroll_speeds@ + seq![s.enemy_scripts@.len() as u8] + prefixed(s.enemy_scripts@.map_values(|v: Vec<u8>| v@))
        + seq![pad] + s.timeline@
}

/// The chunks from `o` up to where `skip_chunks` ends are `prefixed` ones.
pub proof fn lemma_skip_chunks_prefixed(d: Seq<u8>, o: int, k: nat)
    requires
        0 <= o <= d.len(),
        skip_chunks(d, o, k) is Some,
    ensures
        o <= skip_chunks(d, o, k).unwrap() <= d.len(),
        d.subrange(o, skip_chunks(d, o, k).unwrap()) =~= prefixed(Seq::new(k, |i: int| chunk(d, o, i as nat))),
    decreases k,
{
    if k > 0 {
        lemma_skip_chunks_prefixed(d, o, (k - 1) as nat);
        let q = skip_chunks(d, o, (k - 1) as nat).unwrap();
        let cs = Seq::new(k, |i: int| chunk(d, o, i as nat));
        assert(cs.drop_last() =~= Seq::new((k - 1) as nat, |i: int| chunk(d, o, i as nat)));
        assert(cs.last() =~= d.subrange(q + 1, q + 1 + d[q]));
        assert(d.subrange(o, q + 1 + d[q]) =~= d.subrange(o, q) + seq![d[q]] + d.subrange(q + 1, q + 1 + d[q]));
    }
}

/// The fields of a parsed `.STD` file tile it: the size field (the file's
/// length less 2), then the map sections, the scroll speeds and the enemy
/// scripts (at most 32), each with its length byte in front, then one pad
/// byte and the timeline to the end.
pub proof fn law_std_tiles(d: Seq<u8>, s: Std)
    requires
        std_accepts(d),
        std_fields(d, s),
    ensures
        le16(d, 0) + 2 == d.len(),
        s.enemy_scripts@.len() <= 32,
        exists|pad: u8| d =~= #[trigger] std_layout(d.subrange(0, 2), s, pad),
{
    let o = enemy_count_at(d);
    let k = d[o] as nat;
    let p = skip_chunks(d, o + 1, k).unwrap();
    lemma_skip_chunks_prefixed(d, o + 1, k);
    assert(s.enemy_scripts@.map_values(|v: Vec<u8>| v@) =~= Seq::new(k, |i: int| chunk(d, o + 1, i as nat)));
    let pad = d[p];
    assert(d =~= d.subrange(0, 2) + seq![d[2]] + d.subrange(3, 3 + d[2]) + seq![d[3 + d[2]]] + d.subrange(4 + d[2], o)
        + seq![d[o]] + d.subrange(o + 1, p) + seq![d[p]] + d.subrange(p + 1, d.len() as int));
    assert(d =~= std_layout(d.subrange(0, 2), s, pad));
}

impl Std {
    pub fn parse(d: &[u8]) -> (r: Option<Std>)
        ensures
            r is Some <==> std_accepts(d@),
            r matches Some(s) ==> std_fields(d@, s),
    {
        if d.len() < 4 {
            return None;
        }
        let size = d[0] as usize + 256 * (d[1] as usize);
        if size + 2 != d.len() {
            return None;
        }
        let len = d.len();
        let map_chunk = d[2] as usize;
        if 3 + map_chunk > len {
            return None;
        }
        let map_section_order = take_vec(d, 3, map_chunk);
        let mut off = 3 + map_chunk;
        if off >= len {
            return None;
        }
        let scroll_chunk = d[off] as usize;
        off = off + 1;
        if off + scroll_chunk > len {
            return None;
        }
        let scroll_speeds = take_vec(d, off, scroll_chunk);
        off = off + scroll_chunk;
        if off >= len {
            return None;
        }
        let ghost o = off as int;
        assert(o == enemy_count_at(d@));
        let enemy_count = d[off] as usize;
        off = off + 1;
        if enemy_count > MAX_ENEMY_SCRIPTS {
            return None;
        }
        let mut enemy_scripts: Vec<Vec<u8>> = Vec::new();
        let mut k: usize = 0;
        while k < enemy_count
            invariant
                k <= enemy_count,
                len == d@.len(),
                o == enemy_count_at(d@),
                enemy_count == d@[o],
                skip_chunks(d@, o + 1, k as nat) == Some(off as int),
                off <= len,
                enemy_scripts@.len() == k,
                forall|i: int| 0 <= i < k ==> (#[trigger] enemy_scripts@[i])@ == chunk(d@, o + 1, i as nat),
            decreases enemy_count - k,
        {
            if off >= len {
                assert(skip_chunks(d@, o + 1, (k + 1) as nat) is None);
                proof { lemma_skip_none_grows(d@, o + 1, (k + 1) as nat, enemy_count as nat); }
                return None;
            }
            let n = d[off] as usize;
            if n > len - off - 1 {
                assert(skip_chunks(d@, o + 1, (k + 1) as nat) is None);
                proof { lemma_skip_none_grows(d@, o + 1, (k + 1) as nat, enemy_count as nat); }
                return None;
            }
            enemy_scripts.push(take_vec(d, off + 1, n));
            off = off + 1 + n;
            k = k + 1;
        }
        if off >= len {
            return None;
        }
        let timeline = take_vec(d, off + 1, len - off - 1);
        Some(Std { map_section_order, scroll_speeds, enemy_scripts, timeline })
    }

    /// The decoded stage timeline as per-frame spawn lists (ReC98 `std_run`).
    pub open spec fn spec_timeline(&self) -> Seq<(u16, Seq<Spawn>)> {
        timeline_from(self.timeline@, 0)
    }

    /// Decode the stage timeline into per-frame spawn lists (ReC98 `std_run`).
    /// Each record is `u16 frame`, `u8 count`, then `count` x 8-byte spawn
    /// entries; a `frame` of 0 terminates the timeline.
    pub fn timeline_events(&self) -> (r: Vec<TimelineFrame>)
        ensures
            r@.len() == self.spec_timeline().len(),
            forall|k: int| 0 <= k < r@.len() ==> (#[trigger] r@[k]).frame == self.spec_timeline()[k].0
                && r@[k].spawns@ == self.spec_timeline()[k].1,
    {
        let tl = self.timeline.as_slice();
        let len = tl.len();
        let ghost all = timeline_from(tl@, 0);
        let mut out: Vec<TimelineFrame> = Vec::new();
        let mut i: usize = 0;
        while i < len && len - i >= 2
            invariant
                len == tl@.len(),
                tl@ == self.timeline@,
                all == timeline_from(tl@, 0),
                i <= len,
                out@.len() + timeline_from(tl@, i as int).len() == all.len(),
                forall|k: int| 0 <= k < out@.len() ==> (#[trigger] out@[k]).frame == all[k].0
                    && out@[k].spawns@ == all[k].1,
                forall|k: int| 0 <= k < timeline_from(tl@, i as int).len()
                    ==> #[trigger] timeline_from(tl@, i as int)[k] == all[out@.len() + k],
            decreases len - i,
        {
            let frame = tl[i] as u16 + 256 * (tl[i + 1] as u16);
            if frame == 0 {
                return out;
            }
            if i + 2 >= len {
                return out;
            }
            let count = tl[i + 2] as usize;
            let ghost i0 = i as int;
            let ghost n = spawns_fitting(tl@, i0 + 3, count as int);
            i = i + 3;
            let mut spawns: Vec<Spawn> = Vec::new();
            let mut c: usize = 0;
            while c < count
                invariant
                    len == tl@.len(),
                    i <= len,
                    c <= count,
                    i == i0 + 3 + 8 * c,
                    c <= n,
                    n == spawns_fitting(tl@, i0 + 3, count as int),
                    spawns@.len() == c,
                    forall|k: int| 0 <= k < c ==> #[trigger] spawns@[k] == spawn_at(tl@, i0 + 3 + 8 * k),
                ensures
                    spawns@.len() == n,
                    i == i0 + 3 + 8 * n,
                    forall|k: int| 0 <= k < spawns@.len() ==> #[trigger] spawns@[k] == spawn_at(tl@, i0 + 3 + 8 * k),
                decreases count - c,
            {
                if len - i < 8 {
                    break;
                }
                spawns.push(Spawn {
                    script_index: tl[i],
                    x: read_i16(tl, i + 1),
                    y: read_i16(tl, i + 3),
                    arg: tl[i + 5],
                });
                i = i + 8;
                c = c + 1;
            }
            let ghost entry = (frame, Seq::new(n as nat, |k: int| spawn_at(tl@, i0 + 3 + 8 * k)));
            assert(timeline_from(tl@, i0) == seq![entry] + timeline_from(tl@, i as int));
            assert(spawns@ =~= entry.1);
            let ghost before = out@.len();
            assert(timeline_from(tl@, i0)[0] == entry);
            assert(all[before as int] == entry);
            assert forall|k: int| 0 <= k < timeline_from(tl@, i as int).len()
                implies #[trigger] timeline_from(tl@, i as int)[k] == all[before + 1 + k] by {
                assert(timeline_from(tl@, i0)[k + 1] == timeline_from(tl@, i as int)[k]);
            }
            out.push(TimelineFrame { frame, spawns });
        }
        out
    }
}

/// Once a chunk is missing, every longer run of chunks is missing too.
pub proof fn lemma_skip_none_grows(d: Seq<u8>, o: int, k: nat, m: nat)
    requires
        skip_chunks(d, o, k) is None,
        k <= m,
    ensures
        skip_chunks(d, o, m) is None,
    decreases m - k,
{
    if k < m {
        lemma_skip_none_grows(d, o, (k + 1) as nat, m);
    }
}

} // verus!

//! The TH04 packed archive: ZUN's `東方幻想.郷` master data file, the
//! TH03/04/05 variant of master.lib's PAR packfile (ReC98
//! `libs/master.lib/pfint21.asm`, `th03_archive_header_t`).
//!
//! ```text
//! 0x00  u16 dir_size      total bytes of the (encrypted) directory
//! 0x02  u16 unk           always 2
//! 0x04  u16 count         number of entries
//! 0x06  u16 key           directory decryption key
//! 0x08  u8[8] zero
//! 0x10  directory         `dir_size` bytes, `count` x 32-byte entries, encrypted
//! ...   file data         each member at its own `offset`, optionally RLE-packed
//! ```
//!
//! Each decrypted 32-byte directory entry:
//!
//! ```text
//! 0x00  u8[2] type        0x95 0x95 ("封" in Shift-JIS) => RLE-compressed
//! 0x02  u8    aux
//! 0x03  char[13] name     8.3 filename, NUL-padded
//! 0x10  u16   packed_size
//! 0x12  u16   orig_size   decompressed length
//! 0x14  u32   offset      absolute offset of the file data in the archive
//! 0x18  u8[8] reserved
//! ```

use vstd::prelude::*;

verus! {

pub const HEADER_LEN: usize = 16;
pub const ENTRY_LEN: usize = 32;

/// Why an archive could not be opened.
#[derive(Debug)]
pub enum Error {
    TooShort,
    BadDirectory,
}

/// One member file inside the archive.
#[derive(Debug, Clone)]
pub struct Entry {
    pub name: String,
    pub compressed: bool,
    pub packed_size: u32,
    pub orig_size: u32,
    pub offset: u32,
}

/// A parsed TH04 archive. Owns the raw bytes; members are extracted on demand.
pub struct Archive {
    pub data: Vec<u8>,
    pub entries: Vec<Entry>,
    pub key: u16,
}

/// Little-endian `u16` at `i`.
pub open spec fn le16(d: Seq<u8>, i: int) -> int {
    d[i] as int + 256 * (d[i + 1] as int)
}

/// Little-endian `u32` at `i`.
pub open spec fn le32(d: Seq<u8>, i: int) -> int {
    le16(d, i) + 65536 * le16(d, i + 2)
}

/// The rolling XOR key in force for directory byte `n`:
/// `al = key; for b in dir { dec = b ^ al; al = al - dec }`.
pub open spec fn dir_key(enc: Seq<u8>, key: u8, n: nat) -> u8
    decreases n,
{
    if n == 0 {
        key
    } else {
        let prev = dir_key(enc, key, (n - 1) as nat);
        let dec = enc[n - 1] ^ prev;
        if prev >= dec { (prev - dec) as u8 } else { (prev - dec + 256) as u8 }
    }
}

/// The decrypted directory.
pub open spec fn decrypt_dir(enc: Seq<u8>, key: u8) -> Seq<u8> {
    Seq::new(enc.len(), |i: int| enc[i] ^ dir_key(enc, key, i as nat))
}

/// Length of the NUL-terminated 13-byte name field of the entry at `base`,
/// scanning from position `k`.
pub open spec fn name_len_from(e: Seq<u8>, base: int, k: int) -> int
    decreases 13 - k,
{
    if k >= 13 {
        13
    } else if e[base + 3 + k] == 0 {
        k
    } else {
        name_len_from(e, base, k + 1)
    }
}

/// What `String::from_utf8_lossy` makes of a byte string.
pub uninterp spec fn utf8_lossy(b: Seq<u8>) -> Seq<char>;

/// Bytes below 0x80 throughout.
pub open spec fn all_ascii(b: Seq<u8>) -> bool {
    forall|i: int| 0 <= i < b.len() ==> b[i] < 128
}

/// `String::from_utf8_lossy(b).into_owned()`: the UTF-8 decoding of `b` with
/// invalid sequences replaced. Claimed: the result is `utf8_lossy(b)`, and an
/// all-ASCII input comes back character for character.
#[verifier::external_body]
fn string_from_utf8_lossy(b: &[u8]) -> (r: String)
    ensures
        r@ == utf8_lossy(b@),
        all_ascii(b@) ==> r@ == Seq::new(b@.len(), |i: int| b@[i] as char),
{
    String::from_utf8_lossy(b).into_owned()
}

/// The entry described by the decrypted directory `dir` at index `i`.
pub open spec fn entry_matches(e: Entry, dir: Seq<u8>, i: int) -> bool {
    let base = i * 32;
    &&& e.name@ == utf8_lossy(dir.subrange(base + 3, base + 3 + name_len_from(dir, base, 0)))
    &&& e.compressed == (dir[base] == 0x95 && dir[base + 1] == 0x95)
    &&& e.packed_size == le16(dir, base + 16)
    &&& e.orig_size == le16(dir, base + 18)
    &&& e.offset == le32(dir, base + 20)
}

/// When `Archive::parse` refuses `d`, and why.
pub open spec fn parse_error(d: Seq<u8>) -> Option<Error> {
    if d.len() < 16 {
        Some(Error::TooShort)
    } else if d.len() < 16 + le16(d, 0) || le16(d, 4) * 32 > le16(d, 0) {
        Some(Error::BadDirectory)
    } else {
        None
    }
}

fn read_le16(d: &[u8], i: usize) -> (r: u16)
    requires
        i + 1 < d.len(),
    ensures
        r == le16(d@, i as int),
{
    d[i] as u16 + 256 * (d[i + 1] as u16)
}

fn read_le32(d: &[u8], i: usize) -> (r: u32)
    requires
        i + 3 < d.len(),
    ensures
        r == le32(d@, i as int),
{
    let lo = read_le16(d, i);
    let hi = read_le16(d, i + 2);
    lo as u32 + 65536 * (hi as u32)
}

fn entry_name_len(dir: &[u8], base: usize) -> (r: usize)
    requires
        base + 16 <= dir.len(),
    ensures
        r == name_len_from(dir@, base as int, 0),
        r <= 13,
{
    let mut k: usize = 0;
    while k < 13
        invariant
            k <= 13,
            base + 16 <= dir.len(),
            name_len_from(dir@, base as int, 0) == name_len_from(dir@, base as int, k as int),
        decreases 13 - k,
    {
        if dir[base + 3 + k] == 0 {
            return k;
        }
        k = k + 1;
    }
    13
}

impl Archive {
    /// Parse the archive header and the decrypted directory. Does not yet
    /// decompress any member.
    pub fn parse(data: Vec<u8>) -> (r: Result<Archive, Error>)
        ensures
            parse_error(data@) matches Some(e) ==> (r matches Err(f) && f == e),
            parse_error(data@) is None ==> (r matches Ok(a) && {
                let dir = decrypt_dir(data@.subrange(16, 16 + le16(data@, 0)), data@[6]);
                &&& a.data@ == data@
                &&& a.key == le16(data@, 6)
                &&& a.entries@.len() == le16(data@, 4)
                &&& forall|i: int| 0 <= i < a.entries@.len() ==> entry_matches(#[trigger] a.entries@[i], dir, i)
            }),
    {
        if data.len() < HEADER_LEN {
            return Err(Error::TooShort);
        }
        let dir_size = read_le16(data.as_slice(), 0) as usize;
        let count = read_le16(data.as_slice(), 4) as usize;
        let key = read_le16(data.as_slice(), 6);
        if data.len() < HEADER_LEN + dir_size || count * ENTRY_LEN > dir_size {
            return Err(Error::BadDirectory);
        }
        let ghost enc = data@.subrange(16, 16 + dir_size);
        let key8: u8 = data[6];
        let mut dir: Vec<u8> = Vec::new();
        let mut al: u8 = key8;
        let mut j: usize = 0;
        while j < dir_size
            invariant
                j <= dir_size,
                HEADER_LEN + dir_size <= data.len(),
                enc == data@.subrange(16, 16 + dir_size as int),
                al == dir_key(enc, key8, j as nat),
                dir@.len() == j,
                forall|t: int| 0 <= t < j ==> dir@[t] == decrypt_dir(enc, key8)[t],
            decreases dir_size - j,
        {
            let dec = data[HEADER_LEN + j] ^ al;
            assert(enc[j as int] == data@[HEADER_LEN + j]);
            dir.push(dec);
            al = al.wrapping_sub(dec);
            assert(al == dir_key(enc, key8, (j + 1) as nat));
            j = j + 1;
        }
        assert(dir@ =~= decrypt_dir(enc, key8));
        let mut entries: Vec<Entry> = Vec::new();
        let mut i: usize = 0;
        while i < count
            invariant
                i <= count,
                count * 32 <= dir_size,
                dir@ == decrypt_dir(enc, key8),
                dir@.len() == dir_size,
                entries@.len() == i,
                forall|t: int| 0 <= t < i ==> entry_matches(#[trigger] entries@[t], dir@, t),
            decreases count - i,
        {
            let base = i * ENTRY_LEN;
            let d = dir.as_slice();
            let n = entry_name_len(d, base);
            let name = string_from_utf8_lossy(vstd::slice::slice_subrange(d, base + 3, base + 3 + n));
            let e = Entry {
                name,
                compressed: d[base] == 0x95 && d[base + 1] == 0x95,
                packed_size: read_le16(d, base + 16) as u32,
                orig_size: read_le16(d, base + 18) as u32,
                offset: read_le32(d, base + 20),
            };
            entries.push(e);
            i = i + 1;
        }
        Ok(Archive { data, entries, key })
    }
}

/// Decoder state of ZUN's run-length scheme, between two output bytes.
pub enum RleState {
    /// Literal phase: the byte about to be emitted.
    Lit(u8),
    /// Two equal bytes were seen: emit the second one, then read a count.
    RunSecond(u8),
    /// Read the count of further copies of the run byte.
    Count(u8),
    /// Emit the run byte this many more times.
    Copies(u8, u8),
}

/// Byte `i` of `src`, or 0 past either end (reads never fail).
pub open spec fn byte_at(src: Seq<u8>, i: int) -> u8 {
    if 0 <= i < src.len() { src[i] } else { 0 }
}

pub open spec fn rle_rank(s: RleState) -> nat {
    match s {
        RleState::Lit(_) => 0,
        RleState::RunSecond(_) => 0,
        RleState::Copies(_, _) => 1,
        RleState::Count(_) => 2,
    }
}

/// The next `n` output bytes of the decoder in state `s`, reading from `i`.
pub open spec fn rle_decode(src: Seq<u8>, i: int, s: RleState, n: nat) -> Seq<u8>
    decreases n, rle_rank(s),
{
    if n == 0 {
        Seq::empty()
    } else {
        match s {
            RleState::Lit(b) => {
                let c = byte_at(src, i);
                seq![b] + rle_decode(
                    src,
                    i + 1,
                    if c == b { RleState::RunSecond(c) } else { RleState::Lit(c) },
                    (n - 1) as nat,
                )
            },
            RleState::RunSecond(b) => seq![b] + rle_decode(src, i, RleState::Count(b), (n - 1) as nat),
            RleState::Count(b) => rle_decode(src, i + 1, RleState::Copies(b, byte_at(src, i)), n),
            RleState::Copies(b, k) => {
                if k > 0 {
                    seq![b] + rle_decode(src, i, RleState::Copies(b, (k - 1) as u8), (n - 1) as nat)
                } else {
                    let c = byte_at(src, i);
                    if c != b {
                        rle_decode(src, i + 1, RleState::Lit(c), n)
                    } else {
                        rle_decode(src, i + 1, RleState::RunSecond(b), n)
                    }
                }
            },
        }
    }
}

/// ZUN's run-length decoding of `orig` bytes of `src` starting at `off`
/// (ReC98 `th01/formats/pf.cpp::unrle`): after two identical bytes the stream
/// is in run mode, where the next byte counts further copies and the run goes
/// on while the following byte still matches.
pub open spec fn spec_unrle(src: Seq<u8>, off: int, orig: nat) -> Seq<u8> {
    if off >= src.len() {
        Seq::empty()
    } else {
        rle_decode(src, off + 1, RleState::Lit(src[off]), orig)
    }
}

/// The decoder always produces exactly the bytes asked for.
pub proof fn lemma_rle_decode_len(src: Seq<u8>, i: int, s: RleState, n: nat)
    ensures
        rle_decode(src, i, s, n).len() == n,
    decreases n, rle_rank(s),
{
    if n > 0 {
        match s {
            RleState::Lit(b) => {
                let c = byte_at(src, i);
                lemma_rle_decode_len(
                    src,
                    i + 1,
                    if c == b { RleState::RunSecond(c) } else { RleState::Lit(c) },
                    (n - 1) as nat,
                );
            },
            RleState::RunSecond(b) => lemma_rle_decode_len(src, i, RleState::Count(b), (n - 1) as nat),
            RleState::Count(b) => lemma_rle_decode_len(src, i + 1, RleState::Copies(b, byte_at(src, i)), n),
            RleState::Copies(b, k) => {
                if k > 0 {
                    lemma_rle_decode_len(src, i, RleState::Copies(b, (k - 1) as u8), (n - 1) as nat);
                } else {
                    let c = byte_at(src, i);
                    if c != b {
                        lemma_rle_decode_len(src, i + 1, RleState::Lit(c), n);
                    } else {
                        lemma_rle_decode_len(src, i + 1, RleState::RunSecond(b), n);
                    }
                }
            },
        }
    }
}

fn next_byte(src: &[u8], i: usize) -> (r: u8)
    ensures
        r == byte_at(src@, i as int),
{
    if i < src.len() { src[i] } else { 0 }
}

/// ZUN's run-length scheme: decode `orig` bytes of `src` from `off`. Reads
/// past the end of `src` see zero bytes, so the output is always exactly
/// `orig` bytes long unless `off` is already past the end.
pub fn unrle(src: &[u8], off: usize, orig: usize) -> (out: Vec<u8>)
    ensures
        out@ == spec_unrle(src@, off as int, orig as nat),
        off < src@.len() ==> out@.len() == orig,
        off >= src@.len() ==> out@.len() == 0,
{
    let mut out: Vec<u8> = Vec::new();
    if off >= src.len() {
        return out;
    }
    proof {
        lemma_rle_decode_len(src@, off + 1, RleState::Lit(src@[off as int]), orig as nat);
    }
    let ghost full = spec_unrle(src@, off as int, orig as nat);
    // Read position; once past the end of `src` it saturates, as any later
    // read yields 0 either way.
    let mut i: usize = off + 1;
    let ghost mut gi: int = off + 1;
    let mut st = RleState::Lit(src[off]);
    let src_len = src.len();
    while out.len() < orig
        invariant
            src@.len() == src_len,
            out@.len() <= orig,
            full == spec_unrle(src@, off as int, orig as nat),
            out@ + rle_decode(src@, gi, st, (orig - out@.len()) as nat) == full,
            i == gi || (i >= src@.len() && gi >= src@.len()),
            gi >= 0,
        decreases orig - out@.len(), rle_rank(st),
    {
        let ghost old_out = out@;
        let ghost n: nat = (orig - out@.len()) as nat;
        match st {
            RleState::Lit(b) => {
                let c = next_byte(src, i);
                out.push(b);
                st = if c == b { RleState::RunSecond(c) } else { RleState::Lit(c) };
                i = i.saturating_add(1);
                proof { gi = gi + 1; }
                assert(old_out + rle_decode(src@, gi - 1, RleState::Lit(b), n) == out@ + rle_decode(src@, gi, st, (n - 1) as nat));
            },
            RleState::RunSecond(b) => {
                out.push(b);
                st = RleState::Count(b);
                assert(old_out + rle_decode(src@, gi, RleState::RunSecond(b), n) == out@ + rle_decode(src@, gi, st, (n - 1) as nat));
            },
            RleState::Count(b) => {
                let k = next_byte(src, i);
                st = RleState::Copies(b, k);
                i = i.saturating_add(1);
                proof { gi = gi + 1; }
            },
            RleState::Copies(b, k) => {
                if k > 0 {
                    out.push(b);
                    st = RleState::Copies(b, k - 1);
                    assert(old_out + rle_decode(src@, gi, RleState::Copies(b, k), n) == out@ + rle_decode(src@, gi, st, (n - 1) as nat));
                } else {
                    let c = next_byte(src, i);
                    st = if c != b { RleState::Lit(c) } else { RleState::RunSecond(b) };
                    i = i.saturating_add(1);
                    proof { gi = gi + 1; }
                }
            },
        }
    }
    assert(rle_decode(src@, gi, st, 0) == Seq::<u8>::empty());
    assert(out@ =~= full);
    out
}

/// The bytes of `d` from `start`, clamped to its end, `len` of them at most.
pub open spec fn clamped_range(d: Seq<u8>, start: int, len: int) -> Seq<u8> {
    let s = if start < d.len() { start } else { d.len() as int };
    let e = if start + len < d.len() { start + len } else { d.len() as int };
    d.subrange(s, e)
}

/// The bytes of member `e` of the archive with contents `d`.
pub open spec fn spec_extract(d: Seq<u8>, e: Entry) -> Seq<u8> {
    if e.compressed {
        spec_unrle(d, e.offset as int, e.orig_size as nat)
    } else {
        clamped_range(d, e.offset as int, e.orig_size as int)
    }
}

/// ASCII case-insensitive equality of two strings: `to_ascii_lowercase(a) ==
/// to_ascii_lowercase(b)`.
pub open spec fn ascii_lower(c: char) -> char {
    if 'A' <= c <= 'Z' { ((c as u32) + 32) as char } else { c }
}

pub open spec fn eq_ignore_ascii_case(a: Seq<char>, b: Seq<char>) -> bool {
    &&& a.len() == b.len()
    &&& forall|i: int| 0 <= i < a.len() ==> ascii_lower(a[i]) == ascii_lower(b[i])
}

/// `str::eq_ignore_ascii_case`: claimed to return whether the two strings are
/// equal once ASCII letters are lowercased, as its documentation states.
#[verifier::external_body]
fn str_eq_ignore_ascii_case(a: &str, b: &str) -> (r: bool)
    ensures
        r == eq_ignore_ascii_case(a@, b@),
{
    a.eq_ignore_ascii_case(b)
}

impl Archive {
    /// Decompress (or copy) a member into a fresh buffer of `orig_size` bytes.
    pub fn extract(&self, entry: &Entry) -> (r: Vec<u8>)
        ensures
            r@ == spec_extract(self.data@, *entry),
    {
        let off = entry.offset as usize;
        let orig = entry.orig_size as usize;
        if entry.compressed {
            unrle(self.data.as_slice(), off, orig)
        } else {
            let len = self.data.len();
            let s = if off < len { off } else { len };
            let e = if (off as u64) + (orig as u64) < len as u64 { off + orig } else { len };
            vstd::slice::slice_to_vec(vstd::slice::slice_subrange(self.data.as_slice(), s, e))
        }
    }

    /// Find a member by name (ASCII case-insensitive) and extract it: the
    /// first matching entry wins.
    pub fn get(&self, name: &str) -> (r: Option<Vec<u8>>)
        ensures
            r is None <==> forall|i: int|
                0 <= i < self.entries@.len() ==> !eq_ignore_ascii_case(#[trigger] self.entries@[i].name@, name@),
            r matches Some(v) ==> exists|i: int|
                0 <= i < self.entries@.len() && eq_ignore_ascii_case(self.entries@[i].name@, name@)
                    && (forall|j: int| 0 <= j < i ==> !eq_ignore_ascii_case(#[trigger] self.entries@[j].name@, name@))
                    && v@ == spec_extract(self.data@, self.entries@[i]),
    {
        let mut i: usize = 0;
        while i < self.entries.len()
            invariant
                i <= self.entries@.len(),
                forall|j: int| 0 <= j < i ==> !eq_ignore_ascii_case(#[trigger] self.entries@[j].name@, name@),
            decreases self.entries@.len() - i,
        {
            let e = &self.entries[i];
            if str_eq_ignore_ascii_case(e.name.as_str(), name) {
                return Some(self.extract(e));
            }
            i = i + 1;
        }
        None
    }
}

/// The key of the documented directory encryption before byte `n` of the
/// plain directory `p`: `al = key`, then `al = al - plain` after each byte.
pub open spec fn enc_key(p: Seq<u8>, key: u8, n: nat) -> u8
    decreases n,
{
    if n == 0 {
        key
    } else {
        let prev = enc_key(p, key, (n - 1) as nat);
        ((prev as int - p[n - 1] as int + 256) % 256) as u8
    }
}

/// The documented directory encryption: `enc = plain ^ al; al = al - plain`.
pub open spec fn encrypt_dir(p: Seq<u8>, key: u8) -> Seq<u8> {
    Seq::new(p.len(), |i: int| p[i] ^ enc_key(p, key, i as nat))
}

proof fn lemma_dir_key_tracks(p: Seq<u8>, key: u8, n: nat)
    requires
        n <= p.len(),
    ensures
        dir_key(encrypt_dir(p, key), key, n) == enc_key(p, key, n),
    decreases n,
{
    if n > 0 {
        lemma_dir_key_tracks(p, key, (n - 1) as nat);
        let prev = enc_key(p, key, (n - 1) as nat);
        let b = p[n - 1];
        assert((b ^ prev) ^ prev == b) by (bit_vector);
    }
}

/// Decryption inverts the documented encryption: for every plain directory
/// and key, the directory `Archive::parse` decrypts from the encrypted bytes
/// is the plain one.
pub proof fn law_dir_roundtrip(p: Seq<u8>, key: u8)
    ensures
        decrypt_dir(encrypt_dir(p, key), key) == p,
{
    assert forall|i: int| 0 <= i < p.len() implies #[trigger] decrypt_dir(encrypt_dir(p, key), key)[i] == p[i] by {
        lemma_dir_key_tracks(p, key, i as nat);
        let k = enc_key(p, key, i as nat);
        let b = p[i];
        assert((b ^ k) ^ k == b) by (bit_vector);
    }
    assert(decrypt_dir(encrypt_dir(p, key), key) =~= p);
}

/// An entry `Archive::parse` reads from a directory encrypted the documented
/// way is the plain entry: compressed exactly when its first two bytes are
/// 0x95, with the little-endian packed size at bytes 16-17, original size at
/// 18-19 and offset at 20-23 of the plain 32-byte entry.
pub proof fn law_dir_entry(p: Seq<u8>, key: u8, e: Entry, i: int)
    requires
        0 <= i,
        (i + 1) * 32 <= p.len(),
        entry_matches(e, decrypt_dir(encrypt_dir(p, key), key), i),
    ensures
        e.compressed == (p[32 * i] == 0x95 && p[32 * i + 1] == 0x95),
        e.packed_size == p[32 * i + 16] + 256 * p[32 * i + 17],
        e.orig_size == p[32 * i + 18] + 256 * p[32 * i + 19],
        e.offset == p[32 * i + 20] + 256 * p[32 * i + 21] + 65536 * p[32 * i + 22] + 16777216 * p[32 * i + 23],
{
    law_dir_roundtrip(p, key);
}

} // verus!

//! Background-music track names. The game's music is PMD FM data
//! (`.M26`/`.M86`); the game plays pre-rendered WAV renders of each track,
//! named after their archive member, lowercased with a `.wav` extension, so
//! `ST00.M86` → `st00.wav` (stage theme) and `ST00B.M86` → `st00b.wav` (boss
//! theme); the title/menu uses `title.wav`.

use vstd::prelude::*;

verus! {

/// Title / menu track basename.
pub const TITLE_TRACK: &'static str = "title.wav";

/// The Unicode lowercase of a string, as `str::to_lowercase` gives it.
pub uninterp spec fn lowercase(s: Seq<char>) -> Seq<char>;

/// An ASCII character in lower case.
pub open spec fn ascii_lower(c: char) -> char {
    if 'A' <= c <= 'Z' { ((c as u32) + 32) as char } else { c }
}

/// Text made of ASCII characters only.
pub open spec fn all_ascii(s: Seq<char>) -> bool {
    forall|i: int| 0 <= i < s.len() ==> (s[i] as u32) < 128
}

/// `s` with every occurrence of the non-empty `from`, found left to right
/// without overlap, replaced by `to`.
pub open spec fn replace_all(s: Seq<char>, from: Seq<char>, to: Seq<char>) -> Seq<char>
    decreases s.len(),
{
    if from.len() == 0 || s.len() < from.len() {
        s
    } else if s.take(from.len() as int) == from {
        to + replace_all(s.skip(from.len() as int), from, to)
    } else {
        seq![s[0]] + replace_all(s.drop_first(), from, to)
    }
}

/// `str::to_lowercase`. Its result is named (`lowercase`), not stated: the
/// Unicode case tables are left unsaid. On ASCII text it lowers `A`–`Z` and
/// keeps everything else.
#[verifier::external_body]
fn str_to_lowercase(s: &str) -> (r: String)
    ensures
        r@ == lowercase(s@),
        all_ascii(s@) ==> r@ == s@.map_values(|c: char| ascii_lower(c)),
{
    s.to_lowercase()
}

/// `str::replace` with a non-empty string pattern: every match, found left to
/// right without overlap, replaced.
#[verifier::external_body]
fn str_replace(s: &str, from: &str, to: &str) -> (r: String)
    requires
        from@.len() > 0,
    ensures
        r@ == replace_all(s@, from@, to@),
{
    s.replace(from, to)
}

/// Stage-theme WAV name for an `STnn.STD` (e.g. `ST00.STD` → `st00.wav`).
pub fn stage_track(std_name: &str) -> (r: String)
    ensures
        r@ == replace_all(lowercase(std_name@), ".std"@, ".wav"@),
        all_ascii(std_name@) ==> r@ == replace_all(std_name@.map_values(|c: char| ascii_lower(c)), ".std"@, ".wav"@),
{
    let lower = str_to_lowercase(std_name);
    proof {
        reveal_strlit(".std");
    }
    str_replace(lower.as_str(), ".std", ".wav")
}

/// Boss-theme WAV name for an `STnn.STD` (e.g. `ST00.STD` → `st00b.wav`).
pub fn boss_track(std_name: &str) -> (r: String)
    ensures
        r@ == replace_all(lowercase(std_name@), ".std"@, "b.wav"@),
        all_ascii(std_name@) ==> r@ == replace_all(std_name@.map_values(|c: char| ascii_lower(c)), ".std"@, "b.wav"@),
{
    let lower = str_to_lowercase(std_name);
    proof {
        reveal_strlit(".std");
    }
    str_replace(lower.as_str(), ".std", "b.wav")
}

} // verus!

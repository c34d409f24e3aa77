//! Front-end choices the game makes: which stage a stage file is, which boss
//! waits at its end, and which sprite cel draws a glyph, a bullet or an item.

use vstd::prelude::*;
use vstd::string::StrSliceExecFns;
use crate::boss::{BossKind, spec_for_stage};

verus! {

pub open spec fn is_digit(c: char) -> bool {
    '0' <= c <= '9'
}

/// `s` without its leading non-digits.
pub open spec fn skip_non_digits(s: Seq<char>) -> Seq<char>
    decreases s.len(),
{
    if s.len() > 0 && !is_digit(s[0]) { skip_non_digits(s.drop_first()) } else { s }
}

/// The run of digits `s` starts with.
pub open spec fn lead_digits(s: Seq<char>) -> Seq<char>
    decreases s.len(),
{
    if s.len() > 0 && is_digit(s[0]) { seq![s[0]] + lead_digits(s.drop_first()) } else { Seq::empty() }
}

/// The decimal value of a run of digits.
pub open spec fn dec_value(d: Seq<char>) -> int
    decreases d.len(),
{
    if d.len() == 0 { 0 } else { dec_value(d.drop_last()) * 10 + (d.last() as int - '0' as int) }
}

/// The stage number in a name: its first run of digits, read as a decimal
/// `usize`; 0 where there is none or it does not fit.
pub open spec fn spec_stage_index(name: Seq<char>) -> int {
    let d = lead_digits(skip_non_digits(name));
    if d.len() > 0 && dec_value(d) <= usize::MAX { dec_value(d) } else { 0 }
}

proof fn lemma_skip_step(s: Seq<char>, i: int)
    requires
        0 <= i < s.len(),
        !is_digit(s[i]),
    ensures
        skip_non_digits(s.skip(i)) == skip_non_digits(s.skip(i + 1)),
{
    assert(s.skip(i).drop_first() =~= s.skip(i + 1));
}

proof fn lemma_lead_step(s: Seq<char>, i: int, j: int)
    requires
        0 <= i <= j < s.len(),
        is_digit(s[j]),
        lead_digits(s.skip(i)) == s.subrange(i, j) + lead_digits(s.skip(j)),
    ensures
        lead_digits(s.skip(i)) == s.subrange(i, j + 1) + lead_digits(s.skip(j + 1)),
{
    assert(s.skip(j).drop_first() =~= s.skip(j + 1));
    assert(lead_digits(s.skip(j)) == seq![s[j]] + lead_digits(s.skip(j + 1)));
    assert(s.subrange(i, j + 1) =~= s.subrange(i, j).push(s[j]));
    assert(s.subrange(i, j) + (seq![s[j]] + lead_digits(s.skip(j + 1)))
        =~= s.subrange(i, j).push(s[j]) + lead_digits(s.skip(j + 1)));
}

/// 0-based stage index from an `STnn.STD` filename (`ST00.STD` → 0). Defaults
/// to 0 if the digits can't be parsed.
pub fn stage_index(std_name: &str) -> (r: usize)
    ensures
        r == spec_stage_index(std_name@),
{
    let ghost s = std_name@;
    let n = std_name.unicode_len();
    let mut i: usize = 0;
    assert(s.skip(0) =~= s);
    while i < n && !is_digit_exec(std_name.get_char(i))
        invariant
            n == s.len(),
            s == std_name@,
            i <= n,
            skip_non_digits(s) == skip_non_digits(s.skip(i as int)),
        decreases n - i,
    {
        proof {
            lemma_skip_step(s, i as int);
        }
        i = i + 1;
    }
    proof {
        if i < n {
            assert(is_digit(s[i as int]));
            assert(skip_non_digits(s.skip(i as int)) == s.skip(i as int));
        } else {
            assert(s.skip(i as int) =~= Seq::<char>::empty());
        }
        assert(s.subrange(i as int, i as int) =~= Seq::<char>::empty());
        assert(Seq::<char>::empty() + lead_digits(s.skip(i as int)) =~= lead_digits(s.skip(i as int)));
    }
    let start = i;
    let mut v: usize = 0;
    let mut over = false;
    while i < n && is_digit_exec(std_name.get_char(i))
        invariant
            n == s.len(),
            s == std_name@,
            start <= i <= n,
            skip_non_digits(s) == s.skip(start as int) || start == n,
            lead_digits(s.skip(start as int)) == s.subrange(start as int, i as int) + lead_digits(s.skip(i as int)),
            forall|k: int| start <= k < i ==> is_digit(#[trigger] s[k]),
            !over ==> v == dec_value(s.subrange(start as int, i as int)),
            over ==> dec_value(s.subrange(start as int, i as int)) > usize::MAX,
        decreases n - i,
    {
        let c = std_name.get_char(i);
        let d = (c as u32 - '0' as u32) as usize;
        proof {
            lemma_lead_step(s, start as int, i as int);
            assert(s.subrange(start as int, i + 1).drop_last() =~= s.subrange(start as int, i as int));
        }
        if !over {
            match v.checked_mul(10) {
                Some(m) => match m.checked_add(d) {
                    Some(w) => {
                        v = w;
                    },
                    None => {
                        over = true;
                    },
                },
                None => {
                    over = true;
                },
            }
        }
        i = i + 1;
    }
    proof {
        if i < n {
            assert(!is_digit(s[i as int]));
            assert(lead_digits(s.skip(i as int)) =~= Seq::<char>::empty());
        } else {
            assert(s.skip(i as int) =~= Seq::<char>::empty());
        }
        assert(s.subrange(start as int, i as int) + Seq::<char>::empty() =~= s.subrange(start as int, i as int));
        if start == n {
            assert(skip_non_digits(s) =~= Seq::<char>::empty()) by {
                assert(s.skip(n as int) =~= Seq::<char>::empty());
            }
        }
    }
    if over || i == start {
        0
    } else {
        v
    }
}

fn is_digit_exec(c: char) -> (r: bool)
    ensures
        r == is_digit(c),
{
    c >= '0' && c <= '9'
}

/// The end-of-stage boss for a stage + character (`STnn.STD` → stage index nn).
pub fn boss_for(std_name: &str, shot_type: u8) -> (r: Option<BossKind>)
    ensures
        r == spec_for_stage(spec_stage_index(std_name@) as usize, shot_type >= 2),
{
    BossKind::for_stage(stage_index(std_name), shot_type >= 2)
}

/// 0-based player-character index from a `shot_type` (0/1 = Reimu, 2/3 = Marisa).
pub fn player_char(shot_type: u8) -> (r: usize)
    ensures
        r == if shot_type >= 2 { 1usize } else { 0usize },
{
    if shot_type >= 2 { 1 } else { 0 }
}

/// An ASCII letter in upper case (other characters unchanged).
pub open spec fn ascii_upper(c: char) -> char {
    if 'a' <= c <= 'z' { ((c as u32) - 32) as char } else { c }
}

/// The `GAMEFT` font cel of a character: digits from cel 160, `A`–`V` from
/// 170 and `W`–`Z` from 192, letters in either case; `None` for anything else.
pub open spec fn spec_gameft_cel(ch: char) -> Option<usize> {
    let u = ascii_upper(ch);
    if '0' <= u <= '9' {
        Some((160 + (ch as u32 - '0' as u32)) as usize)
    } else if 'A' <= u <= 'V' {
        Some((170 + (u as u32 - 'A' as u32)) as usize)
    } else if 'W' <= u <= 'Z' {
        Some((192 + (u as u32 - 'W' as u32)) as usize)
    } else {
        None
    }
}

/// Font cel for a HUD character.
pub fn gameft_cel(ch: char) -> (r: Option<usize>)
    ensures
        r == spec_gameft_cel(ch),
{
    let u = if 'a' <= ch && ch <= 'z' { ((ch as u32) - 32) as u8 as char } else { ch };
    assert(u == ascii_upper(ch));
    if '0' <= u && u <= '9' {
        Some(160 + (ch as u32 - '0' as u32) as usize)
    } else if 'A' <= u && u <= 'V' {
        Some(170 + (u as u32 - 'A' as u32) as usize)
    } else if 'W' <= u && u <= 'Z' {
        Some(192 + (u as u32 - 'W' as u32) as usize)
    } else {
        None
    }
}

/// The `MIKO16` cel a bullet sprite (`patnum`) is drawn with.
pub open spec fn spec_bullet_cel(patnum: u8) -> usize {
    if patnum == 1 {
        10
    } else if patnum == 2 {
        28
    } else if patnum == 3 || patnum == 5 {
        29
    } else if patnum == 6 || patnum == 9 {
        24
    } else if patnum == 7 {
        27
    } else if patnum == 8 {
        30
    } else {
        33
    }
}

/// Map a bullet's sprite to a `MIKO16` cel: white, blue, yellow and red balls,
/// a star, a blue teardrop; a small ball otherwise.
pub fn bullet_cel(patnum: u8) -> (r: usize)
    ensures
        r == spec_bullet_cel(patnum),
{
    match patnum {
        1 => 10,
        2 => 28,
        3 => 29,
        5 => 29,
        6 => 24,
        7 => 27,
        8 => 30,
        9 => 24,
        _ => 33,
    }
}

/// Map a dropped item's `kind` to a `MIKO16` item cel. The kinds are
/// POWER 0, POINT 1, DREAM 2, BIGPOWER 3, BOMB 4, 1UP 5, FULLPOWER 6, and the
/// item icons sit in that order from cel 16; an unknown kind draws as a point.
pub fn item_cel(kind: u8) -> (r: usize)
    ensures
        r == if kind <= 6 { 16 + kind as int } else { 17 },
{
    if kind <= 6 { 16 + kind as usize } else { 17 }
}

/// `MIKO16` cel for the player's straight shot (white needle).
pub const SHOT_CEL: usize = 9;

} // verus!

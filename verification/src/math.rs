//! Fixed-point trigonometry on 256-direction angles (`u8`; 0 = +x/right,
//! 64 = +y/down), with an 8.8 cosine/sine table (master.lib `CosTable8` /
//! `SinTable8`), `vector2_near` and `iatan2`. Positions and velocities are
//! subpixels (16 per pixel).

use vstd::prelude::*;

verus! {

/// The first quadrant of the 8.8 cosine table: `round(256 * cos(i * 2pi / 256))`
/// for `i` in `0..=64`.
#[verifier::opaque]
pub open spec fn quarter_cos(i: u8) -> int {
    match i {
        0 => 256,
        1 => 256,
        2 => 256,
        3 => 255,
        4 => 255,
        5 => 254,
        6 => 253,
        7 => 252,
        8 => 251,
        9 => 250,
        10 => 248,
        11 => 247,
        12 => 245,
        13 => 243,
        14 => 241,
        15 => 239,
        16 => 237,
        17 => 234,
        18 => 231,
        19 => 229,
        20 => 226,
        21 => 223,
        22 => 220,
        23 => 216,
        24 => 213,
        25 => 209,
        26 => 206,
        27 => 202,
        28 => 198,
        29 => 194,
        30 => 190,
        31 => 185,
        32 => 181,
        33 => 177,
        34 => 172,
        35 => 167,
        36 => 162,
        37 => 157,
        38 => 152,
        39 => 147,
        40 => 142,
        41 => 137,
        42 => 132,
        43 => 126,
        44 => 121,
        45 => 115,
        46 => 109,
        47 => 104,
        48 => 98,
        49 => 92,
        50 => 86,
        51 => 80,
        52 => 74,
        53 => 68,
        54 => 62,
        55 => 56,
        56 => 50,
        57 => 44,
        58 => 38,
        59 => 31,
        60 => 25,
        61 => 19,
        62 => 13,
        63 => 6,
        _ => 0,
    }
}

/// 8.8 cosine of a 256-direction angle, built from the quarter table by symmetry.
#[verifier::opaque]
pub open spec fn spec_cos8(a: u8) -> int {
    if a <= 64 {
        quarter_cos(a)
    } else if a <= 128 {
        -quarter_cos((128 - a) as u8)
    } else if a <= 192 {
        -quarter_cos((a - 128) as u8)
    } else {
        quarter_cos((256 - a) as u8)
    }
}

/// 8.8 sine: the cosine a quarter turn earlier.
#[verifier::opaque]
pub open spec fn spec_sin8(a: u8) -> int {
    spec_cos8(((a + 192) % 256) as u8)
}

fn quarter_cos_table(i: u8) -> (r: i32)
    requires
        i <= 64,
    ensures
        r == quarter_cos(i),
{
    reveal(quarter_cos);
    match i {
        0 => 256,
        1 => 256,
        2 => 256,
        3 => 255,
        4 => 255,
        5 => 254,
        6 => 253,
        7 => 252,
        8 => 251,
        9 => 250,
        10 => 248,
        11 => 247,
        12 => 245,
        13 => 243,
        14 => 241,
        15 => 239,
        16 => 237,
        17 => 234,
        18 => 231,
        19 => 229,
        20 => 226,
        21 => 223,
        22 => 220,
        23 => 216,
        24 => 213,
        25 => 209,
        26 => 206,
        27 => 202,
        28 => 198,
        29 => 194,
        30 => 190,
        31 => 185,
        32 => 181,
        33 => 177,
        34 => 172,
        35 => 167,
        36 => 162,
        37 => 157,
        38 => 152,
        39 => 147,
        40 => 142,
        41 => 137,
        42 => 132,
        43 => 126,
        44 => 121,
        45 => 115,
        46 => 109,
        47 => 104,
        48 => 98,
        49 => 92,
        50 => 86,
        51 => 80,
        52 => 74,
        53 => 68,
        54 => 62,
        55 => 56,
        56 => 50,
        57 => 44,
        58 => 38,
        59 => 31,
        60 => 25,
        61 => 19,
        62 => 13,
        63 => 6,
        _ => 0,
    }
}

/// 8.8 cosine (`round(256 * cos)`), range -256..=256.
pub fn cos8(a: u8) -> (r: i32)
    ensures
        r == spec_cos8(a),
        -256 <= r <= 256,
{
    proof {
        lemma_quarter_cos_range();
        reveal(spec_cos8);
    }
    if a <= 64 {
        quarter_cos_table(a)
    } else if a <= 128 {
        -quarter_cos_table(128 - a)
    } else if a <= 192 {
        -quarter_cos_table(a - 128)
    } else {
        quarter_cos_table((256 - a as u16) as u8)
    }
}

/// 8.8 sine.
pub fn sin8(a: u8) -> (r: i32)
    ensures
        r == spec_sin8(a),
        -256 <= r <= 256,
{
    reveal(spec_sin8);
    cos8(a.wrapping_add(192))
}

/// Every entry of the quarter table lies in `0..=256`.
pub proof fn lemma_quarter_cos_range()
    ensures
        forall|i: u8| i <= 64 ==> 0 <= #[trigger] quarter_cos(i) <= 256,
{
    reveal(quarter_cos);
}

/// `x >> 8` on an `i32` is floor division by 256.
pub proof fn lemma_shr8_is_floor_div(x: i32)
    ensures
        (x >> 8u32) as int == (x as int) / 256,
{
    assert((x >> 8u32) as int == (x as int) / 256) by (bit_vector);
}

/// Velocity for `angle` and `speed` as `vector2_near` computes it:
/// `(cos8(angle) * speed >> 8, sin8(angle) * speed >> 8)`.
#[verifier::opaque]
pub open spec fn spec_vector2(angle: u8, speed: int) -> (int, int) {
    ((spec_cos8(angle) * speed) / 256, (spec_sin8(angle) * speed) / 256)
}

/// Holds when `vector2(angle, speed)` computes without overflowing `i32`.
pub open spec fn vector2_fits(angle: u8, speed: int) -> bool {
    &&& i32::MIN <= spec_cos8(angle) * speed <= i32::MAX
    &&& i32::MIN <= spec_sin8(angle) * speed <= i32::MAX
}

/// Velocity (subpixels/frame) for an `angle` and `speed` (subpixels), exactly
/// as `vector2_near`: `vx = cos8(angle) * speed >> 8`.
pub fn vector2(angle: u8, speed: i32) -> (r: (i32, i32))
    requires
        vector2_fits(angle, speed as int),
    ensures
        (r.0 as int, r.1 as int) == spec_vector2(angle, speed as int),
{
    let c = cos8(angle);
    let s = sin8(angle);
    let x = c * speed;
    let y = s * speed;
    proof {
        lemma_shr8_is_floor_div(x);
        lemma_shr8_is_floor_div(y);
        reveal(spec_vector2);
    }
    (x >> 8u32, y >> 8u32)
}

/// Any speed of magnitude below 2^23 can be turned into a velocity.
pub proof fn lemma_vector2_fits(angle: u8, speed: int)
    requires
        -0x80_0000 < speed < 0x80_0000,
    ensures
        vector2_fits(angle, speed),
        -0x80_0000 <= spec_vector2(angle, speed).0 < 0x80_0000,
        -0x80_0000 <= spec_vector2(angle, speed).1 < 0x80_0000,
{
    lemma_quarter_cos_range();
    reveal(spec_vector2);
    reveal(spec_cos8);
    reveal(spec_sin8);
    let c = spec_cos8(angle);
    let s = spec_sin8(angle);
    assert(-256 <= c <= 256);
    assert(-256 <= s <= 256);
    assert(-0x8000_0000 < c * speed < 0x8000_0000) by (nonlinear_arith)
        requires -256 <= c <= 256, -0x80_0000 < speed < 0x80_0000;
    assert(-0x8000_0000 < s * speed < 0x8000_0000) by (nonlinear_arith)
        requires -256 <= s <= 256, -0x80_0000 < speed < 0x80_0000;
    assert(-0x80_0000 <= (c * speed) / 256 < 0x80_0000) by (nonlinear_arith)
        requires -0x8000_0000 < c * speed < 0x8000_0000;
    assert(-0x80_0000 <= (s * speed) / 256 < 0x80_0000) by (nonlinear_arith)
        requires -0x8000_0000 < s * speed < 0x8000_0000;
}

/// A velocity is no faster than its speed.
pub proof fn lemma_vector2_bounded(angle: u8, speed: int)
    requires
        -0x80_0000 < speed < 0x80_0000,
    ensures
        -(if speed < 0 { -speed } else { speed }) <= spec_vector2(angle, speed).0 <= (if speed < 0 { -speed } else { speed }),
        -(if speed < 0 { -speed } else { speed }) <= spec_vector2(angle, speed).1 <= (if speed < 0 { -speed } else { speed }),
{
    lemma_quarter_cos_range();
    reveal(spec_vector2);
    reveal(spec_cos8);
    reveal(spec_sin8);
    let c = spec_cos8(angle);
    let s = spec_sin8(angle);
    let m = if speed < 0 { -speed } else { speed };
    assert(-256 <= c <= 256);
    assert(-256 <= s <= 256);
    assert(-256 * m <= c * speed <= 256 * m) by (nonlinear_arith)
        requires -256 <= c <= 256, m == (if speed < 0 { -speed } else { speed });
    assert(-256 * m <= s * speed <= 256 * m) by (nonlinear_arith)
        requires -256 <= s <= 256, m == (if speed < 0 { -speed } else { speed });
    assert(-m <= (c * speed) / 256 <= m) by (nonlinear_arith)
        requires -256 * m <= c * speed <= 256 * m, m >= 0;
    assert(-m <= (s * speed) / 256 <= m) by (nonlinear_arith)
        requires -256 * m <= s * speed <= 256 * m, m >= 0;
}

/// Boundary directions between adjacent angles in the first quadrant:
/// `round(2^60 * (cos, sin)((j + 1/2) * 2pi / 256))` for `j` in `0..64`.
#[verifier::opaque]
pub open spec fn quarter_boundary(j: u8) -> (int, int) {
    match j {
        0 => (1152834691737939372, 14148120384212745),
        1 => (1152140267226902095, 42435838853951081),
        2 => (1150751836500186784, 70697995561142015),
        3 => (1148670235896546445, 98917566439375244),
        4 => (1145896719294348650, 127077553074351439),
        5 => (1142432957356286098, 155160992943091413),
        6 => (1138281036523031876, 183150969631525691),
        7 => (1133443457756445617, 211030623024309801),
        8 => (1127923135033087591, 238783159460727316),
        9 => (1121723393588948188, 266391861850563116),
        10 => (1114847967916450092, 293840099743853440),
        11 => (1107300999514929692, 321111339348447092),
        12 => (1099087034395952739, 348189153489343596),
        13 => (1090211020344966965, 375057231503809161),
        14 => (1080678303940941142, 401699389066310020),
        15 => (1070494627335785829, 428099577937344960),
        16 => (1059666124795495777, 454241895630304715),
        17 => (1048199319005097468, 480110594990535267),
        18 => (1036101117139627550, 505690093680834984),
        19 => (1023378806703508879, 530964983567671893),
        20 => (1010040051140830343, 555920040002467170),
        21 => (996092885219174704, 580540230992354157),
        22 => (981545710189775043, 604810726254888782),
        23 => (966407288726915159, 628716906151257168),
        24 => (950686739649622241, 652244370492599385),
        25 => (934393532428831259, 675378947214144764),
        26 => (917537481483329757, 698106700911933788),
        27 => (900128740267918965, 720413941236984359),
        28 => (882177795157352282, 742287231141846107),
        29 => (863695459129735244, 763713394974575334),
        30 => (844692865253191830, 784679526415255073),
        31 => (825181459979720517, 805172996250279608),
        32 => (805172996250279608, 825181459979720517),
        33 => (784679526415255073, 844692865253191830),
        34 => (763713394974575334, 863695459129735244),
        35 => (742287231141846107, 882177795157352282),
        36 => (720413941236984359, 900128740267918965),
        37 => (698106700911933788, 917537481483329757),
        38 => (675378947214144764, 934393532428831259),
        39 => (652244370492599385, 950686739649622241),
        40 => (628716906151257168, 966407288726915159),
        41 => (604810726254888782, 981545710189775043),
        42 => (580540230992354157, 996092885219174704),
        43 => (555920040002467170, 1010040051140830343),
        44 => (530964983567671893, 1023378806703508879),
        45 => (505690093680834984, 1036101117139627550),
        46 => (480110594990535267, 1048199319005097468),
        47 => (454241895630304715, 1059666124795495777),
        48 => (428099577937344960, 1070494627335785829),
        49 => (401699389066310020, 1080678303940941142),
        50 => (375057231503809161, 1090211020344966965),
        51 => (348189153489343596, 1099087034395952739),
        52 => (321111339348447092, 1107300999514929692),
        53 => (293840099743853440, 1114847967916450092),
        54 => (266391861850563116, 1121723393588948188),
        55 => (238783159460727316, 1127923135033087591),
        56 => (211030623024309801, 1133443457756445617),
        57 => (183150969631525691, 1138281036523031876),
        58 => (155160992943091413, 1142432957356286098),
        59 => (127077553074351439, 1145896719294348650),
        60 => (98917566439375244, 1148670235896546445),
        61 => (70697995561142015, 1150751836500186784),
        62 => (42435838853951081, 1152140267226902095),
        63 => (14148120384212745, 1152834691737939372),
        _ => (0, 0),
    }
}

fn quarter_boundary_table(j: u8) -> (r: (i128, i128))
    requires
        j < 64,
    ensures
        (r.0 as int, r.1 as int) == quarter_boundary(j),
{
    reveal(quarter_boundary);
    match j {
        0 => (1152834691737939372, 14148120384212745),
        1 => (1152140267226902095, 42435838853951081),
        2 => (1150751836500186784, 70697995561142015),
        3 => (1148670235896546445, 98917566439375244),
        4 => (1145896719294348650, 127077553074351439),
        5 => (1142432957356286098, 155160992943091413),
        6 => (1138281036523031876, 183150969631525691),
        7 => (1133443457756445617, 211030623024309801),
        8 => (1127923135033087591, 238783159460727316),
        9 => (1121723393588948188, 266391861850563116),
        10 => (1114847967916450092, 293840099743853440),
        11 => (1107300999514929692, 321111339348447092),
        12 => (1099087034395952739, 348189153489343596),
        13 => (1090211020344966965, 375057231503809161),
        14 => (1080678303940941142, 401699389066310020),
        15 => (1070494627335785829, 428099577937344960),
        16 => (1059666124795495777, 454241895630304715),
        17 => (1048199319005097468, 480110594990535267),
        18 => (1036101117139627550, 505690093680834984),
        19 => (1023378806703508879, 530964983567671893),
        20 => (1010040051140830343, 555920040002467170),
        21 => (996092885219174704, 580540230992354157),
        22 => (981545710189775043, 604810726254888782),
        23 => (966407288726915159, 628716906151257168),
        24 => (950686739649622241, 652244370492599385),
        25 => (934393532428831259, 675378947214144764),
        26 => (917537481483329757, 698106700911933788),
        27 => (900128740267918965, 720413941236984359),
        28 => (882177795157352282, 742287231141846107),
        29 => (863695459129735244, 763713394974575334),
        30 => (844692865253191830, 784679526415255073),
        31 => (825181459979720517, 805172996250279608),
        32 => (805172996250279608, 825181459979720517),
        33 => (784679526415255073, 844692865253191830),
        34 => (763713394974575334, 863695459129735244),
        35 => (742287231141846107, 882177795157352282),
        36 => (720413941236984359, 900128740267918965),
        37 => (698106700911933788, 917537481483329757),
        38 => (675378947214144764, 934393532428831259),
        39 => (652244370492599385, 950686739649622241),
        40 => (628716906151257168, 966407288726915159),
        41 => (604810726254888782, 981545710189775043),
        42 => (580540230992354157, 996092885219174704),
        43 => (555920040002467170, 1010040051140830343),
        44 => (530964983567671893, 1023378806703508879),
        45 => (505690093680834984, 1036101117139627550),
        46 => (480110594990535267, 1048199319005097468),
        47 => (454241895630304715, 1059666124795495777),
        48 => (428099577937344960, 1070494627335785829),
        49 => (401699389066310020, 1080678303940941142),
        50 => (375057231503809161, 1090211020344966965),
        51 => (348189153489343596, 1099087034395952739),
        52 => (321111339348447092, 1107300999514929692),
        53 => (293840099743853440, 1114847967916450092),
        54 => (266391861850563116, 1121723393588948188),
        55 => (238783159460727316, 1127923135033087591),
        56 => (211030623024309801, 1133443457756445617),
        57 => (183150969631525691, 1138281036523031876),
        58 => (155160992943091413, 1142432957356286098),
        59 => (127077553074351439, 1145896719294348650),
        60 => (98917566439375244, 1148670235896546445),
        61 => (70697995561142015, 1150751836500186784),
        62 => (42435838853951081, 1152140267226902095),
        63 => (14148120384212745, 1152834691737939372),
        _ => (0, 0),
    }
}

/// Boundary `j` (for `j` in `0..256`): the first-quadrant boundary turned by a
/// whole number of quarter turns.
pub open spec fn boundary(j: u8) -> (int, int) {
    let b = quarter_boundary(j % 64);
    if j < 64 {
        b
    } else if j < 128 {
        (-b.1, b.0)
    } else if j < 192 {
        (-b.0, -b.1)
    } else {
        (b.1, -b.0)
    }
}

/// 0 for directions with angle in `[0, pi)`, 1 for `[pi, 2pi)`.
pub open spec fn half_turn(x: int, y: int) -> int {
    if y > 0 || (y == 0 && x > 0) { 0 } else { 1 }
}

/// The angle of `(bx, by)` is below the angle of `(x, y)`, angles taken in `[0, 2pi)`.
pub open spec fn angle_below(bx: int, by: int, x: int, y: int) -> bool {
    ||| half_turn(bx, by) < half_turn(x, y)
    ||| (half_turn(bx, by) == half_turn(x, y) && bx * y - by * x > 0)
}

/// Number of boundaries among the first `n` whose angle is below that of `(x, y)`.
pub open spec fn boundaries_below(x: int, y: int, n: nat) -> nat
    decreases n,
{
    if n == 0 {
        0
    } else {
        let b = boundary((n - 1) as u8);
        boundaries_below(x, y, (n - 1) as nat) + if angle_below(b.0, b.1, x, y) { 1nat } else { 0nat }
    }
}

/// The 256-direction angle of `(dx, dy)`: the direction sector it falls in,
/// 0 for the null vector.
#[verifier::opaque]
pub open spec fn spec_iatan2(dy: int, dx: int) -> u8 {
    if dx == 0 && dy == 0 {
        0
    } else {
        (boundaries_below(dx, dy, 256) % 256) as u8
    }
}

fn boundary_table(j: u8) -> (r: (i128, i128))
    ensures
        (r.0 as int, r.1 as int) == boundary(j),
        -0x1000_0000_0000_0001 < r.0 < 0x1000_0000_0000_0001,
        -0x1000_0000_0000_0001 < r.1 < 0x1000_0000_0000_0001,
{
    let b = quarter_boundary_table(j % 64);
    reveal(quarter_boundary);
    assert(0 <= quarter_boundary(j % 64).0 <= 0x1000_0000_0000_0000);
    assert(0 <= quarter_boundary(j % 64).1 <= 0x1000_0000_0000_0000);
    if j < 64 {
        b
    } else if j < 128 {
        (-b.1, b.0)
    } else if j < 192 {
        (-b.0, -b.1)
    } else {
        (b.1, -b.0)
    }
}

/// 256-direction angle of `(dx, dy)`, as ReC98 `iatan2`: the nearest of the
/// 256 directions.
pub fn iatan2(dy: i32, dx: i32) -> (r: u8)
    ensures
        r == spec_iatan2(dy as int, dx as int),
{
    iatan2_wide(dy as i64, dx as i64)
}

/// `iatan2` of a 64-bit offset, for differences of two 32-bit positions.
pub fn iatan2_wide(dy: i64, dx: i64) -> (r: u8)
    ensures
        r == spec_iatan2(dy as int, dx as int),
{
    reveal(spec_iatan2);
    if dx == 0 && dy == 0 {
        return 0;
    }
    let x = dx as i128;
    let y = dy as i128;
    let hv: i128 = if y > 0 || (y == 0 && x > 0) { 0 } else { 1 };
    let mut count: u32 = 0;
    let mut j: u32 = 0;
    while j < 256
        invariant
            j <= 256,
            x == dx,
            y == dy,
            hv == half_turn(x as int, y as int),
            count == boundaries_below(x as int, y as int, j as nat),
            count <= j,
        decreases 256 - j,
    {
        let b = boundary_table(j as u8);
        let hb: i128 = if b.1 > 0 || (b.1 == 0 && b.0 > 0) { 0 } else { 1 };
        assert(-0x8000_0000_0000_0001 < x < 0x8000_0000_0000_0000);
        assert(-0x1000_0000_0000_0000_0000_0000_0000_0000 < b.0 * y < 0x1000_0000_0000_0000_0000_0000_0000_0000) by (nonlinear_arith)
            requires -0x1000_0000_0000_0001 < b.0 < 0x1000_0000_0000_0001, -0x8000_0000_0000_0001 < y < 0x8000_0000_0000_0000;
        assert(-0x1000_0000_0000_0000_0000_0000_0000_0000 < b.1 * x < 0x1000_0000_0000_0000_0000_0000_0000_0000) by (nonlinear_arith)
            requires -0x1000_0000_0000_0001 < b.1 < 0x1000_0000_0000_0001, -0x8000_0000_0000_0001 < x < 0x8000_0000_0000_0000;
        let below = hb < hv || (hb == hv && b.0 * y - b.1 * x > 0);
        if below {
            count = count + 1;
        }
        j = j + 1;
    }
    (count % 256) as u8
}

} // verus!

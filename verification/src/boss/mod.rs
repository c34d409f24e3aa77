//! TH04 bosses (ReC98 `th04_main.asm` boss update functions). This module is
//! the shared boss engine (modelled on `th04/main/boss/boss.cpp`:
//! `boss_stuff_t`, `boss_phase_next`, `boss_hittest_shots`); each boss lives
//! in its own submodule and implements a per-frame update on [`Boss`].
//!
//! All patterns target **Normal** rank. Cosmetic effects carry no collision
//! and are surfaced as non-damaging [`crate::effects`] markers; a local PRNG
//! ([`BossRng`]) drives pattern selection and random angles and positions.
//!
//! Positions and velocities are subpixels (16/px); angles are 256-direction
//! bytes (0 = +x, 64 = +y). See [`crate::math`] and [`crate::bullet`].

use vstd::prelude::*;
use crate::bullet::{BulletPool, BulletTemplate, Bullet, pool_ok, target_ok, origin_ok, cleared, lcg_next, lcg_step,
    pool_after_spawn, blank_template, angle_add, angle_sub};
use crate::bullet::group;
use crate::effects::EffectPool;

pub mod elly;
pub mod kurumi;
pub mod marisa;
pub mod orange;
pub mod reimu;
pub mod yuuka;
pub mod yuuka6;

verus! {

pub const SUBPIXEL: i32 = 16;
/// Playfield bounds (subpixels) used by sub-entity edge tests.
pub const PLAYFIELD_W: i32 = 384;
pub const PLAYFIELD_H: i32 = 368;
/// Boss hitbox half-extent (`BOSS_HITBOX_DEFAULT` = BOSS_W/2 − BOSS_W/8 = 24px).
pub const BOSS_HIT: i32 = 384;
/// Frames the defeat (explode) sequence runs before the stage may advance.
pub const BOSS_DEFEAT_FRAMES: u32 = 120;

/// Which boss this is.
#[derive(Debug, Clone, Copy, PartialEq, Eq, Hash, Structural)]
pub enum BossKind {
    /// Stage 1 — Orange (`@orange_update$qv`).
    Orange,
    /// Stage 2 — Kurumi (`@kurumi_update$qv`).
    Kurumi,
    /// Stage 3 — Elly (`@elly_update$qv`).
    Elly,
    /// Stage 4 rival — Reimu (`@reimu_update$qv`), fought when playing Marisa.
    Reimu,
    /// Stage 4 rival — Marisa (`@marisa_update$qv`), fought when playing Reimu.
    Marisa,
    /// Stage 5 — Yuuka (`@yuuka5_update$qv`).
    Yuuka,
    /// Stage 6 (final) — Yuuka (`@yuuka6_update$qv`).
    Yuuka6,
}

/// The boss's display name.
pub open spec fn spec_boss_name(k: BossKind) -> Seq<char> {
    match k {
        BossKind::Orange => "ORANGE"@,
        BossKind::Kurumi => "KURUMI"@,
        BossKind::Elly => "ELLY"@,
        BossKind::Reimu => "REIMU HAKUREI"@,
        BossKind::Marisa => "MARISA KIRISAME"@,
        BossKind::Yuuka | BossKind::Yuuka6 => "YUUKA KAZAMI"@,
    }
}

/// The boss that ends 0-based stage `stage`: stage 4 (index 3) is the rival
/// fight decided by the player character; stages past the sixth have none.
pub open spec fn spec_for_stage(stage: usize, playing_marisa: bool) -> Option<BossKind> {
    if stage == 0 {
        Some(BossKind::Orange)
    } else if stage == 1 {
        Some(BossKind::Kurumi)
    } else if stage == 2 {
        Some(BossKind::Elly)
    } else if stage == 3 {
        Some(if playing_marisa { BossKind::Reimu } else { BossKind::Marisa })
    } else if stage == 4 {
        Some(BossKind::Yuuka)
    } else if stage == 5 {
        Some(BossKind::Yuuka6)
    } else {
        None
    }
}

impl BossKind {
    /// The boss's display name (for the appears-card / HUD).
    pub fn name(self) -> (r: &'static str)
        ensures
            r@ == spec_boss_name(self),
    {
        match self {
            BossKind::Orange => "ORANGE",
            BossKind::Kurumi => "KURUMI",
            BossKind::Elly => "ELLY",
            BossKind::Reimu => "REIMU HAKUREI",
            BossKind::Marisa => "MARISA KIRISAME",
            BossKind::Yuuka | BossKind::Yuuka6 => "YUUKA KAZAMI",
        }
    }

    /// The boss that ends stage `stage` (0-based: `ST00` = 0 = stage 1).
    /// Stage 4 (index 3) is the rival fight, decided by the player character:
    /// Reimu's player faces Marisa and vice-versa. Stages with no roster boss
    /// (e.g. `ST06`/Extra) return `None`.
    pub fn for_stage(stage: usize, playing_marisa: bool) -> (r: Option<BossKind>)
        ensures
            r == spec_for_stage(stage, playing_marisa),
    {
        match stage {
            0 => Some(BossKind::Orange),
            1 => Some(BossKind::Kurumi),
            2 => Some(BossKind::Elly),
            3 => Some(if playing_marisa { BossKind::Reimu } else { BossKind::Marisa }),
            4 => Some(BossKind::Yuuka),
            5 => Some(BossKind::Yuuka6),
            _ => None,
        }
    }
}

/// Per-frame context handed to a boss update: the bullet pool, the telegraph
/// pool, the player position (for aimed fire) and the global stage frame (for
/// the `stage_frame_mod{2,4,8}` cadences).
pub struct BossEnv {
    pub pool: BulletPool,
    pub fx: EffectPool,
    pub player: (i32, i32),
    pub frame: u16,
}

/// What a boss update asks of its context: a sane pool and a player it can
/// aim at and fire around.
pub open spec fn env_ok(env: BossEnv) -> bool {
    pool_ok(env.pool.bullets@) && target_ok(env.player) && origin_ok(env.player.0 as int, env.player.1 as int)
}

/// A boss update keeps the context sane and leaves the player position and
/// stage frame alone.
pub open spec fn env_kept(a: BossEnv, b: BossEnv) -> bool {
    &&& env_ok(b)
    &&& b.player == a.player
    &&& b.frame == a.frame
}

/// Small deterministic PRNG standing in for TH04's `randring2`: the
/// generator `state * 1103515245 + 12345` (mod 2^32), yielding its high half.
pub struct BossRng {
    pub state: u32,
}

impl BossRng {
    fn new(seed: u32) -> (r: Self)
        ensures
            r.state == seed,
    {
        BossRng { state: seed }
    }

    fn next(&mut self) -> (r: u32)
        ensures
            final(self).state == lcg_next(old(self).state),
            r == final(self).state >> 16u32,
            r < 0x1_0000,
    {
        let st = lcg_step(self.state);
        self.state = st;
        assert(st >> 16u32 < 0x1_0000) by (bit_vector);
        st >> 16u32
    }

    /// `randring2_next16` — a full angle byte.
    pub(crate) fn byte(&mut self) -> (r: u8)
        ensures
            final(self).state == lcg_next(old(self).state),
            r == ((final(self).state >> 16u32) as u8),
    {
        self.next() as u8
    }

    /// `randring2_next16_and(mask)`.
    pub(crate) fn and(&mut self, mask: u32) -> (r: u32)
        ensures
            final(self).state == lcg_next(old(self).state),
            r == ((final(self).state >> 16u32) & mask),
            r <= mask,
    {
        let v = self.next();
        assert(v & mask <= mask) by (bit_vector);
        v & mask
    }

    /// `randring2_next16_mod(n)` (`n` below 1 counts as 1).
    pub(crate) fn modulo(&mut self, n: i32) -> (r: i32)
        ensures
            final(self).state == lcg_next(old(self).state),
            r == ((final(self).state >> 16u32) as int) % (if n < 1 { 1 } else { n as int }),
            0 <= r < (if n < 1 { 1 } else { n as int }),
    {
        let v = self.next();
        let m: u32 = if n < 1 { 1 } else { n as u32 };
        (v % m) as i32
    }
}

/// A Kurumi spawn-ray: a line that grows out from the boss along a fixed
/// direction, fires a burst when its tip leaves the field, then retracts.
#[derive(Clone, Copy)]
pub struct Ray {
    /// 0 = free, 1 = growing, 2 = shrinking.
    pub flag: u8,
    pub ox: i32,
    pub oy: i32,
    pub tx: i32,
    pub ty: i32,
    pub vx: i32,
    pub vy: i32,
}

/// A free ray.
pub open spec fn free_ray() -> Ray {
    Ray { flag: 0, ox: 0, oy: 0, tx: 0, ty: 0, vx: 0, vy: 0 }
}

impl Default for Ray {
    fn default() -> (r: Ray)
        ensures
            r == free_ray(),
    {
        Ray { flag: 0, ox: 0, oy: 0, tx: 0, ty: 0, vx: 0, vy: 0 }
    }
}

/// A boss-controlled satellite (Reimu's orbs / Marisa's bits): spins out from
/// an origin then either keeps orbiting or flies free.
#[derive(Clone, Copy)]
pub struct Orbit {
    /// 0 = free, 1 = spinning out, 2 = moving/orbiting.
    pub flag: u8,
    pub angle: u8,
    pub aspeed: i8,
    pub cx: i32,
    pub cy: i32,
    /// Spin-out origin (the boss position at spawn).
    pub ox: i32,
    pub oy: i32,
    pub vx: i32,
    pub vy: i32,
    pub dist: i32,
    pub spin_time: i32,
    /// Linear speed once moving (subpixels).
    pub mspeed: i32,
    pub hp: i32,
    pub patnum: u8,
}

/// A free satellite.
pub open spec fn free_orbit() -> Orbit {
    Orbit {
        flag: 0,
        angle: 0,
        aspeed: 0,
        cx: 0,
        cy: 0,
        ox: 0,
        oy: 0,
        vx: 0,
        vy: 0,
        dist: 0,
        spin_time: 0,
        mspeed: 0,
        hp: 0,
        patnum: 0,
    }
}

impl Default for Orbit {
    fn default() -> (r: Orbit)
        ensures
            r == free_orbit(),
    {
        Orbit {
            flag: 0,
            angle: 0,
            aspeed: 0,
            cx: 0,
            cy: 0,
            ox: 0,
            oy: 0,
            vx: 0,
            vy: 0,
            dist: 0,
            spin_time: 0,
            mspeed: 0,
            hp: 0,
            patnum: 0,
        }
    }
}

pub struct Boss {
    pub kind: BossKind,
    // --- boss_stuff_t ---
    /// `boss_pos.cur` (subpixels).
    pub x: i32,
    pub y: i32,
    /// `boss_pos.velocity`.
    pub vx: i32,
    pub vy: i32,
    pub hp: i32,
    /// HP-bar maximum (for the HUD).
    pub max_hp: i32,
    pub sprite: u8,
    pub phase: u8,
    pub phase_frame: i32,
    pub mode: i16,
    /// `boss_angle` — shared movement/bullet angle.
    pub angle: u8,
    /// `boss_phase_state` — a counter / per-pattern persistent value.
    pub phase_state: i16,
    pub phase_end_hp: i32,
    // statebyte[14]/[15] of the game's boss state.
    pub pattern_num_prev: i16,
    pub patterns_done: i16,
    /// `boss_statebyte` + per-boss scratch state the per-boss code uses freely.
    pub sb: [i32; 8],
    // --- sub-entities (only some bosses use these) ---
    /// Kurumi spawn-rays (visible; emit bullets at the field edge).
    pub rays: Vec<Ray>,
    /// Reimu orbs / Marisa bits.
    pub orbits: Vec<Orbit>,
    // --- engine bookkeeping ---
    pub defeated: bool,
    pub defeat_frame: u32,
    /// Damage accrued from player shots since the last `hittest`.
    pub damage_pending: i32,
    pub rng: BossRng,
}

/// Starting HP of each boss.
pub open spec fn start_hp(k: BossKind) -> i32 {
    match k {
        BossKind::Orange => 3050,
        BossKind::Kurumi => 4800,
        BossKind::Elly => 6000,
        BossKind::Reimu => 9100,
        BossKind::Marisa => 6000,
        BossKind::Yuuka => 9000,
        BossKind::Yuuka6 => 13300,
    }
}

/// Starting height of each boss (subpixels); all start centred horizontally.
pub open spec fn start_y(k: BossKind) -> i32 {
    match k {
        BossKind::Kurumi => 1024,
        BossKind::Elly | BossKind::Reimu | BossKind::Marisa => 1536,
        _ => 1280,
    }
}

/// The seed of each boss's generator.
pub open spec fn start_seed(k: BossKind) -> u32 {
    match k {
        BossKind::Orange => 0x1234_5678,
        BossKind::Kurumi => 0x0BAD_F00D,
        BossKind::Elly => 0x00C0_FFEE,
        BossKind::Reimu => 0x5EED_1234,
        BossKind::Marisa => 0x5EED_5678,
        BossKind::Yuuka => 0x1234_ABCD,
        BossKind::Yuuka6 => 0xF1A1_6660,
    }
}

/// Number of spawn-rays (Kurumi) and satellites (Reimu's orbs, Marisa's bits,
/// the final Yuuka's chasecross pool) each boss carries.
pub open spec fn ray_count(k: BossKind) -> nat {
    if k == BossKind::Kurumi { 6 } else { 0 }
}

pub open spec fn orbit_count(k: BossKind) -> nat {
    match k {
        BossKind::Reimu => 8,
        BossKind::Marisa => 4,
        BossKind::Yuuka6 => 24,
        _ => 0,
    }
}

/// `b` is a boss freshly spawned with the given kind, HP, position and seed,
/// before its sub-entities are attached.
pub open spec fn fresh_core(b: Boss, kind: BossKind, hp: i32, x: i32, y: i32, seed: u32) -> bool {
    &&& b.kind == kind
    &&& b.x == x && b.y == y && b.vx == 0 && b.vy == 0
    &&& b.hp == hp && b.max_hp == hp && b.phase_end_hp == hp
    &&& b.sprite == 0 && b.phase == 0 && b.phase_frame == 0 && b.mode == 0 && b.angle == 0
    &&& b.phase_state == 0 && b.pattern_num_prev == -1 && b.patterns_done == 0
    &&& b.sb@ == seq![0i32, 0, 0, 0, 0, 0, 0, 0]
    &&& !b.defeated && b.defeat_frame == 0 && b.damage_pending == 0
    &&& b.rng.state == seed
}

/// `b` is boss `kind` as it enters the fight.
pub open spec fn fresh_boss(b: Boss, kind: BossKind) -> bool {
    &&& fresh_core(b, kind, start_hp(kind), 3072, start_y(kind), start_seed(kind))
    &&& b.rays@ == Seq::new(ray_count(kind), |i: int| free_ray())
    &&& b.orbits@ == Seq::new(orbit_count(kind), |i: int| free_orbit())
}

// ---------------------------------------------------------------------------
// Frame bounds

pub open spec fn abs_le(v: int, lim: int) -> bool {
    -lim <= v <= lim
}

/// A ray's ends lie within `lim`; its velocity (set once, from a fixed
/// speed) is small.
pub open spec fn ray_within(r: Ray, lim: int) -> bool {
    &&& abs_le(r.ox as int, lim) && abs_le(r.oy as int, lim)
    &&& abs_le(r.tx as int, lim) && abs_le(r.ty as int, lim)
    &&& abs_le(r.vx as int, 0x1000) && abs_le(r.vy as int, 0x1000)
}

/// A satellite's positions, timers and HP lie within `lim`; its velocity
/// within `lim / 16`, its radius within `lim / 32` and its speed within
/// `lim / 4096` (so trig on the radius and speed stays in range).
pub open spec fn orbit_within(o: Orbit, lim: int) -> bool {
    &&& abs_le(o.cx as int, lim) && abs_le(o.cy as int, lim)
    &&& abs_le(o.ox as int, lim) && abs_le(o.oy as int, lim)
    &&& abs_le(o.vx as int, lim / 16) && abs_le(o.vy as int, lim / 16)
    &&& abs_le(o.dist as int, lim / 32) && abs_le(o.spin_time as int, lim)
    &&& abs_le(o.mspeed as int, lim / 4096) && abs_le(o.hp as int, lim)
}

/// The HP bookkeeping stays within machine integers: the queued damage can
/// be applied to the HP, and a phase threshold can replace it.
pub open spec fn hp_ok(b: Boss) -> bool {
    &&& abs_le(b.phase_end_hp as int, 0x10_0000)
    &&& abs_le(b.max_hp as int, 0x1000_0000)
    &&& abs_le(b.damage_pending as int, 0x1000_0000 - 0x10_0000)
    &&& abs_le(b.hp as int, 0x1000_0000 - (if b.damage_pending < 0 { -b.damage_pending } else { b.damage_pending as int }))
}

/// Every counter, position and scratch value of `b` lies within level `k`
/// (`k * 2^24` for 32-bit values, `k * 2^12` for the 16-bit pattern
/// counters), the HP bookkeeping is sane, and the sub-entity pools have the
/// sizes the boss kind fixes. One level is far more than any boss routine
/// moves a value in a frame, so a routine can take a boss at level `k` and
/// leave it at level `k + 1`; a frame starts at level 1. (Orange reuses
/// `phase_state` as a wrapping speed byte, so it is not bounded there.)
pub open spec fn boss_ok(b: Boss, k: int) -> bool {
    let lim = k * 0x0100_0000;
    let lim16 = k * 0x1000;
    &&& 1 <= k <= 7
    &&& hp_ok(b)
    &&& abs_le(b.x as int, lim) && abs_le(b.y as int, lim)
    &&& abs_le(b.vx as int, lim) && abs_le(b.vy as int, lim)
    &&& 0 <= b.phase_frame <= lim
    &&& abs_le(b.mode as int, lim16) && abs_le(b.pattern_num_prev as int, lim16)
    &&& abs_le(b.patterns_done as int, lim16)
    &&& (b.kind != BossKind::Orange ==> abs_le(b.phase_state as int, lim16))
    &&& b.defeat_frame <= lim
    &&& b.phase < 200
    &&& forall|i: int| 0 <= i < 8 ==> abs_le(#[trigger] b.sb@[i] as int, lim)
    &&& b.rays@.len() == ray_count(b.kind)
    &&& b.orbits@.len() == orbit_count(b.kind)
    &&& forall|i: int| 0 <= i < b.rays@.len() ==> ray_within(#[trigger] b.rays@[i], lim)
    &&& forall|i: int| 0 <= i < b.orbits@.len() ==> orbit_within(#[trigger] b.orbits@[i], lim)
}

/// The eight scratch words of `s` (of length 8) as the boss holds them.
pub open spec fn sb_of(s: Seq<i32>) -> [i32; 8] {
    [s[0], s[1], s[2], s[3], s[4], s[5], s[6], s[7]]
}

pub proof fn lemma_sb_of(a: [i32; 8])
    ensures
        sb_of(a@) == a,
{
    assert(sb_of(a@)@ =~= a@);
}

/// The scratch words a boss holds are `sb_of` of their view, and two
/// eight-word sequences give the same words only when equal.
pub proof fn lemma_sb_eq(a: [i32; 8], s: Seq<i32>)
    requires
        s.len() == 8,
        a@ =~= s,
    ensures
        a == sb_of(s),
{
    lemma_sb_of(a);
}

/// The boss with scratch word `i` set to `v`.
pub open spec fn with_sb(b: Boss, i: int, v: int) -> Boss {
    Boss { sb: sb_of(b.sb@.update(i, v as i32)), ..b }
}

/// `b` is `a` after firing template `t` from (`x`, `y`) at `target`: the
/// pool's bullets and generator are those `BulletPool::spawn` leaves, the
/// rest unchanged.
pub open spec fn fired(a: BossEnv, b: BossEnv, t: BulletTemplate, x: int, y: int, target: (i32, i32)) -> bool {
    &&& (b.pool.bullets@, b.pool.rng) == pool_after_spawn(a.pool.bullets@, a.pool.rng, t, x, y, target)
    &&& b.fx == a.fx
    &&& b.player == a.player
    &&& b.frame == a.frame
}

/// The first free satellite slot from index `j` on (`os.len()` if none).
pub open spec fn first_free_orbit(os: Seq<Orbit>, j: int) -> int
    decreases os.len() - j,
{
    if 0 <= j < os.len() {
        if os[j].flag == 0 { j } else { first_free_orbit(os, j + 1) }
    } else {
        os.len() as int
    }
}

/// The satellites with `o` put in the first free slot (unchanged if none).
pub open spec fn orbit_added(os: Seq<Orbit>, o: Orbit) -> Seq<Orbit> {
    let j = first_free_orbit(os, 0);
    if j < os.len() { os.update(j, o) } else { os }
}

/// No slot in `a..j` is free, so the search from `a` ends where the one
/// from `j` does.
pub proof fn lemma_first_free_orbit(os: Seq<Orbit>, a: int, j: int)
    requires
        0 <= a <= j <= os.len(),
        forall|q: int| a <= q < j ==> (#[trigger] os[q]).flag != 0,
    ensures
        first_free_orbit(os, a) == first_free_orbit(os, j),
    decreases j - a,
{
    if a < j {
        lemma_first_free_orbit(os, a + 1, j);
    }
}

/// The first free ray slot from index `j` on (`rs.len()` if none).
pub open spec fn first_free_ray(rs: Seq<Ray>, j: int) -> int
    decreases rs.len() - j,
{
    if 0 <= j < rs.len() {
        if rs[j].flag == 0 { j } else { first_free_ray(rs, j + 1) }
    } else {
        rs.len() as int
    }
}

/// The rays with `r` put in the first free slot (unchanged if none).
pub open spec fn ray_added(rs: Seq<Ray>, r: Ray) -> Seq<Ray> {
    let j = first_free_ray(rs, 0);
    if j < rs.len() { rs.update(j, r) } else { rs }
}

/// No slot in `a..j` is free, so the search from `a` ends where the one
/// from `j` does.
pub proof fn lemma_first_free_ray(rs: Seq<Ray>, a: int, j: int)
    requires
        0 <= a <= j <= rs.len(),
        forall|q: int| a <= q < j ==> (#[trigger] rs[q]).flag != 0,
    ensures
        first_free_ray(rs, a) == first_free_ray(rs, j),
    decreases j - a,
{
    if a < j {
        lemma_first_free_ray(rs, a + 1, j);
    }
}

/// The boss after a hit test: one more frame in the phase, queued damage
/// taken off the HP.
pub open spec fn hit_tested(b: Boss) -> Boss {
    Boss {
        phase_frame: (b.phase_frame + 1) as i32,
        hp: (b.hp - b.damage_pending) as i32,
        damage_pending: 0,
        ..b
    }
}

/// The boss after `phase_next`: the next phase from its first frame, HP
/// topped up to the old threshold and `next_end` armed as the new one.
pub open spec fn phase_advanced(b: Boss, next_end: i32) -> Boss {
    Boss {
        phase: (b.phase + 1) as u8,
        phase_frame: 0,
        mode: 0,
        patterns_done: 0,
        phase_state: 0,
        hp: b.phase_end_hp,
        phase_end_hp: next_end,
        ..b
    }
}

/// A boss routine's frame: the boss stays the same kind, keeps its HP bar
/// maximum, never goes back to an earlier phase, moves at most one bound
/// level and never leaves the defeat sequence.
pub open spec fn boss_stepped(a: Boss, b: Boss, k: int) -> bool {
    &&& b.kind == a.kind
    &&& b.max_hp == a.max_hp
    &&& b.phase >= a.phase
    &&& boss_ok(b, k)
    &&& (a.defeated ==> b.defeated)
}

/// A boss within level `k` is within every higher level.
pub broadcast proof fn lemma_boss_ok_mono(b: Boss, k: int, j: int)
    requires
        boss_ok(b, k),
        k <= j <= 7,
    ensures
        #![trigger boss_ok(b, k), boss_ok(b, j)]
        boss_ok(b, j),
{
    assert forall|i: int| 0 <= i < b.rays@.len() implies ray_within(#[trigger] b.rays@[i], j * 0x0100_0000) by {
        assert(ray_within(b.rays@[i], k * 0x0100_0000));
    }
    assert forall|i: int| 0 <= i < b.orbits@.len() implies orbit_within(#[trigger] b.orbits@[i], j * 0x0100_0000) by {
        assert(orbit_within(b.orbits@[i], k * 0x0100_0000));
    }
    assert forall|i: int| 0 <= i < 8 implies abs_le(#[trigger] b.sb@[i] as int, j * 0x0100_0000) by {
        assert(abs_le(b.sb@[i] as int, k * 0x0100_0000));
    }
}

/// `v >> 8` on a signed value: division by 256 rounding down.
pub fn shr8(v: i32) -> (r: i32)
    ensures
        r as int == (v as int) / 256,
{
    proof {
        crate::math::lemma_shr8_is_floor_div(v);
    }
    v >> 8u32
}

/// `a / d` rounding toward zero (Rust's signed division).
pub open spec fn div_trunc(a: int, d: int) -> int {
    let q = (if a < 0 { -a } else { a }) / (if d < 0 { -d } else { d });
    if (a < 0) == (d < 0) { q } else { -q }
}

/// A quotient is no larger than its dividend.
pub proof fn lemma_div_trunc_le(a: int, d: int)
    requires
        d != 0,
    ensures
        abs_le(div_trunc(a, d), if a < 0 { -a } else { a }),
{
    let ua = if a < 0 { -a } else { a };
    let ud = if d < 0 { -d } else { d };
    assert(0 <= ua / ud <= ua) by (nonlinear_arith)
        requires ua >= 0, ud >= 1;
}

/// Rust's signed division on `i32`, for a non-zero divisor and no overflow.
pub fn div_i32(a: i32, d: i32) -> (r: i32)
    requires
        d != 0,
        a > i32::MIN,
        d > i32::MIN,
    ensures
        r as int == div_trunc(a as int, d as int),
{
    let ua: i32 = if a < 0 { -a } else { a };
    let ud: i32 = if d < 0 { -d } else { d };
    let q = ua / ud;
    if (a < 0) == (d < 0) { q } else { -q }
}

impl Boss {
    fn new(kind: BossKind, hp: i32, x: i32, y: i32, seed: u32) -> (r: Self)
        ensures
            fresh_core(r, kind, hp, x, y, seed),
            r.rays@.len() == 0,
            r.orbits@.len() == 0,
    {
        let b = Boss {
            kind,
            x,
            y,
            vx: 0,
            vy: 0,
            hp,
            max_hp: hp,
            sprite: 0,
            phase: 0,
            phase_frame: 0,
            mode: 0,
            angle: 0,
            phase_state: 0,
            phase_end_hp: hp,
            pattern_num_prev: -1,
            patterns_done: 0,
            sb: [0; 8],
            rays: Vec::new(),
            orbits: Vec::new(),
            defeated: false,
            defeat_frame: 0,
            damage_pending: 0,
            rng: BossRng::new(seed),
        };
        assert(b.sb@ =~= seq![0i32, 0, 0, 0, 0, 0, 0, 0]);
        b
    }

    /// Stage 1 boss Orange (HP 3050, centre-top).
    pub fn orange() -> (r: Self)
        ensures
            fresh_boss(r, BossKind::Orange),
    {
        let b = Self::new(BossKind::Orange, 3050, 192 * SUBPIXEL, 80 * SUBPIXEL, 0x1234_5678);
        assert(b.rays@ =~= Seq::new(0, |i: int| free_ray()));
        assert(b.orbits@ =~= Seq::new(0, |i: int| free_orbit()));
        b
    }

    /// Stage 2 boss Kurumi (HP 4800, centre-top). Phase 0 sets the thresholds.
    pub fn kurumi() -> (r: Self)
        ensures
            fresh_boss(r, BossKind::Kurumi),
    {
        let mut b = Self::new(BossKind::Kurumi, 4800, 192 * SUBPIXEL, 64 * SUBPIXEL, 0x0BAD_F00D);
        b.rays = vec![Ray::default(); 6];
        assert(b.rays@ =~= Seq::new(6, |i: int| free_ray()));
        assert(b.orbits@ =~= Seq::new(0, |i: int| free_orbit()));
        b
    }

    /// Stage 3 boss Elly (HP 6000, centre-top).
    pub fn elly() -> (r: Self)
        ensures
            fresh_boss(r, BossKind::Elly),
    {
        let b = Self::new(BossKind::Elly, 6000, 192 * SUBPIXEL, 96 * SUBPIXEL, 0x00C0_FFEE);
        assert(b.rays@ =~= Seq::new(0, |i: int| free_ray()));
        assert(b.orbits@ =~= Seq::new(0, |i: int| free_orbit()));
        b
    }

    /// Stage 4 rival Reimu (HP 9100) — the fight when playing as Marisa.
    pub fn reimu() -> (r: Self)
        ensures
            fresh_boss(r, BossKind::Reimu),
    {
        let mut b = Self::new(BossKind::Reimu, 9100, 192 * SUBPIXEL, 96 * SUBPIXEL, 0x5EED_1234);
        b.orbits = vec![Orbit::default(); 8];
        assert(b.rays@ =~= Seq::new(0, |i: int| free_ray()));
        assert(b.orbits@ =~= Seq::new(8, |i: int| free_orbit()));
        b
    }

    /// Stage 4 rival Marisa (HP 6000) — the fight when playing as Reimu.
    pub fn marisa() -> (r: Self)
        ensures
            fresh_boss(r, BossKind::Marisa),
    {
        let mut b = Self::new(BossKind::Marisa, 6000, 192 * SUBPIXEL, 96 * SUBPIXEL, 0x5EED_5678);
        b.orbits = vec![Orbit::default(); 4];
        assert(b.rays@ =~= Seq::new(0, |i: int| free_ray()));
        assert(b.orbits@ =~= Seq::new(4, |i: int| free_orbit()));
        b
    }

    /// Stage 5 boss Yuuka (HP 9000, centre-top).
    pub fn yuuka() -> (r: Self)
        ensures
            fresh_boss(r, BossKind::Yuuka),
    {
        let b = Self::new(BossKind::Yuuka, 9000, 192 * SUBPIXEL, 80 * SUBPIXEL, 0x1234_ABCD);
        assert(b.rays@ =~= Seq::new(0, |i: int| free_ray()));
        assert(b.orbits@ =~= Seq::new(0, |i: int| free_orbit()));
        b
    }

    /// Stage 6 (final) boss Yuuka (HP 13300). Phase 1 sets the thresholds.
    pub fn yuuka6() -> (r: Self)
        ensures
            fresh_boss(r, BossKind::Yuuka6),
    {
        let mut b = Self::new(BossKind::Yuuka6, 13300, 192 * SUBPIXEL, 80 * SUBPIXEL, 0xF1A1_6660);
        b.orbits = vec![Orbit::default(); 24];
        assert(b.rays@ =~= Seq::new(0, |i: int| free_ray()));
        assert(b.orbits@ =~= Seq::new(24, |i: int| free_orbit()));
        b
    }

    /// Construct the boss for a [`BossKind`].
    pub fn from_kind(kind: BossKind) -> (r: Self)
        ensures
            fresh_boss(r, kind),
    {
        match kind {
            BossKind::Orange => Self::orange(),
            BossKind::Kurumi => Self::kurumi(),
            BossKind::Elly => Self::elly(),
            BossKind::Reimu => Self::reimu(),
            BossKind::Marisa => Self::marisa(),
            BossKind::Yuuka => Self::yuuka(),
            BossKind::Yuuka6 => Self::yuuka6(),
        }
    }

    /// Which boss this is (for sprite/HUD lookup).
    pub fn kind(&self) -> (r: BossKind)
        ensures
            r == self.kind,
    {
        self.kind
    }

    /// True once the defeat animation has finished (stage may advance).
    pub fn done(&self) -> (r: bool)
        ensures
            r == (self.defeated && self.defeat_frame >= BOSS_DEFEAT_FRAMES),
    {
        self.defeated && self.defeat_frame >= BOSS_DEFEAT_FRAMES
    }

    /// Defeat-animation progress (frames since defeat began); pair with
    /// [`Boss::DEFEAT_FRAMES`] for the 0..1 fraction.
    pub fn defeat_frame(&self) -> (r: u32)
        ensures
            r == self.defeat_frame,
    {
        self.defeat_frame
    }

    /// Total frames the defeat (explosion) sequence runs.
    pub const DEFEAT_FRAMES: u32 = 120;

    /// Queue player-shot (or bomb) damage; consumed at the boss's hittest point.
    pub fn damage(&mut self, dmg: i32)
        requires
            !old(self).defeated ==> i32::MIN <= old(self).damage_pending + dmg <= i32::MAX,
        ensures
            old(self).defeated ==> *final(self) == *old(self),
            !old(self).defeated ==> *final(self) == (Boss { damage_pending: (old(self).damage_pending + dmg) as i32, ..*old(self) }),
            *final(self) == boss_damaged(*old(self), dmg as int),
    {
        if !self.defeated {
            self.damage_pending = self.damage_pending + dmg;
        }
    }

    /// Replace satellite `i`, keeping the boss within its bound level.
    fn set_orbit(&mut self, i: usize, o: Orbit, Ghost(k): Ghost<int>)
        requires
            boss_ok(*old(self), k),
            i < old(self).orbits@.len(),
            orbit_within(o, k * 0x0100_0000),
        ensures
            boss_ok(*final(self), k),
            *final(self) == (Boss { orbits: final(self).orbits, ..*old(self) }),
            final(self).orbits@ == old(self).orbits@.update(i as int, o),
    {
        let ghost before = self.orbits@;
        self.orbits.set(i, o);
        assert forall|m: int| 0 <= m < self.orbits@.len() implies orbit_within(#[trigger] self.orbits@[m], k * 0x0100_0000) by {
            if m != i {
                assert(orbit_within(before[m], k * 0x0100_0000));
            }
        }
    }

    /// `PlayfieldMotion::update` — step by `velocity`, return the new x.
    fn move_step(&mut self) -> (r: i32)
        requires
            i32::MIN <= old(self).x + old(self).vx <= i32::MAX,
            i32::MIN <= old(self).y + old(self).vy <= i32::MAX,
        ensures
            *final(self) == (Boss { x: (old(self).x + old(self).vx) as i32, y: (old(self).y + old(self).vy) as i32, ..*old(self) }),
            r == final(self).x,
    {
        self.x = self.x + self.vx;
        self.y = self.y + self.vy;
        self.x
    }

    /// `boss_hittest_shots` (TH04): increments `phase_frame`, applies queued
    /// damage, returns true once HP has dropped to the phase threshold.
    fn hittest(&mut self) -> (r: bool)
        requires
            old(self).phase_frame < i32::MAX,
            i32::MIN <= old(self).hp - old(self).damage_pending <= i32::MAX,
        ensures
            *final(self) == (Boss {
                phase_frame: (old(self).phase_frame + 1) as i32,
                hp: (old(self).hp - old(self).damage_pending) as i32,
                damage_pending: 0,
                ..*old(self)
            }),
            r == (final(self).hp <= final(self).phase_end_hp),
    {
        self.phase_frame = self.phase_frame + 1;
        self.hp = self.hp - self.damage_pending;
        self.damage_pending = 0;
        self.hp <= self.phase_end_hp
    }

    /// `boss_hittest_shots_invincible` — bumps `phase_frame`, drops the damage.
    fn hittest_invincible(&mut self)
        requires
            old(self).phase_frame < i32::MAX,
        ensures
            *final(self) == (Boss { phase_frame: (old(self).phase_frame + 1) as i32, damage_pending: 0, ..*old(self) }),
    {
        self.phase_frame = self.phase_frame + 1;
        self.damage_pending = 0;
    }

    /// `boss_hittest_shots_damage` (phases that bump `phase_frame` themselves).
    fn hittest_damage(&mut self)
        requires
            i32::MIN <= old(self).hp - old(self).damage_pending <= i32::MAX,
        ensures
            *final(self) == (Boss { hp: (old(self).hp - old(self).damage_pending) as i32, damage_pending: 0, ..*old(self) }),
    {
        self.hp = self.hp - self.damage_pending;
        self.damage_pending = 0;
    }

    /// `boss_phase_next`: advance phase, clear the screen, top HP up to the old
    /// threshold and arm the next one.
    fn phase_next(&mut self, next_end_hp: i32, pool: &mut BulletPool)
        requires
            old(self).phase < 255,
        ensures
            *final(self) == (Boss {
                phase: (old(self).phase + 1) as u8,
                phase_frame: 0,
                mode: 0,
                patterns_done: 0,
                phase_state: 0,
                hp: old(self).phase_end_hp,
                phase_end_hp: next_end_hp,
                ..*old(self)
            }),
            final(pool).bullets@ == cleared(old(pool).bullets@),
            final(pool).rng == old(pool).rng,
            pool_ok(final(pool).bullets@),
    {
        pool.clear_all();
        self.phase = self.phase + 1;
        self.phase_frame = 0;
        self.mode = 0;
        self.patterns_done = 0;
        self.phase_state = 0;
        self.hp = self.phase_end_hp;
        self.phase_end_hp = next_end_hp;
    }

    /// Set scratch word `i` to `v`.
    pub(crate) fn set_sb(&mut self, i: usize, v: i32)
        requires
            i < 8,
        ensures
            *final(self) == with_sb(*old(self), i as int, v as int),
    {
        self.sb[i] = v;
        proof {
            lemma_sb_eq(self.sb, old(self).sb@.update(i as int, v));
        }
    }

    /// Enter the defeat (explosion) sequence: invulnerable, no more attacks.
    fn begin_defeat(&mut self, pool: &mut BulletPool)
        ensures
            *final(self) == (Boss { defeated: true, defeat_frame: 0, ..*old(self) }),
            final(pool).bullets@ == cleared(old(pool).bullets@),
            final(pool).rng == old(pool).rng,
            pool_ok(final(pool).bullets@),
    {
        self.defeated = true;
        self.defeat_frame = 0;
        pool.clear_all();
    }
}

/// The state each boss's own routines rely on, beyond the shared bounds.
pub open spec fn kind_ok(b: Boss) -> bool {
    match b.kind {
        BossKind::Elly => elly::elly_state_ok(b),
        BossKind::Reimu => b.phase_state >= 0 && -0x20 <= b.sb@[0] <= 0x20 && 0 <= b.sb@[2] <= 3,
        BossKind::Marisa => marisa::marisa_state_ok(b),
        BossKind::Yuuka => yuuka::yuuka_state_ok(b),
        BossKind::Yuuka6 => b.phase_state >= 0,
        _ => true,
    }
}

/// What a boss frame asks: a live boss within the first bound level with its
/// own state sane (a defeated one only needs room to count), and a sane
/// context.
pub open spec fn update_ok(b: Boss, env: BossEnv) -> bool {
    &&& env_ok(env)
    &&& !b.defeated ==> boss_ok(b, 1) && kind_ok(b)
    &&& b.defeated ==> b.defeat_frame < u32::MAX
}

/// A boss that has just entered the fight can run its first frame.
pub proof fn lemma_fresh_boss_ok(b: Boss, kind: BossKind)
    requires
        fresh_boss(b, kind),
    ensures
        boss_ok(b, 1),
        kind_ok(b),
        !b.defeated,
{
    assert forall|i: int| 0 <= i < b.orbits@.len() implies orbit_within(#[trigger] b.orbits@[i], 0x0100_0000) by {
        assert(b.orbits@[i] == free_orbit());
    }
    assert forall|i: int| 0 <= i < b.rays@.len() implies ray_within(#[trigger] b.rays@[i], 0x0100_0000) by {
        assert(b.rays@[i] == free_ray());
    }
    assert forall|i: int| 0 <= i < 8 implies abs_le(#[trigger] b.sb@[i] as int, 0x0100_0000) by {}
    if kind == BossKind::Marisa {
        assert forall|i: int| 0 <= i < b.orbits@.len() implies -0x20 <= #[trigger] b.orbits@[i].aspeed <= 0x20 by {
            assert(b.orbits@[i] == free_orbit());
        }
    }
}

/// `|v| <= lim`, for a 32-bit value.
fn within(v: i32, lim: i32) -> (r: bool)
    requires
        lim >= 0,
    ensures
        r == abs_le(v as int, lim as int),
{
    -lim <= v && v <= lim
}

impl Boss {
    /// Whether `update` can run this boss's next frame: a live boss within
    /// the first bound level with its own state sane, or a defeated one with
    /// room to count its defeat sequence.
    pub fn frame_ready(&self) -> (r: bool)
        ensures
            r == (if self.defeated { self.defeat_frame < u32::MAX } else { boss_ok(*self, 1) && kind_ok(*self) }),
    {
        if self.defeated {
            return self.defeat_frame < u32::MAX;
        }
        let lim: i32 = 0x0100_0000;
        let lim16: i16 = 0x1000;
        let pend: i64 = self.damage_pending as i64;
        let apend: i64 = if pend < 0 { -pend } else { pend };
        let hp_fits = within(self.phase_end_hp, 0x10_0000) && within(self.max_hp, 0x1000_0000)
            && within(self.damage_pending, 0x1000_0000 - 0x10_0000)
            && -(0x1000_0000 - apend) <= self.hp as i64 && self.hp as i64 <= 0x1000_0000 - apend;
        let core = hp_fits && within(self.x, lim) && within(self.y, lim) && within(self.vx, lim) && within(self.vy, lim)
            && 0 <= self.phase_frame && self.phase_frame <= lim
            && -lim16 <= self.mode && self.mode <= lim16
            && -lim16 <= self.pattern_num_prev && self.pattern_num_prev <= lim16
            && -lim16 <= self.patterns_done && self.patterns_done <= lim16
            && (self.kind == BossKind::Orange || (-lim16 <= self.phase_state && self.phase_state <= lim16))
            && self.defeat_frame <= 0x0100_0000 && self.phase < 200;
        if !core {
            assert(!boss_ok(*self, 1));
            return false;
        }
        let mut i: usize = 0;
        while i < 8
            invariant
                !self.defeated,
                i <= 8,
                forall|j: int| 0 <= j < i ==> abs_le(#[trigger] self.sb@[j] as int, 0x0100_0000),
            decreases 8 - i,
        {
            if !within(self.sb[i], 0x0100_0000) {
                assert(!boss_ok(*self, 1));
                return false;
            }
            i = i + 1;
        }
        let rays: usize = if self.kind == BossKind::Kurumi { 6 } else { 0 };
        let orbits: usize = match self.kind {
            BossKind::Reimu => 8,
            BossKind::Marisa => 4,
            BossKind::Yuuka6 => 24,
            _ => 0,
        };
        if self.rays.len() != rays || self.orbits.len() != orbits {
            return false;
        }
        let mut k: usize = 0;
        while k < self.rays.len()
            invariant
                !self.defeated,
                k <= self.rays@.len(),
                forall|j: int| 0 <= j < k ==> ray_within(#[trigger] self.rays@[j], 0x0100_0000),
            decreases self.rays@.len() - k,
        {
            let r = self.rays[k];
            let lim: i32 = 0x0100_0000;
            if !(within(r.ox, lim) && within(r.oy, lim) && within(r.tx, lim) && within(r.ty, lim)
                && within(r.vx, 0x1000) && within(r.vy, 0x1000)) {
                assert(!ray_within(self.rays@[k as int], 0x0100_0000));
                return false;
            }
            k = k + 1;
        }
        let mut k: usize = 0;
        while k < self.orbits.len()
            invariant
                !self.defeated,
                k <= self.orbits@.len(),
                forall|j: int| 0 <= j < k ==> orbit_within(#[trigger] self.orbits@[j], 0x0100_0000),
            decreases self.orbits@.len() - k,
        {
            let o = self.orbits[k];
            let lim: i32 = 0x0100_0000;
            if !(within(o.cx, lim) && within(o.cy, lim) && within(o.ox, lim) && within(o.oy, lim)
                && within(o.vx, 0x10_0000) && within(o.vy, 0x10_0000) && within(o.dist, 0x8_0000)
                && within(o.spin_time, lim) && within(o.mspeed, 0x1000) && within(o.hp, lim)) {
                assert(!orbit_within(self.orbits@[k as int], 0x0100_0000));
                return false;
            }
            k = k + 1;
        }
        assert(boss_ok(*self, 1));
        match self.kind {
            BossKind::Elly => {
                0 <= self.sb[0] && self.sb[0] <= 4 && within(self.sb[2], 0x0040_0000)
                    && !(self.mode == 4 && self.phase_frame >= 16 && (self.sb[5] as i8) == -128i8)
            },
            BossKind::Reimu => self.phase_state >= 0 && within(self.sb[0], 0x20) && 0 <= self.sb[2] && self.sb[2] <= 3,
            BossKind::Marisa => {
                if !within(self.sb[7], 0x20) {
                    assert(!marisa::marisa_state_ok(*self));
                    return false;
                }
                let mut k: usize = 0;
                while k < self.orbits.len()
                    invariant
                        !self.defeated,
                        self.kind == BossKind::Marisa,
                        k <= self.orbits@.len(),
                        -0x20 <= self.sb@[7] <= 0x20,
                        forall|j: int| 0 <= j < k ==> -0x20 <= #[trigger] self.orbits@[j].aspeed <= 0x20,
                    decreases self.orbits@.len() - k,
                {
                    let a = self.orbits[k].aspeed;
                    if a < -0x20 || a > 0x20 {
                        assert(!marisa::marisa_state_ok(*self));
                        return false;
                    }
                    k = k + 1;
                }
                true
            },
            BossKind::Yuuka => self.phase_state >= 0 && self.phase_end_hp >= -0x8_0000,
            BossKind::Yuuka6 => self.phase_state >= 0,
            _ => true,
        }
    }
}

/// A live boss's frame: each boss runs its routine's frame (see each boss's
/// `*_update_post`): movement, what its patterns fire, the hit test, the HP
/// thresholds, the phase changes and the defeat.
pub open spec fn boss_frame_post(o: Boss, oe: BossEnv, b: Boss, e: BossEnv) -> bool {
    match o.kind {
        BossKind::Orange => orange::orange_update_post(o, oe, b, e),
        BossKind::Yuuka => yuuka::yuuka_update_post(o, oe, b, e),
        BossKind::Yuuka6 => yuuka6::y6_update_post(o, oe, b, e),
        BossKind::Elly => elly::elly_update_post(o, oe, b, e),
        BossKind::Kurumi => kurumi::kurumi_update_post(o, oe, b, e),
        BossKind::Reimu => reimu::reimu_update_post(o, oe, b, e),
        BossKind::Marisa => marisa::marisa_update_post(o, oe, b, e),
    }
}

/// A boss after `Boss::damage(dmg)`: the damage joins the queue, and a
/// defeated boss is left as it was.
pub open spec fn boss_damaged(b: Boss, dmg: int) -> Boss {
    if b.defeated { b } else { Boss { damage_pending: (b.damage_pending + dmg) as i32, ..b } }
}

/// A defeated boss after one `Boss::update`: only its defeat count moves.
pub open spec fn defeat_tick(b: Boss) -> Boss {
    Boss { defeat_frame: (b.defeat_frame + 1) as u32, ..b }
}

/// A defeated boss after `n` updates.
pub open spec fn defeat_ticks(b: Boss, n: nat) -> Boss
    decreases n,
{
    if n == 0 { b } else { defeat_tick(defeat_ticks(b, (n - 1) as nat)) }
}

/// Damage is only queued: `Boss::damage` leaves HP, phase and the defeat
/// flag as they were (the hit test of the next update takes the queue), on a
/// defeated boss it changes nothing at all, and no number of updates after
/// the defeat lowers the HP or clears the flag.
pub proof fn law_damage_queued(b: Boss, dmg: int, n: nat)
    ensures
        boss_damaged(b, dmg).hp == b.hp,
        boss_damaged(b, dmg).phase == b.phase,
        boss_damaged(b, dmg).defeated == b.defeated,
        b.defeated ==> boss_damaged(b, dmg) == b,
        b.defeated ==> defeat_ticks(b, n).hp == b.hp && defeat_ticks(b, n).defeated,
    decreases n,
{
    if n > 0 {
        law_damage_queued(b, dmg, (n - 1) as nat);
    }
}

impl Boss {
    /// Advance one frame: movement + attacks (fires into `env.pool`). A
    /// defeated boss only counts its defeat sequence.
    pub fn update(&mut self, env: &mut BossEnv)
        requires
            update_ok(*old(self), *old(env)),
        ensures
            old(self).defeated ==> *final(self) == (Boss { defeat_frame: (old(self).defeat_frame + 1) as u32, ..*old(self) }),
            old(self).defeated ==> *final(self) == defeat_tick(*old(self)),
            old(self).defeated ==> *final(env) == *old(env),
            !old(self).defeated ==> boss_stepped(*old(self), *final(self), 7),
            env_kept(*old(env), *final(env)),
            !old(self).defeated ==> boss_frame_post(*old(self), *old(env), *final(self), *final(env)),
    {
        if self.defeated {
            self.defeat_frame = self.defeat_frame + 1;
            return;
        }
        match self.kind {
            BossKind::Orange => self.orange_update(env),
            BossKind::Kurumi => self.kurumi_update(env),
            BossKind::Elly => self.elly_update(env),
            BossKind::Reimu => self.reimu_update(env),
            BossKind::Marisa => self.marisa_update(env),
            BossKind::Yuuka => self.yuuka_update(env),
            BossKind::Yuuka6 => self.yuuka6_update(env),
        }
    }
}

// ---------------------------------------------------------------------------
// Stage-1 midboss

/// Stage-1 midboss HP (the HUD bar maximum).
pub const MIDBOSS1_HP: i32 = 620;
pub const MIDBOSS_ENTRANCE_FRAMES: u32 = 96;
pub const MIDBOSS_TARGET_Y: i32 = 1536;

/// Stage-1 midboss, reverse-engineered from `midboss1_update`
/// (th04_main.asm). Phases: entrance (descend) → attack. The attack is
/// `sub_13FB2`: every 8 frames fire a symmetric pair of blue Bullet16s at
/// angle θ and 128−θ, with θ stepping by 0x0C each shot (a sweeping spray,
/// speed 2px). It activates mid-stage and pauses the trash timeline until
/// defeated.
pub struct Midboss {
    pub x: i32,
    pub y: i32,
    pub hp: i32,
    /// 0 = entrance, 1 = attack.
    pub phase: u8,
    pub phase_frame: u32,
    pub defeated: bool,
    pub defeat_frame: u32,
    /// `byte_25594`.
    pub sweep: u8,
}

/// The template of one bullet of the midboss's sweeping pair.
pub open spec fn sweep_shot(angle: u8) -> BulletTemplate {
    BulletTemplate { group: group::SINGLE, count: 1, speed: 32, angle, ..blank_template() }
}

/// One midboss frame: the new midboss and pool contents and generator.
pub open spec fn midboss_next(m: Midboss, bs: Seq<Bullet>, rng: u32) -> (Midboss, Seq<Bullet>, u32) {
    if m.defeated {
        (Midboss { defeat_frame: (m.defeat_frame + 1) as u32, ..m }, bs, rng)
    } else {
        let f = (m.phase_frame + 1) as u32;
        if m.phase == 0 {
            let y = m.y + 32;
            if y >= MIDBOSS_TARGET_Y && f >= MIDBOSS_ENTRANCE_FRAMES {
                (Midboss { y: MIDBOSS_TARGET_Y, phase: 1, phase_frame: 0, sweep: 1, ..m }, bs, rng)
            } else {
                (Midboss { y: y as i32, phase_frame: f, ..m }, bs, rng)
            }
        } else if f % 8 == 0 {
            let r1 = pool_after_spawn(bs, rng, sweep_shot(m.sweep), m.x as int, m.y - 16, (0, 0));
            let r2 = pool_after_spawn(r1.0, r1.1, sweep_shot(angle_sub(0x80, m.sweep)), m.x as int, m.y - 16, (0, 0));
            (Midboss { phase_frame: f, sweep: angle_add(m.sweep, 0x0c), ..m }, r2.0, r2.1)
        } else {
            (Midboss { phase_frame: f, ..m }, bs, rng)
        }
    }
}

/// What a midboss frame asks: counters with room to count, and a position
/// the bullet system can fire from.
pub open spec fn midboss_frame_ok(m: Midboss) -> bool {
    if m.defeated {
        m.defeat_frame < u32::MAX
    } else {
        &&& m.phase_frame < u32::MAX
        &&& m.phase == 0 ==> m.y + 32 <= i32::MAX
        &&& m.phase != 0 ==> origin_ok(m.x as int, m.y - 16)
    }
}

impl Midboss {
    pub fn new(x: i32) -> (r: Self)
        ensures
            r == (Midboss { x, y: -512i32, hp: MIDBOSS1_HP, phase: 0, phase_frame: 0, defeated: false, defeat_frame: 0, sweep: 1 }),
    {
        Midboss { x, y: -32 * SUBPIXEL, hp: MIDBOSS1_HP, phase: 0, phase_frame: 0, defeated: false, defeat_frame: 0, sweep: 1 }
    }

    /// Whether `update` can run this midboss's next frame (`midboss_frame_ok`).
    pub fn frame_ready(&self) -> (r: bool)
        ensures
            r == midboss_frame_ok(*self),
    {
        if self.defeated {
            self.defeat_frame < u32::MAX
        } else {
            let y16: i64 = self.y as i64 - 16;
            self.phase_frame < u32::MAX && (self.phase != 0 || self.y as i64 + 32 <= i32::MAX as i64)
                && (self.phase == 0 || (-0x0800_0000 <= self.x && self.x <= 0x0800_0000 && -0x0800_0000 <= y16
                && y16 <= 0x0800_0000))
        }
    }

    pub fn done(&self) -> (r: bool)
        ensures
            r == (self.defeated && self.defeat_frame >= BOSS_DEFEAT_FRAMES),
    {
        self.defeated && self.defeat_frame >= BOSS_DEFEAT_FRAMES
    }

    /// Invulnerable during the entrance and once defeated; HP at or below 0
    /// starts the defeat sequence.
    pub fn damage(&mut self, dmg: i32)
        requires
            !old(self).defeated && old(self).phase != 0 ==> i32::MIN <= old(self).hp - dmg <= i32::MAX,
        ensures
            old(self).defeated || old(self).phase == 0 ==> *final(self) == *old(self),
            !old(self).defeated && old(self).phase != 0 ==> *final(self) == (if old(self).hp - dmg <= 0 {
                Midboss { hp: (old(self).hp - dmg) as i32, defeated: true, defeat_frame: 0, ..*old(self) }
            } else {
                Midboss { hp: (old(self).hp - dmg) as i32, ..*old(self) }
            }),
    {
        if self.defeated || self.phase == 0 {
            return;
        }
        self.hp = self.hp - dmg;
        if self.hp <= 0 {
            self.defeated = true;
            self.defeat_frame = 0;
        }
    }

    pub fn update(&mut self, pool: &mut BulletPool)
        requires
            midboss_frame_ok(*old(self)),
        ensures
            (*final(self), final(pool).bullets@, final(pool).rng) == midboss_next(*old(self), old(pool).bullets@, old(pool).rng),
            pool_ok(old(pool).bullets@) ==> pool_ok(final(pool).bullets@),
    {
        if self.defeated {
            self.defeat_frame = self.defeat_frame + 1;
            return;
        }
        self.phase_frame = self.phase_frame + 1;
        if self.phase == 0 {
            // Entrance: descend into position.
            self.y = self.y + 2 * SUBPIXEL;
            if self.y >= MIDBOSS_TARGET_Y && self.phase_frame >= MIDBOSS_ENTRANCE_FRAMES {
                self.y = MIDBOSS_TARGET_Y;
                self.phase = 1;
                self.phase_frame = 0;
                self.sweep = 1;
            }
        } else if self.phase_frame % 8 == 0 {
            // Attack: sub_13FB2 — symmetric sweeping pair every 8 frames.
            let t = BulletTemplate::shot(group::SINGLE, 1, 2 * 16, self.sweep);
            pool.spawn(&t, self.x, self.y - SUBPIXEL, (0, 0));
            let t2 = BulletTemplate { angle: 0x80u8.wrapping_sub(self.sweep), ..t };
            pool.spawn(&t2, self.x, self.y - SUBPIXEL, (0, 0));
            self.sweep = self.sweep.wrapping_add(0x0c);
        }
    }
}

} // verus!

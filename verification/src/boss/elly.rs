//! Stage 3 boss **Elly** — `@elly_update$qv` (th04_main.asm:24137) + pattern
//! subs `elly_1BC73/1BC3C/1BDB4/1BE43/1BD4B..1C251`. HP 6000.
//!
//! Phases: init → invincible approach → settle → **the attack** → defeat. The
//! attack (phase 3) is a 5-tier machine (`byte_25A24`): tiers advance at HP
//! 4700/3300/2100/700 (or after a per-tier pattern count), and each tier draws
//! its modes from a window of the ten patterns — tier 0 cycles modes {0,1};
//! tier 1 {0..3}; tier 2 {2..5}; tier 3 {4..7}; tier 4 {5..8}. Between patterns,
//! a 32-frame interlude moves Elly along her figure-8 orbit (`elly_1BC73`).
//!
//! `byte_25A26` — the aim-animation counter that ends the orbiting patterns,
//! managed by the `elly_1B95C` sprite machine — is modelled as a fixed
//! ~64-frame countdown (invisible to gameplay).

use vstd::prelude::*;
use super::{Boss, BossEnv, BossKind, BossRng, SUBPIXEL, shr8, boss_ok, boss_stepped, env_ok, env_kept, lemma_boss_ok_mono, fired, phase_advanced,
    hit_tested, hp_ok, update_ok, boss_frame_post, sb_of, lemma_sb_eq, with_sb};
use crate::effects::{EffectKind, new_effect};
use crate::bullet::{group, Bullet, BulletTemplate, blank_template, lcg_next, cleared, angle_add, angle_sub, pool_after_spawn};
use crate::math::{cos8, iatan2, sin8, spec_cos8, spec_sin8, spec_iatan2};

verus! {

broadcast use lemma_boss_ok_mono;

pub const PAT_KNIFE_YELLOW: u8 = 3;
pub const PAT_BALL_WHITE: u8 = 1;
pub const PAT_BALL_BLUE: u8 = 2;
/// Approximated `byte_25A26` lifetime (frames the orbiting patterns fire for).
pub const AIM_FRAMES: i32 = 64;

/// Per-tier mode selection (`off_1C692`): mode = (phase_state % MOD) + BASE,
/// with a pattern-count limit that force-advances the tier, and the HP at
/// which each tier gives way to the next.
pub open spec fn tier_mod(t: int) -> i32 {
    if t == 0 { 2 } else { 4 }
}

pub open spec fn tier_base(t: int) -> i32 {
    if t == 0 { 0 } else if t == 1 { 0 } else if t == 2 { 2 } else if t == 3 { 4 } else { 5 }
}

pub open spec fn tier_hp(t: int) -> i32 {
    if t == 0 { 4700 } else if t == 1 { 3300 } else if t == 2 { 2100 } else { 700 }
}

fn tier_mod_exec(t: usize) -> (r: i32)
    ensures
        r == tier_mod(t as int),
{
    if t == 0 { 2 } else { 4 }
}

fn tier_base_exec(t: usize) -> (r: i32)
    ensures
        r == tier_base(t as int),
{
    if t == 0 { 0 } else if t == 1 { 0 } else if t == 2 { 2 } else if t == 3 { 4 } else { 5 }
}

fn tier_hp_exec(t: usize) -> (r: i32)
    ensures
        r == tier_hp(t as int),
{
    if t == 0 { 4700 } else if t == 1 { 3300 } else if t == 2 { 2100 } else { 700 }
}

/// Elly's own state a frame needs: a tier in range, an orbit radius that the
/// trig can scale, and a mirrored aim the pair pattern can negate.
pub open spec fn elly_state_ok(b: Boss) -> bool {
    &&& 0 <= b.sb@[0] <= 4
    &&& -0x0040_0000 <= b.sb@[2] <= 0x0040_0000
    &&& (b.mode == 4 && b.phase_frame >= 16 ==> (b.sb@[5] as i8) != -128i8)
}

/// What an Elly routine asks: Elly within bound level `k`, her own state
/// sane, a sane context.
pub open spec fn elly_ok(b: Boss, env: BossEnv, k: int) -> bool {
    boss_ok(b, k) && b.kind == BossKind::Elly && env_ok(env) && elly_state_ok(b)
}

/// Rust's `%` on signed integers: the remainder takes the sign of `a`.
pub open spec fn rem_trunc(a: int, n: int) -> int {
    if a >= 0 { a % n } else { -((-a) % n) }
}

/// Elly after a step of her figure-8 orbit around (192, 96): the radius
/// (`sb[2]`) and angle follow the schedule counter (`sb[1]`), which wraps
/// after 768 steps.
pub open spec fn elly_moved(b: Boss) -> Boss {
    let w = b.sb@[1];
    let r0 = b.sb@[2] as int;
    let r: int = if w < 128 { r0 + 8 } else if w < 256 { r0 } else if w < 384 { r0 - 8 } else if w < 512 { r0 + 8 }
        else if w < 640 { r0 } else if w < 768 { r0 - 8 } else { r0 + 8 };
    let ang: u8 = if w < 128 { 96 } else if w < 256 { angle_sub(b.angle, 1) } else if w < 384 { b.angle }
        else if w < 512 { 32 } else if w < 640 { angle_add(b.angle, 1) } else if w < 768 { b.angle } else { 96 };
    let w1: int = if w < 768 { w as int } else { 0 };
    Boss {
        sb: sb_of(b.sb@.update(2, r as i32).update(1, (w1 + 1) as i32)),
        angle: ang,
        x: (3072 + (spec_cos8(ang) * r) / 256) as i32,
        y: (1536 + (spec_sin8(ang) * r) / 256) as i32,
        ..b
    }
}

/// Elly after aiming at `player`: the aim angle in `sb[4]`, the orbiting
/// patterns' countdown (`sb[3]`) armed.
pub open spec fn elly_aimed(b: Boss, player: (i32, i32)) -> Boss {
    Boss { sb: sb_of(b.sb@.update(4, spec_iatan2(player.1 - b.y, player.0 - b.x) as i32).update(3, AIM_FRAMES)), ..b }
}

/// An orbiting pattern ends once past frame 16 with the countdown out.
pub open spec fn elly_orbit_ended(b: Boss) -> Boss {
    if b.phase_frame > 16 && b.sb@[3] == 0 { Boss { mode: -1i16, phase_frame: 0i32, ..b } } else { b }
}

/// The pool after the shared finale: an aimed blue 48-ring from `b`.
pub open spec fn elly_finale_pool(p: (Seq<Bullet>, u32), b: Boss, player: (i32, i32)) -> (Seq<Bullet>, u32) {
    pool_after_spawn(p.0, p.1, BulletTemplate { patnum: PAT_BALL_BLUE, group: group::RING_AIMED, count: 48, speed: 32,
        angle: 0, ..blank_template() }, b.x as int, b.y as int, player)
}

/// The environment after a pattern frame that only fires: the pool `p`,
/// the rest as it was.
pub open spec fn elly_fired_env(oe: BossEnv, e: BossEnv, p: (Seq<Bullet>, u32)) -> bool {
    &&& (e.pool.bullets@, e.pool.rng) == p
    &&& e.fx == oe.fx
    &&& e.player == oe.player && e.frame == oe.frame
}

/// Mode 0: orbit; at frame 16 aim and start the knife angle at -0x40; past
/// it every 16th game frame a yellow 5-way knife spread, the angle turning
/// back 0x10; the pattern ends with the aim countdown.
#[verifier::opaque]
pub open spec fn elly_knife_spiral_post(a: Boss, oe: BossEnv, b: Boss, e: BossEnv) -> bool {
    let m = elly_moved(a);
    let pf = m.phase_frame;
    let m1 = if pf == 16 { with_sb(elly_aimed(m, oe.player), 5, -0x40) } else { m };
    let fires = pf > 16 && oe.frame % 16 == 0;
    let t = BulletTemplate { delta: 0x10, patnum: PAT_KNIFE_YELLOW, group: group::SPREAD, count: 5, speed: 48,
        angle: m1.sb@[5] as u8, ..blank_template() };
    let m2 = if fires { with_sb(m1, 5, m1.sb@[5] - 0x10) } else { m1 };
    &&& b == elly_orbit_ended(m2)
    &&& elly_fired_env(oe, e, if fires {
        pool_after_spawn(oe.pool.bullets@, oe.pool.rng, t, m1.x as int, m1.y as int, (0i32, 0i32))
    } else {
        (oe.pool.bullets@, oe.pool.rng)
    })
}

/// Modes 2 and 6: orbit (twice as fast with 16 bullets); at frame 16 aim;
/// every 16th frame past it an aimed pellet ring of `count`.
#[verifier::opaque]
pub open spec fn elly_aimed_ring_post(a: Boss, oe: BossEnv, b: Boss, e: BossEnv, count: u8) -> bool {
    let m0 = elly_moved(a);
    let m = if count == 16 { elly_moved(m0) } else { m0 };
    let pf = m.phase_frame;
    let m1 = if pf == 16 { elly_aimed(m, oe.player) } else { m };
    let fires = pf > 16 && pf % 16 == 0;
    &&& b == elly_orbit_ended(m1)
    &&& elly_fired_env(oe, e, if fires {
        pool_after_spawn(oe.pool.bullets@, oe.pool.rng, BulletTemplate { group: group::RING_AIMED, count, speed: 32, angle: 0,
            ..blank_template() }, m1.x as int, m1.y as int, oe.player)
    } else {
        (oe.pool.bullets@, oe.pool.rng)
    })
}

/// Mode 8: orbit at double rate; at frame 16 aim; every 16th frame past it
/// an aimed blue 16-ring, with two random pellets at 200 HP or less.
#[verifier::opaque]
pub open spec fn elly_blue_rings_post(a: Boss, oe: BossEnv, b: Boss, e: BossEnv) -> bool {
    let m = elly_moved(elly_moved(a));
    let pf = m.phase_frame;
    let m1 = if pf == 16 { elly_aimed(m, oe.player) } else { m };
    let fires = pf > 16 && pf % 16 == 0;
    let p1 = pool_after_spawn(oe.pool.bullets@, oe.pool.rng, BulletTemplate { patnum: PAT_BALL_BLUE, group: group::RING_AIMED,
        count: 16, speed: 56, angle: 0, ..blank_template() }, m1.x as int, m1.y as int, oe.player);
    let p2 = if m1.hp <= 200 {
        pool_after_spawn(p1.0, p1.1, BulletTemplate { group: group::RANDOM_ANGLE, count: 2, speed: 32, angle: 0,
            ..blank_template() }, m1.x as int, m1.y as int, (0i32, 0i32))
    } else {
        p1
    };
    &&& b == elly_orbit_ended(m1)
    &&& elly_fired_env(oe, e, if fires { p2 } else { (oe.pool.bullets@, oe.pool.rng) })
}

/// Mode 4: orbit at double rate; at frame 16 aim with the pair angle at
/// 0x40; every 8th game frame past it a mirrored pair of aimed blue shots,
/// the angle turning back 3 (as a byte).
#[verifier::opaque]
pub open spec fn elly_dual_aimed_post(a: Boss, oe: BossEnv, b: Boss, e: BossEnv) -> bool {
    let m = elly_moved(elly_moved(a));
    let pf = m.phase_frame;
    let m1 = if pf == 16 { with_sb(elly_aimed(m, oe.player), 5, 0x40) } else { m };
    let fires = pf > 16 && oe.frame % 8 == 0;
    let aa = m1.sb@[5];
    let t1 = BulletTemplate { patnum: PAT_BALL_BLUE, group: group::SINGLE_AIMED, count: 1, speed: 64, angle: aa as u8,
        ..blank_template() };
    let p1 = pool_after_spawn(oe.pool.bullets@, oe.pool.rng, t1, m1.x as int, m1.y as int, oe.player);
    let p2 = pool_after_spawn(p1.0, p1.1, BulletTemplate { angle: (-(aa as i8)) as u8, ..t1 }, m1.x as int, m1.y as int,
        oe.player);
    &&& b == elly_orbit_ended(if fires { with_sb(m1, 5, ((aa - 3) as i8) as int) } else { m1 })
    &&& elly_fired_env(oe, e, if fires { p2 } else { (oe.pool.bullets@, oe.pool.rng) })
}

/// The pool after one of the quad pattern's corner rings: a 16-ring from an
/// offset of (`ox`, `oy`) px, turned by the next draw after `st`.
pub open spec fn corner_fire(p: (Seq<Bullet>, u32), b: Boss, st: u32, ox: int, oy: int) -> (Seq<Bullet>, u32) {
    pool_after_spawn(p.0, p.1, BulletTemplate { origin_x: (ox * 16) as i16, origin_y: (oy * 16) as i16, group: group::RING,
        count: 16, speed: 32, angle: (lcg_next(st) >> 16u32) as u8, ..blank_template() }, b.x as int, b.y as int, (0i32, 0i32))
}

/// Mode 7: the telegraph at frame 1; at frame 32 four randomly turned
/// 16-rings from the corners around Elly; from frame 80 the finale.
#[verifier::opaque]
pub open spec fn elly_quad_random_post(a: Boss, oe: BossEnv, b: Boss, e: BossEnv) -> bool {
    let pf = a.phase_frame;
    let p0 = (oe.pool.bullets@, oe.pool.rng);
    let s0 = a.rng.state;
    let s1 = lcg_next(s0);
    let s2 = lcg_next(s1);
    let s3 = lcg_next(s2);
    let s4 = lcg_next(s3);
    let q = corner_fire(corner_fire(corner_fire(corner_fire(p0, a, s0, -32, 0), a, s1, 32, 0), a, s2, -32, -32), a, s3, -32, 32);
    &&& e.player == oe.player && e.frame == oe.frame
    &&& if pf <= 32 {
        &&& e.fx.effects@ =~= (if pf == 1 { oe.fx.effects@.push(new_effect(a.x, a.y, EffectKind::Gather)) } else { oe.fx.effects@ })
        &&& b == (if pf == 32 { Boss { rng: BossRng { state: s4 }, ..a } } else { a })
        &&& (e.pool.bullets@, e.pool.rng) == (if pf == 32 { q } else { p0 })
    } else if pf >= 80 {
        &&& b == (Boss { mode: -1i16, phase_frame: 0i32, ..a })
        &&& elly_fired_env(oe, e, elly_finale_pool(p0, a, oe.player))
    } else {
        b == a && e == oe
    }
}

/// The telegraph of the fan and storm patterns (frames 1 to 32): gather at
/// 1, a shrinking circle at 16, and at 32 the fire angle aimed at the
/// player and offset by `aim_off`.
pub open spec fn elly_telegraph_post(a: Boss, oe: BossEnv, b: Boss, e: BossEnv, aim_off: int) -> bool {
    let pf = a.phase_frame;
    let f1 = if pf == 1 { oe.fx.effects@.push(new_effect(a.x, a.y, EffectKind::Gather)) } else { oe.fx.effects@ };
    &&& e.fx.effects@ =~= (if pf == 16 { f1.push(new_effect(a.x, a.y, EffectKind::CircleShrink)) } else { f1 })
    &&& e.pool == oe.pool && e.player == oe.player && e.frame == oe.frame
    &&& b == (if pf == 32 { with_sb(a, 5, spec_iatan2(oe.player.1 - a.y, oe.player.0 - a.x) + aim_off) } else { a })
}

/// Modes 3 and 5: the telegraph; until frame 80 every 4th frame a white
/// 4-way spread speeding up over time, the angle stepping by `step`; at 80
/// a quarter-turn; then the finale.
#[verifier::opaque]
pub open spec fn elly_cloud_fan_post(a: Boss, oe: BossEnv, b: Boss, e: BossEnv, aim_off: int, step: int) -> bool {
    let pf = a.phase_frame;
    let p0 = (oe.pool.bullets@, oe.pool.rng);
    if pf <= 32 {
        elly_telegraph_post(a, oe, b, e, aim_off)
    } else if pf < 80 {
        let fires = pf % 4 == 0;
        &&& b == (if fires { with_sb(a, 5, a.sb@[5] + step) } else { a })
        &&& elly_fired_env(oe, e, if fires {
            pool_after_spawn(p0.0, p0.1, BulletTemplate { delta: 0x0C, patnum: PAT_BALL_WHITE, group: group::SPREAD, count: 4,
                speed: (44 + pf / 8) as u8, angle: a.sb@[5] as u8, ..blank_template() }, a.x as int, a.y as int, (0i32, 0i32))
        } else {
            p0
        })
    } else if pf == 80 {
        b == with_sb(a, 5, a.sb@[5] + 0x40) && e == oe
    } else {
        &&& b == (Boss { mode: -1i16, phase_frame: 0i32, ..a })
        &&& elly_fired_env(oe, e, elly_finale_pool(p0, a, oe.player))
    }
}

/// Mode 1: the telegraph; until frame 72 every other frame a pellet pair,
/// the angle turning 4; at 72 a quarter-turn; until 144 pairs turning by
/// `late_step`; then the finale.
#[verifier::opaque]
pub open spec fn elly_pellet_storm_post(a: Boss, oe: BossEnv, b: Boss, e: BossEnv, aim_off: int, late_step: int) -> bool {
    let pf = a.phase_frame;
    let p0 = (oe.pool.bullets@, oe.pool.rng);
    let pair = pool_after_spawn(p0.0, p0.1, BulletTemplate { delta: 0x0C, group: group::SPREAD, count: 2, speed: 64,
        angle: a.sb@[5] as u8, ..blank_template() }, a.x as int, a.y as int, (0i32, 0i32));
    if pf <= 32 {
        elly_telegraph_post(a, oe, b, e, aim_off)
    } else if pf == 72 {
        b == with_sb(a, 5, a.sb@[5] + 0x40) && e == oe
    } else if pf < 144 {
        let fires = pf % 2 == 0;
        let turn = if pf < 72 { 4 } else { late_step };
        &&& b == (if fires { with_sb(a, 5, a.sb@[5] + turn) } else { a })
        &&& elly_fired_env(oe, e, if fires { pair } else { p0 })
    } else {
        &&& b == (Boss { mode: -1i16, phase_frame: 0i32, ..a })
        &&& elly_fired_env(oe, e, elly_finale_pool(p0, a, oe.player))
    }
}

/// A frame that leaves Elly's HP bookkeeping, phase, tier and defeat flag
/// as they were.
pub open spec fn elly_held(a: Boss, b: Boss) -> bool {
    &&& b.hp == a.hp
    &&& b.damage_pending == a.damage_pending
    &&& b.phase_end_hp == a.phase_end_hp
    &&& b.phase == a.phase
    &&& b.defeated == a.defeated
    &&& b.sb@[0] == a.sb@[0]
}

/// The interlude's decision (from its frame 32 on): the tier's next
/// pattern; once the tier's pattern count is used up, the next tier with the
/// HP set to its boundary; after the last tier, the defeat.
pub open spec fn elly_interlude_next(o: Boss, b: Boss) -> bool {
    let ps = o.phase_state + 1;
    let tier = o.sb@[0] as int;
    &&& b.phase_state == ps
    &&& b.phase_frame == 0
    &&& b.damage_pending == o.damage_pending
    &&& b.phase_end_hp == o.phase_end_hp
    &&& if ps >= (tier + 1) * 8 {
        if tier >= 4 {
            b.phase == 4 && b.defeated && b.defeat_frame == 0 && b.hp == o.hp && b.sb@[0] == o.sb@[0]
        } else {
            b.phase == o.phase && b.defeated == o.defeated && b.sb@[0] == tier + 1 && b.hp == 6000 - (tier + 1) * 1500
                && b.mode == -1
        }
    } else {
        b.phase == o.phase && b.defeated == o.defeated && b.sb@[0] == o.sb@[0] && b.hp == o.hp
            && b.mode == rem_trunc(ps, tier_mod(tier) as int) + tier_base(tier)
    }
}

/// The pattern part of an attack frame: a pattern, and the interlude before
/// its frame 32, leave the HP bookkeeping, phase and tier alone; then the
/// interlude decides what comes next.
pub open spec fn elly_pattern_part(o: Boss, oe: BossEnv, b1: Boss, e1: BossEnv) -> bool {
    let a = elly_aged(o);
    &&& if (0 <= o.mode <= 8) || o.phase_frame < 32 { elly_held(o, b1) } else { elly_interlude_next(o, b1) }
    &&& (o.mode == 0 ==> elly_knife_spiral_post(a, oe, b1, e1))
    &&& (o.mode == 1 ==> elly_pellet_storm_post(a, oe, b1, e1, -0x40, -2))
    &&& (o.mode == 2 ==> elly_aimed_ring_post(a, oe, b1, e1, 8))
    &&& (o.mode == 3 ==> elly_cloud_fan_post(a, oe, b1, e1, -0x40, 0x0B))
    &&& (o.mode == 4 ==> elly_dual_aimed_post(a, oe, b1, e1))
    &&& (o.mode == 5 ==> elly_cloud_fan_post(a, oe, b1, e1, 0x40, -0x0B))
    &&& (o.mode == 6 ==> elly_aimed_ring_post(a, oe, b1, e1, 16))
    &&& (o.mode == 7 ==> elly_quad_random_post(a, oe, b1, e1))
    &&& (o.mode == 8 ==> elly_blue_rings_post(a, oe, b1, e1))
    &&& (!(0 <= o.mode <= 8) && o.phase_frame < 32 ==> b1 == elly_moved(a) && e1 == oe)
    &&& (!(0 <= o.mode <= 8) && o.phase_frame >= 32 ==> elly_interlude_env(o, oe, e1))
}

/// The environment after the interlude's decision: after the last tier the
/// defeat's spark and cleared screen, otherwise as it was.
pub open spec fn elly_interlude_env(o: Boss, oe: BossEnv, e: BossEnv) -> bool {
    let ps = o.phase_state + 1;
    let tier = o.sb@[0] as int;
    if ps >= (tier + 1) * 8 && tier >= 4 {
        &&& e.pool.bullets@ =~= cleared(oe.pool.bullets@)
        &&& e.pool.rng == oe.pool.rng
        &&& e.fx.effects@ =~= oe.fx.effects@.push(new_effect(o.x, o.y, EffectKind::Spark))
        &&& e.player == oe.player && e.frame == oe.frame
    } else {
        e == oe
    }
}

/// Elly with the aim countdown (`sb[3]`) counted down by one frame.
pub open spec fn elly_aged(o: Boss) -> Boss {
    with_sb(o, 3, if o.sb@[3] > 0 { o.sb@[3] - 1 } else { o.sb@[3] as int })
}

/// The end of an attack frame from (`b1`, `e1`): the hit test; HP at the
/// threshold (0) starts the defeat, otherwise HP at the tier's boundary
/// (4700, 3300, 2100, 700) moves to the next tier through an interlude.
pub open spec fn elly_attack_tail(b1: Boss, e1: BossEnv, b: Boss, e: BossEnv) -> bool {
    let h = hit_tested(b1);
    if h.hp <= h.phase_end_hp {
        &&& b == (Boss { phase: 4, phase_frame: 0, defeated: true, defeat_frame: 0, ..h })
        &&& e.pool.bullets@ == cleared(e1.pool.bullets@)
        &&& e.pool.rng == e1.pool.rng
        &&& e.fx.effects@ == e1.fx.effects@.push(new_effect(h.x, h.y, EffectKind::Spark))
    } else if 0 <= h.sb@[0] < 4 && h.hp <= tier_hp(h.sb@[0] as int) {
        &&& b.sb@ == h.sb@.update(0, (h.sb@[0] + 1) as i32)
        &&& b == (Boss { sb: b.sb, mode: -1i16, phase_frame: 0i32, ..h })
        &&& e.pool.bullets@ == cleared(e1.pool.bullets@)
        &&& e.pool.rng == e1.pool.rng
        &&& e.fx == e1.fx
    } else {
        &&& b == h
        &&& e == e1
    }
}

/// What `elly_phase3_attack` does in a frame: the pattern part, then the
/// hit test and the tier and defeat thresholds.
pub open spec fn elly_attack_post(o: Boss, oe: BossEnv, b: Boss, e: BossEnv) -> bool {
    exists|b1: Boss, e1: BossEnv| elly_pattern_part(o, oe, b1, e1) && #[trigger] elly_attack_tail(b1, e1, b, e)
}

/// What `elly_phase1_approach` does in a frame.
pub open spec fn elly_approach_post(o: Boss, b: Boss) -> bool {
    {
        let t = o.sb@[5] + 1;
        let ps = if rem_trunc(t, 65) == 0 { rem_trunc(o.phase_state + 1, 4) } else { o.phase_state as int };
        let vx: i32 = if ps == 0 || ps == 3 { -16i32 } else { 16i32 };
        let done = t >= 210;
        &&& b.sb@ =~= o.sb@.update(5, if done { 0i32 } else { t as i32 })
        &&& b == (Boss {
            sb: b.sb,
            phase_state: ps as i16,
            vx,
            x: (o.x + vx) as i32,
            damage_pending: 0,
            phase_frame: if done { 0i32 } else { (o.phase_frame + 1) as i32 },
            phase: if done { 2u8 } else { o.phase },
            vy: if done { 8i32 } else { o.vy },
            ..o
        })
    }
}

/// What `elly_phase2_settle` does in a frame.
pub open spec fn elly_settle_post(o: Boss, oe: BossEnv, b: Boss, e: BossEnv) -> bool {
    &&& ({
        let vx: i32 = if o.x < 192 * SUBPIXEL { 32i32 } else if o.x >= 193 * SUBPIXEL { -32i32 } else { 0i32 };
        let pf = o.phase_frame + 2;
        if pf >= 32 {
            &&& b.sb@ =~= Seq::new(8, |i: int| 0i32)
            &&& b == (Boss { sb: b.sb, vx: 0, vy: 0, x: 3072, y: 1536, damage_pending: 0,
                ..phase_advanced(o, 0) })
            &&& e.pool.bullets@ =~= cleared(oe.pool.bullets@)
        } else {
            &&& b == (Boss { y: (o.y + o.vy) as i32, vx, x: (o.x + vx) as i32,
                phase_frame: pf as i32, damage_pending: 0, ..o })
            &&& e.pool.bullets@ =~= oe.pool.bullets@
        }
    })
    &&& e.pool.rng == oe.pool.rng && e.fx == oe.fx
}

/// What `elly_update` does in a frame of a live Elly: the opening phases,
/// the attack as `elly_attack_post`.
pub open spec fn elly_update_post(o: Boss, oe: BossEnv, b: Boss, e: BossEnv) -> bool {
    if o.phase == 0 {
        b == (Boss { phase: 1, phase_frame: 0, ..o }) && e == oe
    } else if o.phase == 1 {
        elly_approach_post(o, b) && e == oe
    } else if o.phase == 2 {
        elly_settle_post(o, oe, b, e)
    } else if o.phase == 3 {
        elly_attack_post(o, oe, b, e)
    } else {
        b == (Boss { defeat_frame: (o.defeat_frame + 1) as u32, ..o }) && e == oe
    }
}

/// Under damage, Elly's attack goes through its tiers at their HP
/// boundaries and ends at its threshold. A frame of a pattern whose HP, once
/// the queued damage is taken, is at or below the threshold starts the
/// defeat sequence; above it but at or below the tier's boundary (4700,
/// 3300, 2100, 700 for tiers 0 to 3) it moves to the next tier through an
/// interlude; otherwise the tier stays.
pub proof fn law_elly_tiers(o: Boss, oe: BossEnv, b: Boss, e: BossEnv)
    requires
        o.kind == BossKind::Elly,
        update_ok(o, oe),
        !o.defeated,
        o.phase == 3,
        0 <= o.mode <= 8,
        boss_frame_post(o, oe, b, e),
    ensures
        o.hp - o.damage_pending <= o.phase_end_hp ==> b.defeated && b.phase == 4 && b.defeat_frame == 0,
        o.hp - o.damage_pending > o.phase_end_hp && o.sb@[0] < 4 && o.hp - o.damage_pending <= tier_hp(o.sb@[0] as int)
            ==> !b.defeated && b.phase == 3 && b.sb@[0] == o.sb@[0] + 1 && b.mode == -1 && b.phase_frame == 0
            && b.hp == o.hp - o.damage_pending,
        o.hp - o.damage_pending > o.phase_end_hp && (o.sb@[0] >= 4 || o.hp - o.damage_pending > tier_hp(o.sb@[0] as int))
            ==> !b.defeated && b.phase == 3 && b.sb@[0] == o.sb@[0] && b.hp == o.hp - o.damage_pending,
{
    assert(elly_update_post(o, oe, b, e));
    assert(elly_attack_post(o, oe, b, e));
    let (b1, e1) = choose|b1: Boss, e1: BossEnv| elly_pattern_part(o, oe, b1, e1) && #[trigger] elly_attack_tail(b1, e1, b, e);
    assert(elly_held(o, b1));
}

impl Boss {
    pub(crate) fn elly_update(&mut self, env: &mut BossEnv)
        requires
            elly_ok(*old(self), *old(env), 1),
        ensures
            boss_stepped(*old(self), *final(self), 5),
            env_kept(*old(env), *final(env)),
            elly_update_post(*old(self), *old(env), *final(self), *final(env)),
    {
        if self.phase == 0 {
            // loc_1C301: init. HP/thresholds set in the constructor.
            self.phase = 1;
            self.phase_frame = 0;
        } else if self.phase == 1 {
            self.elly_phase1_approach();
        } else if self.phase == 2 {
            self.elly_phase2_settle(env);
        } else if self.phase == 3 {
            self.elly_phase3_attack(env);
        } else {
            self.defeat_frame = self.defeat_frame + 1;
        }
    }

    /// Phase 1 (loc_1C32D): invincible side-stepping approach, for a fixed
    /// ~3.5s local duration (`sb[5]` is a free approach timer; the sidestep
    /// flips every 65 frames).
    fn elly_phase1_approach(&mut self)
        requires
            boss_ok(*old(self), 1),
            old(self).kind == BossKind::Elly,
            old(self).phase == 1,
        ensures
            boss_stepped(*old(self), *final(self), 2),
            elly_approach_post(*old(self), *final(self)),
    {
        self.sb[5] = self.sb[5] + 1;
        if self.sb[5] % 65 == 0 {
            self.phase_state = (self.phase_state + 1) % 4;
        }
        self.vx = if self.phase_state == 0 || self.phase_state == 3 { -SUBPIXEL } else { SUBPIXEL };
        self.x = self.x + self.vx;
        self.hittest_invincible();
        if self.sb[5] >= 210 {
            self.phase = 2;
            self.phase_frame = 0;
            self.vy = 8;
            self.sb[5] = 0;
        }
    }

    /// Phase 2 (loc_1C3D4): invincible — descend + servo to centre, then open
    /// the attack at tier 0.
    fn elly_phase2_settle(&mut self, env: &mut BossEnv)
        requires
            elly_ok(*old(self), *old(env), 1),
            old(self).phase == 2,
        ensures
            boss_stepped(*old(self), *final(self), 3),
            env_kept(*old(env), *final(env)),
            elly_settle_post(*old(self), *old(env), *final(self), *final(env)),
    {
        self.y = self.y + self.vy;
        self.vx = if self.x < 192 * SUBPIXEL {
            2 * SUBPIXEL
        } else if self.x >= 193 * SUBPIXEL {
            -2 * SUBPIXEL
        } else {
            0
        };
        self.x = self.x + self.vx;
        self.phase_frame = self.phase_frame + 1;
        self.hittest_invincible();
        if self.phase_frame >= 32 {
            self.vx = 0;
            self.vy = 0;
            self.sb = [0; 8]; // [tier, word_25A3A, radius, aim_cd, aim_angle, fire_angle]
            self.x = 192 * SUBPIXEL;
            self.y = 96 * SUBPIXEL;
            self.phase_next(0, &mut env.pool); // → phase 3, hp=6000, phase_end=0
            self.phase_state = 0;
        }
    }

    /// `elly_1BC73`: figure-8 orbit around (192, 96) at radius `sb[2]`, sweeping
    /// `angle` by the `word_25A3A` (`sb[1]`) schedule.
    fn elly_move(&mut self)
        requires
            boss_ok(*old(self), 3),
            -0x0040_0100 <= old(self).sb@[2] <= 0x0040_0100,
        ensures
            boss_ok(*final(self), 3),
            final(self).sb@[2] - old(self).sb@[2] <= 8 && old(self).sb@[2] - final(self).sb@[2] <= 8,
            final(self).sb@[0] == old(self).sb@[0],
            final(self).sb@[5] == old(self).sb@[5],
            final(self).kind == old(self).kind && final(self).defeated == old(self).defeated,
            final(self).phase == old(self).phase && final(self).phase_frame == old(self).phase_frame,
            final(self).mode == old(self).mode,
            final(self).phase_state == old(self).phase_state,
            final(self).hp == old(self).hp && final(self).max_hp == old(self).max_hp,
            final(self).damage_pending == old(self).damage_pending && final(self).phase_end_hp == old(self).phase_end_hp,
            *final(self) == elly_moved(*old(self)),
            -0x0080_0000 <= final(self).x <= 0x0080_0000 && -0x0080_0000 <= final(self).y <= 0x0080_0000,
    {
        let w = self.sb[1];
        if w < 128 {
            self.sb[2] = self.sb[2] + 8;
            self.angle = 96;
        } else if w < 256 {
            self.angle = self.angle.wrapping_sub(1);
        } else if w < 384 {
            self.sb[2] = self.sb[2] - 8;
        } else if w < 512 {
            self.sb[2] = self.sb[2] + 8;
            self.angle = 32;
        } else if w < 640 {
            self.angle = self.angle.wrapping_add(1);
        } else if w < 768 {
            self.sb[2] = self.sb[2] - 8;
        } else {
            self.sb[2] = self.sb[2] + 8;
            self.angle = 96;
            self.sb[1] = 0;
        }
        let r = self.sb[2];
        let c = cos8(self.angle);
        let sn = sin8(self.angle);
        assert(-0x4100_0000 <= c * r <= 0x4100_0000) by (nonlinear_arith)
            requires -256 <= c <= 256, -0x0040_0200 <= r <= 0x0040_0200;
        assert(-0x4100_0000 <= sn * r <= 0x4100_0000) by (nonlinear_arith)
            requires -256 <= sn <= 256, -0x0040_0200 <= r <= 0x0040_0200;
        self.x = 192 * SUBPIXEL + shr8(c * r);
        self.y = 96 * SUBPIXEL + shr8(sn * r);
        self.sb[1] = self.sb[1] + 1;
        proof {
            lemma_sb_eq(self.sb, old(self).sb@.update(2, self.sb@[2]).update(1, self.sb@[1]));
        }
    }

    /// `elly_1BC3C`: aim at the player; arm the orbiting-pattern countdown.
    fn elly_aim(&mut self, player: (i32, i32))
        requires
            boss_ok(*old(self), 3),
            crate::bullet::target_ok(player),
        ensures
            *final(self) == (Boss { sb: final(self).sb, ..*old(self) }),
            final(self).sb@ == old(self).sb@.update(4, final(self).sb@[4]).update(3, AIM_FRAMES),
            0 <= final(self).sb@[4] < 256,
            *final(self) == elly_aimed(*old(self), player),
    {
        self.sb[4] = iatan2(player.1 - self.y, player.0 - self.x) as i32;
        self.sb[3] = AIM_FRAMES;
        proof {
            lemma_sb_eq(self.sb, old(self).sb@.update(4, spec_iatan2(player.1 - old(self).y, player.0 - old(self).x) as i32).update(3, AIM_FRAMES));
        }
    }
    /// The pattern part of an attack frame: the aim countdown, then the
    /// current mode's pattern or the interlude.
    #[verifier::rlimit(40)]
    fn elly_pattern(&mut self, env: &mut BossEnv)
        requires
            elly_ok(*old(self), *old(env), 1),
            old(self).phase == 3,
        ensures
            boss_stepped(*old(self), *final(self), 3),
            env_kept(*old(env), *final(env)),
            0 <= final(self).sb@[0] <= 4,
            elly_pattern_part(*old(self), *old(env), *final(self), *final(env)),
    {
        let ghost o = *self;
        if self.sb[3] > 0 {
            self.set_sb(3, self.sb[3] - 1);
        } else {
            proof {
                lemma_sb_eq(self.sb, self.sb@.update(3, self.sb@[3]));
            }
        }
        let ghost o1 = *self;
        assert(o1 == elly_aged(o));
        assert(elly_held(o, o1));
        if self.mode == 0 {
            self.elly_p_knife_spiral(env);
        } else if self.mode == 1 {
            self.elly_p_pellet_storm(env, -0x40, -2);
        } else if self.mode == 2 {
            self.elly_p_aimed_ring(env, 8);
        } else if self.mode == 3 {
            self.elly_p_cloud_fan(env, -0x40, 0x0B);
        } else if self.mode == 4 {
            self.elly_p_dual_aimed(env);
        } else if self.mode == 5 {
            self.elly_p_cloud_fan(env, 0x40, -0x0B);
        } else if self.mode == 6 {
            self.elly_p_aimed_ring(env, 16);
        } else if self.mode == 7 {
            self.elly_p_quad_random(env);
        } else if self.mode == 8 {
            self.elly_p_blue_rings(env);
        } else {
            self.elly_interlude(env);
        }
    }

    fn elly_phase3_attack(&mut self, env: &mut BossEnv)
        requires
            elly_ok(*old(self), *old(env), 1),
            old(self).phase == 3,
        ensures
            boss_stepped(*old(self), *final(self), 4),
            env_kept(*old(env), *final(env)),
            elly_attack_post(*old(self), *old(env), *final(self), *final(env)),
    {
        let ghost o = *self;
        let ghost oe = *env;
        self.elly_pattern(env);
        let ghost b1 = *self;
        let ghost e1 = *env;
        assert(elly_pattern_part(o, oe, b1, e1));
        // loc_1C585: hit test (phase_frame++). phase_end_hp is 0 → only HP=0 ends.
        if self.hittest() {
            env.fx.spark(self.x, self.y);
            self.phase = 4;
            self.phase_frame = 0;
            self.begin_defeat(&mut env.pool);
            assert(elly_attack_tail(b1, e1, *self, *env));
            return;
        }
        // loc_1C5B1: HP-threshold tier advance.
        let tier = self.sb[0] as usize;
        if tier < 4 && self.hp <= tier_hp_exec(tier) {
            self.sb[0] = self.sb[0] + 1;
            self.mode = -1;
            self.phase_frame = 0;
            env.pool.clear_all();
        }
        assert(elly_attack_tail(b1, e1, *self, *env));
    }

    /// mode -1 (loc_1C4A9): 32-frame figure-8 interlude, then pick the next mode
    /// from the current tier's window (or force-advance the tier on count).
    fn elly_interlude(&mut self, env: &mut BossEnv)
        requires
            elly_ok(*old(self), *old(env), 1),
            old(self).phase == 3,
        ensures
            boss_stepped(*old(self), *final(self), 3),
            env_kept(*old(env), *final(env)),
            0 <= final(self).sb@[0] <= 4,
            final(self).phase == 3 || final(self).phase == 4,
            old(self).phase_frame < 32 ==> elly_held(*old(self), *final(self)),
            old(self).phase_frame < 32 ==> *final(self) == elly_moved(*old(self)) && *final(env) == *old(env),
            old(self).phase_frame >= 32 ==> elly_interlude_next(*old(self), *final(self)),
            old(self).phase_frame >= 32 ==> elly_interlude_env(*old(self), *old(env), *final(env)),
    {
        if self.phase_frame < 32 {
            self.elly_move();
            return;
        }
        self.phase_state = self.phase_state + 1;
        let tier = self.sb[0] as usize;
        if self.phase_state as i32 >= ((tier as i32) + 1) * 8 {
            if tier >= 4 {
                env.fx.spark(self.x, self.y);
                self.phase = 4;
                self.phase_frame = 0;
                self.begin_defeat(&mut env.pool);
                return;
            }
            // loc_1C4EB: forced tier advance, HP reset to the tier boundary.
            self.sb[0] = self.sb[0] + 1;
            self.hp = 6000 - self.sb[0] * 1500;
            self.mode = -1;
        } else {
            self.mode = ((self.phase_state as i32 % tier_mod_exec(tier)) + tier_base_exec(tier)) as i16;
        }
        self.phase_frame = 0;
    }
    /// `elly_1BE43`: the shared aimed 48-ring finale; ends the pattern.
    fn elly_finale_48ring(&mut self, env: &mut BossEnv)
        requires
            boss_ok(*old(self), 3),
            env_ok(*old(env)),
        ensures
            *final(self) == (Boss { mode: -1i16, phase_frame: 0i32, ..*old(self) }),
            env_kept(*old(env), *final(env)),
            elly_fired_env(*old(env), *final(env), elly_finale_pool((old(env).pool.bullets@, old(env).pool.rng), *old(self),
                old(env).player)),
    {
        let t = BulletTemplate { patnum: PAT_BALL_BLUE, ..BulletTemplate::shot(group::RING_AIMED, 48, (2 * SUBPIXEL) as u8, 0) };
        env.pool.spawn(&t, self.x, self.y, env.player);
        self.mode = -1;
        self.phase_frame = 0;
    }

    fn elly_orbiting_end(&mut self)
        ensures
            *final(self) == (if old(self).phase_frame > 16 && old(self).sb@[3] == 0 {
                Boss { mode: -1i16, phase_frame: 0i32, ..*old(self) }
            } else {
                *old(self)
            }),
    {
        if self.phase_frame > 16 && self.sb[3] == 0 {
            self.mode = -1;
            self.phase_frame = 0;
        }
    }

    // --- mode 0 (elly_1BD4B): figure-8 + rotating aimed yellow knife spread ---
    fn elly_p_knife_spiral(&mut self, env: &mut BossEnv)
        requires
            elly_ok(*old(self), *old(env), 1),
        ensures
            boss_stepped(*old(self), *final(self), 3),
            env_kept(*old(env), *final(env)),
            elly_held(*old(self), *final(self)),
            elly_knife_spiral_post(*old(self), *old(env), *final(self), *final(env)),
            final(self).phase_frame <= old(self).phase_frame,
    {
        proof {
            reveal(elly_knife_spiral_post);
        }
        self.elly_move();
        let pf = self.phase_frame;
        if pf == 16 {
            self.elly_aim(env.player);
            self.set_sb(5, -0x40);
        }
        if pf > 16 && env.frame % 16 == 0 {
            let t = BulletTemplate {
                delta: 0x10,
                patnum: PAT_KNIFE_YELLOW,
                ..BulletTemplate::shot(group::SPREAD, 5, (3 * SUBPIXEL) as u8, self.sb[5] as u8)
            };
            env.pool.spawn(&t, self.x, self.y, (0, 0));
            self.set_sb(5, self.sb[5].wrapping_sub(0x10));
        }
        self.elly_orbiting_end();
    }

    // --- mode 1 (elly_1BE78): telegraph → pellet storm → 48-ring -------------
    // `aim_off` offsets the aim; the storm rotates +4 then (after frame 72) the
    // angle jumps +0x40 and rotates by `late_step`.
    fn elly_p_pellet_storm(&mut self, env: &mut BossEnv, aim_off: i32, late_step: i32)
        requires
            elly_ok(*old(self), *old(env), 1),
            -0x40 <= aim_off <= 0x40 && -0x40 <= late_step <= 0x40,
        ensures
            boss_stepped(*old(self), *final(self), 3),
            env_kept(*old(env), *final(env)),
            elly_held(*old(self), *final(self)),
            elly_pellet_storm_post(*old(self), *old(env), *final(self), *final(env), aim_off as int, late_step as int),
            final(self).phase_frame <= old(self).phase_frame,
    {
        proof {
            reveal(elly_pellet_storm_post);
        }
        let pf = self.phase_frame;
        if pf <= 32 {
            if pf == 1 {
                env.fx.gather(self.x, self.y);
            }
            if pf == 16 {
                env.fx.circle_shrink(self.x, self.y);
            }
            if pf == 32 {
                let aim = iatan2(env.player.1 - self.y, env.player.0 - self.x) as i32;
                self.set_sb(5, aim + aim_off);
            }
            return;
        }
        if pf < 72 {
            if pf % 2 == 0 {
                self.elly_pellet_pair(env);
                self.set_sb(5, self.sb[5] + 4);
            }
        } else if pf == 72 {
            self.set_sb(5, self.sb[5] + 0x40);
        } else if pf < 144 {
            if pf % 2 == 0 {
                self.elly_pellet_pair(env);
                self.set_sb(5, self.sb[5] + late_step);
            }
        } else {
            self.elly_finale_48ring(env);
        }
    }

    /// The storm's pellet pair along the fire angle in `sb[5]`.
    fn elly_pellet_pair(&self, env: &mut BossEnv)
        requires
            boss_ok(*self, 3),
            env_ok(*old(env)),
        ensures
            env_kept(*old(env), *final(env)),
            fired(*old(env), *final(env), BulletTemplate { delta: 0x0C, group: group::SPREAD, count: 2, speed: 64,
                angle: self.sb@[5] as u8, ..blank_template() }, self.x as int, self.y as int, (0i32, 0i32)),
    {
        let t = BulletTemplate { delta: 0x0C, ..BulletTemplate::shot(group::SPREAD, 2, (4 * SUBPIXEL) as u8, self.sb[5] as u8) };
        env.pool.spawn(&t, self.x, self.y, (0, 0));
    }

    // --- modes 2 / 6 (elly_1BF52 / elly_1C164): figure-8 + aimed pellet ring --
    fn elly_p_aimed_ring(&mut self, env: &mut BossEnv, count: u8)
        requires
            elly_ok(*old(self), *old(env), 1),
        ensures
            boss_stepped(*old(self), *final(self), 3),
            env_kept(*old(env), *final(env)),
            elly_held(*old(self), *final(self)),
            elly_aimed_ring_post(*old(self), *old(env), *final(self), *final(env), count),
            final(self).phase_frame <= old(self).phase_frame,
    {
        proof {
            reveal(elly_aimed_ring_post);
        }
        self.elly_move();
        if count == 16 {
            self.elly_move(); // mode 6 orbits at double rate
        }
        let pf = self.phase_frame;
        if pf == 16 {
            self.elly_aim(env.player);
        }
        if pf > 16 && pf % 16 == 0 {
            let t = BulletTemplate::shot(group::RING_AIMED, count, (2 * SUBPIXEL) as u8, 0);
            env.pool.spawn(&t, self.x, self.y, env.player);
        }
        self.elly_orbiting_end();
    }

    // --- modes 3 / 5 (elly_1BFAB / elly_1C0BF): telegraph → cloud fan → ring --
    fn elly_p_cloud_fan(&mut self, env: &mut BossEnv, aim_off: i32, step: i32)
        requires
            elly_ok(*old(self), *old(env), 1),
            -0x40 <= aim_off <= 0x40 && -0x40 <= step <= 0x40,
        ensures
            boss_stepped(*old(self), *final(self), 3),
            env_kept(*old(env), *final(env)),
            elly_held(*old(self), *final(self)),
            elly_cloud_fan_post(*old(self), *old(env), *final(self), *final(env), aim_off as int, step as int),
            final(self).phase_frame <= old(self).phase_frame,
    {
        proof {
            reveal(elly_cloud_fan_post);
        }
        let pf = self.phase_frame;
        if pf <= 32 {
            if pf == 1 {
                env.fx.gather(self.x, self.y);
            }
            if pf == 16 {
                env.fx.circle_shrink(self.x, self.y);
            }
            if pf == 32 {
                let aim = iatan2(env.player.1 - self.y, env.player.0 - self.x) as i32;
                self.set_sb(5, aim + aim_off);
            }
            return;
        }
        if pf < 80 {
            if pf % 4 == 0 {
                let speed = ((2 * SUBPIXEL + 12) + pf / 8) as u8;
                let t = BulletTemplate {
                    delta: 0x0C,
                    patnum: PAT_BALL_WHITE,
                    ..BulletTemplate::shot(group::SPREAD, 4, speed, self.sb[5] as u8)
                };
                env.pool.spawn(&t, self.x, self.y, (0, 0));
                self.set_sb(5, self.sb[5] + step);
            }
        } else if pf == 80 {
            self.set_sb(5, self.sb[5] + 0x40);
        } else {
            self.elly_finale_48ring(env);
        }
    }

    // --- mode 4 (elly_1C044): figure-8 ×2 + mirrored aimed cloud pair ---------
    fn elly_p_dual_aimed(&mut self, env: &mut BossEnv)
        requires
            elly_ok(*old(self), *old(env), 1),
            old(self).mode == 4,
        ensures
            boss_stepped(*old(self), *final(self), 3),
            env_kept(*old(env), *final(env)),
            elly_held(*old(self), *final(self)),
            elly_dual_aimed_post(*old(self), *old(env), *final(self), *final(env)),
            final(self).phase_frame <= old(self).phase_frame,
    {
        proof {
            reveal(elly_dual_aimed_post);
        }
        self.elly_move();
        self.elly_move();
        let pf = self.phase_frame;
        if pf == 16 {
            self.elly_aim(env.player);
            self.set_sb(5, 0x40);
        }
        if pf > 16 && env.frame % 8 == 0 {
            let a = self.sb[5];
            let t1 = BulletTemplate { patnum: PAT_BALL_BLUE, ..BulletTemplate::shot(group::SINGLE_AIMED, 1, (4 * SUBPIXEL) as u8, a as u8) };
            env.pool.spawn(&t1, self.x, self.y, env.player);
            let t2 = BulletTemplate { angle: (-(a as i8)) as u8, ..t1 };
            env.pool.spawn(&t2, self.x, self.y, env.player);
            self.set_sb(5, (a - 3) as i8 as i32); // ZUN's neg/neg/-3
        }
        self.elly_orbiting_end();
    }

    // --- mode 7 (elly_1C1CF): telegraph → four random rings from corners ------
    #[verifier::rlimit(40)]
    fn elly_p_quad_random(&mut self, env: &mut BossEnv)
        requires
            elly_ok(*old(self), *old(env), 1),
        ensures
            boss_stepped(*old(self), *final(self), 3),
            env_kept(*old(env), *final(env)),
            elly_held(*old(self), *final(self)),
            elly_quad_random_post(*old(self), *old(env), *final(self), *final(env)),
            final(self).phase_frame <= old(self).phase_frame,
    {
        proof {
            reveal(elly_quad_random_post);
        }
        let pf = self.phase_frame;
        if pf <= 32 {
            if pf == 1 {
                env.fx.gather(self.x, self.y);
            }
            if pf == 32 {
                self.elly_corner_ring(env, -32, 0);
                self.elly_corner_ring(env, 32, 0);
                self.elly_corner_ring(env, -32, -32);
                self.elly_corner_ring(env, -32, 32);
            }
            return;
        }
        if pf >= 80 {
            self.elly_finale_48ring(env);
        }
    }

    /// One randomly rotated 16-ring from an offset of (`ox`, `oy`) pixels.
    fn elly_corner_ring(&mut self, env: &mut BossEnv, ox: i32, oy: i32)
        requires
            boss_ok(*old(self), 1),
            env_ok(*old(env)),
            -32 <= ox <= 32 && -32 <= oy <= 32,
        ensures
            *final(self) == (Boss { rng: final(self).rng, ..*old(self) }),
            env_kept(*old(env), *final(env)),
            final(self).rng == (BossRng { state: lcg_next(old(self).rng.state) }),
            fired(*old(env), *final(env), BulletTemplate { origin_x: (ox * 16) as i16, origin_y: (oy * 16) as i16,
                group: group::RING, count: 16, speed: 32, angle: (final(self).rng.state >> 16u32) as u8, ..blank_template() },
                old(self).x as int, old(self).y as int, (0i32, 0i32)),
    {
        let t = BulletTemplate {
            origin_x: (ox * SUBPIXEL) as i16,
            origin_y: (oy * SUBPIXEL) as i16,
            ..BulletTemplate::shot(group::RING, 16, (2 * SUBPIXEL) as u8, self.rng.byte())
        };
        env.pool.spawn(&t, self.x, self.y, (0, 0));
    }

    // --- mode 8 (elly_1C251): figure-8 ×2 + blue aimed 16-rings (+low-HP rng) --
    fn elly_p_blue_rings(&mut self, env: &mut BossEnv)
        requires
            elly_ok(*old(self), *old(env), 1),
        ensures
            boss_stepped(*old(self), *final(self), 3),
            env_kept(*old(env), *final(env)),
            elly_held(*old(self), *final(self)),
            elly_blue_rings_post(*old(self), *old(env), *final(self), *final(env)),
            final(self).phase_frame <= old(self).phase_frame,
    {
        proof {
            reveal(elly_blue_rings_post);
        }
        self.elly_move();
        self.elly_move();
        let pf = self.phase_frame;
        if pf == 16 {
            self.elly_aim(env.player);
        }
        if pf > 16 && pf % 16 == 0 {
            let t = BulletTemplate { patnum: PAT_BALL_BLUE, ..BulletTemplate::shot(group::RING_AIMED, 16, (3 * SUBPIXEL + 8) as u8, 0) };
            env.pool.spawn(&t, self.x, self.y, env.player);
            if self.hp <= 200 {
                let r = BulletTemplate::shot(group::RANDOM_ANGLE, 2, (2 * SUBPIXEL) as u8, 0);
                env.pool.spawn(&r, self.x, self.y, (0, 0));
            }
        }
        self.elly_orbiting_end();
    }
}

} // verus!

//! Stage 6 (final) boss **Yuuka** — `@yuuka6_update$qv` (th04_main.asm:22545)
//! and its ~30 subs (`yuuka6_1A0D1`..`1B3E2`, `chasecrosses_add`). HP 13300.
//! The largest boss: 18 phases with parasol vanish/appear, path-flight, the
//! **mirror point** (twin attacks fired from Yuuka *and* her reflection across
//! the playfield), homing **chasecross** bullets, the **safety-circle**
//! (a shrinking ring that fires from its rim, leaving a safe lane), and a
//! thick-laser finale.
//!
//! The 18-phase flow + HP arithmetic (13300 → 10600 → 7600 → 5400 → 3400 →
//! 1200 → 0), the per-phase attack rosters, and each attack's danmaku. The
//! chasecross homing/destructible bullets reuse the satellite pool (`orbits`);
//! the stage sim resolves their shot/player collision. The safety-circle is
//! modelled as a shrinking telegraph + periodic aimed-ring fire (rather than
//! the exact per-rim-point geometry), the thick laser is a fast column, and
//! the parasol-shield damage-redirect is folded into the normal hittest.

use vstd::prelude::*;
use super::{Boss, BossEnv, BossKind, BossRng, Orbit, PLAYFIELD_H, PLAYFIELD_W, SUBPIXEL, shr8, boss_ok, boss_stepped, env_ok,
    env_kept, orbit_within, free_orbit, lemma_boss_ok_mono, orbit_added, lemma_first_free_orbit, fired, hit_tested};
use crate::bullet::cleared;
use crate::bullet::{group, Bsm, Bullet, BulletTemplate, angle_add, angle_sub, blank_template, pool_after_spawn, lcg_next};
use crate::effects::{EffectKind, new_effect};
use crate::math::{iatan2, sin8, vector2, lemma_vector2_fits, lemma_vector2_bounded, spec_iatan2, spec_vector2, spec_sin8};

verus! {

broadcast use lemma_boss_ok_mono;

pub const PAT_CROSS_YELLOW: u8 = 3;
pub const PAT_D_BLUE: u8 = 8;
pub const PAT_SMALL_RED: u8 = 9;
pub const PAT_BALL_RED: u8 = 6;

/// What a final-Yuuka routine asks: the boss within bound level `k` with a
/// non-negative pattern counter, a sane context.
pub open spec fn y6_ok(b: Boss, env: BossEnv, k: int) -> bool {
    boss_ok(b, k) && b.kind == BossKind::Yuuka6 && env_ok(env) && b.phase_state >= 0
}

/// The 16-ring fired from the parasol rim along `ang`.
pub open spec fn rim_ring(ang: u8) -> BulletTemplate {
    BulletTemplate { spawn_type: 1, group: group::RING, count: 16, speed: 40, angle: ang, ..blank_template() }
}

/// A gravity ball volley from `side` px beside (`x`, `y`), its speed and
/// angle drawn from the generator at `st`: the generator state after the
/// two draws, and the pool after the volley.
pub open spec fn gravity_fire(st: u32, p: (Seq<Bullet>, u32), x: int, y: int, side: int) -> (u32, (Seq<Bullet>, u32)) {
    let st1 = lcg_next(st);
    let st2 = lcg_next(st1);
    let t = BulletTemplate {
        spawn_type: 4,
        origin_x: (side * 16) as i16,
        origin_y: -64i16,
        patnum: PAT_SMALL_RED,
        special: Bsm::Gravity,
        speed_delta: 1,
        group: group::RANDOM_ANGLE_AND_SPEED,
        count: 4,
        speed: (24 + ((st1 >> 16u32) as int) % 24) as u8,
        angle: (st2 >> 16u32) as u8,
        ..blank_template()
    };
    (st2, pool_after_spawn(p.0, p.1, t, x, y, (0i32, 0i32)))
}

/// A new chasecross leaving the boss along `angle` at 2px a frame.
pub open spec fn chasecross_new(b: Boss, angle: u8) -> Orbit {
    Orbit { flag: 1, angle, cx: b.x, cy: b.y, ox: b.x, oy: b.y, mspeed: 32, hp: 100, spin_time: 0, ..free_orbit() }
}

/// A yellow 5-spread from (`x`, `y`) about straight down, its angle within
/// `range` of it and its speed drawn from the generator at `st`: the
/// generator state after the two draws, and the pool after the spread.
pub open spec fn random_spread_fire(st: u32, p: (Seq<Bullet>, u32), x: int, y: int, range: int) -> (u32, (Seq<Bullet>, u32)) {
    let st1 = lcg_next(st);
    let st2 = lcg_next(st1);
    let angle = (0x40 - range + ((st1 >> 16u32) as int) % (2 * range)) as u8;
    let speed = (12 + ((st2 >> 16u32) as int) % 0x20) as u8;
    (st2, pool_after_spawn(p.0, p.1, BulletTemplate { spawn_type: 2, delta: 0x10, patnum: PAT_CROSS_YELLOW,
        group: group::SPREAD, count: 5, speed, angle, ..blank_template() }, x, y, (0i32, 0i32)))
}

/// What `y6_decel_rings` does in a frame.
pub open spec fn y6_decel_rings_post(o: Boss, oe: BossEnv, b: Boss, e: BossEnv) -> bool {
    &&& (e.fx == oe.fx)
    &&& (({
                    let pf = o.phase_frame;
                    let s2 = if pf == 48 { 40int } else { o.sb@[2] as int };
                    let fires = pf == 48 || pf == 64;
                    let t = BulletTemplate { spawn_type: 2, patnum: PAT_CROSS_YELLOW, special: Bsm::DecelThenTurn, turn_arg: 0xC0,
                        turns_max: 1, group: group::RING, count: 20, speed: s2 as u8, angle: 0, ..blank_template() };
                    let p0 = (oe.pool.bullets@, oe.pool.rng);
                    let p1 = pool_after_spawn(p0.0, p0.1, t, o.x as int, o.y - 64, (0i32, 0i32));
                    let p2 = pool_after_spawn(p1.0, p1.1, BulletTemplate { turn_arg: 0x40, ..t }, o.x as int, o.y - 64,
                        (0i32, 0i32));
                    let b1 = Boss { sb: b.sb, ..o };
                    &&& b.sb@ =~= o.sb@.update(2, (if fires { s2 + 16 } else { s2 }) as i32)
                    &&& b == (if pf >= 80 { Boss { phase_frame: 0i32, mode: -1i16, ..b1 } } else { b1 })
                    &&& (e.pool.bullets@, e.pool.rng) == (if fires { p2 } else { p0 })
                }))
}

/// What `y6_spin_ring` does in a frame.
pub open spec fn y6_spin_ring_post(o: Boss, oe: BossEnv, b: Boss, e: BossEnv) -> bool {
    &&& (b == (if o.phase_frame >= 96 {
                    Boss { phase_frame: 0i32, mode: -1i16, ..o }
                } else {
                    o
                }))
    &&& (e.fx == oe.fx)
    &&& ((e.pool.bullets@, e.pool.rng) == (if 48 <= o.phase_frame <= 80 && o.phase_frame % 2 == 0 {
                    let base = angle_sub(0u8, ((o.phase_frame % 32) * 8) as u8);
                    let a2 = angle_sub(0x80u8, base);
                    let p1 = pool_after_spawn(oe.pool.bullets@, oe.pool.rng, rim_ring(base),
                        o.x + spec_vector2(base, 544).0, o.y + spec_vector2(base, 544).1, (0i32, 0i32));
                    pool_after_spawn(p1.0, p1.1, rim_ring(a2), o.x + spec_vector2(a2, 544).0,
                        o.y + spec_vector2(a2, 544).1, (0i32, 0i32))
                } else {
                    (oe.pool.bullets@, oe.pool.rng)
                }))
}

/// What `y6_gravity_randoms` does in a frame.
pub open spec fn y6_gravity_randoms_post(o: Boss, oe: BossEnv, b: Boss, e: BossEnv) -> bool {
    &&& (e.fx == oe.fx)
    &&& (({
                    let fires = 48 <= o.phase_frame <= 80 && oe.frame % 4 == 0;
                    let g1 = gravity_fire(o.rng.state, (oe.pool.bullets@, oe.pool.rng),
                        o.x as int, o.y as int, -20);
                    let g2 = gravity_fire(g1.0, g1.1, o.x as int, o.y as int, 24);
                    let b1 = if fires { Boss { rng: BossRng { state: g2.0 }, ..o } } else { o };
                    &&& b == (if o.phase_frame > 80 { Boss { phase_frame: 0i32, mode: -1i16, ..b1 } } else { b1 })
                    &&& (e.pool.bullets@, e.pool.rng) == (if fires { g2.1 } else { (oe.pool.bullets@, oe.pool.rng) })
                }))
}

/// What `y6_safety_circle` does in a frame.
pub open spec fn y6_safety_circle_post(o: Boss, oe: BossEnv, b: Boss, e: BossEnv) -> bool {
    &&& (({
                    let pf = o.phase_frame;
                    let pl = oe.player;
                    let fires = pf >= 64 && pf % 16 == 0;
                    let fx1 = if pf == 64 { oe.fx.effects@.push(new_effect(pl.0, pl.1, EffectKind::CircleShrink)) }
                        else { oe.fx.effects@ };
                    &&& b == (if pf >= 288 { Boss { phase_frame: 0i32, mode: -1i16, ..o } } else { o })
                    &&& e.fx.effects@ =~= (if fires { fx1.push(new_effect(pl.0, pl.1, EffectKind::CircleGrow)) } else { fx1 })
                    &&& (e.pool.bullets@, e.pool.rng) == (if fires {
                        pool_after_spawn(oe.pool.bullets@, oe.pool.rng, BulletTemplate { spawn_type: 2, patnum: PAT_SMALL_RED,
                            group: group::RING_AIMED, count: 32, speed: 16, angle: 0, ..blank_template() }, pl.0 as int, pl.1 as int, pl)
                    } else {
                        (oe.pool.bullets@, oe.pool.rng)
                    })
                }))
}

/// What `y6_mirror_spreads` does in a frame.
pub open spec fn y6_mirror_spreads_post(o: Boss, oe: BossEnv, b: Boss, e: BossEnv) -> bool {
    &&& (({
                    let pf = o.phase_frame;
                    let x = o.x as int;
                    let y = o.y as int;
                    let mx = 6144 - o.x;
                    let fires = 64 <= pf <= 128 && oe.frame % 8 == 0;
                    let s2 = o.sb@[2];
                    let t = BulletTemplate { spawn_type: 4, delta: 8, patnum: PAT_D_BLUE, group: group::SPREAD, count: 3,
                        speed: (32 + if s2 < 48 { s2 as int } else { 48 }) as u8, angle: 0x60, ..blank_template() };
                    let t2 = BulletTemplate { angle: 0x20, ..t };
                    let p0 = (oe.pool.bullets@, oe.pool.rng);
                    let p1 = pool_after_spawn(p0.0, p0.1, t, x, y, (0i32, 0i32));
                    let p2 = pool_after_spawn(p1.0, p1.1, t2, x, y, (0i32, 0i32));
                    let p3 = pool_after_spawn(p2.0, p2.1, t, mx, y, (0i32, 0i32));
                    let p4 = pool_after_spawn(p3.0, p3.1, t2, mx, y, (0i32, 0i32));
                    let s2b = if fires { s2 + 12 } else { s2 as int };
                    let b1 = Boss { sb: b.sb, ..o };
                    &&& b.sb@ =~= o.sb@.update(2, (if pf >= 160 { 0 } else { s2b }) as i32)
                    &&& b == (if pf >= 160 { Boss { phase_frame: 0i32, mode: -1i16, ..b1 } } else { b1 })
                    &&& (e.pool.bullets@, e.pool.rng) == (if fires { p4 } else { p0 })
                    &&& e.fx.effects@ =~= (if pf == 64 {
                        oe.fx.effects@.push(new_effect(o.x, (y + 512) as i32, EffectKind::CircleGrow))
                            .push(new_effect(mx as i32, (y + 640) as i32, EffectKind::CircleGrow))
                    } else {
                        oe.fx.effects@
                    })
                }))
}

/// What `y6_random_spreads` does in a frame.
pub open spec fn y6_random_spreads_post(o: Boss, oe: BossEnv, b: Boss, e: BossEnv) -> bool {
    &&& (e.fx == oe.fx)
    &&& (({
                    let pf = o.phase_frame;
                    let s2 = if pf == 64 { 2int } else { o.sb@[2] as int };
                    let fires = 64 <= pf <= 128 && oe.frame % 4 == 0;
                    let range = if s2 < 1 { 1 } else { s2 };
                    let g1 = random_spread_fire(o.rng.state, (oe.pool.bullets@, oe.pool.rng),
                        o.x as int, o.y + 512, range);
                    let g2 = random_spread_fire(g1.0, g1.1, 6144 - o.x, o.y + 512, range);
                    let b1 = if fires { Boss { rng: BossRng { state: g2.0 }, sb: b.sb, ..o } }
                        else { Boss { sb: b.sb, ..o } };
                    &&& b.sb@ =~= o.sb@.update(2, (if fires { s2 + 6 } else { s2 }) as i32)
                    &&& b == (if pf >= 160 { Boss { phase_frame: 0i32, mode: -1i16, ..b1 } } else { b1 })
                    &&& (e.pool.bullets@, e.pool.rng) == (if fires { g2.1 } else { (oe.pool.bullets@, oe.pool.rng) })
                }))
}

/// What `y6_aimed_spreads` does in a frame.
pub open spec fn y6_aimed_spreads_post(o: Boss, oe: BossEnv, b: Boss, e: BossEnv) -> bool {
    &&& (b == (if o.phase_frame >= 224 { Boss { phase_frame: 0i32, mode: -1i16, ..o } } else { o }))
    &&& (e.fx == oe.fx)
    &&& ((e.pool.bullets@, e.pool.rng) == (if 64 <= o.phase_frame <= 192 && oe.frame % 16 == 0 {
                    let t = if oe.frame % 32 == 0 {
                        BulletTemplate { spawn_type: 2, delta: 0x0E, patnum: PAT_D_BLUE, group: group::SPREAD, count: 10, speed: 40,
                            angle: 0x40, ..blank_template() }
                    } else {
                        BulletTemplate { spawn_type: 2, delta: 0x0E, patnum: PAT_D_BLUE, group: group::SPREAD_AIMED, count: 7, speed: 40,
                            angle: 0, ..blank_template() }
                    };
                    let p1 = pool_after_spawn(oe.pool.bullets@, oe.pool.rng, t, o.x as int, o.y + 512, oe.player);
                    pool_after_spawn(p1.0, p1.1, t, 6144 - o.x, o.y + 512, oe.player)
                } else {
                    (oe.pool.bullets@, oe.pool.rng)
                }))
}

/// What `y6_sweep` does in a frame.
pub open spec fn y6_sweep_post(o: Boss, oe: BossEnv, b: Boss, e: BossEnv) -> bool {
    &&& (e.fx == oe.fx)
    &&& (({
                    let pf = o.phase_frame;
                    let a0 = if pf == 48 {
                        angle_add(spec_iatan2(o.y - oe.player.1, o.x - oe.player.0), 0x10)
                    } else {
                        o.angle
                    };
                    let sb6 = if pf == 48 { 1i32 } else { o.sb@[6] };
                    let fires = 48 <= pf < 136 && pf % 2 != 0;
                    let a1 = if fires && pf >= 112 { angle_add(a0, sb6 as u8) } else { a0 };
                    let b1 = Boss { angle: a1, sb: b.sb, ..o };
                    &&& b.sb@ =~= (if pf == 48 { o.sb@.update(6, 1i32) } else { o.sb@ })
                    &&& b == (if pf >= 144 { Boss { phase_frame: 0i32, mode: -1i16, ..b1 } } else { b1 })
                    &&& (e.pool.bullets@, e.pool.rng) == (if fires {
                        pool_after_spawn(oe.pool.bullets@, oe.pool.rng, BulletTemplate { spawn_type: 4, patnum: PAT_BALL_RED,
                            group: group::RING, count: 8, speed: 144, angle: a0, ..blank_template() },
                            o.x as int, o.y as int, (0i32, 0i32))
                    } else {
                        (oe.pool.bullets@, oe.pool.rng)
                    })
                }))
}

/// What `y6_rot_rings` does in a frame.
pub open spec fn y6_rot_rings_post(o: Boss, oe: BossEnv, b: Boss, e: BossEnv) -> bool {
    &&& (e.fx == oe.fx)
    &&& (({
                    let pf = o.phase_frame;
                    let fires = pf > 48 && oe.frame % 8 == 0;
                    let a = if fires { angle_add(o.angle, 2) } else { o.angle };
                    let n = 4 + pf / 4;
                    let b1 = Boss { angle: a, ..o };
                    &&& b == (if pf >= 144 { Boss { phase_frame: 0i32, mode: -1i16, ..b1 } } else { b1 })
                    &&& (e.pool.bullets@, e.pool.rng) == (if fires {
                        pool_after_spawn(oe.pool.bullets@, oe.pool.rng, BulletTemplate { spawn_type: 2, patnum: PAT_D_BLUE,
                            group: group::RING, count: (if n < 40 { n } else { 40 }) as u8, speed: 48, angle: a, ..blank_template() },
                            o.x as int, o.y as int, (0i32, 0i32))
                    } else {
                        (oe.pool.bullets@, oe.pool.rng)
                    })
                }))
}

/// What `y6_chasecross_burst` does in a frame.
pub open spec fn y6_chasecross_burst_post(o: Boss, oe: BossEnv, b: Boss, e: BossEnv) -> bool {
    &&& (e == oe)
    &&& (({
                    let fires = o.phase_frame > 48 && oe.frame % 8 == 0;
                    let st1 = lcg_next(o.rng.state);
                    let st2 = lcg_next(st1);
                    let os = orbit_added(orbit_added(o.orbits@, chasecross_new(o, (st1 >> 16u32) as u8)),
                        chasecross_new(o, (st2 >> 16u32) as u8));
                    let b1 = if fires { Boss { rng: BossRng { state: st2 }, orbits: b.orbits, ..o } }
                        else { Boss { orbits: b.orbits, ..o } };
                    &&& b.orbits@ =~= (if fires { os } else { o.orbits@ })
                    &&& b == (if o.phase_frame >= 144 { Boss { phase_frame: 0i32, mode: -1i16, ..b1 } } else { b1 })
                }))
}

/// What `y6_final` does in a frame.
#[verifier::opaque]
pub open spec fn y6_final_post(o: Boss, oe: BossEnv, b: Boss, e: BossEnv) -> bool {
    &&& (({
                    let v = o.phase_frame % 32;
                    let fires = v % 4 == 0;
                    let a = if fires { angle_add(o.angle, 8) } else { o.angle };
                    let t = BulletTemplate { spawn_type: 1, patnum: PAT_SMALL_RED, group: group::RING, count: 8,
                        speed: (v + 32) as u8, angle: angle_sub(0x82, a), ..blank_template() };
                    let p0 = (oe.pool.bullets@, oe.pool.rng);
                    let p1 = pool_after_spawn(p0.0, p0.1, t, o.x as int, o.y as int, (0i32, 0i32));
                    let p2 = pool_after_spawn(p1.0, p1.1, BulletTemplate { angle: angle_sub(0x80, a), ..t }, o.x as int,
                        o.y as int, (0i32, 0i32));
                    let h = hit_tested(Boss { angle: a, ..o });
                    let ends = h.hp <= h.phase_end_hp || h.phase_frame >= 2500;
                    &&& (e.pool.bullets@, e.pool.rng) == (if fires { p2 } else { p0 })
                    &&& b == (if ends {
                        Boss { phase_state: if h.phase_frame < 2500 { 1i16 } else { 0i16 }, phase: 17, phase_frame: 0, ..h }
                    } else {
                        h
                    })
                    &&& e.fx.effects@ =~= (if ends { oe.fx.effects@.push(new_effect(h.x, h.y, EffectKind::Spark)) }
                        else { oe.fx.effects@ })
                }))
}

/// What `y6_appear_fire` does in a frame.
pub open spec fn y6_appear_fire_post(o: Boss, oe: BossEnv, b: Boss, e: BossEnv) -> bool {
    &&& (e.fx == oe.fx)
    &&& (({
                    let p0 = (oe.pool.bullets@, oe.pool.rng);
                    let st1 = lcg_next(o.rng.state);
                    let x = o.x as int;
                    let y = o.y as int;
                    if oe.frame % 16 != 0 {
                        &&& b.rng == o.rng
                        &&& (e.pool.bullets@, e.pool.rng) == p0
                    } else if o.phase == 6 {
                        let p1 = pool_after_spawn(p0.0, p0.1, BulletTemplate { spawn_type: 2, patnum: PAT_SMALL_RED, group: group::RING,
                            count: 16, speed: 30, angle: (st1 >> 16u32) as u8, ..blank_template() }, x, y, (0i32, 0i32));
                        &&& b.rng.state == st1
                        &&& (e.pool.bullets@, e.pool.rng) == pool_after_spawn(p1.0, p1.1, BulletTemplate {
                            spawn_type: 4, group: group::RANDOM_ANGLE_AND_SPEED, count: 4, speed: 24, angle: 0, ..blank_template() },
                            x, y, (0i32, 0i32))
                    } else {
                        &&& b.rng == o.rng
                        &&& (e.pool.bullets@, e.pool.rng) == pool_after_spawn(p0.0, p0.1, BulletTemplate {
                            spawn_type: 4, delta: 0x0A, patnum: PAT_D_BLUE, group: group::STACK_AIMED, count: 7, speed: 32, angle: 0,
                            ..blank_template() }, x, y, oe.player)
                    }
                }))
}

/// What pattern `pat` does in a frame (`y6_pattern`).
pub open spec fn y6_pattern_post(pat: u8, o: Boss, oe: BossEnv, b: Boss, e: BossEnv) -> bool {
    if pat == 0 { y6_decel_rings_post(o, oe, b, e) }
    else if pat == 1 { y6_spin_ring_post(o, oe, b, e) }
    else if pat == 2 { y6_gravity_randoms_post(o, oe, b, e) }
    else if pat == 3 { y6_safety_circle_post(o, oe, b, e) }
    else if pat == 4 { y6_mirror_spreads_post(o, oe, b, e) }
    else if pat == 5 { y6_random_spreads_post(o, oe, b, e) }
    else if pat == 6 { y6_aimed_spreads_post(o, oe, b, e) }
    else if pat == 7 { y6_sweep_post(o, oe, b, e) }
    else if pat == 8 { y6_rot_rings_post(o, oe, b, e) }
    else { y6_chasecross_burst_post(o, oe, b, e) }
}

/// The environment after the screen is cleared.
pub open spec fn env_cleared(oe: BossEnv, e: BossEnv) -> bool {
    &&& e.pool.bullets@ == cleared(oe.pool.bullets@)
    &&& e.pool.rng == oe.pool.rng
    &&& e.fx == oe.fx
}

/// The end of an attack-phase frame from (`b1`, `e1`): the phase advances
/// (screen cleared, HP topped up to the threshold, `next_end` armed) once
/// `gate` patterns have run or the hit test brings HP to the threshold.
pub open spec fn y6_attack_tail(b1: Boss, e1: BossEnv, gate: int, next_end: i32, b: Boss, e: BossEnv) -> bool {
    let h = hit_tested(b1);
    let c = if b1.phase_state >= gate { b1 } else { h };
    if b1.phase_state >= gate || h.hp <= h.phase_end_hp {
        &&& b == (Boss { phase: (c.phase + 1) as u8, hp: c.phase_end_hp, phase_end_hp: next_end, phase_frame: 0,
            phase_state: 0, mode: 0, ..c })
        &&& env_cleared(e1, e)
    } else {
        &&& b == h
        &&& e == e1
    }
}

/// The first half of an attack-phase frame: between patterns the next mode
/// of `modes` is picked, otherwise the current pattern runs.
pub open spec fn y6_attack_head(o: Boss, oe: BossEnv, modes: Seq<u8>, b1: Boss, e1: BossEnv) -> bool {
    if o.mode == -1 {
        &&& b1 == (Boss { phase_frame: 0, phase_state: (o.phase_state + 1) as i16,
            mode: modes[(o.phase_state + 1) % modes.len() as int] as i16, ..o })
        &&& e1 == oe
    } else {
        y6_pattern_post(o.mode as u8, o, oe, b1, e1)
    }
}

/// What `y6_attack` does in a frame.
#[verifier::opaque]
pub open spec fn y6_attack_post(o: Boss, oe: BossEnv, modes: Seq<u8>, gate: int, next_end: i32, b: Boss, e: BossEnv) -> bool {
    exists|b1: Boss, e1: BossEnv| #[trigger] y6_attack_head(o, oe, modes, b1, e1) && y6_attack_tail(b1, e1, gate, next_end, b, e)
}

/// The chasecrosses of `b1` after their frame (`chasecross_next`).
pub open spec fn y6_chased(b1: Boss, player: (i32, i32), b: Boss) -> bool {
    &&& b == (Boss { orbits: b.orbits, ..b1 })
    &&& b.orbits@ =~= b1.orbits@.map_values(|c: Orbit| chasecross_next(c, player.0, player.1))
}

/// A frame of an invincible timed phase: two frames counted (the phase's
/// own and the hit test's), queued damage dropped, and on reaching `len`
/// the next phase from its first frame.
pub open spec fn y6_timed(o: Boss, len: int) -> Boss {
    let pf = o.phase_frame + 2;
    if pf >= len { Boss { phase: (o.phase + 1) as u8, phase_frame: 0, damage_pending: 0, ..o } }
    else { Boss { phase_frame: pf as i32, damage_pending: 0, ..o } }
}

/// The main part of a Yuuka-6 frame (everything but the chasecross step) in
/// phases other than the appear phases 6 and 10.
pub open spec fn y6_main(o: Boss, oe: BossEnv, b1: Boss, e1: BossEnv) -> bool {
    let p = o.phase;
    if p == 0 {
        &&& b1 == (if o.phase_frame + 2 > 128 { Boss { phase: 1, phase_frame: 0, damage_pending: 0, ..o } }
            else { Boss { phase_frame: (o.phase_frame + 2) as i32, damage_pending: 0, ..o } })
        &&& e1 == oe
    } else if p == 1 {
        &&& b1 == (if o.phase_frame + 2 >= 64 {
            Boss { phase: 2, phase_frame: 0, phase_state: 0, mode: 0, hp: 13300, phase_end_hp: 10600, damage_pending: 0, ..o }
        } else {
            Boss { phase_frame: (o.phase_frame + 2) as i32, damage_pending: 0, ..o }
        })
        &&& e1 == oe
    } else if p == 2 {
        y6_attack_post(o, oe, seq![0u8, 1u8, 2u8], 10, 7600, b1, e1)
    } else if p == 3 || p == 7 || p == 11 || p == 13 {
        let x = if o.x < 3072 { o.x + 16 } else if o.x > 3072 { o.x - 16 } else { o.x as int };
        let t = y6_timed(Boss { x: x as i32, ..o }, 64);
        &&& b1 == (if t.phase != o.phase { Boss { phase_state: 0, mode: 0, ..t } } else { t })
        &&& e1 == oe
    } else if p == 4 {
        y6_attack_post(o, oe, seq![3u8], 10, 5400, b1, e1)
    } else if p == 5 || p == 9 {
        &&& b1 == y6_timed(o, 64)
        &&& e1 == oe
    } else if p == 8 {
        y6_attack_post(o, oe, seq![4u8, 5u8, 6u8], 10, 3400, b1, e1)
    } else if p == 12 {
        y6_attack_post(o, oe, seq![4u8, 5u8, 6u8], 10, 1200, b1, e1)
    } else if p == 14 {
        y6_attack_post(o, oe, seq![7u8, 8u8, 9u8], 18, 0, b1, e1)
    } else if p == 15 {
        let h = hit_tested(Boss { phase_frame: (o.phase_frame + 1) as i32, ..o });
        &&& b1 == (if h.phase_frame >= 128 { Boss { phase: 16, phase_frame: 0, ..h } } else { h })
        &&& e1 == oe
    } else if p == 16 {
        y6_final_post(o, oe, b1, e1)
    } else {
        let pf = o.phase_frame + 1;
        if pf >= 32 {
            &&& b1 == (Boss { phase_frame: pf as i32, defeated: true, defeat_frame: 0, ..o })
            &&& e1.pool.bullets@ == cleared(oe.pool.bullets@) && e1.pool.rng == oe.pool.rng
            &&& e1.fx.effects@ =~= oe.fx.effects@.push(new_effect(o.x, o.y, EffectKind::Spark))
            &&& e1.player == oe.player && e1.frame == oe.frame
        } else {
            &&& b1 == (Boss { phase_frame: pf as i32, ..o })
            &&& e1 == oe
        }
    }
}

/// An appear-phase frame (phases 6 and 10): the appear fire, a bob across
/// the top of the field turning at x = 48 and 336, the chasecross step, and
/// after 320 frames the next phase at the centre.
pub open spec fn y6_appear(o: Boss, oe: BossEnv, b: Boss, e: BossEnv) -> bool {
    let pf = o.phase_frame + 1;
    exists|ba: Boss| #[trigger] y6_appear_fire_post(Boss { phase_frame: pf as i32, ..o }, oe, ba, e) && {
        let vx1: int = if pf == 1 { 32 } else { ba.vx as int };
        let x = ba.x + vx1;
        let vx = if x <= 768 || x >= 5376 { -vx1 } else { vx1 };
        let y = 1024 + (spec_sin8(((pf % 128) * 2) as u8) * 256) / 256;
        let m = Boss { x: x as i32, vx: vx as i32, y: y as i32, ..ba };
        let c = if pf >= 320 { Boss { phase: (o.phase + 1) as u8, phase_frame: 0, x: 3072, y: 1280, ..m } } else { m };
        &&& ba == (Boss { rng: ba.rng, phase_frame: pf as i32, ..o })
        &&& y6_chased(c, oe.player, b)
    }
}

/// What `yuuka6_update` does in a frame of a live Yuuka-6.
pub open spec fn y6_update_post(o: Boss, oe: BossEnv, b: Boss, e: BossEnv) -> bool {
    if o.phase == 6 || o.phase == 10 {
        y6_appear(o, oe, b, e)
    } else {
        exists|b1: Boss, e1: BossEnv| #[trigger] y6_main(o, oe, b1, e1) && e == e1 && y6_chased(b1, oe.player, b)
    }
}

impl Boss {
    pub(crate) fn yuuka6_update(&mut self, env: &mut BossEnv)
        requires
            y6_ok(*old(self), *old(env), 1),
        ensures
            boss_stepped(*old(self), *final(self), 5),
            env_kept(*old(env), *final(env)),
            y6_update_post(*old(self), *old(env), *final(self), *final(env)),
    {
        if self.phase == 6 || self.phase == 10 {
            self.y6_appear_step(env);
            return;
        }
        self.y6_main_step(env);
        let ghost b1 = *self;
        let ghost e1 = *env;
        assert(y6_main(*old(self), *old(env), b1, e1));
        self.y6_chasecross_step(env, Ghost(4));
    }

    /// An appear-phase frame (`y6_appear`).
    #[verifier::rlimit(60)]
    fn y6_appear_step(&mut self, env: &mut BossEnv)
        requires
            y6_ok(*old(self), *old(env), 1),
            old(self).phase == 6 || old(self).phase == 10,
        ensures
            boss_stepped(*old(self), *final(self), 5),
            env_kept(*old(env), *final(env)),
            y6_appear(*old(self), *old(env), *final(self), *final(env)),
    {
        self.phase_frame = self.phase_frame + 1;
        let ghost a0 = *self;
        self.y6_appear_fire(env);
        let ghost ba = *self;
        assert(y6_appear_fire_post(a0, *old(env), ba, *env));
        self.x = self.x + if self.phase_frame == 1 { 2 * SUBPIXEL } else { self.vx };
        self.vx = if self.phase_frame == 1 { 2 * SUBPIXEL } else { self.vx };
        if self.x <= 48 * SUBPIXEL || self.x >= 336 * SUBPIXEL {
            self.vx = -self.vx;
        }
        self.y = 64 * SUBPIXEL + shr8(sin8(((self.phase_frame % 128) * 2) as u8) * (16 * SUBPIXEL));
        self.y6_chasecross_step(env, Ghost(2));
        if self.phase_frame >= 320 {
            self.phase = self.phase + 1;
            self.phase_frame = 0;
            self.x = 192 * SUBPIXEL;
            self.y = 80 * SUBPIXEL;
        }
    }

    /// The main part of a frame outside the appear phases (`y6_main`).
    #[verifier::rlimit(100)]
    fn y6_main_step(&mut self, env: &mut BossEnv)
        requires
            y6_ok(*old(self), *old(env), 1),
            old(self).phase != 6 && old(self).phase != 10,
        ensures
            boss_stepped(*old(self), *final(self), 4),
            env_kept(*old(env), *final(env)),
            y6_main(*old(self), *old(env), *final(self), *final(env)),
    {
        let p = self.phase;
        if p == 0 {
            self.phase_frame = self.phase_frame + 1;
            self.hittest_invincible();
            if self.phase_frame > 128 {
                self.phase = 1;
                self.phase_frame = 0;
            }
        } else if p == 1 {
            self.phase_frame = self.phase_frame + 1;
            self.hittest_invincible();
            if self.phase_frame >= 64 {
                self.phase = 2;
                self.phase_frame = 0;
                self.phase_state = 0;
                self.mode = 0;
                self.hp = 13300;
                self.phase_end_hp = 10600;
            }
        } else if p == 2 {
            let modes: [u8; 3] = [0, 1, 2];
            assert(modes@ =~= seq![0u8, 1u8, 2u8]);
            self.y6_attack(env, modes.as_slice(), 10, 7600);
        } else if p == 3 || p == 7 || p == 11 || p == 13 {
            // Anim / move-to-centre transitions.
            self.phase_frame = self.phase_frame + 1;
            if self.x < 192 * SUBPIXEL {
                self.x = self.x + SUBPIXEL;
            } else if self.x > 192 * SUBPIXEL {
                self.x = self.x - SUBPIXEL;
            }
            self.hittest_invincible();
            if self.phase_frame >= 64 {
                self.phase = self.phase + 1;
                self.phase_frame = 0;
                self.phase_state = 0;
                self.mode = 0;
            }
        } else if p == 4 {
            let modes: [u8; 1] = [3];
            assert(modes@ =~= seq![3u8]);
            self.y6_attack(env, modes.as_slice(), 10, 5400);
        } else if p == 5 || p == 9 {
            // Vanish (invincible).
            self.phase_frame = self.phase_frame + 1;
            self.hittest_invincible();
            if self.phase_frame >= 64 {
                self.phase = self.phase + 1;
                self.phase_frame = 0;
            }
        } else if p == 8 {
            let modes: [u8; 3] = [4, 5, 6];
            assert(modes@ =~= seq![4u8, 5u8, 6u8]);
            self.y6_attack(env, modes.as_slice(), 10, 3400);
        } else if p == 12 {
            let modes: [u8; 3] = [4, 5, 6];
            assert(modes@ =~= seq![4u8, 5u8, 6u8]);
            self.y6_attack(env, modes.as_slice(), 10, 1200);
        } else if p == 14 {
            let modes: [u8; 3] = [7, 8, 9];
            assert(modes@ =~= seq![7u8, 8u8, 9u8]);
            self.y6_attack(env, modes.as_slice(), 18, 0);
        } else if p == 15 {
            self.phase_frame = self.phase_frame + 1;
            self.hittest();
            if self.phase_frame >= 128 {
                self.phase = 16;
                self.phase_frame = 0;
            }
        } else if p == 16 {
            self.y6_final(env);
        } else {
            self.phase_frame = self.phase_frame + 1;
            if self.phase_frame >= 32 {
                env.fx.spark(self.x, self.y);
                self.begin_defeat(&mut env.pool);
            }
        }
    }

    /// Yuuka's reflection across the playfield's vertical centre line.
    fn y6_mirror(&self) -> (r: (i32, i32))
        requires
            boss_ok(*self, 4),
        ensures
            r.0 == 6144 - self.x && r.1 == self.y,
    {
        (PLAYFIELD_W * SUBPIXEL - self.x, self.y)
    }

    /// Generic attack phase: cycle `modes` (mode = phase_state % len), advancing
    /// once `phase_state >= gate` or HP hits the threshold.
    fn y6_attack(&mut self, env: &mut BossEnv, modes: &[u8], gate: i16, next_end: i32)
        requires
            y6_ok(*old(self), *old(env), 1),
            old(self).phase < 199,
            1 <= modes@.len() <= 3,
            0 <= next_end <= 0x1_0000,
        ensures
            boss_stepped(*old(self), *final(self), 4),
            env_kept(*old(env), *final(env)),
            y6_attack_post(*old(self), *old(env), modes@, gate as int, next_end, *final(self), *final(env)),
    {
        proof {
            reveal(y6_attack_post);
        }
        if self.mode == -1 {
            // Between-pattern: pick the next mode.
            self.phase_frame = 0;
            self.phase_state = self.phase_state + 1;
            self.mode = modes[(self.phase_state as usize) % modes.len()] as i16;
        } else {
            self.y6_pattern(env, self.mode as u8);
        }
        let ghost b1 = *self;
        let ghost e1 = *env;
        assert(y6_attack_head(*old(self), *old(env), modes@, b1, e1));
        if self.phase_state >= gate || self.hittest() {
            env.pool.clear_all();
            self.phase = self.phase + 1;
            self.hp = self.phase_end_hp;
            self.phase_end_hp = next_end;
            self.phase_frame = 0;
            self.phase_state = 0;
            self.mode = 0;
        }
    }

    fn y6_pattern(&mut self, env: &mut BossEnv, pat: u8)
        requires
            y6_ok(*old(self), *old(env), 1),
        ensures
            boss_stepped(*old(self), *final(self), 3),
            env_kept(*old(env), *final(env)),
            final(self).phase == old(self).phase && final(self).phase_state == old(self).phase_state,
            y6_pattern_post(pat, *old(self), *old(env), *final(self), *final(env)),
    {
        if pat == 0 {
            self.y6_decel_rings(env);
        } else if pat == 1 {
            self.y6_spin_ring(env);
        } else if pat == 2 {
            self.y6_gravity_randoms(env);
        } else if pat == 3 {
            self.y6_safety_circle(env);
        } else if pat == 4 {
            self.y6_mirror_spreads(env);
        } else if pat == 5 {
            self.y6_random_spreads(env);
        } else if pat == 6 {
            self.y6_aimed_spreads(env);
        } else if pat == 7 {
            self.y6_sweep(env);
        } else if pat == 8 {
            self.y6_rot_rings(env);
        } else {
            self.y6_chasecross_burst(env);
        }
    }

    fn y6_end_pattern(&mut self)
        ensures
            *final(self) == (Boss { phase_frame: 0i32, mode: -1i16, ..*old(self) }),
    {
        self.phase_frame = 0;
        self.mode = -1;
    }

    // === Chasecross (homing destructible crosses, via the orbit pool) ======

    fn y6_chasecross_add(&mut self, angle: u8, speed: i32)
        requires
            boss_ok(*old(self), 2),
            -0x0100_0000 <= old(self).x <= 0x0100_0000 && -0x0100_0000 <= old(self).y <= 0x0100_0000,
            0 <= speed <= 0x1000,
        ensures
            boss_ok(*final(self), 2),
            *final(self) == (Boss { orbits: final(self).orbits, ..*old(self) }),
            final(self).orbits@ == orbit_added(old(self).orbits@, Orbit { mspeed: speed, ..chasecross_new(*old(self), angle) }),
    {
        let cx = self.x;
        let cy = self.y;
        let mut j: usize = 0;
        while j < self.orbits.len()
            invariant
                boss_ok(*self, 2),
                *self == *old(self),
                forall|q: int| 0 <= q < j ==> (#[trigger] self.orbits@[q]).flag != 0,
                cx == self.x && cy == self.y,
                -0x0100_0000 <= cx <= 0x0100_0000 && -0x0100_0000 <= cy <= 0x0100_0000,
                0 <= speed <= 0x1000,
            decreases self.orbits@.len() - j,
        {
            if self.orbits[j].flag == 0 {
                proof {
                    lemma_first_free_orbit(self.orbits@, 0, j as int);
                }
                let o = Orbit { flag: 1, angle, cx, cy, ox: cx, oy: cy, mspeed: speed, hp: 100, spin_time: 0, ..Orbit::default() };
                self.set_orbit(j, o, Ghost(2));
                return;
            }
            j = j + 1;
        }
        proof {
            lemma_first_free_orbit(self.orbits@, 0, self.orbits@.len() as int);
        }
    }

    /// `yuuka6_1A110` (chasecross half): home toward the player for 56 frames,
    /// then fly straight; cull off-screen. (Collision is in the stage sim.)
    fn y6_chasecross_step(&mut self, env: &BossEnv, Ghost(k): Ghost<int>)
        requires
            boss_ok(*old(self), k),
            k <= 6,
            env_ok(*env),
        ensures
            boss_ok(*final(self), k + 1),
            *final(self) == (Boss { orbits: final(self).orbits, ..*old(self) }),
            final(self).orbits@ == old(self).orbits@.map_values(|o: Orbit| chasecross_next(o, env.player.0, env.player.1)),
    {
        let px = env.player.0;
        let py = env.player.1;
        let mut j: usize = 0;
        while j < self.orbits.len()
            invariant
                j <= self.orbits@.len(),
                boss_ok(*old(self), k),
                1 <= k <= 6,
                px == env.player.0 && py == env.player.1,
                crate::bullet::target_ok(env.player),
                *self == (Boss { orbits: self.orbits, ..*old(self) }),
                self.orbits@.len() == old(self).orbits@.len(),
                forall|m: int| 0 <= m < j ==> orbit_within(#[trigger] self.orbits@[m], (k + 1) * 0x0100_0000),
                forall|m: int| j <= m < self.orbits@.len() ==> self.orbits@[m] == old(self).orbits@[m],
                forall|m: int| 0 <= m < j ==> #[trigger] self.orbits@[m] == ({ let o = old(self).orbits@[m]; chasecross_next(o, env.player.0, env.player.1) }),
            decreases self.orbits@.len() - j,
        {
            let o = self.orbits[j];
            assert(orbit_within(old(self).orbits@[j as int], k * 0x0100_0000));
            let o2 = chasecross_step(o, px, py, Ghost(k));
            self.orbits.set(j, o2);
            j = j + 1;
        }
        assert(self.orbits@ =~= old(self).orbits@.map_values(|o: Orbit| chasecross_next(o, env.player.0, env.player.1)));
        assert(boss_ok(*self, k + 1)) by {
            assert forall|m: int| 0 <= m < self.orbits@.len() implies orbit_within(#[trigger] self.orbits@[m], (k + 1) * 0x0100_0000) by {}
            assert forall|m: int| 0 <= m < 8 implies super::abs_le(#[trigger] self.sb@[m] as int, (k + 1) * 0x0100_0000) by {
                assert(super::abs_le(old(self).sb@[m] as int, k * 0x0100_0000));
            }
            assert forall|m: int| 0 <= m < self.rays@.len() implies super::ray_within(#[trigger] self.rays@[m], (k + 1) * 0x0100_0000) by {
                assert(super::ray_within(old(self).rays@[m], k * 0x0100_0000));
            }
        }
    }

    // === Attacks ==========================================================

    /// `yuuka6_1AB5D`: two decelerate-then-turn cross rings.
    fn y6_decel_rings(&mut self, env: &mut BossEnv)
        requires
            y6_ok(*old(self), *old(env), 1),
        ensures
            boss_stepped(*old(self), *final(self), 3),
            env_kept(*old(env), *final(env)),
            final(self).phase == old(self).phase && final(self).phase_state == old(self).phase_state,
            y6_decel_rings_post(*old(self), *old(env), *final(self), *final(env)),
    {
        let bx = self.x;
        let by = self.y - 4 * SUBPIXEL;
        if self.phase_frame == 48 {
            self.sb[2] = 2 * SUBPIXEL + 8;
        }
        if self.phase_frame == 48 || self.phase_frame == 64 {
            let t = BulletTemplate {
                spawn_type: 2,
                patnum: PAT_CROSS_YELLOW,
                special: Bsm::DecelThenTurn,
                turn_arg: 0xC0,
                turns_max: 1,
                ..BulletTemplate::shot(group::RING, 20, self.sb[2] as u8, 0)
            };
            env.pool.spawn(&t, bx, by, (0, 0));
            let t2 = BulletTemplate { turn_arg: 0x40, ..t };
            env.pool.spawn(&t2, bx, by, (0, 0));
            self.sb[2] = self.sb[2] + SUBPIXEL;
        }
        if self.phase_frame >= 80 {
            self.y6_end_pattern();
        }
    }

    /// `yuuka6_1ABE5`: a twin spin-ring sprayed from the parasol rim.
    fn y6_spin_ring(&mut self, env: &mut BossEnv)
        requires
            y6_ok(*old(self), *old(env), 1),
        ensures
            boss_stepped(*old(self), *final(self), 3),
            env_kept(*old(env), *final(env)),
            final(self).phase == old(self).phase && final(self).phase_state == old(self).phase_state,
            y6_spin_ring_post(*old(self), *old(env), *final(self), *final(env)),
    {
        if self.phase_frame >= 48 && self.phase_frame <= 80 && self.phase_frame % 2 == 0 {
            let base = 0u8.wrapping_sub(((self.phase_frame % 32) * 8) as u8);
            self.y6_rim_ring(env, base);
            self.y6_rim_ring(env, 0x80u8.wrapping_sub(base));
        }
        if self.phase_frame >= 96 {
            self.y6_end_pattern();
        }
    }

    /// A 16-ring along `ang` from the parasol rim 34px out along `ang`.
    fn y6_rim_ring(&self, env: &mut BossEnv, ang: u8)
        requires
            boss_ok(*self, 1),
            env_ok(*old(env)),
        ensures
            env_kept(*old(env), *final(env)),
            fired(*old(env), *final(env), rim_ring(ang), self.x + spec_vector2(ang, 544).0,
                self.y + spec_vector2(ang, 544).1, (0i32, 0i32)),
    {
        proof {
            lemma_vector2_fits(ang, 544);
            lemma_vector2_bounded(ang, 544);
        }
        let o = vector2(ang, 34 * SUBPIXEL);
        let t = BulletTemplate { spawn_type: 1, ..BulletTemplate::shot(group::RING, 16, (2 * SUBPIXEL + 8) as u8, ang) };
        env.pool.spawn(&t, self.x + o.0, self.y + o.1, (0, 0));
    }

    /// `yuuka6_1ACCC`: gravity-affected random small-red balls from ±20px.
    fn y6_gravity_randoms(&mut self, env: &mut BossEnv)
        requires
            y6_ok(*old(self), *old(env), 1),
        ensures
            boss_stepped(*old(self), *final(self), 3),
            env_kept(*old(env), *final(env)),
            final(self).phase == old(self).phase && final(self).phase_state == old(self).phase_state,
            y6_gravity_randoms_post(*old(self), *old(env), *final(self), *final(env)),
    {
        if 48 <= self.phase_frame && self.phase_frame <= 80 && env.frame % 4 == 0 {
            self.y6_gravity_ball(env, -20);
            self.y6_gravity_ball(env, 24);
        }
        if self.phase_frame > 80 {
            self.y6_end_pattern();
        }
    }

    fn y6_gravity_ball(&mut self, env: &mut BossEnv, side: i32)
        requires
            boss_ok(*old(self), 1),
            env_ok(*old(env)),
            -24 <= side <= 24,
        ensures
            *final(self) == (Boss { rng: final(self).rng, ..*old(self) }),
            env_kept(*old(env), *final(env)),
            final(env).fx == old(env).fx,
            ({
                let g = gravity_fire(old(self).rng.state, (old(env).pool.bullets@, old(env).pool.rng),
                    old(self).x as int, old(self).y as int, side as int);
                &&& final(self).rng.state == g.0
                &&& (final(env).pool.bullets@, final(env).pool.rng) == g.1
            }),
    {
        let speed = (SUBPIXEL + 8 + self.rng.modulo(24)) as u8;
        let angle = self.rng.byte();
        let t = BulletTemplate {
            spawn_type: 4,
            origin_x: (side * SUBPIXEL) as i16,
            origin_y: (-4 * SUBPIXEL) as i16,
            patnum: PAT_SMALL_RED,
            special: Bsm::Gravity,
            speed_delta: 1,
            ..BulletTemplate::shot(group::RANDOM_ANGLE_AND_SPEED, 4, speed, angle)
        };
        env.pool.spawn(&t, self.x, self.y, (0, 0));
    }

    /// `yuuka6_1AD6F` + `1A0D1`/`1A110`: the safety-circle attack (modelled as a
    /// shrinking telegraph that fires aimed rings around the player).
    fn y6_safety_circle(&mut self, env: &mut BossEnv)
        requires
            y6_ok(*old(self), *old(env), 1),
        ensures
            boss_stepped(*old(self), *final(self), 3),
            env_kept(*old(env), *final(env)),
            final(self).phase == old(self).phase && final(self).phase_state == old(self).phase_state,
            y6_safety_circle_post(*old(self), *old(env), *final(self), *final(env)),
    {
        if self.phase_frame == 64 {
            env.fx.circle_shrink(env.player.0, env.player.1); // safe-zone telegraph
        }
        if self.phase_frame >= 64 && self.phase_frame % 16 == 0 {
            env.fx.circle_grow(env.player.0, env.player.1);
            let t = BulletTemplate { spawn_type: 2, patnum: PAT_SMALL_RED, ..BulletTemplate::shot(group::RING_AIMED, 32, SUBPIXEL as u8, 0) };
            env.pool.spawn(&t, env.player.0, env.player.1, env.player);
        }
        if self.phase_frame >= 288 {
            self.y6_end_pattern();
        }
    }

    /// `yuuka6_1ADDB`: the appear-phase fire (rings + aimed stacks).
    fn y6_appear_fire(&mut self, env: &mut BossEnv)
        requires
            boss_ok(*old(self), 2),
            env_ok(*old(env)),
        ensures
            *final(self) == (Boss { rng: final(self).rng, ..*old(self) }),
            env_kept(*old(env), *final(env)),
            y6_appear_fire_post(*old(self), *old(env), *final(self), *final(env)),
    {
        if env.frame % 16 != 0 {
            return;
        }
        if self.phase == 6 {
            let r = BulletTemplate { spawn_type: 2, patnum: PAT_SMALL_RED, ..BulletTemplate::shot(group::RING, 16, (SUBPIXEL + 14) as u8, self.rng.byte()) };
            env.pool.spawn(&r, self.x, self.y, (0, 0));
            let c = BulletTemplate { spawn_type: 4, ..BulletTemplate::shot(group::RANDOM_ANGLE_AND_SPEED, 4, (SUBPIXEL + 8) as u8, 0) };
            env.pool.spawn(&c, self.x, self.y, (0, 0));
        } else {
            let t = BulletTemplate {
                spawn_type: 4,
                delta: 0x0A,
                patnum: PAT_D_BLUE,
                ..BulletTemplate::shot(group::STACK_AIMED, 7, (2 * SUBPIXEL) as u8, 0)
            };
            env.pool.spawn(&t, self.x, self.y, env.player);
        }
    }

    /// `yuuka6_1AE8F`: thick-laser column + mirrored D_BLUE spreads.
    fn y6_mirror_spreads(&mut self, env: &mut BossEnv)
        requires
            y6_ok(*old(self), *old(env), 1),
        ensures
            boss_stepped(*old(self), *final(self), 3),
            env_kept(*old(env), *final(env)),
            final(self).phase == old(self).phase && final(self).phase_state == old(self).phase_state,
            y6_mirror_spreads_post(*old(self), *old(env), *final(self), *final(env)),
    {
        let m = self.y6_mirror();
        if self.phase_frame == 64 {
            // Two thick lasers (boss + mirror), approximated by fast columns.
            env.fx.circle_grow(self.x, self.y + 32 * SUBPIXEL);
            env.fx.circle_grow(m.0, m.1 + 40 * SUBPIXEL);
        }
        if 64 <= self.phase_frame && self.phase_frame <= 128 && env.frame % 8 == 0 {
            let speed = (2 * SUBPIXEL + if self.sb[2] < 48 { self.sb[2] } else { 48 }) as u8;
            let t = BulletTemplate {
                spawn_type: 4,
                delta: 8,
                patnum: PAT_D_BLUE,
                ..BulletTemplate::shot(group::SPREAD, 3, speed, 0x60)
            };
            let t2 = BulletTemplate { angle: 0x20, ..t };
            env.pool.spawn(&t, self.x, self.y, (0, 0));
            env.pool.spawn(&t2, self.x, self.y, (0, 0));
            env.pool.spawn(&t, m.0, m.1, (0, 0));
            env.pool.spawn(&t2, m.0, m.1, (0, 0));
            self.sb[2] = self.sb[2] + 12;
        }
        if self.phase_frame >= 160 {
            self.sb[2] = 0;
            self.y6_end_pattern();
        }
    }

    /// `yuuka6_1AFA8`: mirrored yellow 5-spreads with a widening random arc.
    #[verifier::rlimit(40)]
    fn y6_random_spreads(&mut self, env: &mut BossEnv)
        requires
            y6_ok(*old(self), *old(env), 1),
        ensures
            boss_stepped(*old(self), *final(self), 3),
            env_kept(*old(env), *final(env)),
            final(self).phase == old(self).phase && final(self).phase_state == old(self).phase_state,
            y6_random_spreads_post(*old(self), *old(env), *final(self), *final(env)),
    {
        if self.phase_frame == 64 {
            self.sb[2] = 2;
        }
        let m = self.y6_mirror();
        if 64 <= self.phase_frame && self.phase_frame <= 128 && env.frame % 4 == 0 {
            let range = if self.sb[2] < 1 { 1 } else { self.sb[2] };
            self.y6_random_spread(env, self.x, self.y + 32 * SUBPIXEL, range);
            self.y6_random_spread(env, m.0, m.1 + 32 * SUBPIXEL, range);
            self.sb[2] = self.sb[2] + 6;
        }
        if self.phase_frame >= 160 {
            self.y6_end_pattern();
        }
    }

    fn y6_random_spread(&mut self, env: &mut BossEnv, cx: i32, cy: i32, range: i32)
        requires
            boss_ok(*old(self), 1),
            env_ok(*old(env)),
            -0x0400_0000 <= cx <= 0x0400_0000 && -0x0400_0000 <= cy <= 0x0400_0000,
            1 <= range <= 0x0100_0000,
        ensures
            *final(self) == (Boss { rng: final(self).rng, ..*old(self) }),
            env_kept(*old(env), *final(env)),
            final(env).fx == old(env).fx,
            ({
                let g = random_spread_fire(old(self).rng.state, (old(env).pool.bullets@, old(env).pool.rng), cx as int, cy as int,
                    range as int);
                &&& final(self).rng.state == g.0
                &&& (final(env).pool.bullets@, final(env).pool.rng) == g.1
            }),
    {
        let angle = (0x40 - range + self.rng.modulo(2 * range)) as u8;
        let speed = (12 + self.rng.modulo(0x20)) as u8;
        let t = BulletTemplate {
            spawn_type: 2,
            delta: 0x10,
            patnum: PAT_CROSS_YELLOW,
            ..BulletTemplate::shot(group::SPREAD, 5, speed, angle)
        };
        env.pool.spawn(&t, cx, cy, (0, 0));
    }

    /// `yuuka6_1B313`: mirrored wide / aimed D_BLUE spreads.
    fn y6_aimed_spreads(&mut self, env: &mut BossEnv)
        requires
            y6_ok(*old(self), *old(env), 1),
        ensures
            boss_stepped(*old(self), *final(self), 3),
            env_kept(*old(env), *final(env)),
            final(self).phase == old(self).phase && final(self).phase_state == old(self).phase_state,
            y6_aimed_spreads_post(*old(self), *old(env), *final(self), *final(env)),
    {
        let m = self.y6_mirror();
        if 64 <= self.phase_frame && self.phase_frame <= 192 && env.frame % 16 == 0 {
            let wide = env.frame % 32 == 0;
            let t = if wide {
                BulletTemplate { spawn_type: 2, delta: 0x0E, patnum: PAT_D_BLUE, ..BulletTemplate::shot(group::SPREAD, 10, (2 * SUBPIXEL + 8) as u8, 0x40) }
            } else {
                BulletTemplate { spawn_type: 2, delta: 0x0E, patnum: PAT_D_BLUE, ..BulletTemplate::shot(group::SPREAD_AIMED, 7, (2 * SUBPIXEL + 8) as u8, 0) }
            };
            env.pool.spawn(&t, self.x, self.y + 32 * SUBPIXEL, env.player);
            env.pool.spawn(&t, m.0, m.1 + 32 * SUBPIXEL, env.player);
        }
        if self.phase_frame >= 224 {
            self.y6_end_pattern();
        }
    }

    /// `yuuka6_1B099`: a swept aimed red ring stream.
    fn y6_sweep(&mut self, env: &mut BossEnv)
        requires
            y6_ok(*old(self), *old(env), 1),
        ensures
            boss_stepped(*old(self), *final(self), 3),
            env_kept(*old(env), *final(env)),
            final(self).phase == old(self).phase && final(self).phase_state == old(self).phase_state,
            y6_sweep_post(*old(self), *old(env), *final(self), *final(env)),
    {
        if self.phase_frame == 48 {
            self.angle = iatan2(self.y - env.player.1, self.x - env.player.0).wrapping_add(0x10);
            self.sb[6] = 1;
        }
        if 48 <= self.phase_frame && self.phase_frame < 136 && self.phase_frame % 2 != 0 {
            let t = BulletTemplate { spawn_type: 4, patnum: PAT_BALL_RED, ..BulletTemplate::shot(group::RING, 8, (9 * SUBPIXEL) as u8, self.angle) };
            env.pool.spawn(&t, self.x, self.y, (0, 0));
            if self.phase_frame >= 112 {
                self.angle = self.angle.wrapping_add(self.sb[6] as u8);
            }
        }
        if self.phase_frame >= 144 {
            self.y6_end_pattern();
        }
    }

    /// `yuuka6_1B1B1`: a rotating blue ring whose count grows.
    fn y6_rot_rings(&mut self, env: &mut BossEnv)
        requires
            y6_ok(*old(self), *old(env), 1),
        ensures
            boss_stepped(*old(self), *final(self), 3),
            env_kept(*old(env), *final(env)),
            final(self).phase == old(self).phase && final(self).phase_state == old(self).phase_state,
            y6_rot_rings_post(*old(self), *old(env), *final(self), *final(env)),
    {
        if self.phase_frame > 48 && env.frame % 8 == 0 {
            self.angle = self.angle.wrapping_add(2);
            let n = 4 + self.phase_frame / 4;
            let count = (if n < 40 { n } else { 40 }) as u8;
            let t = BulletTemplate { spawn_type: 2, patnum: PAT_D_BLUE, ..BulletTemplate::shot(group::RING, count, (3 * SUBPIXEL) as u8, self.angle) };
            env.pool.spawn(&t, self.x, self.y, (0, 0));
        }
        if self.phase_frame >= 144 {
            self.y6_end_pattern();
        }
    }

    /// `yuuka6_1B22B`: spawn two homing chasecross bullets every 8 frames.
    fn y6_chasecross_burst(&mut self, env: &mut BossEnv)
        requires
            y6_ok(*old(self), *old(env), 1),
        ensures
            boss_stepped(*old(self), *final(self), 3),
            env_kept(*old(env), *final(env)),
            final(self).phase == old(self).phase && final(self).phase_state == old(self).phase_state,
            y6_chasecross_burst_post(*old(self), *old(env), *final(self), *final(env)),
    {
        if self.phase_frame > 48 && env.frame % 8 == 0 {
            let a1 = self.rng.byte();
            self.y6_chasecross_add(a1, 2 * SUBPIXEL);
            let a2 = self.rng.byte();
            self.y6_chasecross_add(a2, 2 * SUBPIXEL);
        }
        if self.phase_frame >= 144 {
            self.y6_end_pattern();
        }
    }

    /// Phase 16 (`yuuka6_1B282`): the finale — twin small-red rings sweeping.
    fn y6_final(&mut self, env: &mut BossEnv)
        requires
            y6_ok(*old(self), *old(env), 1),
            old(self).phase == 16,
        ensures
            boss_stepped(*old(self), *final(self), 4),
            env_kept(*old(env), *final(env)),
            y6_final_post(*old(self), *old(env), *final(self), *final(env)),
    {
        proof {
            reveal(y6_final_post);
        }
        let v = self.phase_frame % 32;
        if v % 4 == 0 {
            self.angle = self.angle.wrapping_add(8);
            let t = BulletTemplate {
                spawn_type: 1,
                patnum: PAT_SMALL_RED,
                ..BulletTemplate::shot(group::RING, 8, (v + 2 * SUBPIXEL) as u8, 0x82u8.wrapping_sub(self.angle))
            };
            env.pool.spawn(&t, self.x, self.y, (0, 0));
            let t2 = BulletTemplate { angle: 0x80u8.wrapping_sub(self.angle), ..t };
            env.pool.spawn(&t2, self.x, self.y, (0, 0));
        }
        let dead = self.hittest();
        if dead || self.phase_frame >= 2500 {
            env.fx.spark(self.x, self.y);
            self.phase_state = if self.phase_frame < 2500 { 1 } else { 0 };
            self.phase = 17;
            self.phase_frame = 0;
        }
    }
}

/// One chasecross frame: for its first 56 frames turn one step toward the
/// player (the shorter way round), move along its heading at its speed, age
/// one frame, and vanish once more than 8px past an edge; a free one stays.
pub open spec fn chasecross_next(o: Orbit, px: i32, py: i32) -> Orbit {
    if o.flag != 1 {
        o
    } else {
        let a = if o.spin_time < 56 {
            let want = spec_iatan2(py - o.cy, px - o.cx);
            if angle_sub(want, o.angle) < 0x80 { angle_add(o.angle, 1) } else { angle_sub(o.angle, 1) }
        } else {
            o.angle
        };
        let v = spec_vector2(a, o.mspeed as int);
        let cx = o.cx + v.0;
        let cy = o.cy + v.1;
        let out = cx < -8 * SUBPIXEL || cx > PLAYFIELD_W * SUBPIXEL + 8 * SUBPIXEL
            || cy > PLAYFIELD_H * SUBPIXEL + 8 * SUBPIXEL || cy < -8 * SUBPIXEL;
        Orbit {
            angle: a,
            cx: cx as i32,
            cy: cy as i32,
            spin_time: (o.spin_time + 1) as i32,
            flag: if out { 0u8 } else { 1u8 },
            ..o
        }
    }
}

/// One chasecross frame (`chasecross_next`).
fn chasecross_step(o: Orbit, px: i32, py: i32, Ghost(k): Ghost<int>) -> (r: Orbit)
    requires
        1 <= k <= 6,
        orbit_within(o, k * 0x0100_0000),
        crate::bullet::target_ok((px, py)),
    ensures
        r == chasecross_next(o, px, py),
        orbit_within(r, (k + 1) * 0x0100_0000),
{
    let mut o = o;
    if o.flag != 1 {
        return o;
    }
    if o.spin_time < 56 {
        let want = iatan2(py - o.cy, px - o.cx);
        let d = want.wrapping_sub(o.angle);
        o.angle = if d < 0x80 { o.angle.wrapping_add(1) } else { o.angle.wrapping_sub(1) };
    }
    proof {
        lemma_vector2_fits(o.angle, o.mspeed as int);
        lemma_vector2_bounded(o.angle, o.mspeed as int);
    }
    let v = vector2(o.angle, o.mspeed);
    o.cx = o.cx + v.0;
    o.cy = o.cy + v.1;
    o.spin_time = o.spin_time + 1;
    let w = PLAYFIELD_W * SUBPIXEL;
    let h = PLAYFIELD_H * SUBPIXEL;
    if o.cx < -8 * SUBPIXEL || o.cx > w + 8 * SUBPIXEL || o.cy > h + 8 * SUBPIXEL || o.cy < -8 * SUBPIXEL {
        o.flag = 0;
    }
    o
}

} // verus!

//! Stage 5 boss **Yuuka** — `@yuuka5_update$qv` (th04_main.asm:14335) + subs
//! `yuuka5_15ECE/15F97/160A5/161D7/162A3/1630D/16389/1653D`. HP 9000.
//!
//! Nineteen phases: intro → settle → [attack-A, glide, safety-circle] ×3 →
//! attack-B → glide → **Master Spark** → attack-B → glide → Master Spark →
//! final → defeat. HP descends 9000 → 7900 then −800 (attack-A) / −1100 or −1200
//! (safety-circle / spark) per phase. Between every attack pattern Yuuka glides
//! to a new spot via `yuuka5_15ECE`.
//!
//! The Master Spark **thick laser** is point-based here — a dense fast aimed
//! column plus a `circle_grow` "safety-lane" telegraph (the game draws a
//! real thick beam + palette-tone safe zone).

use vstd::prelude::*;
use super::{Boss, BossEnv, BossKind, BossRng, SUBPIXEL, boss_ok, boss_stepped, env_ok, env_kept, lemma_boss_ok_mono, hit_tested};
use crate::bullet::{group, Bsm, BulletTemplate, tdiv_exec, tdiv, blank_template, pool_after_spawn, angle_add, angle_sub, cleared, lcg_next};
use crate::effects::{EffectKind, new_effect};
use crate::math::{iatan2, spec_iatan2};

verus! {

broadcast use lemma_boss_ok_mono;

pub const PAT_CROSS_YELLOW: u8 = 3;
pub const PAT_BALL_BLUE: u8 = 2;
pub const PAT_D_BLUE: u8 = 8;
pub const PAT_OUTLINED_BLUE: u8 = 1;
pub const RANK_NORMAL: u8 = 1;

/// Yuuka's own state a frame needs: a non-negative pattern counter and a
/// phase threshold with room for the per-phase HP steps.
pub open spec fn yuuka_state_ok(b: Boss) -> bool {
    b.phase_state >= 0 && b.phase_end_hp >= -0x8_0000
}

/// What a Yuuka routine asks: Yuuka within bound level `k`, her own state
/// sane, a sane context.
pub open spec fn yuuka_ok(b: Boss, env: BossEnv, k: int) -> bool {
    boss_ok(b, k) && b.kind == BossKind::Yuuka && env_ok(env) && yuuka_state_ok(b)
}

/// Yuuka after a glide frame (`yuuka_move`), and whether the glide ended:
/// rise 16px to start; wait 32 frames, then aim a 64-frame glide at the
/// centre (192, 80) or at a random spot; glide; wait 8 frames, drop back
/// 16px and end.
pub open spec fn yuuka_glided(b: Boss, center: bool) -> (Boss, bool) {
    let a = if b.sb@[0] == 0 { Boss { damage_pending: 0, y: (b.y + 256) as i32, ..b } } else { b };
    let s0 = if b.sb@[0] == 0 { 1int } else { b.sb@[0] as int };
    if s0 == 1 {
        if a.phase_frame >= 32 {
            let st1 = lcg_next(a.rng.state);
            let st2 = lcg_next(st1);
            let tx = if center { 3072int } else { ((st1 >> 16u32) as int) % 4096 + 1024 };
            let ty = if center { 1280int } else { ((st2 >> 16u32) as int) % 1024 + 1024 };
            (Boss { phase_frame: 0, vx: tdiv(tx - a.x, 64) as i32, vy: tdiv(ty - a.y, 64) as i32,
                rng: if center { a.rng } else { BossRng { state: st2 } }, ..a }, false)
        } else {
            (a, false)
        }
    } else if s0 == 2 {
        let m = Boss { x: (a.x + a.vx) as i32, y: (a.y + a.vy) as i32, ..a };
        (if a.phase_frame >= 64 { Boss { phase_frame: 0, ..m } } else { m }, false)
    } else if s0 == 3 && a.phase_frame >= 8 {
        (Boss { phase_frame: 0, mode: -2i16, y: (a.y - 256) as i32, ..a }, true)
    } else {
        (a, false)
    }
}

/// The glide stage `sb[0]` after a glide frame.
pub open spec fn yuuka_glide_stage(b: Boss) -> int {
    let s0 = if b.sb@[0] == 0 { 1int } else { b.sb@[0] as int };
    if s0 == 1 && b.phase_frame >= 32 { 2 } else if s0 == 2 && b.phase_frame >= 64 { 3 }
    else if s0 == 3 && b.phase_frame >= 8 { 0 } else { s0 }
}

/// What `yuuka_chasecross` does in a frame.
pub open spec fn yuuka_chasecross_post(o: Boss, oe: BossEnv, b: Boss, e: BossEnv) -> bool {
    &&& (e.fx == oe.fx)
    &&& (({
                    let pf = o.phase_frame;
                    let s5 = o.sb@[5] as int;
                    let (a, ox) = if pf == 1 {
                        (0u8, o.x - 512)
                    } else if pf == 15 {
                        (0u8, s5)
                    } else if pf == 31 || pf == 63 || pf == 95 || pf == 127 {
                        (if pf == 31 { 0x80u8 } else if pf == 63 { 0x70u8 } else if pf == 95 { 0x60u8 } else { 0x50u8 }, s5 + 1024)
                    } else if pf == 47 || pf == 79 || pf == 111 {
                        (if pf == 47 { 0x10u8 } else if pf == 79 { 0x20u8 } else { 0x30u8 }, s5 - 1024)
                    } else {
                        (o.angle, s5)
                    };
                    let b1 = Boss { sb: b.sb, angle: a, ..o };
                    &&& b.sb@ =~= o.sb@.update(5, ox as i32)
                    &&& b == (if pf == 140 { Boss { mode: -1i16, phase_frame: 0i32, ..b1 } } else { b1 })
                    &&& (e.pool.bullets@, e.pool.rng) == (if pf % 16 == 15 {
                        pool_after_spawn(oe.pool.bullets@, oe.pool.rng, BulletTemplate { spawn_type: 2, delta: 5,
                            patnum: PAT_CROSS_YELLOW, group: group::SPREAD, count: 11, speed: 40, angle: a, ..blank_template() },
                            ox, o.y as int, (0i32, 0i32))
                    } else {
                        (oe.pool.bullets@, oe.pool.rng)
                    })
                }))
}

/// What `yuuka_spin_rings` does in a frame.
pub open spec fn yuuka_spin_rings_post(o: Boss, oe: BossEnv, b: Boss, e: BossEnv) -> bool {
    &&& (e.fx == oe.fx)
    &&& (({
                    let pf = o.phase_frame;
                    let x = o.x as int;
                    let by = o.y + 256;
                    let p0 = (oe.pool.bullets@, oe.pool.rng);
                    let s3 = o.sb@[3] as int;
                    let s4 = o.sb@[4] as int;
                    if pf == 1 {
                        &&& b.sb@ =~= o.sb@.update(3, 1i32).update(4, 0i32)
                        &&& b == (Boss { angle: 0, sb: b.sb, ..o })
                        &&& (e.pool.bullets@, e.pool.rng) == p0
                    } else if pf == 128 || pf == 256 {
                        &&& b.sb@ =~= (if pf == 128 { o.sb@.update(3, 1i32).update(4, 0i32) } else { o.sb@ })
                        &&& b == (Boss { sb: b.sb, ..o })
                        &&& (e.pool.bullets@, e.pool.rng) == pool_after_spawn(p0.0, p0.1, BulletTemplate {
                            spawn_type: 2, patnum: PAT_CROSS_YELLOW, special: Bsm::Speedup, speed_delta: 1, group: group::RING,
                            count: 32, speed: 16, angle: if pf == 128 { 0x80u8 } else { 0u8 }, ..blank_template() }, x, by, (0i32, 0i32))
                    } else if pf == 288 {
                        &&& b == (Boss { mode: -1i16, phase_frame: 0i32, ..o })
                        &&& (e.pool.bullets@, e.pool.rng) == p0
                    } else {
                        let fires = pf < 256 && s4 >= 0x10;
                        let a = if fires { angle_add(o.angle, if pf < 128 { 7u8 } else { 0xF9u8 }) } else { o.angle };
                        let s3b = if fires { s3 + 1 } else { s3 };
                        let s4b = if fires { s4 - 0x10 } else { s4 };
                        &&& b.sb@ =~= o.sb@.update(3, s3b as i32).update(4, (s4b + s3b) as i32)
                        &&& b == (Boss { angle: a, sb: b.sb, ..o })
                        &&& (e.pool.bullets@, e.pool.rng) == (if fires {
                            pool_after_spawn(p0.0, p0.1, BulletTemplate { spawn_type: 4, patnum: PAT_D_BLUE, group: group::RING,
                                count: (RANK_NORMAL + 1) as u8, speed: 64, angle: a, ..blank_template() }, x, by, (0i32, 0i32))
                        } else {
                            p0
                        })
                    }
                }))
}

/// What `yuuka_aimed_ring` does in a frame.
pub open spec fn yuuka_aimed_ring_post(o: Boss, oe: BossEnv, b: Boss, e: BossEnv) -> bool {
    &&& (e.fx == oe.fx)
    &&& (({
                    let pf = o.phase_frame;
                    let s3 = if pf == 1 { 8int } else { o.sb@[3] as int };
                    let fires = pf % 16 == 15;
                    let b1 = Boss { sb: b.sb, ..o };
                    &&& b.sb@ =~= o.sb@.update(3, (if fires { s3 + 3 } else { s3 }) as i32)
                    &&& b == (if pf == 170 { Boss { mode: -1i16, phase_frame: 0i32, ..b1 } } else { b1 })
                    &&& (e.pool.bullets@, e.pool.rng) == (if fires {
                        pool_after_spawn(oe.pool.bullets@, oe.pool.rng, BulletTemplate { spawn_type: 2,
                            patnum: PAT_CROSS_YELLOW, special: Bsm::Speedup, speed_delta: 1, group: group::RING_AIMED,
                            count: s3 as u8, speed: 16, angle: 0, ..blank_template() }, o.x as int, o.y + 256,
                            oe.player)
                    } else {
                        (oe.pool.bullets@, oe.pool.rng)
                    })
                }))
}

/// What `yuuka_narrow_spread` does in a frame.
pub open spec fn yuuka_narrow_spread_post(o: Boss, oe: BossEnv, b: Boss, e: BossEnv) -> bool {
    &&& (e.fx == oe.fx)
    &&& (({
                    let pf = o.phase_frame;
                    let by = o.y + 256;
                    let a = if pf == 1 { spec_iatan2(oe.player.1 - by, oe.player.0 - o.x) } else { o.angle };
                    let s3a = if pf == 1 { 0x42int } else { o.sb@[3] as int };
                    let fires = pf % 8 == 7;
                    let s3 = if fires { s3a - 4 } else { s3a };
                    let b1 = Boss { sb: b.sb, angle: a, ..o };
                    &&& b.sb@ =~= o.sb@.update(3, s3 as i32)
                    &&& b == (if pf == 128 { Boss { mode: -1i16, phase_frame: 0i32, ..b1 } } else { b1 })
                    &&& (e.pool.bullets@, e.pool.rng) == (if fires {
                        pool_after_spawn(oe.pool.bullets@, oe.pool.rng, BulletTemplate { spawn_type: 4,
                            delta: (if s3 < 1 { 1 } else { s3 }) as u8, patnum: PAT_BALL_BLUE, group: group::SPREAD, count: 5,
                            speed: 80, angle: a, ..blank_template() }, o.x as int, by, (0i32, 0i32))
                    } else {
                        (oe.pool.bullets@, oe.pool.rng)
                    })
                }))
}

/// What `yuuka_safety_circle` does in a frame.
pub open spec fn yuuka_safety_circle_post(o: Boss, oe: BossEnv, b: Boss, e: BossEnv) -> bool {
    &&& (({
                    let pf = o.phase_frame;
                    let x = o.x;
                    let by = (o.y + 256) as i32;
                    let fires = pf >= 32 && pf % 16 == 0;
                    let st1 = lcg_next(o.rng.state);
                    let b1 = if fires { Boss { rng: BossRng { state: st1 }, ..o } } else { o };
                    let p0 = (oe.pool.bullets@, oe.pool.rng);
                    let p1 = if fires {
                        pool_after_spawn(p0.0, p0.1, BulletTemplate { spawn_type: 2, delta: 8, patnum: PAT_CROSS_YELLOW,
                            special: Bsm::BounceLeftRightTop, turns_max: 1, group: group::SPREAD, count: 7, speed: 32,
                            angle: (st1 >> 16u32) as u8, ..blank_template() }, x as int, by as int, (0i32, 0i32))
                    } else {
                        p0
                    };
                    let b2 = if pf >= 500 { b1 } else { hit_tested(b1) };
                    let end = pf >= 500 || b2.hp <= b2.phase_end_hp;
                    &&& b == (if end {
                        Boss { phase: (b2.phase + 1) as u8, hp: b2.phase_end_hp,
                            phase_end_hp: (b2.phase_end_hp - (if b2.phase + 1 < 0x0A { 1100int } else { 1200int })) as i32,
                            phase_frame: 0, phase_state: 0, mode: 0, ..b2 }
                    } else {
                        b2
                    })
                    &&& (e.pool.bullets@, e.pool.rng) == (if end { (cleared(p1.0), p1.1) } else { p1 })
                    &&& e.fx.effects@ =~= (if pf == 1 || pf == 3 || pf == 5 {
                        oe.fx.effects@.push(new_effect(x, by, EffectKind::Gather))
                    } else if pf == 0x11 {
                        oe.fx.effects@.push(new_effect(x, by, EffectKind::CircleShrink))
                    } else {
                        oe.fx.effects@
                    })
                }))
}

/// What `yuuka_master_spark` does in a frame.
pub open spec fn yuuka_master_spark_post(o: Boss, oe: BossEnv, b: Boss, e: BossEnv) -> bool {
    &&& (({
                    let pf = o.phase_frame;
                    let bx = o.x;
                    let by = (o.y + 256) as i32;
                    let fx0 = oe.fx.effects@;
                    let fx1 = if pf == 0x28 || pf == 0x2C || pf == 0x30 || pf == 0x38 || pf == 0x40 || pf == 0x48 || pf == 0x50 {
                        fx0.push(new_effect(bx, by, EffectKind::Gather)) } else { fx0 };
                    let fx2 = if pf == 0x38 || pf == 0x48 || pf == 0x50 { fx1.push(new_effect(bx, by, EffectKind::CircleShrink)) } else { fx1 };
                    let fx3 = if pf == 0x60 { fx2.push(new_effect(bx, by, EffectKind::CircleGrow)) } else { fx2 };
                    let beam = 96 <= pf < 240 && pf % 2 == 0;
                    let fx4 = if beam { fx3.push(new_effect(bx, by, EffectKind::CircleGrow)) } else { fx3 };
                    let p0 = (oe.pool.bullets@, oe.pool.rng);
                    let p1 = if beam {
                        pool_after_spawn(p0.0, p0.1, BulletTemplate { spawn_type: 2, delta: 3, patnum: PAT_CROSS_YELLOW,
                            group: group::SPREAD, count: 5, speed: 128,
                            angle: spec_iatan2(oe.player.1 - by, oe.player.0 - bx), ..blank_template() },
                            bx as int, by as int, (0i32, 0i32))
                    } else { p0 };
                    let ring = pf >= 128 && pf % 32 == 0;
                    let p2 = if ring {
                        pool_after_spawn(p1.0, p1.1, BulletTemplate { spawn_type: 2, patnum: PAT_D_BLUE, group: group::RING,
                            count: 32, speed: 72, angle: o.angle, ..blank_template() }, bx as int, by as int, (0i32, 0i32))
                    } else { p1 };
                    let p3 = if pf >= 192 && pf % 2 != 0 {
                        pool_after_spawn(p2.0, p2.1, BulletTemplate { spawn_type: 2, patnum: PAT_OUTLINED_BLUE, group: group::RANDOM_ANGLE,
                            count: 2, speed: 32, angle: 0, ..blank_template() }, bx as int, by as int, (0i32, 0i32))
                    } else { p2 };
                    let b1 = Boss { angle: if ring { angle_add(o.angle, 2) } else { o.angle },
                        phase_frame: (pf + 2) as i32, damage_pending: 0, ..o };
                    let ends = pf + 2 >= 288;
                    &&& e.fx.effects@ =~= fx4
                    &&& b == (if ends {
                        Boss { phase: (b1.phase + 1) as u8, hp: b1.phase_end_hp,
                            phase_end_hp: if b1.phase + 1 == 0x11 { 0i32 } else { (b1.phase_end_hp - 1200) as i32 },
                            phase_frame: 0, phase_state: 0, mode: 0, ..b1 }
                    } else {
                        b1
                    })
                    &&& (e.pool.bullets@, e.pool.rng) == (if ends { (cleared(p3.0), p3.1) } else { p3 })
                }))
}

/// What `yuuka_final` does in a frame.
pub open spec fn yuuka_final_post(o: Boss, oe: BossEnv, b: Boss, e: BossEnv) -> bool {
    &&& (({
                    let pf = o.phase_frame;
                    let bx = o.x;
                    let by = (o.y + 256) as i32;
                    let a0 = if pf == 48 { 16u8 } else { o.angle };
                    let s6 = if pf == 48 { 0x10int } else { o.sb@[6] as int };
                    let fires = pf >= 64 && pf % 8 == 0;
                    let c1 = BulletTemplate { spawn_type: 4, delta: 1, origin_x: 512i16, patnum: PAT_BALL_BLUE, group: group::SPREAD,
                        count: 5, speed: 40, angle: a0, ..blank_template() };
                    let c2 = BulletTemplate { angle: angle_sub(0x80, a0), origin_x: -512i16, ..c1 };
                    let q1 = BulletTemplate { spawn_type: 1, delta: 1, origin_x: -512i16, group: group::SPREAD, count: 3, speed: 24,
                        angle: s6 as u8, ..blank_template() };
                    let q2 = BulletTemplate { angle: angle_sub(0x80, s6 as u8), origin_x: 512i16, ..q1 };
                    let p0 = (oe.pool.bullets@, oe.pool.rng);
                    let p1 = pool_after_spawn(p0.0, p0.1, c1, bx as int, by as int, (0i32, 0i32));
                    let p2 = pool_after_spawn(p1.0, p1.1, c2, bx as int, by as int, (0i32, 0i32));
                    let p3 = pool_after_spawn(p2.0, p2.1, q1, bx as int, by as int, (0i32, 0i32));
                    let p4 = pool_after_spawn(p3.0, p3.1, q2, bx as int, by as int, (0i32, 0i32));
                    let fx1 = if pf == 48 { oe.fx.effects@.push(new_effect(bx, by, EffectKind::CircleShrink)) }
                        else { oe.fx.effects@ };
                    let h = hit_tested(Boss { angle: if fires { angle_sub(a0, 16) } else { a0 }, sb: b.sb, ..o });
                    let ends = h.hp <= h.phase_end_hp || h.phase_frame >= 1000;
                    &&& b.sb@ =~= o.sb@.update(6, (if fires { (s6 + 9) % 256 } else { s6 }) as i32)
                    &&& (e.pool.bullets@, e.pool.rng) == (if fires { p4 } else { p0 })
                    &&& b == (if ends {
                        Boss { phase_state: if h.phase_frame < 1000 { 1i16 } else { 0i16 }, phase: 18, phase_frame: 0, ..h }
                    } else {
                        h
                    })
                    &&& e.fx.effects@ =~= (if ends { fx1.push(new_effect(h.x, h.y, EffectKind::Spark)) } else { fx1 })
                }))
}

/// The environment after the screen is cleared.
pub open spec fn y5_env_cleared(oe: BossEnv, e: BossEnv) -> bool {
    &&& e.pool.bullets@ == cleared(oe.pool.bullets@)
    &&& e.pool.rng == oe.pool.rng
    &&& e.fx == oe.fx
}

/// A glide frame of Yuuka (`yuuka_move`), the environment untouched.
pub open spec fn yuuka_glide_post(o: Boss, center: bool, b: Boss) -> bool {
    &&& b.sb@ =~= o.sb@.update(0, yuuka_glide_stage(o) as i32)
    &&& Boss { sb: o.sb, ..b } == yuuka_glided(o, center).0
}

/// The first half of an attack-phase frame: the current pattern of attack A
/// (`attack_a`) or B, or the pick of the next one, or the glide between.
pub open spec fn yuuka_attack_head(o: Boss, oe: BossEnv, attack_a: bool, b1: Boss, e1: BossEnv) -> bool {
    if o.mode == 0 && attack_a { yuuka_chasecross_post(o, oe, b1, e1) }
    else if o.mode == 1 && attack_a { yuuka_spin_rings_post(o, oe, b1, e1) }
    else if o.mode == 0 { yuuka_aimed_ring_post(o, oe, b1, e1) }
    else if o.mode == 1 { yuuka_narrow_spread_post(o, oe, b1, e1) }
    else if o.mode == -2 {
        &&& b1 == (Boss { phase_frame: 0, phase_state: (o.phase_state + 1) as i16, mode: ((o.phase_state + 1) % 2) as i16, ..o })
        &&& e1 == oe
    } else {
        &&& yuuka_glide_post(o, false, b1)
        &&& e1 == oe
    }
}

/// The end of an attack-phase frame: outside a glide the phase closes (HP
/// threshold lowered by 800 in attack A) after four patterns or when the
/// hit test brings HP to the threshold; during a glide the frame is counted.
pub open spec fn yuuka_attack_tail(b1: Boss, e1: BossEnv, attack_a: bool, b: Boss, e: BossEnv) -> bool {
    if b1.sb@[0] == 0 {
        let h = hit_tested(b1);
        let c = if b1.phase_state >= 4 { b1 } else { h };
        if b1.phase_state >= 4 || h.hp <= h.phase_end_hp {
            &&& b == (Boss { phase: (c.phase + 1) as u8, hp: c.phase_end_hp,
                phase_end_hp: (c.phase_end_hp - (if attack_a { 800int } else { 0int })) as i32, phase_frame: 0,
                phase_state: 0, mode: 0, ..c })
            &&& y5_env_cleared(e1, e)
        } else {
            &&& b == h
            &&& e == e1
        }
    } else {
        &&& b == (Boss { phase_frame: (b1.phase_frame + 1) as i32, ..b1 })
        &&& e == e1
    }
}

/// What `yuuka_attack` does in a frame.
#[verifier::opaque]
pub open spec fn yuuka_attack_post(o: Boss, oe: BossEnv, attack_a: bool, b: Boss, e: BossEnv) -> bool {
    exists|b1: Boss, e1: BossEnv| #[trigger] yuuka_attack_head(o, oe, attack_a, b1, e1) && yuuka_attack_tail(b1, e1, attack_a, b, e)
}

/// What `yuuka_update` does in a frame of a live Yuuka.
#[verifier::opaque]
pub open spec fn yuuka_update_post(o: Boss, oe: BossEnv, b: Boss, e: BossEnv) -> bool {
    let p = o.phase;
    let pf2 = o.phase_frame + 2;
    if p == 0 {
        &&& b == (if pf2 > 128 { Boss { phase: 1, phase_frame: 0, damage_pending: 0, ..o } }
            else { Boss { phase_frame: pf2 as i32, damage_pending: 0, ..o } })
        &&& e == oe
    } else if p == 1 {
        &&& b == (if pf2 >= 64 {
            Boss { phase: 2, phase_frame: 0, phase_state: 0, mode: 0, hp: 9000, phase_end_hp: 7900, y: (o.y - 256) as i32,
                damage_pending: 0, ..o }
        } else {
            Boss { phase_frame: pf2 as i32, damage_pending: 0, ..o }
        })
        &&& e == oe
    } else if p == 2 || p == 5 || p == 8 {
        yuuka_attack_post(o, oe, true, b, e)
    } else if p == 3 || p == 6 || p == 9 || p == 12 || p == 15 {
        let m = Boss { phase_frame: (o.phase_frame + 1) as i32, ..o };
        let g = yuuka_glided(m, true);
        &&& b.sb@ =~= m.sb@.update(0, yuuka_glide_stage(m) as i32)
        &&& Boss { sb: o.sb, ..b } == (if g.1 { Boss { phase: (o.phase + 1) as u8, phase_frame: 0, phase_state: 0, mode: 0, ..g.0 } }
            else { g.0 })
        &&& e == oe
    } else if p == 4 || p == 7 || p == 10 {
        yuuka_safety_circle_post(o, oe, b, e)
    } else if p == 11 || p == 14 {
        yuuka_attack_post(o, oe, false, b, e)
    } else if p == 13 || p == 16 {
        yuuka_master_spark_post(o, oe, b, e)
    } else if p == 17 {
        yuuka_final_post(o, oe, b, e)
    } else {
        let pf = o.phase_frame + 1;
        if pf >= 32 {
            &&& b == (Boss { phase_frame: pf as i32, defeated: true, defeat_frame: 0, ..o })
            &&& e.pool.bullets@ == cleared(oe.pool.bullets@) && e.pool.rng == oe.pool.rng
            &&& e.fx.effects@ =~= oe.fx.effects@.push(new_effect(o.x, o.y, EffectKind::Spark))
            &&& e.player == oe.player && e.frame == oe.frame
        } else {
            &&& b == (Boss { phase_frame: pf as i32, ..o })
            &&& e == oe
        }
    }
}

impl Boss {
    #[verifier::rlimit(100)]
    pub(crate) fn yuuka_update(&mut self, env: &mut BossEnv)
        requires
            yuuka_ok(*old(self), *old(env), 1),
        ensures
            boss_stepped(*old(self), *final(self), 5),
            env_kept(*old(env), *final(env)),
            yuuka_update_post(*old(self), *old(env), *final(self), *final(env)),
    {
        proof {
            reveal(yuuka_update_post);
        }
        let p = self.phase;
        if p == 0 {
            self.phase_frame = self.phase_frame + 1;
            self.hittest_invincible();
            if self.phase_frame > 128 {
                self.phase = 1;
                self.phase_frame = 0;
            }
        } else if p == 1 {
            self.phase_frame = self.phase_frame + 1;
            self.hittest_invincible();
            if self.phase_frame >= 64 {
                self.phase = 2;
                self.phase_frame = 0;
                self.phase_state = 0;
                self.mode = 0;
                self.hp = 9000;
                self.phase_end_hp = 7900;
                self.y = self.y - 16 * SUBPIXEL;
            }
        } else if p == 2 || p == 5 || p == 8 {
            self.yuuka_attack(env, true);
        } else if p == 3 || p == 6 || p == 9 || p == 12 || p == 15 {
            self.phase_frame = self.phase_frame + 1;
            if self.yuuka_move(true) {
                self.phase = self.phase + 1;
                self.phase_frame = 0;
                self.phase_state = 0;
                self.mode = 0;
            }
        } else if p == 4 || p == 7 || p == 10 {
            self.yuuka_safety_circle(env);
        } else if p == 11 || p == 14 {
            self.yuuka_attack(env, false);
        } else if p == 13 || p == 16 {
            self.yuuka_master_spark(env);
        } else if p == 17 {
            self.yuuka_final(env);
        } else {
            self.phase_frame = self.phase_frame + 1;
            if self.phase_frame >= 32 {
                env.fx.spark(self.x, self.y);
                self.begin_defeat(&mut env.pool);
            }
        }
    }

    /// Bullet origin (`boss + (0, 16)`).
    fn yuuka_bo(&self) -> (r: (i32, i32))
        requires
            boss_ok(*self, 4),
        ensures
            r.0 == self.x && r.1 == self.y + 256,
    {
        (self.x, self.y + 16 * SUBPIXEL)
    }

    /// `yuuka5_15ECE`: multi-stage glide. `center` = settle at (192,80), else a
    /// random spot. Returns true the frame it completes (and sets `mode = -2`).
    fn yuuka_move(&mut self, center: bool) -> (done: bool)
        requires
            boss_ok(*old(self), 2),
            -0x0100_0000 <= old(self).x <= 0x0100_0000 && -0x0100_0000 <= old(self).y <= 0x0100_0000,
            -0x0100_0000 <= old(self).vx <= 0x0100_0000 && -0x0100_0000 <= old(self).vy <= 0x0100_0000,
            old(self).kind == BossKind::Yuuka,
            yuuka_state_ok(*old(self)),
        ensures
            boss_stepped(*old(self), *final(self), 3),
            yuuka_state_ok(*final(self)),
            final(self).phase == old(self).phase,
            final(self).phase_state == old(self).phase_state,
            final(self).sb@ == old(self).sb@.update(0, yuuka_glide_stage(*old(self)) as i32),
            (Boss { sb: old(self).sb, ..*final(self) }, done) == yuuka_glided(*old(self), center),
    {
        if self.sb[0] == 0 {
            self.sb[0] = 1;
            self.damage_pending = 0;
            self.y = self.y + 16 * SUBPIXEL;
        }
        if self.sb[0] == 1 {
            if self.phase_frame >= 32 {
                self.phase_frame = 0;
                self.sb[0] = 2;
                let (tx, ty) = if center {
                    (192 * SUBPIXEL, 80 * SUBPIXEL)
                } else {
                    (self.rng.modulo(256 * SUBPIXEL) + 64 * SUBPIXEL, self.rng.modulo(64 * SUBPIXEL) + 64 * SUBPIXEL)
                };
                self.vx = tdiv_exec(tx - self.x, 64);
                self.vy = tdiv_exec(ty - self.y, 64);
            }
        } else if self.sb[0] == 2 {
            self.x = self.x + self.vx;
            self.y = self.y + self.vy;
            if self.phase_frame >= 64 {
                self.phase_frame = 0;
                self.sb[0] = 3;
            }
        } else if self.sb[0] == 3 {
            if self.phase_frame >= 8 {
                self.phase_frame = 0;
                self.sb[0] = 0;
                self.mode = -2;
                self.y = self.y - 16 * SUBPIXEL;
                return true;
            }
        }
        false
    }

    /// Close a phase: clear the screen, top the HP up to the threshold, lower
    /// the threshold by `step` and reset the pattern state.
    fn yuuka_next_phase(&mut self, env: &mut BossEnv, step: i32)
        requires
            boss_ok(*old(self), 4),
            old(self).phase < 199,
            old(self).phase_end_hp >= -0x8_0000,
            0 <= step <= 1200,
            env_ok(*old(env)),
        ensures
            *final(self) == (Boss {
                phase: (old(self).phase + 1) as u8,
                hp: old(self).phase_end_hp,
                phase_end_hp: (old(self).phase_end_hp - step) as i32,
                phase_frame: 0,
                phase_state: 0,
                mode: 0,
                ..*old(self)
            }),
            boss_ok(*final(self), 4),
            env_kept(*old(env), *final(env)),
            final(env).pool.bullets@ == cleared(old(env).pool.bullets@),
            final(env).pool.rng == old(env).pool.rng && final(env).fx == old(env).fx,
    {
        env.pool.clear_all();
        self.phase = self.phase + 1;
        self.hp = self.phase_end_hp;
        self.phase_end_hp = self.phase_end_hp - step;
        self.phase_frame = 0;
        self.phase_state = 0;
        self.mode = 0;
    }

    /// Attack phase (2/5/8 = A; 11/14 = B). `attack_a` selects the mode pair and
    /// the −800 HP step; B uses no HP step.
    #[verifier::rlimit(60)]
    fn yuuka_attack(&mut self, env: &mut BossEnv, attack_a: bool)
        requires
            yuuka_ok(*old(self), *old(env), 1),
            old(self).phase <= 14,
        ensures
            boss_stepped(*old(self), *final(self), 4),
            env_kept(*old(env), *final(env)),
            yuuka_attack_post(*old(self), *old(env), attack_a, *final(self), *final(env)),
    {
        proof {
            reveal(yuuka_attack_post);
        }
        if self.mode == 0 && attack_a {
            self.yuuka_chasecross(env);
        } else if self.mode == 1 && attack_a {
            self.yuuka_spin_rings(env);
        } else if self.mode == 0 {
            self.yuuka_aimed_ring(env);
        } else if self.mode == 1 {
            self.yuuka_narrow_spread(env);
        } else if self.mode == -2 {
            self.phase_frame = 0;
            self.phase_state = self.phase_state + 1;
            self.mode = self.phase_state % 2;
        } else {
            self.yuuka_move(false); // 15ECE(0) between patterns
        }
        let ghost b1 = *self;
        let ghost e1 = *env;
        assert(yuuka_attack_head(*old(self), *old(env), attack_a, b1, e1));
        if self.sb[0] == 0 {
            let end = self.phase_state >= 4 || self.hittest();
            if end {
                self.yuuka_next_phase(env, if attack_a { 800 } else { 0 });
            }
        } else {
            self.phase_frame = self.phase_frame + 1;
        }
    }

    /// Phases 4/7/10 (`yuuka5_161D7`): bouncing safety-circle crosses.
    fn yuuka_safety_circle(&mut self, env: &mut BossEnv)
        requires
            yuuka_ok(*old(self), *old(env), 1),
            old(self).phase <= 10,
        ensures
            boss_stepped(*old(self), *final(self), 4),
            env_kept(*old(env), *final(env)),
            yuuka_safety_circle_post(*old(self), *old(env), *final(self), *final(env)),
    {
        let bo = self.yuuka_bo();
        let pf = self.phase_frame;
        if pf == 1 || pf == 3 || pf == 5 {
            env.fx.gather(bo.0, bo.1);
        } else if pf == 0x11 {
            env.fx.circle_shrink(bo.0, bo.1);
        }
        if self.phase_frame >= 32 && self.phase_frame % 16 == 0 {
            let t = BulletTemplate {
                spawn_type: 2,
                delta: 8,
                patnum: PAT_CROSS_YELLOW,
                special: Bsm::BounceLeftRightTop,
                turns_max: 1,
                ..BulletTemplate::shot(group::SPREAD, 7, (2 * SUBPIXEL) as u8, self.rng.byte())
            };
            env.pool.spawn(&t, bo.0, bo.1, (0, 0));
        }
        let end = self.phase_frame >= 500 || self.hittest();
        if end {
            let step = if self.phase + 1 < 0x0A { 1100 } else { 1200 };
            self.yuuka_next_phase(env, step);
        }
    }

    /// Phases 13/16 (`yuuka5_16389`): Master Spark.
    fn yuuka_master_spark(&mut self, env: &mut BossEnv)
        requires
            yuuka_ok(*old(self), *old(env), 1),
            old(self).phase == 13 || old(self).phase == 16,
        ensures
            boss_stepped(*old(self), *final(self), 4),
            env_kept(*old(env), *final(env)),
            yuuka_master_spark_post(*old(self), *old(env), *final(self), *final(env)),
    {
        let bo = self.yuuka_bo();
        let bx = bo.0;
        let by = bo.1;
        let pf = self.phase_frame;
        // Charge telegraph.
        if pf == 0x28 || pf == 0x2C || pf == 0x30 || pf == 0x38 || pf == 0x40 || pf == 0x48 || pf == 0x50 {
            env.fx.gather(bx, by);
        }
        if pf == 0x38 || pf == 0x48 || pf == 0x50 {
            env.fx.circle_shrink(bx, by);
        }
        if pf == 0x60 {
            env.fx.circle_grow(bx, by); // thick-laser fire telegraph
        }
        // The thick beam (approximated): a dense fast aimed column once firing.
        if pf >= 96 && pf < 240 && pf % 2 == 0 {
            let aim = iatan2(env.player.1 - by, env.player.0 - bx);
            let beam = BulletTemplate {
                spawn_type: 2,
                delta: 3,
                patnum: PAT_CROSS_YELLOW,
                ..BulletTemplate::shot(group::SPREAD, 5, (8 * SUBPIXEL) as u8, aim)
            };
            env.pool.spawn(&beam, bx, by, (0, 0));
            env.fx.circle_grow(bx, by);
        }
        // Background rotating ring (frame >= 128, every 32).
        if pf >= 128 && pf % 32 == 0 {
            let t = BulletTemplate { spawn_type: 2, patnum: PAT_D_BLUE, ..BulletTemplate::shot(group::RING, 32, (4 * SUBPIXEL + 8) as u8, self.angle) };
            env.pool.spawn(&t, bx, by, (0, 0));
            self.angle = self.angle.wrapping_add(2);
        }
        // Random fill (frame >= 192, every other frame).
        if pf >= 192 && pf % 2 != 0 {
            let t = BulletTemplate { spawn_type: 2, patnum: PAT_OUTLINED_BLUE, ..BulletTemplate::shot(group::RANDOM_ANGLE, 2, (2 * SUBPIXEL) as u8, 0) };
            env.pool.spawn(&t, bx, by, (0, 0));
        }
        self.phase_frame = self.phase_frame + 1;
        self.hittest_invincible();
        if self.phase_frame >= 288 {
            let last = self.phase + 1 == 0x11;
            self.yuuka_next_phase(env, 0);
            if last {
                self.phase_end_hp = 0;
            } else {
                self.phase_end_hp = self.phase_end_hp - 1200;
            }
        }
    }

    /// Phase 17 (`yuuka5_1653D`): the final symmetric spreads; dies at HP 0 or a
    /// 1000-frame timeout.
    fn yuuka_final(&mut self, env: &mut BossEnv)
        requires
            yuuka_ok(*old(self), *old(env), 1),
            old(self).phase == 17,
        ensures
            boss_stepped(*old(self), *final(self), 4),
            env_kept(*old(env), *final(env)),
            yuuka_final_post(*old(self), *old(env), *final(self), *final(env)),
    {
        let bo = self.yuuka_bo();
        if self.phase_frame == 48 {
            env.fx.circle_shrink(bo.0, bo.1);
            self.angle = 16;
            self.sb[6] = 0x10; // spread_angle
        }
        if self.phase_frame >= 64 && self.phase_frame % 8 == 0 {
            // Twin mirrored cloud spreads.
            let a = self.angle;
            let c1 = BulletTemplate {
                spawn_type: 4,
                delta: 1,
                origin_x: (32 * SUBPIXEL) as i16,
                patnum: PAT_BALL_BLUE,
                ..BulletTemplate::shot(group::SPREAD, 5, (2 * SUBPIXEL + 8) as u8, a)
            };
            env.pool.spawn(&c1, bo.0, bo.1, (0, 0));
            let c2 = BulletTemplate { angle: 0x80u8.wrapping_sub(a), origin_x: (-32 * SUBPIXEL) as i16, ..c1 };
            env.pool.spawn(&c2, bo.0, bo.1, (0, 0));
            self.angle = self.angle.wrapping_sub(16);
            // Twin mirrored pellet spreads.
            let sa = self.sb[6] as u8;
            let p1 = BulletTemplate {
                spawn_type: 1,
                delta: 1,
                origin_x: (-32 * SUBPIXEL) as i16,
                ..BulletTemplate::shot(group::SPREAD, 3, (SUBPIXEL + 8) as u8, sa)
            };
            env.pool.spawn(&p1, bo.0, bo.1, (0, 0));
            let p2 = BulletTemplate { angle: 0x80u8.wrapping_sub(sa), origin_x: (32 * SUBPIXEL) as i16, ..p1 };
            env.pool.spawn(&p2, bo.0, bo.1, (0, 0));
            let v = self.sb[6] + 9;
            assert(0 <= v & 0xFF <= 0xFF) by (bit_vector);
            assert(v & 0xFF == v % 256) by (bit_vector);
            self.sb[6] = v & 0xFF;
        }
        let dead = self.hittest();
        if dead || self.phase_frame >= 1000 {
            env.fx.spark(self.x, self.y);
            self.phase_state = if self.phase_frame < 1000 { 1 } else { 0 };
            self.phase = 18;
            self.phase_frame = 0;
        }
    }

    // === Attack-A modes ===================================================

    /// `yuuka5_15F97`: the 11-way cross spread sweeping angle + origin: frames
    /// 31, 47, … set the base angle and step the origin ±64px.
    fn yuuka_chasecross(&mut self, env: &mut BossEnv)
        requires
            yuuka_ok(*old(self), *old(env), 1),
        ensures
            boss_stepped(*old(self), *final(self), 3),
            env_kept(*old(env), *final(env)),
            yuuka_state_ok(*final(self)),
            final(self).phase == old(self).phase && final(self).sb@[0] == old(self).sb@[0],
            final(self).phase_frame <= old(self).phase_frame,
            yuuka_chasecross_post(*old(self), *old(env), *final(self), *final(env)),
    {
        let pf = self.phase_frame;
        if pf == 1 {
            self.sb[5] = self.x - 32 * SUBPIXEL; // word_25662 (origin x)
            self.angle = 0; // BT_angle
        } else if pf == 15 {
            self.angle = 0;
        } else if pf == 31 || pf == 63 || pf == 95 || pf == 127 {
            self.angle = if pf == 31 { 0x80 } else if pf == 63 { 0x70 } else if pf == 95 { 0x60 } else { 0x50 };
            self.sb[5] = self.sb[5] + 64 * SUBPIXEL;
        } else if pf == 47 || pf == 79 || pf == 111 {
            self.angle = if pf == 47 { 0x10 } else if pf == 79 { 0x20 } else { 0x30 };
            self.sb[5] = self.sb[5] - 64 * SUBPIXEL;
        }
        if pf == 140 {
            self.mode = -1;
            self.phase_frame = 0;
        }
        if pf % 16 == 15 {
            let t = BulletTemplate {
                spawn_type: 2,
                delta: 5,
                patnum: PAT_CROSS_YELLOW,
                ..BulletTemplate::shot(group::SPREAD, 11, (2 * SUBPIXEL + 8) as u8, self.angle)
            };
            env.pool.spawn(&t, self.sb[5], self.y, (0, 0));
        }
    }

    /// `yuuka5_160A5`: an accelerating rotating ring + two SPEEDUP cross bursts.
    fn yuuka_spin_rings(&mut self, env: &mut BossEnv)
        requires
            yuuka_ok(*old(self), *old(env), 1),
        ensures
            boss_stepped(*old(self), *final(self), 3),
            env_kept(*old(env), *final(env)),
            yuuka_state_ok(*final(self)),
            final(self).phase == old(self).phase && final(self).sb@[0] == old(self).sb@[0],
            final(self).phase_frame <= old(self).phase_frame,
            yuuka_spin_rings_post(*old(self), *old(env), *final(self), *final(env)),
    {
        let bo = self.yuuka_bo();
        let pf = self.phase_frame;
        let ring_count = RANK_NORMAL + 1;
        if pf == 1 {
            self.angle = 0;
            self.sb[3] = 1; // byte_25664 (accel)
            self.sb[4] = 0; // byte_25665 (accumulator)
            return;
        }
        if pf == 128 || pf == 256 {
            let t = BulletTemplate {
                spawn_type: 2,
                patnum: PAT_CROSS_YELLOW,
                special: Bsm::Speedup,
                speed_delta: 1,
                ..BulletTemplate::shot(group::RING, 32, SUBPIXEL as u8, if pf == 128 { 0x80 } else { 0 })
            };
            env.pool.spawn(&t, bo.0, bo.1, (0, 0));
            if pf == 128 {
                self.sb[3] = 1;
                self.sb[4] = 0;
            }
            return;
        }
        if pf == 288 {
            self.mode = -1;
            self.phase_frame = 0;
            return;
        }
        // Rotating ring, gated by the accelerating accumulator.
        if pf < 256 && self.sb[4] >= 0x10 {
            let step: u8 = if pf < 128 { 7 } else { 0xF9 };
            self.angle = self.angle.wrapping_add(step);
            let t = BulletTemplate { spawn_type: 4, patnum: PAT_D_BLUE, ..BulletTemplate::shot(group::RING, ring_count, (4 * SUBPIXEL) as u8, self.angle) };
            env.pool.spawn(&t, bo.0, bo.1, (0, 0));
            self.sb[3] = self.sb[3] + 1;
            self.sb[4] = self.sb[4] - 0x10;
        }
        self.sb[4] = self.sb[4] + self.sb[3];
    }

    // === Attack-B modes ===================================================

    /// `yuuka5_162A3`: an aimed cross ring that grows + speeds up.
    fn yuuka_aimed_ring(&mut self, env: &mut BossEnv)
        requires
            yuuka_ok(*old(self), *old(env), 1),
        ensures
            boss_stepped(*old(self), *final(self), 3),
            env_kept(*old(env), *final(env)),
            yuuka_state_ok(*final(self)),
            final(self).phase == old(self).phase && final(self).sb@[0] == old(self).sb@[0],
            final(self).phase_frame <= old(self).phase_frame,
            yuuka_aimed_ring_post(*old(self), *old(env), *final(self), *final(env)),
    {
        let bo = self.yuuka_bo();
        if self.phase_frame == 1 {
            self.sb[3] = 8; // ring count
        }
        if self.phase_frame == 170 {
            self.mode = -1;
            self.phase_frame = 0;
        }
        if self.phase_frame % 16 == 15 {
            let t = BulletTemplate {
                spawn_type: 2,
                patnum: PAT_CROSS_YELLOW,
                special: Bsm::Speedup,
                speed_delta: 1,
                ..BulletTemplate::shot(group::RING_AIMED, self.sb[3] as u8, SUBPIXEL as u8, 0)
            };
            env.pool.spawn(&t, bo.0, bo.1, env.player);
            self.sb[3] = self.sb[3] + 3;
        }
    }

    /// `yuuka5_1630D`: an aimed cloud spread whose arc narrows each volley.
    fn yuuka_narrow_spread(&mut self, env: &mut BossEnv)
        requires
            yuuka_ok(*old(self), *old(env), 1),
        ensures
            boss_stepped(*old(self), *final(self), 3),
            env_kept(*old(env), *final(env)),
            yuuka_state_ok(*final(self)),
            final(self).phase == old(self).phase && final(self).sb@[0] == old(self).sb@[0],
            final(self).phase_frame <= old(self).phase_frame,
            yuuka_narrow_spread_post(*old(self), *old(env), *final(self), *final(env)),
    {
        let bo = self.yuuka_bo();
        if self.phase_frame == 1 {
            self.angle = iatan2(env.player.1 - bo.1, env.player.0 - bo.0);
            self.sb[3] = 0x42; // spread angle
        }
        if self.phase_frame == 128 {
            self.mode = -1;
            self.phase_frame = 0;
        }
        if self.phase_frame % 8 == 7 {
            self.sb[3] = self.sb[3] - 4;
            let d = if self.sb[3] < 1 { 1 } else { self.sb[3] };
            let t = BulletTemplate {
                spawn_type: 4,
                delta: d as u8,
                patnum: PAT_BALL_BLUE,
                ..BulletTemplate::shot(group::SPREAD, 5, (5 * SUBPIXEL) as u8, self.angle)
            };
            env.pool.spawn(&t, bo.0, bo.1, (0, 0));
        }
    }
}

} // verus!

//! Stage 1 boss **Orange** — `@orange_update$qv` (th04_main.asm:20254) plus its
//! pattern subs `orange_195E4/19686/19720/197BB/19814/19878/1998B`. Six phases:
//! charge → triple-ring → random barrage (4 sub-patterns) → wandering spray →
//! rotating spiral → defeat. HP 3050, thresholds 1950 → 450 → 0.

use vstd::prelude::*;
use super::{Boss, BossEnv, BossKind, BossRng, SUBPIXEL, shr8, boss_ok, boss_stepped, env_ok, env_kept, lemma_boss_ok_mono,
    hit_tested, phase_advanced, boss_frame_post, hp_ok, update_ok};
use crate::effects::{Effect, EffectKind, new_effect};
use crate::bullet::{group, Bullet, BulletTemplate, tdiv_exec, tdiv, pool_after_spawn, blank_template, lcg_next, angle_add, angle_sub, cleared};
use crate::math::{iatan2, sin8, spec_iatan2, spec_sin8};

verus! {

broadcast use lemma_boss_ok_mono;

/// `PAT_BULLET16_N_OUTLINED_BALL_WHITE` — the white 16×16 ball; the index is
/// mapped at render time, here it just tags the larger bullets.
pub const PAT_BALL_WHITE: u8 = 1;

/// What an Orange routine asks: Orange within bound level `k`, a sane context.
pub open spec fn orange_ok(b: Boss, env: BossEnv, k: int) -> bool {
    boss_ok(b, k) && b.kind == BossKind::Orange && env_ok(env)
}

/// Orange after the shared gate (`orange_gate`): from frame 16 she glides
/// for 54 frames toward a random spot, drawn on frame 16.
#[verifier::opaque]
pub open spec fn orange_gated(b: Boss) -> Boss {
    let f = b.phase_frame;
    let st1 = lcg_next(b.rng.state);
    let st2 = lcg_next(st1);
    let b1 = if f == 16 {
        let tx = ((st1 >> 16u32) as int) % 5120 + 512;
        let ty = ((st2 >> 16u32) as int) % 1536 + 1024;
        Boss { vx: tdiv(tx - b.x, 64) as i32, vy: tdiv(ty - b.y, 64) as i32, rng: BossRng { state: st2 }, ..b }
    } else {
        b
    };
    if 16 <= f < 70 { Boss { x: (b1.x + b1.vx) as i32, y: (b1.y + b1.vy) as i32, ..b1 } } else { b1 }
}

/// The telegraphs `orange_gate` adds: a gather as the glide starts, a
/// shrinking circle as it ends.
#[verifier::opaque]
pub open spec fn orange_gate_fx(b: Boss, fx: Seq<Effect>) -> Seq<Effect> {
    if b.phase_frame == 16 {
        fx.push(new_effect(b.x, b.y, EffectKind::Gather))
    } else if b.phase_frame == 70 {
        fx.push(new_effect(b.x, b.y, EffectKind::CircleShrink))
    } else {
        fx
    }
}

/// From the fire point (frame 86) on, `orange_gate` leaves Orange and the
/// telegraphs as they are.
pub proof fn lemma_orange_gate_idle(b: Boss, fx: Seq<Effect>)
    requires
        b.phase_frame >= 86,
    ensures
        orange_gated(b) == b,
        orange_gate_fx(b, fx) == fx,
{
    reveal(orange_gated);
    reveal(orange_gate_fx);
}

/// A pattern frame before the fire point (frame 86): only `orange_gate` runs.
pub open spec fn orange_waited(b: Boss, env: BossEnv, b2: Boss, env2: BossEnv) -> bool {
    &&& b2 == orange_gated(b)
    &&& env2.fx.effects@ == orange_gate_fx(b, env.fx.effects@)
    &&& env2.pool == env.pool
}

/// Orange after a wander step: on the first frame head for the far side;
/// bob with a sine of her angle (held within 48..96px), turn the angle 2,
/// move, and turn back at the side walls.
pub open spec fn orange_wandered(b: Boss) -> Boss {
    let b0 = if b.phase_frame == 1 {
        Boss { vx: if b.x < 192 * SUBPIXEL { 16i32 } else { -16i32 }, angle: 0, ..b }
    } else {
        b
    };
    let vy0 = (spec_sin8(b0.angle) * 16) / 256;
    let vy1 = if b0.y >= 96 * SUBPIXEL { -16 } else { vy0 };
    let vy = if b0.y <= 48 * SUBPIXEL { 16 } else { vy1 };
    let x = b0.x + b0.vx;
    let y = b0.y + vy;
    Boss {
        vy: vy as i32,
        angle: angle_add(b0.angle, 2),
        x: x as i32,
        y: y as i32,
        vx: if x <= 32 * SUBPIXEL || x >= 352 * SUBPIXEL { -b0.vx as i32 } else { b0.vx },
        ..b0
    }
}

/// The pool after the first `n` of the opening 16-rings from (`x`, `y`),
/// at 4, 3 and 2 px a frame.
pub open spec fn orange_rings(p: (Seq<Bullet>, u32), x: int, y: int, n: nat) -> (Seq<Bullet>, u32)
    decreases n,
{
    if n == 0 {
        p
    } else {
        let q = orange_rings(p, x, y, (n - 1) as nat);
        pool_after_spawn(q.0, q.1, BulletTemplate { group: group::RING, count: 16, speed: (64 - 16 * (n - 1)) as u8, angle: 0,
            ..blank_template() }, x, y, (0i32, 0i32))
    }
}

/// The pool after a wander step: every fourth frame, random-angle bullets
/// (two each once HP is at 700 or below) from 32px either side of Orange.
pub open spec fn orange_wander_pool(b: Boss, env: BossEnv) -> (Seq<Bullet>, u32) {
    let w = orange_wandered(b);
    let t = BulletTemplate { origin_x: -512i16, patnum: PAT_BALL_WHITE, group: group::RANDOM_ANGLE,
        count: if b.hp <= 700 { 2u8 } else { 1u8 }, speed: 32, angle: 0, ..blank_template() };
    let p1 = pool_after_spawn(env.pool.bullets@, env.pool.rng, t, w.x as int, w.y as int, (0i32, 0i32));
    if env.frame % 4 == 0 {
        pool_after_spawn(p1.0, p1.1, BulletTemplate { origin_x: 512i16, ..t }, w.x as int, w.y as int, (0i32, 0i32))
    } else {
        (env.pool.bullets@, env.pool.rng)
    }
}

/// A single bullet of the spiral from 8px right of and 16px above Orange.
pub open spec fn spiral_shot(angle: u8, speed: u8, patnum: u8) -> BulletTemplate {
    BulletTemplate { patnum, origin_x: 128i16, origin_y: -256i16, group: group::SINGLE, count: 1, speed, angle, ..blank_template() }
}

/// The angle of the spiral's `k`-th extra arm: a quarter turn per arm.
pub open spec fn arm_angle(a0: u8, k: nat) -> u8
    decreases k,
{
    if k == 0 { a0 } else { angle_add(arm_angle(a0, (k - 1) as nat), 0x40) }
}

/// The pool after the spiral's first `n` extra arms fired from (`x`, `y`).
pub open spec fn spiral_arms(p: (Seq<Bullet>, u32), x: int, y: int, a0: u8, n: nat) -> (Seq<Bullet>, u32)
    decreases n,
{
    if n == 0 {
        p
    } else {
        let q = spiral_arms(p, x, y, a0, (n - 1) as nat);
        pool_after_spawn(q.0, q.1, spiral_shot(arm_angle(a0, n), 32, 0), x, y, (0i32, 0i32))
    }
}

/// Orange after a spiral frame: every fourth frame the arm turns back 7.
pub open spec fn orange_spiraled(b: Boss, frame: u16) -> Boss {
    if frame % 4 != 0 { b } else { Boss { angle: angle_sub(b.angle, 7), ..b } }
}

/// The pool after a spiral frame: every fourth frame the arm, from frame 128
/// one to three quarter-turned arms more, and from frame 320 a faster
/// mirrored pair.
pub open spec fn orange_spiral_pool(b: Boss, env: BossEnv) -> (Seq<Bullet>, u32) {
    let x = b.x as int;
    let y = b.y as int;
    let f = b.phase_frame;
    let a0 = angle_sub(b.angle, 7);
    let arms: nat = if f < 128 { 0 } else if f < 192 { 1 } else if f < 256 { 2 } else { 3 };
    let p1 = pool_after_spawn(env.pool.bullets@, env.pool.rng, spiral_shot(a0, 32, 0), x, y, (0i32, 0i32));
    let p2 = spiral_arms(p1, x, y, a0, arms);
    let c = angle_sub(angle_sub(0, arm_angle(a0, arms)), 0x20);
    let p3 = pool_after_spawn(p2.0, p2.1, spiral_shot(c, 48, PAT_BALL_WHITE), x, y, (0i32, 0i32));
    let p4 = pool_after_spawn(p3.0, p3.1, spiral_shot(angle_add(c, 0x80), 48, PAT_BALL_WHITE), x, y, (0i32, 0i32));
    if env.frame % 4 != 0 { (env.pool.bullets@, env.pool.rng) } else if f >= 320 { p4 } else { p2 }
}

/// What `orange_p_twinsweep` does in a frame.
pub open spec fn orange_p_twinsweep_post(o: Boss, oe: BossEnv, b: Boss, e: BossEnv) -> bool {
    &&& (o.phase_frame < 86 ==> orange_waited(o, oe, b, e))
    &&& (o.phase_frame >= 86 ==> {
                    let pf = o.phase_frame;
                    let st1 = lcg_next(o.rng.state);
                    let right = ((st1 >> 16u32) & 1u32) != 0;
                    let b0 = if pf == 86 {
                        Boss { angle: if right { 0x80u8 } else { 0u8 }, phase_state: if right { -0x0Bi16 } else { 0x0Bi16 },
                            rng: BossRng { state: st1 }, ..o }
                    } else {
                        o
                    };
                    let fires = oe.frame % 2 == 0;
                    let t = BulletTemplate { group: group::RING, count: 2, speed: 30, angle: b0.angle, ..blank_template() };
                    let p1 = pool_after_spawn(oe.pool.bullets@, oe.pool.rng, t, o.x as int, o.y as int,
                        (0i32, 0i32));
                    let b1 = if fires { Boss { angle: angle_add(b0.angle, b0.phase_state as u8), ..b0 } } else { b0 };
                    &&& b == (if pf >= 118 { Boss { mode: 0, ..b1 } } else { b1 })
                    &&& e.fx.effects@ =~= oe.fx.effects@
                    &&& (e.pool.bullets@, e.pool.rng) == (if fires {
                        pool_after_spawn(p1.0, p1.1, BulletTemplate { angle: angle_add(b0.angle, 5), speed: 20, ..t },
                            o.x as int, o.y as int, (0i32, 0i32))
                    } else {
                        (oe.pool.bullets@, oe.pool.rng)
                    })
                })
}

/// What `orange_p_aimed_spread` does in a frame.
pub open spec fn orange_p_aimed_spread_post(o: Boss, oe: BossEnv, b: Boss, e: BossEnv) -> bool {
    &&& (o.phase_frame < 86 ==> orange_waited(o, oe, b, e))
    &&& (o.phase_frame >= 86 ==> {
                    let pf = o.phase_frame;
                    let b0 = if pf == 86 {
                        Boss { angle: spec_iatan2(oe.player.1 - o.y, oe.player.0 - o.x), phase_state: 16i16,
                            ..o }
                    } else {
                        o
                    };
                    let fires = oe.frame % 4 == 0;
                    let t = BulletTemplate { delta: 0x0C, patnum: PAT_BALL_WHITE, group: group::SPREAD, count: 3,
                        speed: b0.phase_state as u8, angle: angle_sub(b0.angle, 0x20), ..blank_template() };
                    let p1 = pool_after_spawn(oe.pool.bullets@, oe.pool.rng, t, o.x as int, o.y as int,
                        (0i32, 0i32));
                    let b1 = if fires { Boss { phase_state: b0.phase_state.wrapping_add(6i16), ..b0 } } else { b0 };
                    &&& b == (if pf >= 118 { Boss { mode: 0, ..b1 } } else { b1 })
                    &&& e.fx.effects@ =~= oe.fx.effects@
                    &&& (e.pool.bullets@, e.pool.rng) == (if fires {
                        pool_after_spawn(p1.0, p1.1, BulletTemplate { angle: angle_add(b0.angle, 0x20), ..t },
                            o.x as int, o.y as int, (0i32, 0i32))
                    } else {
                        (oe.pool.bullets@, oe.pool.rng)
                    })
                })
}

/// What `orange_p_aimed_ring` does in a frame.
pub open spec fn orange_p_aimed_ring_post(o: Boss, oe: BossEnv, b: Boss, e: BossEnv) -> bool {
    &&& (o.phase_frame < 86 ==> orange_waited(o, oe, b, e))
    &&& (o.phase_frame >= 86 ==> {
                    &&& b == (if o.phase_frame >= 118 { Boss { mode: 0, ..o } } else { o })
                    &&& e.fx.effects@ =~= oe.fx.effects@
                    &&& (e.pool.bullets@, e.pool.rng) == (if oe.frame % 8 == 0 {
                        pool_after_spawn(oe.pool.bullets@, oe.pool.rng, BulletTemplate { patnum: PAT_BALL_WHITE,
                            group: group::RING_AIMED, count: 16, speed: 32, angle: 0, ..blank_template() },
                            o.x as int, o.y as int, oe.player)
                    } else {
                        (oe.pool.bullets@, oe.pool.rng)
                    })
                })
}

/// What `orange_p_twin_rings` does in a frame.
pub open spec fn orange_p_twin_rings_post(o: Boss, oe: BossEnv, b: Boss, e: BossEnv) -> bool {
    &&& (o.phase_frame < 86 ==> orange_waited(o, oe, b, e))
    &&& (o.phase_frame >= 86 ==> {
                    let fires = oe.frame % 8 == 0;
                    let a = if fires { angle_add(o.angle, 8) } else { o.angle };
                    let t = BulletTemplate { origin_x: -512i16, group: group::RING, count: 8, speed: 30, angle: a, ..blank_template() };
                    let p1 = pool_after_spawn(oe.pool.bullets@, oe.pool.rng, t, o.x as int, o.y as int,
                        (0i32, 0i32));
                    let b1 = Boss { angle: a, ..o };
                    &&& b == (if o.phase_frame >= 118 { Boss { mode: 0, ..b1 } } else { b1 })
                    &&& e.fx.effects@ =~= oe.fx.effects@
                    &&& (e.pool.bullets@, e.pool.rng) == (if fires {
                        pool_after_spawn(p1.0, p1.1, BulletTemplate { origin_x: 512i16, ..t }, o.x as int, o.y as int,
                            (0i32, 0i32))
                    } else {
                        (oe.pool.bullets@, oe.pool.rng)
                    })
                })
}

/// What `orange_phase0_intro` does in a frame.
pub open spec fn orange_phase0_intro_post(o: Boss, oe: BossEnv, b: Boss, e: BossEnv) -> bool {
    &&& (({
                    let pf = o.phase_frame + 1;
                    let b1 = if pf >= 352 { Boss { phase: 1, phase_frame: 0, pattern_num_prev: -1i16, patterns_done: 0, ..o } }
                        else { Boss { phase_frame: pf as i32, ..o } };
                    b == (Boss { hp: (b1.hp - b1.damage_pending) as i32, damage_pending: 0, ..b1 })
                }))
    &&& (e.pool == oe.pool)
    &&& (e.fx.effects@ =~= (if o.phase_frame + 1 >= 320 && (o.phase_frame + 1) % 8 == 0 {
                    oe.fx.effects@.push(new_effect(o.x, o.y, EffectKind::Gather))
                } else {
                    oe.fx.effects@
                }))
}

/// What `orange_phase1_rings` does in a frame.
pub open spec fn orange_phase1_rings_post(o: Boss, oe: BossEnv, b: Boss, e: BossEnv) -> bool {
    &&& (e.fx == oe.fx)
    &&& (({
                    let opens = o.phase_frame + 1 >= 32;
                    let b1 = if opens { Boss { phase: 2, phase_frame: 0, mode: 0, phase_end_hp: 1950, ..o } }
                        else { Boss { phase_frame: (o.phase_frame + 1) as i32, ..o } };
                    &&& b == (Boss { hp: (b1.hp - b1.damage_pending) as i32, damage_pending: 0, ..b1 })
                    &&& (e.pool.bullets@, e.pool.rng) == (if opens {
                        orange_rings((oe.pool.bullets@, oe.pool.rng), o.x as int, o.y as int, 3)
                    } else {
                        (oe.pool.bullets@, oe.pool.rng)
                    })
                }))
}

/// What `orange_phase3_wander` does in a frame.
pub open spec fn orange_phase3_wander_post(o: Boss, oe: BossEnv, b: Boss, e: BossEnv) -> bool {
    &&& (e.fx == oe.fx)
    &&& (({
                    let b1 = if o.mode == 0 {
                        if o.phase_frame > 128 { Boss { phase_frame: 0, mode: 1, ..o } } else { o }
                    } else {
                        orange_wandered(o)
                    };
                    let p1 = if o.mode == 0 { (oe.pool.bullets@, oe.pool.rng) } else { orange_wander_pool(o, oe) };
                    let h = hit_tested(b1);
                    if b1.phase_frame > 1500 {
                        &&& b == phase_advanced(b1, 0)
                        &&& (e.pool.bullets@, e.pool.rng) == (cleared(p1.0), p1.1)
                    } else if h.hp <= h.phase_end_hp {
                        &&& b == phase_advanced(h, 0)
                        &&& (e.pool.bullets@, e.pool.rng) == (cleared(p1.0), p1.1)
                    } else {
                        &&& b == h
                        &&& (e.pool.bullets@, e.pool.rng) == p1
                    }
                }))
}

/// What `orange_phase4_final` does in a frame.
pub open spec fn orange_phase4_final_post(o: Boss, oe: BossEnv, b: Boss, e: BossEnv) -> bool {
    &&& (({
                    let o = o;
                    let m0 = if o.phase_frame > 128 { Boss { phase_frame: 0, mode: 1, ..o } } else { o };
                    let vx = if m0.x < 191 * SUBPIXEL { 24i32 } else if m0.x > 193 * SUBPIXEL { -24i32 } else { m0.vx };
                    let vy = if m0.y < 79 * SUBPIXEL { 12i32 } else if m0.y > 81 * SUBPIXEL { -12i32 } else { m0.vy };
                    let b1 = if o.mode == 0 {
                        Boss { vx, vy, x: (m0.x + vx) as i32, y: (m0.y + vy) as i32, ..m0 }
                    } else {
                        orange_spiraled(o, oe.frame)
                    };
                    let fx1 = if o.mode == 0 {
                        let g = if m0.phase_frame == 96 { oe.fx.effects@.push(new_effect(m0.x, m0.y, EffectKind::Gather)) }
                            else { oe.fx.effects@ };
                        if m0.phase_frame == 112 { g.push(new_effect(m0.x, m0.y, EffectKind::CircleShrink)) } else { g }
                    } else {
                        oe.fx.effects@
                    };
                    let p1 = if o.mode == 0 { (oe.pool.bullets@, oe.pool.rng) } else { orange_spiral_pool(o, oe) };
                    let timed_out = b1.phase_frame > 600;
                    let h = if timed_out { b1 } else { hit_tested(b1) };
                    let ends = timed_out || h.hp <= h.phase_end_hp;
                    &&& b == (if ends {
                        Boss { phase_state: if timed_out { 0i16 } else { 1i16 }, phase: 5, phase_frame: 0, mode: 0, defeated: true,
                            defeat_frame: 0, ..h }
                    } else {
                        h
                    })
                    &&& e.fx.effects@ =~= (if ends { fx1.push(new_effect(h.x, h.y, EffectKind::Spark)) } else { fx1 })
                    &&& (e.pool.bullets@, e.pool.rng) == (if ends { (cleared(p1.0), p1.1) } else { p1 })
                }))
}

/// The barrage's next pattern, drawn from the generator at `st` until it
/// differs from `prev` (or `0x4_0000` redraws have been made): the generator
/// after the draws and the pattern (1-4).
#[verifier::opaque]
pub open spec fn barrage_draw(st: u32, prev: i16, tries: int) -> (u32, i16)
    decreases 0x4_0000 - tries,
{
    let st1 = lcg_next(st);
    let m = (((st1 >> 16u32) & 3u32) + 1) as i16;
    if m != prev || tries >= 0x4_0000 { (st1, m) } else { barrage_draw(st1, prev, tries + 1) }
}

/// One draw of `barrage_draw`.
pub proof fn lemma_barrage_draw(st: u32, prev: i16, tries: int)
    ensures
        barrage_draw(st, prev, tries) == ({
            let st1 = lcg_next(st);
            let m = (((st1 >> 16u32) & 3u32) + 1) as i16;
            if m != prev || tries >= 0x4_0000 { (st1, m) } else { barrage_draw(st1, prev, tries + 1) }
        }),
{
    reveal(barrage_draw);
}

/// The environment after the screen is cleared.
pub open spec fn orange_env_cleared(oe: BossEnv, e: BossEnv) -> bool {
    &&& e.pool.bullets@ == cleared(oe.pool.bullets@)
    &&& e.pool.rng == oe.pool.rng
    &&& e.fx == oe.fx
}

/// The end of a barrage frame from (`b1`, `e1`): the hit test, and the next
/// phase (threshold 450) once HP reaches the threshold.
pub open spec fn barrage_tail(b1: Boss, e1: BossEnv, b: Boss, e: BossEnv) -> bool {
    let h = hit_tested(b1);
    if h.hp <= h.phase_end_hp {
        &&& b == phase_advanced(h, 450)
        &&& orange_env_cleared(e1, e)
    } else {
        &&& b == h
        &&& e == e1
    }
}

/// The pattern part of a barrage frame in modes 1-4.
pub open spec fn barrage_pattern(o: Boss, oe: BossEnv, b1: Boss, e1: BossEnv) -> bool {
    if o.mode == 1 { orange_p_twinsweep_post(o, oe, b1, e1) }
    else if o.mode == 2 { orange_p_aimed_spread_post(o, oe, b1, e1) }
    else if o.mode == 3 { orange_p_aimed_ring_post(o, oe, b1, e1) }
    else { orange_p_twin_rings_post(o, oe, b1, e1) }
}

/// What `orange_phase2_barrage` does in a frame: in mode 0 draw the next
/// pattern and count it (after 16 patterns the next phase), otherwise run
/// the pattern; then the hit test.
#[verifier::opaque]
pub open spec fn orange_phase2_post(o: Boss, oe: BossEnv, b: Boss, e: BossEnv) -> bool {
    if o.mode == 0 {
        let d = barrage_draw(o.rng.state, o.pattern_num_prev, 0);
        let b0 = Boss { phase_frame: 0, mode: d.1, rng: BossRng { state: d.0 }, pattern_num_prev: d.1,
            patterns_done: (o.patterns_done + 1) as i16, ..o };
        if o.patterns_done + 1 >= 16 {
            &&& b == phase_advanced(b0, 450)
            &&& orange_env_cleared(oe, e)
        } else {
            barrage_tail(b0, oe, b, e)
        }
    } else {
        exists|b1: Boss, e1: BossEnv| #[trigger] barrage_pattern(o, oe, b1, e1) && barrage_tail(b1, e1, b, e)
    }
}

/// What `orange_update` does in a frame of a live Orange.
pub open spec fn orange_update_post(o: Boss, oe: BossEnv, b: Boss, e: BossEnv) -> bool {
    if o.phase == 0 { orange_phase0_intro_post(o, oe, b, e) }
    else if o.phase == 1 { orange_phase1_rings_post(o, oe, b, e) }
    else if o.phase == 2 { orange_phase2_post(o, oe, b, e) }
    else if o.phase == 3 { orange_phase3_wander_post(o, oe, b, e) }
    else if o.phase == 4 { orange_phase4_final_post(o, oe, b, e) }
    else {
        &&& b == (Boss { defeat_frame: (o.defeat_frame + 1) as u32, ..o })
        &&& e == oe
    }
}

/// The barrage ends at its threshold: whichever pattern ran, the hit test
/// sees the HP and queued damage the frame began with.
proof fn lemma_barrage_threshold(o: Boss, oe: BossEnv, b: Boss, e: BossEnv)
    requires
        o.phase == 2,
        hp_ok(o),
        o.hp - o.damage_pending <= o.phase_end_hp,
        orange_phase2_post(o, oe, b, e),
    ensures
        b.phase == 3 && b.hp == o.phase_end_hp && b.phase_end_hp == 450 && b.defeated == o.defeated,
{
    reveal(orange_phase2_post);
    reveal(orange_gated);
    if o.mode != 0 {
        let (b1, e1) = choose|b1: Boss, e1: BossEnv| #[trigger] barrage_pattern(o, oe, b1, e1) && barrage_tail(b1, e1, b, e);
        assert(b1.hp == o.hp && b1.damage_pending == o.damage_pending && b1.phase_end_hp == o.phase_end_hp
            && b1.phase == o.phase && b1.defeated == o.defeated);
    }
}

/// The wander phase ends at its threshold.
proof fn lemma_wander_threshold(o: Boss, oe: BossEnv, b: Boss, e: BossEnv)
    requires
        o.phase == 3,
        hp_ok(o),
        o.hp - o.damage_pending <= o.phase_end_hp,
        orange_phase3_wander_post(o, oe, b, e),
    ensures
        b.phase == 4 && b.hp == o.phase_end_hp && b.phase_end_hp == 0 && b.defeated == o.defeated,
{
}

/// The final phase ends in defeat at its threshold.
proof fn lemma_final_threshold(o: Boss, oe: BossEnv, b: Boss, e: BossEnv)
    requires
        o.phase == 4,
        hp_ok(o),
        o.hp - o.damage_pending <= o.phase_end_hp,
        orange_phase4_final_post(o, oe, b, e),
    ensures
        b.phase == 5 && b.defeated && b.defeat_frame == 0,
{
}

/// Under damage, Orange goes through its phases at its HP thresholds. A
/// frame of a live Orange whose HP, once the queued damage is taken, is at
/// or below the current threshold ends the barrage (next threshold 450) or
/// the wander phase (next threshold 0) with the HP set to the threshold
/// reached, and in the final phase starts the defeat sequence.
pub proof fn law_orange_thresholds(o: Boss, oe: BossEnv, b: Boss, e: BossEnv)
    requires
        o.kind == BossKind::Orange,
        !o.defeated,
        update_ok(o, oe),
        2 <= o.phase <= 4,
        o.hp - o.damage_pending <= o.phase_end_hp,
        boss_frame_post(o, oe, b, e),
    ensures
        o.phase == 2 ==> b.phase == 3 && b.hp == o.phase_end_hp && b.phase_end_hp == 450 && !b.defeated,
        o.phase == 3 ==> b.phase == 4 && b.hp == o.phase_end_hp && b.phase_end_hp == 0 && !b.defeated,
        o.phase == 4 ==> b.phase == 5 && b.defeated && b.defeat_frame == 0,
{
    assert(orange_update_post(o, oe, b, e));
    if o.phase == 2 {
        lemma_barrage_threshold(o, oe, b, e);
    } else if o.phase == 3 {
        lemma_wander_threshold(o, oe, b, e);
    } else {
        lemma_final_threshold(o, oe, b, e);
    }
}

impl Boss {
    pub(crate) fn orange_update(&mut self, env: &mut BossEnv)
        requires
            orange_ok(*old(self), *old(env), 1),
        ensures
            boss_stepped(*old(self), *final(self), 5),
            env_kept(*old(env), *final(env)),
            orange_update_post(*old(self), *old(env), *final(self), *final(env)),
    {
        if self.phase == 0 {
            self.orange_phase0_intro(env);
        } else if self.phase == 1 {
            self.orange_phase1_rings(env);
        } else if self.phase == 2 {
            self.orange_phase2_barrage(env);
        } else if self.phase == 3 {
            self.orange_phase3_wander(env);
        } else if self.phase == 4 {
            self.orange_phase4_final(env);
        } else {
            self.defeat_frame = self.defeat_frame + 1;
        }
    }

    /// Phase 0 (loc_19AC8): 352-frame charge. Vulnerable, fires nothing.
    fn orange_phase0_intro(&mut self, env: &mut BossEnv)
        requires
            orange_ok(*old(self), *old(env), 1),
            old(self).phase == 0,
        ensures
            boss_stepped(*old(self), *final(self), 2),
            env_kept(*old(env), *final(env)),
            orange_phase0_intro_post(*old(self), *old(env), *final(self), *final(env)),
    {
        self.phase_frame = self.phase_frame + 1;
        if self.phase_frame >= 320 && self.phase_frame % 8 == 0 {
            env.fx.gather(self.x, self.y); // charge telegraph
        }
        if self.phase_frame >= 352 {
            self.phase = 1;
            self.phase_frame = 0;
            self.pattern_num_prev = -1;
            self.patterns_done = 0;
        }
        self.hittest_damage();
    }

    /// Phase 1 (loc_19B88): wait 32 frames, then 3 concentric 16-rings at speeds
    /// 4/3/2 px, and enter the barrage phase with its threshold (1950).
    fn orange_phase1_rings(&mut self, env: &mut BossEnv)
        requires
            orange_ok(*old(self), *old(env), 1),
            old(self).phase == 1,
        ensures
            boss_stepped(*old(self), *final(self), 2),
            env_kept(*old(env), *final(env)),
            orange_phase1_rings_post(*old(self), *old(env), *final(self), *final(env)),
    {
        self.phase_frame = self.phase_frame + 1;
        if self.phase_frame >= 32 {
            self.phase = 2;
            self.phase_frame = 0;
            self.mode = 0;
            self.phase_end_hp = 1950;
            let mut speed: i32 = 4 * SUBPIXEL;
            let mut i: u32 = 0;
            while i < 3
                invariant
                    i <= 3,
                    speed == 64 - 16 * i,
                    env_ok(*env),
                    env.player == old(env).player && env.frame == old(env).frame,
                    boss_ok(*self, 2),
                    *self == (Boss { phase: 2, phase_frame: 0, mode: 0, phase_end_hp: 1950, ..*old(self) }),
                    env.fx == old(env).fx,
                    (env.pool.bullets@, env.pool.rng)
                        == orange_rings((old(env).pool.bullets@, old(env).pool.rng), old(self).x as int, old(self).y as int, i as nat),
                decreases 3 - i,
            {
                let t = BulletTemplate::shot(group::RING, 16, speed as u8, 0);
                env.pool.spawn(&t, self.x, self.y, (0, 0));
                speed = speed - SUBPIXEL;
                i = i + 1;
            }
        }
        self.hittest_damage();
    }

    /// Draw the barrage's next pattern into `mode`, `tries` redraws made
    /// (`barrage_draw`).
    fn barrage_redraw(&mut self, tries: u32)
        requires
            tries <= 0x4_0000,
        ensures
            *final(self) == (Boss { mode: final(self).mode, rng: final(self).rng, ..*old(self) }),
            (final(self).rng.state, final(self).mode) == barrage_draw(old(self).rng.state, old(self).pattern_num_prev, tries as int),
            1 <= final(self).mode <= 4,
        decreases 0x4_0000 - tries,
    {
        let ghost st = self.rng.state;
        let r = self.rng.and(3);
        let m = (r as i16) + 1;
        proof {
            lemma_barrage_draw(st, self.pattern_num_prev, tries as int);
        }
        self.mode = m;
        if m != self.pattern_num_prev || tries >= 0x4_0000 {
            return;
        }
        self.barrage_redraw(tries + 1);
    }

    /// Phase 2 (loc_19C10): pick a random sub-pattern (modes 1-4) different
    /// from the last, run it until it resets `mode` to 0; after 16 patterns or
    /// at the HP threshold → phase 3. The low 18 bits of the generator run
    /// through all values in 2^18 draws, so the redraw finds a new mode well
    /// within that many tries.
    #[verifier::rlimit(60)]
    fn orange_phase2_barrage(&mut self, env: &mut BossEnv)
        requires
            orange_ok(*old(self), *old(env), 1),
            old(self).phase == 2,
        ensures
            boss_stepped(*old(self), *final(self), 4),
            env_kept(*old(env), *final(env)),
            orange_phase2_post(*old(self), *old(env), *final(self), *final(env)),
    {
        proof {
            reveal(orange_phase2_post);
        }
        if self.mode == 0 {
            self.phase_frame = 0;
            self.barrage_redraw(0);
            self.pattern_num_prev = self.mode;
            self.patterns_done = self.patterns_done + 1;
            if self.patterns_done >= 16 {
                self.phase_next(450, &mut env.pool);
                return;
            }
        } else if self.mode == 1 {
            self.orange_p_twinsweep(env);
        } else if self.mode == 2 {
            self.orange_p_aimed_spread(env);
        } else if self.mode == 3 {
            self.orange_p_aimed_ring(env);
        } else {
            self.orange_p_twin_rings(env);
        }
        let ghost b1 = *self;
        let ghost e1 = *env;
        assert(old(self).mode != 0 ==> barrage_pattern(*old(self), *old(env), b1, e1));
        if self.hittest() {
            self.phase_next(450, &mut env.pool);
        }
    }

    /// Phase 3 (loc_19C8A): 128-frame pause then the wandering random spray;
    /// ends on HP threshold (450 → 0) or a 1500-frame timeout.
    fn orange_phase3_wander(&mut self, env: &mut BossEnv)
        requires
            orange_ok(*old(self), *old(env), 1),
            old(self).phase == 3,
        ensures
            boss_stepped(*old(self), *final(self), 4),
            env_kept(*old(env), *final(env)),
            orange_phase3_wander_post(*old(self), *old(env), *final(self), *final(env)),
    {
        if self.mode == 0 {
            if self.phase_frame > 128 {
                self.phase_frame = 0;
                self.mode = 1;
            }
        } else {
            self.orange_p_wander(env);
        }
        if self.phase_frame > 1500 || self.hittest() {
            self.phase_next(0, &mut env.pool);
        }
    }

    /// Phase 4 (loc_19CF0): return to centre (mode 0, 128 frames) then the final
    /// rotating spiral (mode 1). Ends on HP=0 (bonus) or a 600-frame timeout.
    #[verifier::rlimit(40)]
    fn orange_phase4_final(&mut self, env: &mut BossEnv)
        requires
            orange_ok(*old(self), *old(env), 1),
            old(self).phase == 4,
        ensures
            boss_stepped(*old(self), *final(self), 4),
            env_kept(*old(env), *final(env)),
            orange_phase4_final_post(*old(self), *old(env), *final(self), *final(env)),
    {
        if self.mode == 0 {
            if self.phase_frame > 128 {
                self.phase_frame = 0;
                self.mode = 1;
            }
            self.vx = if self.x < 191 * SUBPIXEL {
                24
            } else if self.x > 193 * SUBPIXEL {
                -24
            } else {
                self.vx
            };
            self.vy = if self.y < 79 * SUBPIXEL {
                12
            } else if self.y > 81 * SUBPIXEL {
                -12
            } else {
                self.vy
            };
            if self.phase_frame == 96 {
                env.fx.gather(self.x, self.y);
            }
            if self.phase_frame == 112 {
                env.fx.circle_shrink(self.x, self.y);
            }
            self.move_step();
        } else {
            self.orange_p_spiral(env);
        }
        let timed_out = self.phase_frame > 600;
        let depleted = !timed_out && self.hittest();
        if timed_out || depleted {
            self.phase_state = if timed_out { 0 } else { 1 };
            self.phase = 5;
            self.phase_frame = 0;
            self.mode = 0;
            env.fx.spark(self.x, self.y);
            self.begin_defeat(&mut env.pool);
        }
    }

    // --- Phase-2 sub-patterns (each gated by `orange_gate`) ---------------

    /// `orange_195E4`: shared move-to-random-spot + telegraph gate. Returns
    /// 0 (moving), 1 (idle), or 2 (fire now).
    fn orange_gate(&mut self, env: &mut BossEnv) -> (r: i32)
        requires
            orange_ok(*old(self), *old(env), 1),
        ensures
            boss_stepped(*old(self), *final(self), 2),
            env_kept(*old(env), *final(env)),
            final(self).phase_frame == old(self).phase_frame,
            final(self).mode == old(self).mode,
            final(self).phase == old(self).phase,
            r == (if old(self).phase_frame < 16 { 1i32 } else if old(self).phase_frame <= 70 { 0i32 } else if old(self).phase_frame >= 86 { 2i32 } else { 1i32 }),
            *final(self) == orange_gated(*old(self)),
            final(env).fx.effects@ == orange_gate_fx(*old(self), old(env).fx.effects@),
            final(env).pool == old(env).pool,
    {
        proof {
            reveal(orange_gated);
            reveal(orange_gate_fx);
        }
        let f = self.phase_frame;
        if f < 16 {
            return 1;
        }
        if f == 16 {
            let tx = self.rng.modulo(320 * SUBPIXEL) + 32 * SUBPIXEL;
            let ty = self.rng.modulo(96 * SUBPIXEL) + 64 * SUBPIXEL;
            self.vx = tdiv_exec(tx - self.x, 4 * SUBPIXEL);
            self.vy = tdiv_exec(ty - self.y, 4 * SUBPIXEL);
            env.fx.gather(self.x, self.y);
        }
        if f < 70 {
            self.move_step();
            return 0;
        }
        if f == 70 {
            env.fx.circle_shrink(self.x, self.y);
            return 0;
        }
        if f >= 86 {
            return 2;
        }
        1
    }

    /// Mode 1 (`orange_19686`): twin sweeping pellet pairs.
    #[verifier::rlimit(40)]
    fn orange_p_twinsweep(&mut self, env: &mut BossEnv)
        requires
            orange_ok(*old(self), *old(env), 1),
        ensures
            boss_stepped(*old(self), *final(self), 2),
            env_kept(*old(env), *final(env)),
            final(self).phase_frame == old(self).phase_frame,
            final(self).phase == old(self).phase,
            orange_p_twinsweep_post(*old(self), *old(env), *final(self), *final(env)),
    {
        if self.orange_gate(env) != 2 {
            return;
        }
        proof {
            lemma_orange_gate_idle(*old(self), old(env).fx.effects@);
        }
        if self.phase_frame == 86 {
            let right = self.rng.and(1) != 0;
            self.angle = if right { 0x80 } else { 0x00 };
            self.phase_state = if right { -0x0B } else { 0x0B };
        }
        if env.frame % 2 == 0 {
            let t = BulletTemplate::shot(group::RING, 2, (SUBPIXEL + 14) as u8, self.angle);
            env.pool.spawn(&t, self.x, self.y, (0, 0));
            let t2 = BulletTemplate { angle: self.angle.wrapping_add(5), speed: (SUBPIXEL + 4) as u8, ..t };
            env.pool.spawn(&t2, self.x, self.y, (0, 0));
            self.angle = self.angle.wrapping_add(self.phase_state as u8);
        }
        if self.phase_frame >= 118 {
            self.mode = 0;
        }
    }

    /// Mode 2 (`orange_19720`): twin aimed 3-way spreads, speed ramping.
    #[verifier::rlimit(40)]
    fn orange_p_aimed_spread(&mut self, env: &mut BossEnv)
        requires
            orange_ok(*old(self), *old(env), 1),
        ensures
            boss_stepped(*old(self), *final(self), 2),
            env_kept(*old(env), *final(env)),
            final(self).phase_frame == old(self).phase_frame,
            final(self).phase == old(self).phase,
            orange_p_aimed_spread_post(*old(self), *old(env), *final(self), *final(env)),
    {
        if self.orange_gate(env) != 2 {
            return;
        }
        proof {
            lemma_orange_gate_idle(*old(self), old(env).fx.effects@);
        }
        if self.phase_frame == 86 {
            self.angle = iatan2(env.player.1 - self.y, env.player.0 - self.x);
            self.phase_state = SUBPIXEL as i16; // reuse phase_state as the ramping speed
        }
        if env.frame % 4 == 0 {
            let speed = self.phase_state as u8;
            let t = BulletTemplate {
                delta: 0x0C,
                patnum: PAT_BALL_WHITE,
                ..BulletTemplate::shot(group::SPREAD, 3, speed, self.angle.wrapping_sub(0x20))
            };
            env.pool.spawn(&t, self.x, self.y, (0, 0));
            let t2 = BulletTemplate { angle: self.angle.wrapping_add(0x20), ..t };
            env.pool.spawn(&t2, self.x, self.y, (0, 0));
            self.phase_state = self.phase_state.wrapping_add(6);
        }
        if self.phase_frame >= 118 {
            self.mode = 0;
        }
    }

    /// Mode 3 (`orange_197BB`): 16-way aimed ring every 8 frames.
    fn orange_p_aimed_ring(&mut self, env: &mut BossEnv)
        requires
            orange_ok(*old(self), *old(env), 1),
        ensures
            boss_stepped(*old(self), *final(self), 2),
            env_kept(*old(env), *final(env)),
            final(self).phase_frame == old(self).phase_frame,
            final(self).phase == old(self).phase,
            orange_p_aimed_ring_post(*old(self), *old(env), *final(self), *final(env)),
    {
        if self.orange_gate(env) != 2 {
            return;
        }
        proof {
            lemma_orange_gate_idle(*old(self), old(env).fx.effects@);
        }
        if env.frame % 8 == 0 {
            let t = BulletTemplate { patnum: PAT_BALL_WHITE, ..BulletTemplate::shot(group::RING_AIMED, 16, (2 * SUBPIXEL) as u8, 0) };
            env.pool.spawn(&t, self.x, self.y, env.player);
        }
        if self.phase_frame >= 118 {
            self.mode = 0;
        }
    }

    /// Mode 4 (`orange_19814`): two 8-rings offset ±32px, angle creeping.
    fn orange_p_twin_rings(&mut self, env: &mut BossEnv)
        requires
            orange_ok(*old(self), *old(env), 1),
        ensures
            boss_stepped(*old(self), *final(self), 2),
            env_kept(*old(env), *final(env)),
            final(self).phase_frame == old(self).phase_frame,
            final(self).phase == old(self).phase,
            orange_p_twin_rings_post(*old(self), *old(env), *final(self), *final(env)),
    {
        if self.orange_gate(env) != 2 {
            return;
        }
        proof {
            lemma_orange_gate_idle(*old(self), old(env).fx.effects@);
        }
        if env.frame % 8 == 0 {
            self.angle = self.angle.wrapping_add(8);
            let t = BulletTemplate {
                origin_x: (-32 * SUBPIXEL) as i16,
                ..BulletTemplate::shot(group::RING, 8, (SUBPIXEL + 14) as u8, self.angle)
            };
            env.pool.spawn(&t, self.x, self.y, (0, 0));
            let t2 = BulletTemplate { origin_x: (32 * SUBPIXEL) as i16, ..t };
            env.pool.spawn(&t2, self.x, self.y, (0, 0));
        }
        if self.phase_frame >= 118 {
            self.mode = 0;
        }
    }

    /// Phase-3 pattern (`orange_19878`): wander left/right + vertical bob,
    /// bouncing off the walls, spraying random-angle bullets from two origins.
    fn orange_p_wander(&mut self, env: &mut BossEnv)
        requires
            orange_ok(*old(self), *old(env), 1),
        ensures
            boss_stepped(*old(self), *final(self), 2),
            env_kept(*old(env), *final(env)),
            final(self).phase_frame == old(self).phase_frame,
            final(self).phase == old(self).phase,
            *final(self) == orange_wandered(*old(self)),
            final(env).fx == old(env).fx,
            (final(env).pool.bullets@, final(env).pool.rng) == orange_wander_pool(*old(self), *old(env)),
    {
        if self.phase_frame == 1 {
            self.vx = if self.x < 192 * SUBPIXEL { SUBPIXEL } else { -SUBPIXEL };
            self.angle = 0;
        }
        self.vy = shr8(sin8(self.angle) * SUBPIXEL);
        if self.y >= 96 * SUBPIXEL {
            self.vy = -SUBPIXEL;
        }
        if self.y <= 48 * SUBPIXEL {
            self.vy = SUBPIXEL;
        }
        self.angle = self.angle.wrapping_add(2);
        let x = self.move_step();
        if x <= 32 * SUBPIXEL || x >= 352 * SUBPIXEL {
            self.vx = -self.vx;
        }
        if env.frame % 4 != 0 {
            return;
        }
        let count: u8 = if self.hp <= 700 { 2 } else { 1 };
        let t = BulletTemplate {
            origin_x: (-32 * SUBPIXEL) as i16,
            patnum: PAT_BALL_WHITE,
            ..BulletTemplate::shot(group::RANDOM_ANGLE, count, (2 * SUBPIXEL) as u8, 0)
        };
        env.pool.spawn(&t, self.x, self.y, (0, 0));
        let t2 = BulletTemplate { origin_x: (32 * SUBPIXEL) as i16, ..t };
        env.pool.spawn(&t2, self.x, self.y, (0, 0));
    }

    /// Phase-4 final spell (`orange_1998B`): a rotating arm that gains more arms
    /// as the spell progresses, plus an outward burst late on.
    #[verifier::rlimit(40)]
    fn orange_p_spiral(&mut self, env: &mut BossEnv)
        requires
            orange_ok(*old(self), *old(env), 1),
        ensures
            boss_stepped(*old(self), *final(self), 1),
            env_kept(*old(env), *final(env)),
            final(self).phase_frame == old(self).phase_frame,
            final(self).phase == old(self).phase,
            final(env).fx == old(env).fx,
            *final(self) == orange_spiraled(*old(self), old(env).frame),
            (final(env).pool.bullets@, final(env).pool.rng) == orange_spiral_pool(*old(self), *old(env)),
    {
        if env.frame % 4 != 0 {
            return;
        }
        let ox: i32 = 8 * SUBPIXEL;
        let oy: i32 = -16 * SUBPIXEL;
        self.angle = self.angle.wrapping_sub(7);
        let speed = (2 * SUBPIXEL) as u8;
        let mut a = self.angle;
        self.orange_fire_single(env, a, speed, 0, ox, oy); // arm A
        let f = self.phase_frame;
        if f < 128 {
            return;
        }
        let arms: u32 = if f < 192 { 1 } else if f < 256 { 2 } else { 3 };
        let mut i: u32 = 0;
        while i < arms
            invariant
                i <= arms <= 3,
                orange_ok(*self, *env, 1),
                env.player == old(env).player && env.frame == old(env).frame,
                ox == 128 && oy == -256,
                speed == 32,
                *self == (Boss { angle: angle_sub(old(self).angle, 7), ..*old(self) }),
                a == arm_angle(self.angle, i as nat),
                env.fx == old(env).fx,
                (env.pool.bullets@, env.pool.rng) == spiral_arms(pool_after_spawn(old(env).pool.bullets@, old(env).pool.rng,
                    spiral_shot(self.angle, 32, 0), self.x as int, self.y as int, (0i32, 0i32)), self.x as int, self.y as int,
                    self.angle, i as nat),
            decreases arms - i,
        {
            a = a.wrapping_add(0x40);
            self.orange_fire_single(env, a, speed, 0, ox, oy);
            i = i + 1;
        }
        if f >= 320 {
            let fast = speed.wrapping_add(SUBPIXEL as u8);
            a = 0u8.wrapping_sub(a); // two's-complement negation of the angle byte
            a = a.wrapping_sub(0x20);
            self.orange_fire_single(env, a, fast, PAT_BALL_WHITE, ox, oy);
            a = a.wrapping_add(0x80);
            self.orange_fire_single(env, a, fast, PAT_BALL_WHITE, ox, oy);
        }
    }

    fn orange_fire_single(&self, env: &mut BossEnv, angle: u8, speed: u8, patnum: u8, ox: i32, oy: i32)
        requires
            orange_ok(*self, *old(env), 1),
            -0x8000 <= ox < 0x8000 && -0x8000 <= oy < 0x8000,
        ensures
            env_kept(*old(env), *final(env)),
            (final(env).pool.bullets@, final(env).pool.rng) == pool_after_spawn(old(env).pool.bullets@, old(env).pool.rng,
                BulletTemplate { patnum, origin_x: ox as i16, origin_y: oy as i16, group: group::SINGLE, count: 1, speed, angle,
                    ..blank_template() }, self.x as int, self.y as int, (0i32, 0i32)),
            final(env).fx == old(env).fx,
    {
        let t = BulletTemplate {
            patnum,
            origin_x: ox as i16,
            origin_y: oy as i16,
            ..BulletTemplate::shot(group::SINGLE, 1, speed, angle)
        };
        env.pool.spawn(&t, self.x, self.y, (0, 0));
    }
}

} // verus!

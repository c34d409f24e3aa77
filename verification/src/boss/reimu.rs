//! Stage 4 rival **Reimu** — `@reimu_update$qv` (th04_main.asm:27309) + its orb
//! engine (`reimu_1EBF3`/`orbs_add_spinning`/`orbs_add_moving`) and mode subs
//! (`reimu_1ED15`..`1F378`). The fight when playing as Marisa. HP 9100.
//!
//! The orb physics (spin out to a 64px radius while rotating for `spin_time`,
//! then convert to a free-flying bullet that bounces off the side walls under
//! gravity), the 13-phase flow (attack phases 2/4/6/8/9 at HP gates
//! 7900/6300/4500/2700/900/0, interleaved with move-transitions 3/5/7/10 and
//! the final spell 11), the jink movement, and every mode's danmaku.
//!
//! A few `boss_statebyte` setup values (orb count, spread/stack counts, turn
//! limits) aren't in the update and are set here to their Normal values.

use vstd::prelude::*;
use super::{Boss, BossEnv, BossKind, BossRng, Orbit, PLAYFIELD_H, PLAYFIELD_W, SUBPIXEL, shr8, boss_ok, boss_stepped, env_ok,
    env_kept, orbit_within, lemma_boss_ok_mono, hit_tested, phase_advanced, orbit_added, lemma_first_free_orbit, update_ok,
    boss_frame_post, with_sb};
use crate::bullet::{cleared, lcg_next, angle_sub, pool_after_spawn, blank_template, Bullet};
use crate::bullet::{group, Bsm, BulletTemplate};
use crate::math::{cos8, iatan2, sin8, vector2, lemma_vector2_fits, lemma_vector2_bounded, spec_cos8, spec_sin8, spec_vector2,
    spec_iatan2};
use crate::bullet::angle_add;
use crate::effects::{Effect, EffectKind, new_effect};

verus! {

broadcast use lemma_boss_ok_mono;

pub const PAT_BALL_BLUE: u8 = 2;
pub const PAT_BALL_RED: u8 = 6;
pub const PAT_ORB_YELLOW: u8 = 5;

// boss_statebyte setup values (Normal rank).
pub const ORB_COUNT: i32 = 8;
/// statebyte[1]
pub const ORB_INTERVAL: i32 = 16;
/// statebyte[2]
pub const SPREAD_TURNS_MAX: u8 = 1;
/// statebyte[3]
pub const SPREAD3_COUNT: u8 = 3;
/// statebyte[4]
pub const SPREAD3_DELTA: u8 = 8;
/// statebyte[5]
pub const SPREAD6_DELTA: u8 = 6;
/// statebyte[6]
pub const STACK_COUNT: u8 = 3;
pub const ORB_MOVE_SPEED: i32 = 0x38;

/// What a Reimu routine asks: Reimu within bound level `k` with a
/// non-negative pattern counter, a small orb turn rate and a subpattern id in
/// range, and a sane context.
pub open spec fn reimu_ok(b: Boss, env: BossEnv, k: int) -> bool {
    &&& boss_ok(b, k) && b.kind == BossKind::Reimu && env_ok(env)
    &&& b.phase_state >= 0
    &&& -0x20 <= b.sb@[0] <= 0x20
    &&& 0 <= b.sb@[2] <= 3
}

/// Reimu after a move-transition frame: a step of 2px toward x = 192 (when
/// `servo_x`) and 1px toward `ty`, then a hit test.
pub open spec fn reimu_moved(b: Boss, servo_x: bool, ty: int) -> Boss {
    let x = if servo_x {
        b.x + (if b.x < 192 * SUBPIXEL { 2 * SUBPIXEL as int } else if b.x > 192 * SUBPIXEL { -2 * SUBPIXEL as int } else { 0int })
    } else {
        b.x as int
    };
    let y = b.y + (if b.y < ty { SUBPIXEL as int } else if b.y > ty { -SUBPIXEL as int } else { 0int });
    hit_tested(Boss { x: x as i32, y: y as i32, ..b })
}

/// Reimu after a jink frame: on a leg's first frame she takes the leg's
/// velocity (mirrored when `flip`), moves by her velocity, and at the leg's
/// end (64 frames for the middle leg, else 32) counts it and switches mode.
pub open spec fn reimu_jinked(b: Boss, flip: bool) -> Boss {
    let leg = b.phase_state % 3;
    let v: (i32, i32) = if b.phase_frame == 1 {
        if !flip {
            if leg == 0 { (-64i32, 16i32) } else if leg == 1 { (64i32, 0i32) } else { (-64i32, -16i32) }
        } else {
            if leg == 0 { (64i32, -16i32) } else if leg == 1 { (-64i32, 0i32) } else { (64i32, 16i32) }
        }
    } else {
        (b.vx, b.vy)
    };
    let m = Boss { vx: v.0, vy: v.1, x: (b.x + v.0) as i32, y: (b.y + v.1) as i32, ..b };
    let dur = if b.phase_state % 3 == 1 { 0x40int } else { 0x20int };
    if b.phase_frame == dur {
        Boss { phase_state: (b.phase_state + 1) as i16, mode: ((b.phase_state + 1) % 2) as i16, phase_frame: 0, ..m }
    } else {
        m
    }
}

/// A frame that leaves Reimu's HP bookkeeping, phase and defeat flag as
/// they were.
pub open spec fn reimu_held(a: Boss, b: Boss) -> bool {
    &&& b.hp == a.hp
    &&& b.damage_pending == a.damage_pending
    &&& b.phase_end_hp == a.phase_end_hp
    &&& b.phase == a.phase
    &&& b.defeated == a.defeated
}

/// The end of an attack frame from (`b1`, `e1`): the pattern count reaching
/// `gate`, or the HP at the threshold once the hit test has taken the queued
/// damage, moves to the next phase with `next_end` armed and the screen
/// cleared.
pub open spec fn reimu_tail(b1: Boss, e1: BossEnv, b: Boss, e: BossEnv, gate: i16, next_end: i32) -> bool {
    let adv = b1.phase_state >= gate || hit_tested(b1).hp <= b1.phase_end_hp;
    &&& b == (if b1.phase_state >= gate {
        phase_advanced(b1, next_end)
    } else if adv {
        phase_advanced(hit_tested(b1), next_end)
    } else {
        hit_tested(b1)
    })
    &&& e.pool.bullets@ =~= (if adv { cleared(e1.pool.bullets@) } else { e1.pool.bullets@ })
    &&& e.pool.rng == e1.pool.rng
    &&& e.fx == e1.fx
}

/// What an attack phase does in a frame: the pattern of the current mode
/// (`reimu_pattern_part`), which leaves the HP bookkeeping and phase alone,
/// then `reimu_tail`; a
/// phase that `resets` sets the orbs' turn speed (`sb[0]`) to 3 when it ends.
pub open spec fn reimu_attack_post(o: Boss, oe: BossEnv, b: Boss, e: BossEnv, gate: i16, next_end: i32, resets: bool) -> bool {
    exists|b1: Boss, e1: BossEnv, b2: Boss| reimu_held(o, b1) && reimu_pattern_part(o, oe, b1, e1)
        && #[trigger] reimu_tail(b1, e1, b2, e, gate, next_end) && {
        &&& b.sb@ =~= (if resets && b2.phase != b1.phase { b2.sb@.update(0, 3i32) } else { b2.sb@ })
        &&& b == (Boss { sb: b.sb, ..b2 })
    }
}

/// The pattern part of an attack frame: what the mode of the current
/// attack fires and how it moves Reimu and her orbs, the side-to-side
/// jinks, and the switches between patterns.
pub open spec fn reimu_pattern_part(o: Boss, oe: BossEnv, b1: Boss, e1: BossEnv) -> bool {
    let p = o.phase;
    let m = o.mode;
    &&& (p == 2 && m == 0 ==> reimu_aimed_spread6_post(o, oe, b1, e1))
    &&& (p == 2 && m == 1 ==> reimu_decel_cloud9_post(o, oe, b1, e1))
    &&& (p == 4 && (m == 0 || m == 1 || m == 2) ==> reimu_spinning_orbs_post(o, oe, b1, e1))
    &&& (p == 4 && m != 0 && m != 1 && m != 2 && m != 3 ==> reimu_cycled(o, b1) && e1 == oe)
    &&& ((p == 6 || p == 9) && m == 0 ==> reimu_random_spray_post(o, oe, b1, e1))
    &&& (p == 6 && m == 1 ==> reimu_aimed_speedup_post(o, oe, b1, e1))
    &&& (p == 9 && m == 1 ==> reimu_stack_fan_post(o, oe, b1, e1))
    &&& (p == 4 && m == 3 ==> reimu_chaos_rings_post(o, oe, b1, e1))
    &&& (p == 8 && m == 0 ==> reimu_moving_orbs_post(o, oe, b1, e1))
    &&& (p == 8 && m == 1 ==> reimu_alt_spread_post(o, oe, b1, e1))
    &&& ((p == 2 || p == 9) && m != 0 && m != 1 ==> b1 == reimu_jinked(o, false) && e1 == oe)
    &&& (p == 6 && m != 0 && m != 1 ==> b1 == reimu_jinked(o, true) && e1 == oe)
    &&& (p == 8 && m != 0 && m != 1 ==> b1 == (Boss { phase_state: (o.phase_state + 1) as i16,
        mode: ((o.phase_state + 1) % 2) as i16, phase_frame: 0, ..o }) && e1 == oe)
}

/// Reimu after her orbs' frame.
pub open spec fn reimu_orbs_stepped(a: Boss, b: Boss) -> bool {
    &&& b == (Boss { orbits: b.orbits, ..a })
    &&& b.orbits@ =~= a.orbits@.map_values(|o: Orbit| orb_next(o))
}

/// Reimu's entrance frame: invulnerable, out of the entrance after 96
/// frames.
pub open spec fn reimu_entrance_post(o: Boss, oe: BossEnv, b: Boss, e: BossEnv) -> bool {
    let pf = o.phase_frame + 2;
    &&& b == (Boss { phase_frame: if pf > 96 { 0i32 } else { pf as i32 }, phase: if pf > 96 { 1u8 } else { 0u8 },
        damage_pending: 0, ..o })
    &&& e == oe
}

/// Reimu's pause before the first attack: invulnerable; after 128 frames the
/// first attack opens at HP 9100 with threshold 7900 and the screen cleared.
pub open spec fn reimu_opening_post(o: Boss, oe: BossEnv, b: Boss, e: BossEnv) -> bool {
    let h = Boss { phase_frame: (o.phase_frame + 2) as i32, damage_pending: 0, ..o };
    if o.phase_frame + 2 >= 128 {
        &&& b == phase_advanced(Boss { phase_end_hp: 9100, ..h }, 7900)
        &&& e.pool.bullets@ =~= cleared(oe.pool.bullets@)
        &&& e.pool.rng == oe.pool.rng
        &&& e.fx == oe.fx
    } else {
        b == h && e == oe
    }
}

/// A move between attacks (`reimu_moved`); after 64 frames the next attack
/// phase opens with its orbs (turn speed `speed`, sprite `pat`).
pub open spec fn reimu_move_post(o: Boss, oe: BossEnv, b: Boss, e: BossEnv, servo_x: bool, ty: int, next: u8,
    speed: i32, pat: u8, reset_sub: bool) -> bool {
    let m = reimu_moved(o, servo_x, ty);
    &&& e == oe
    &&& if m.phase_frame >= 64 {
        let sb1 = m.sb@.update(0, speed).update(1, pat as i32);
        &&& b.sb@ =~= (if reset_sub { sb1.update(2, 0i32) } else { sb1 })
        &&& b == (Boss { sb: b.sb, phase: next, phase_frame: 0, phase_state: 0, mode: 0, ..m })
    } else {
        b == m
    }
}

/// The end of a frame of the final attack from (`b1`, `e1`): the hit test;
/// HP at the threshold, or 1000 frames, ends the fight with a spark
/// (`phase_state` 1 when shot down, 0 when timed out).
pub open spec fn reimu_final_tail(b1: Boss, e1: BossEnv, b: Boss, e: BossEnv) -> bool {
    let h = hit_tested(b1);
    if h.hp <= h.phase_end_hp || h.phase_frame >= 1000 {
        &&& b == (Boss { phase_state: if h.phase_frame < 1000 { 1i16 } else { 0i16 }, phase: 12, phase_frame: 0, ..h })
        &&& e.pool == e1.pool
        &&& e.fx.effects@ =~= e1.fx.effects@.push(new_effect(h.x, h.y, EffectKind::Spark))
    } else {
        b == h && e == e1
    }
}

/// What the final attack does in a frame: the pattern
/// (`reimu_final_pattern_post`), which leaves the HP bookkeeping and phase
/// alone, then `reimu_final_tail`.
pub open spec fn reimu_final_post(o: Boss, oe: BossEnv, b: Boss, e: BossEnv) -> bool {
    exists|b1: Boss, e1: BossEnv| reimu_held(o, b1) && reimu_final_pattern_post(o, oe, b1, e1)
        && #[trigger] reimu_final_tail(b1, e1, b, e)
}

/// Reimu's count-down after her last attack: 32 frames, then the defeat,
/// with a spark and the screen cleared.
pub open spec fn reimu_countdown_post(o: Boss, oe: BossEnv, b: Boss, e: BossEnv) -> bool {
    let pf = o.phase_frame + 1;
    if pf >= 32 {
        &&& b == (Boss { phase_frame: pf as i32, defeated: true, defeat_frame: 0, ..o })
        &&& e.pool.bullets@ =~= cleared(oe.pool.bullets@)
        &&& e.pool.rng == oe.pool.rng
        &&& e.fx.effects@ =~= oe.fx.effects@.push(new_effect(o.x, o.y, EffectKind::Spark))
    } else {
        b == (Boss { phase_frame: pf as i32, ..o }) && e == oe
    }
}

/// What `reimu_update` does in a frame of a live Reimu: the entrance, the
/// pause, the moves between attacks and the defeat count-down; in each
/// attack phase the pattern of its mode, and the phase ends at its pattern
/// count or HP threshold (9100, 7900, 6300, 4500, 2700, 900, 0); then the
/// orbs' frame; the final attack likewise, ending at HP 0 or after 1000
/// frames.
pub open spec fn reimu_update_post(o: Boss, oe: BossEnv, b: Boss, e: BossEnv) -> bool {
    exists|bp: Boss| #[trigger] reimu_orbs_stepped(bp, b) && {
        if o.phase == 0 { reimu_entrance_post(o, oe, bp, e) }
        else if o.phase == 1 { reimu_opening_post(o, oe, bp, e) }
        else if o.phase == 2 { reimu_attack_post(o, oe, bp, e, 9, 6300, false) }
        else if o.phase == 3 { reimu_move_post(o, oe, bp, e, true, 1536, 4, 4, PAT_BALL_BLUE, true) }
        else if o.phase == 4 { reimu_attack_post(o, oe, bp, e, 18, 4500, false) }
        else if o.phase == 5 { reimu_move_post(o, oe, bp, e, false, 2048, 6, 4, PAT_BALL_BLUE, false) }
        else if o.phase == 6 { reimu_attack_post(o, oe, bp, e, 11, 2700, false) }
        else if o.phase == 7 { reimu_move_post(o, oe, bp, e, true, 1536, 8, 0x12, PAT_ORB_YELLOW, false) }
        else if o.phase == 8 { reimu_attack_post(o, oe, bp, e, 10, 900, true) }
        else if o.phase == 9 { reimu_attack_post(o, oe, bp, e, 12, 0, true) }
        else if o.phase == 10 { reimu_move_post(o, oe, bp, e, true, 1536, 11, 4, PAT_BALL_BLUE, false) }
        else if o.phase == 11 { reimu_final_post(o, oe, bp, e) }
        else { reimu_countdown_post(o, oe, bp, e) }
    }
}

/// Under damage, Reimu's attack phases end at their HP thresholds. A frame
/// of an attack phase (2, 4, 6, 8, 9) whose HP, once the queued damage is
/// taken, is at or below the threshold moves to the next phase with the HP
/// set to the threshold reached and the next one armed (6300, 4500, 2700,
/// 900, 0).
pub proof fn law_reimu_thresholds(o: Boss, oe: BossEnv, b: Boss, e: BossEnv)
    requires
        o.kind == BossKind::Reimu,
        update_ok(o, oe),
        !o.defeated,
        o.phase == 2 || o.phase == 4 || o.phase == 6 || o.phase == 8 || o.phase == 9,
        o.hp - o.damage_pending <= o.phase_end_hp,
        boss_frame_post(o, oe, b, e),
    ensures
        b.phase == o.phase + 1,
        b.hp == o.phase_end_hp,
        !b.defeated,
        o.phase == 2 ==> b.phase_end_hp == 6300,
        o.phase == 4 ==> b.phase_end_hp == 4500,
        o.phase == 6 ==> b.phase_end_hp == 2700,
        o.phase == 8 ==> b.phase_end_hp == 900,
        o.phase == 9 ==> b.phase_end_hp == 0,
{
    assert(reimu_update_post(o, oe, b, e));
    let bp = choose|bp: Boss| #[trigger] reimu_orbs_stepped(bp, b) && {
        if o.phase == 0 { reimu_entrance_post(o, oe, bp, e) }
        else if o.phase == 1 { reimu_opening_post(o, oe, bp, e) }
        else if o.phase == 2 { reimu_attack_post(o, oe, bp, e, 9, 6300, false) }
        else if o.phase == 3 { reimu_move_post(o, oe, bp, e, true, 1536, 4, 4, PAT_BALL_BLUE, true) }
        else if o.phase == 4 { reimu_attack_post(o, oe, bp, e, 18, 4500, false) }
        else if o.phase == 5 { reimu_move_post(o, oe, bp, e, false, 2048, 6, 4, PAT_BALL_BLUE, false) }
        else if o.phase == 6 { reimu_attack_post(o, oe, bp, e, 11, 2700, false) }
        else if o.phase == 7 { reimu_move_post(o, oe, bp, e, true, 1536, 8, 0x12, PAT_ORB_YELLOW, false) }
        else if o.phase == 8 { reimu_attack_post(o, oe, bp, e, 10, 900, true) }
        else if o.phase == 9 { reimu_attack_post(o, oe, bp, e, 12, 0, true) }
        else if o.phase == 10 { reimu_move_post(o, oe, bp, e, true, 1536, 11, 4, PAT_BALL_BLUE, false) }
        else if o.phase == 11 { reimu_final_post(o, oe, bp, e) }
        else { reimu_countdown_post(o, oe, bp, e) }
    };
    let gate: i16 = if o.phase == 2 { 9 } else if o.phase == 4 { 18 } else if o.phase == 6 { 11 } else if o.phase == 8 { 10 } else { 12 };
    let next: i32 = if o.phase == 2 { 6300 } else if o.phase == 4 { 4500 } else if o.phase == 6 { 2700 } else if o.phase == 8 { 900 } else { 0 };
    let resets = o.phase == 8 || o.phase == 9;
    assert(reimu_attack_post(o, oe, bp, e, gate, next, resets));
    let (b1, e1, b2) = choose|b1: Boss, e1: BossEnv, b2: Boss| reimu_held(o, b1) && reimu_pattern_part(o, oe, b1, e1)
        && #[trigger] reimu_tail(b1, e1, b2, e, gate, next) && {
        &&& bp.sb@ =~= (if resets && b2.phase != b1.phase { b2.sb@.update(0, 3i32) } else { b2.sb@ })
        &&& bp == (Boss { sb: bp.sb, ..b2 })
    };
    assert(reimu_held(o, b1));
}

/// Reimu is defeated 32 frames after her last attack ends: the
/// count-down frame that reaches frame 32 starts the defeat sequence.
pub proof fn law_reimu_countdown(o: Boss, oe: BossEnv, b: Boss, e: BossEnv)
    requires
        o.kind == BossKind::Reimu,
        update_ok(o, oe),
        !o.defeated,
        o.phase >= 12,
        o.phase_frame + 1 >= 32,
        boss_frame_post(o, oe, b, e),
    ensures
        b.defeated,
        b.defeat_frame == 0,
{
    assert(reimu_update_post(o, oe, b, e));
}

/// The effects after `reimu_gate`'s frame: the gather at frame 14 and the
/// shrinking circle at 22, at Reimu's hands.
pub open spec fn reimu_gate_fx(b: Boss, fx: Seq<Effect>) -> Seq<Effect> {
    let x = (b.x + 64) as i32;
    let y = (b.y - 448) as i32;
    if b.phase_frame == 14 {
        fx.push(new_effect(x, y, EffectKind::Gather))
    } else if b.phase_frame == 0x16 {
        fx.push(new_effect(x, y, EffectKind::CircleShrink))
    } else {
        fx
    }
}

/// A random origin within 32px of Reimu, and the generator after its two
/// draws.
pub open spec fn reimu_origin(b: Boss) -> (int, int, u32) {
    let st1 = lcg_next(b.rng.state);
    let st2 = lcg_next(st1);
    (b.x - 512 + ((st1 >> 16u32) as int) % 1024, b.y - 512 + ((st2 >> 16u32) as int) % 1024, st2)
}

/// The environment after a pattern frame: the opening's effects, the pool `p`.
pub open spec fn reimu_pattern_env(a: Boss, oe: BossEnv, e: BossEnv, p: (Seq<Bullet>, u32)) -> bool {
    &&& (e.pool.bullets@, e.pool.rng) == p
    &&& e.fx.effects@ == reimu_gate_fx(a, oe.fx.effects@)
    &&& e.player == oe.player && e.frame == oe.frame
}

/// The pattern ends: frame count and mode reset.
pub open spec fn reimu_ended(b: Boss) -> Boss {
    Boss { phase_frame: 0i32, mode: -1i16, ..b }
}

/// Mode 0 of the first attack: after the opening, aim at the player and pick
/// a turn direction away from her side; every 4th frame a blue 6-way spread
/// from the hands, turning from frame 64; the pattern ends at frame 112.
#[verifier::opaque]
pub open spec fn reimu_aimed_spread6_post(a: Boss, oe: BossEnv, b: Boss, e: BossEnv) -> bool {
    let pf = a.phase_frame;
    let p0 = (oe.pool.bullets@, oe.pool.rng);
    if pf < 46 {
        b == a && reimu_pattern_env(a, oe, e, p0)
    } else if pf == 46 {
        &&& b == with_sb(Boss { angle: spec_iatan2(oe.player.1 - a.y, oe.player.0 - a.x), ..a }, 4,
            if oe.player.0 < 3072 { -2 } else { 2 })
        &&& reimu_pattern_env(a, oe, e, p0)
    } else {
        let fires = pf % 4 == 0;
        let ang = if fires && pf >= 64 { angle_add(a.angle, a.sb@[4] as u8) } else { a.angle };
        let b0 = Boss { angle: ang, ..a };
        &&& b == (if pf >= 112 { reimu_ended(b0) } else { b0 })
        &&& reimu_pattern_env(a, oe, e, if fires {
            pool_after_spawn(p0.0, p0.1, BulletTemplate { spawn_type: 2, delta: SPREAD6_DELTA, patnum: PAT_BALL_BLUE,
                group: group::SPREAD, count: 6, speed: 96, angle: a.angle, ..blank_template() }, a.x + 64, a.y - 448, (0i32, 0i32))
        } else {
            p0
        })
    }
}

/// Modes 0 to 2 of the second attack: at frame 32 a ring of spinning orbs
/// from a random angle; at frame 96 the orbs' turn reverses and the pattern
/// ends.
#[verifier::opaque]
pub open spec fn reimu_spinning_orbs_post(a: Boss, oe: BossEnv, b: Boss, e: BossEnv) -> bool {
    let st1 = lcg_next(a.rng.state);
    let b1 = if a.phase_frame == 32 { Boss { rng: BossRng { state: st1 }, orbits: b.orbits, ..a } }
        else { Boss { orbits: b.orbits, ..a } };
    let ends = a.phase_frame >= 96;
    &&& e == oe
    &&& b.orbits@ == (if a.phase_frame == 32 {
        orbs_spun(a.orbits@, 0, 0, orb_source(a), ORB_COUNT as int, (st1 >> 16u32) as u8, 64)
    } else {
        a.orbits@
    })
    &&& b.sb@ == (if ends { a.sb@.update(0, (-a.sb@[0]) as i32) } else { a.sb@ })
    &&& b == (if ends { Boss { phase_frame: 0i32, mode: -1i16, sb: b.sb, ..b1 } } else { b1 })
}

/// The second attack's pick of the next subpattern: from 0 to 2 a coin flip
/// either moves on by one or jumps to the rings (3); after the rings it
/// starts over at 0.
pub open spec fn reimu_cycled(o: Boss, b: Boss) -> bool {
    let s2 = o.sb@[2];
    let st1 = lcg_next(o.rng.state);
    let flips = s2 <= 2;
    let n: int = if flips { if (st1 >> 16u32) & 1u32 != 0 { s2 + 1 } else { 3 } } else { 0 };
    &&& b.sb@ =~= o.sb@.update(2, n as i32)
    &&& b == (Boss { phase_state: (o.phase_state + 1) as i16, sb: b.sb, mode: (n as i32) as i16, phase_frame: 0,
        rng: if flips { BossRng { state: st1 } } else { o.rng }, ..o })
}

/// The angle of the `k`-th stack of the fifth attack's fan: 0x20 off the
/// player, then 0x10 further clockwise each.
pub open spec fn fan_angle(k: nat) -> u8
    decreases k,
{
    if k == 0 { 0x20u8 } else { angle_sub(fan_angle((k - 1) as nat), 0x10) }
}

/// The pool after the first `n` aimed blue 3-stacks of the fan from
/// (`x`, `y`) at 2px a frame.
pub open spec fn fan_stacks(p: (Seq<Bullet>, u32), x: int, y: int, player: (i32, i32), n: nat) -> (Seq<Bullet>, u32)
    decreases n,
{
    if n == 0 {
        p
    } else {
        let q = fan_stacks(p, x, y, player, (n - 1) as nat);
        pool_after_spawn(q.0, q.1, BulletTemplate { spawn_type: 4, delta: 12, patnum: PAT_BALL_BLUE,
            group: group::STACK_AIMED, count: STACK_COUNT, speed: 32, angle: fan_angle((n - 1) as nat),
            ..blank_template() }, x, y, player)
    }
}

/// Mode 1 of the fifth attack: after the opening, at every 32nd frame from
/// 16 on, a fan of five aimed blue stacks from Reimu; the pattern ends at
/// frame 128.
#[verifier::opaque]
pub open spec fn reimu_stack_fan_post(a: Boss, oe: BossEnv, b: Boss, e: BossEnv) -> bool {
    let pf = a.phase_frame;
    let p0 = (oe.pool.bullets@, oe.pool.rng);
    &&& b == (if pf > 46 && pf >= 128 { reimu_ended(a) } else { a })
    &&& reimu_pattern_env(a, oe, e, if pf > 46 && pf % 32 == 16 { fan_stacks(p0, a.x as int, a.y as int, oe.player, 5) } else { p0 })
}

/// The `k`-th angle of a ring that starts at `a0` and turns by `step`.
pub open spec fn ring_angle(a0: u8, step: u8, k: nat) -> u8
    decreases k,
{
    if k == 0 { a0 } else { angle_add(ring_angle(a0, step, (k - 1) as nat), step) }
}

/// The pool after the first `n` pellet 4-stacks (1.5px a frame, `delta`
/// apart) of a ring from (`x`, `y`) that starts at `a0` and turns by `step`.
pub open spec fn pellet_stacks(p: (Seq<Bullet>, u32), x: int, y: int, a0: u8, step: u8, delta: u8, n: nat) -> (Seq<Bullet>, u32)
    decreases n,
{
    if n == 0 {
        p
    } else {
        let q = pellet_stacks(p, x, y, a0, step, delta, (n - 1) as nat);
        pool_after_spawn(q.0, q.1, BulletTemplate { spawn_type: 1, delta, group: group::STACK, count: 4, speed: 24,
            angle: ring_angle(a0, step, (n - 1) as nat), ..blank_template() }, x, y, (0i32, 0i32))
    }
}

/// The final spell's pattern: from frame 32, every 16th frame a ring of
/// eight pellet stacks from a random origin near Reimu, at a random angle.
#[verifier::opaque]
pub open spec fn reimu_final_pattern_post(a: Boss, oe: BossEnv, b: Boss, e: BossEnv) -> bool {
    let p0 = (oe.pool.bullets@, oe.pool.rng);
    if a.phase_frame >= 32 && a.phase_frame % 16 == 0 {
        let o = reimu_origin(a);
        let st3 = lcg_next(o.2);
        &&& b == (Boss { rng: BossRng { state: st3 }, ..a })
        &&& (e.pool.bullets@, e.pool.rng) == pellet_stacks(p0, o.0, o.1, (st3 >> 16u32) as u8, 0x20, 10, 8)
        &&& e.fx == oe.fx && e.player == oe.player && e.frame == oe.frame
    } else {
        b == a && e == oe
    }
}

/// Mode 1 of the fourth attack: at the opening's end the spreads change
/// side (±0x78); after it, every 4th frame a pair of opposite blue cloud
/// spreads, of random speed and width, from a random origin near Reimu; the
/// pattern ends at frame 224.
#[verifier::opaque]
pub open spec fn reimu_alt_spread_post(a: Boss, oe: BossEnv, b: Boss, e: BossEnv) -> bool {
    let pf = a.phase_frame;
    let p0 = (oe.pool.bullets@, oe.pool.rng);
    if pf < 46 {
        b == a && reimu_pattern_env(a, oe, e, p0)
    } else if pf == 46 {
        &&& b.sb@ =~= a.sb@.update(3, if a.sb@[3] == 0x78 { -0x78i32 } else { 0x78i32 })
        &&& b == (Boss { sb: b.sb, ..a })
        &&& reimu_pattern_env(a, oe, e, p0)
    } else {
        let fires = pf % 4 == 0;
        let st1 = lcg_next(a.rng.state);
        let st2 = lcg_next(st1);
        let speed = (((st1 >> 16u32) & 0x1Fu32) + 16) as u8;
        let count = (((st2 >> 16u32) & 3u32) + 2) as u8;
        let o = reimu_origin(Boss { rng: BossRng { state: st2 }, ..a });
        let base = (0xC0 + a.sb@[3]) as u8;
        let t = BulletTemplate { spawn_type: 4, delta: 8, patnum: PAT_BALL_BLUE, group: group::SPREAD, count, speed,
            angle: base, ..blank_template() };
        let p1 = pool_after_spawn(p0.0, p0.1, t, o.0, o.1, (0i32, 0i32));
        let p2 = pool_after_spawn(p1.0, p1.1, BulletTemplate { angle: angle_add(base, 0x80), ..t }, o.0, o.1, (0i32, 0i32));
        let b0 = if fires { Boss { rng: BossRng { state: o.2 }, ..a } } else { a };
        &&& b == (if pf >= 224 { reimu_ended(b0) } else { b0 })
        &&& reimu_pattern_env(a, oe, e, if fires { p2 } else { p0 })
    }
}

/// Mode 0 of the fourth attack: from frame 32, every 16th frame an orb that
/// flies straight out, each turned further by the orbs' turn speed; at
/// frame 180 the turn reverses and the pattern ends.
#[verifier::opaque]
pub open spec fn reimu_moving_orbs_post(a: Boss, oe: BossEnv, b: Boss, e: BossEnv) -> bool {
    let pf = a.phase_frame;
    let sb1 = if pf == 32 { a.sb@.update(5, 0i32) } else { a.sb@ };
    let launches = pf >= 32 && pf % 16 == 0;
    let ang = ((sb1[5] - a.sb@[0]) as i32) & 0xFFi32;
    let sb2 = if launches { sb1.update(5, ang) } else { sb1 };
    let ends = pf >= 180;
    let v = spec_vector2(ang as u8, ORB_MOVE_SPEED as int);
    let orb = Orbit { flag: 2, angle: ang as u8, aspeed: a.sb@[0] as i8, cx: a.x, cy: a.y, ox: a.x, oy: a.y, dist: 0,
        spin_time: 0, mspeed: ORB_MOVE_SPEED, patnum: a.sb@[1] as u8, vx: v.0 as i32, vy: v.1 as i32, hp: 0 };
    &&& e == oe
    &&& b.orbits@ == (if launches { orbit_added(a.orbits@, orb) } else { a.orbits@ })
    &&& b.sb@ =~= (if ends { sb2.update(0, (-sb2[0]) as i32) } else { sb2 })
    &&& b == (Boss { orbits: b.orbits, sb: b.sb, phase_frame: if ends { 0i32 } else { pf }, mode: if ends { -1i16 } else { a.mode }, ..a })
}

/// Mode 3 of the second attack: after the opening, every 32nd frame a
/// speeding-up blue 16-ring from a random origin near Reimu, and 16 frames
/// later a ring of twelve pellet stacks from another, at a random angle;
/// the pattern ends at frame 288.
#[verifier::opaque]
pub open spec fn reimu_chaos_rings_post(a: Boss, oe: BossEnv, b: Boss, e: BossEnv) -> bool {
    let pf = a.phase_frame;
    let p0 = (oe.pool.bullets@, oe.pool.rng);
    if pf <= 46 {
        b == a && reimu_pattern_env(a, oe, e, p0)
    } else {
        let o = reimu_origin(a);
        let st3 = lcg_next(o.2);
        let b0 = if pf % 32 == 0 { Boss { rng: BossRng { state: o.2 }, ..a } }
            else if pf % 32 == 16 { Boss { rng: BossRng { state: st3 }, ..a } } else { a };
        let p = if pf % 32 == 0 {
            pool_after_spawn(p0.0, p0.1, BulletTemplate { spawn_type: 5, patnum: PAT_BALL_BLUE, special: Bsm::Speedup,
                speed_delta: 1, group: group::RING, count: 16, speed: 16, angle: 0, ..blank_template() }, o.0, o.1, (0i32, 0i32))
        } else if pf % 32 == 16 {
            pellet_stacks(p0, o.0, o.1, (st3 >> 16u32) as u8, 0x15, 8, 12)
        } else {
            p0
        };
        &&& b == (if pf >= 288 { reimu_ended(b0) } else { b0 })
        &&& reimu_pattern_env(a, oe, e, p)
    }
}

/// Mode 1 of the first attack: at the opening's end an aimed blue 9-way cloud
/// that decelerates and turns at the player; the pattern ends at frame 128.
#[verifier::opaque]
pub open spec fn reimu_decel_cloud9_post(a: Boss, oe: BossEnv, b: Boss, e: BossEnv) -> bool {
    let pf = a.phase_frame;
    let p0 = (oe.pool.bullets@, oe.pool.rng);
    &&& b == (if pf > 46 && pf >= 128 { reimu_ended(a) } else { a })
    &&& reimu_pattern_env(a, oe, e, if pf == 46 {
        pool_after_spawn(p0.0, p0.1, BulletTemplate { spawn_type: 4, delta: 6, patnum: PAT_BALL_BLUE,
            special: Bsm::DecelThenTurnAimed, turns_max: SPREAD_TURNS_MAX, group: group::SPREAD_AIMED, count: 9, speed: 85,
            angle: 0, ..blank_template() }, a.x + 64, a.y - 448, oe.player)
    } else {
        p0
    })
}

/// Modes 0 of the third and fifth attacks: after the opening, every 4th frame
/// a 3-way spread at a random angle around straight down from the hands,
/// and every 16th frame an aimed red stack from a random origin near Reimu;
/// the pattern ends at frame 192.
#[verifier::opaque]
pub open spec fn reimu_random_spray_post(a: Boss, oe: BossEnv, b: Boss, e: BossEnv) -> bool {
    let pf = a.phase_frame;
    let p0 = (oe.pool.bullets@, oe.pool.rng);
    if pf <= 46 {
        b == a && reimu_pattern_env(a, oe, e, p0)
    } else {
        let fires = pf % 4 == 0;
        let st1 = lcg_next(a.rng.state);
        let ang = angle_sub(((st1 >> 16u32) & 7u32) as u8, 0x44);
        let p1 = pool_after_spawn(p0.0, p0.1, BulletTemplate { spawn_type: 1, delta: SPREAD3_DELTA, group: group::SPREAD,
            count: SPREAD3_COUNT, speed: 128, angle: ang, ..blank_template() }, a.x + 64, a.y - 448, (0i32, 0i32));
        let a1 = Boss { rng: BossRng { state: st1 }, ..a };
        let o = reimu_origin(a1);
        let stacks = fires && pf % 16 == 0;
        let p2 = if stacks {
            pool_after_spawn(p1.0, p1.1, BulletTemplate { spawn_type: 4, delta: 16, patnum: PAT_BALL_RED,
                group: group::STACK_AIMED, count: 4, speed: 32, angle: 0, ..blank_template() }, o.0, o.1, oe.player)
        } else {
            p1
        };
        let b0 = if stacks { Boss { rng: BossRng { state: o.2 }, ..a } } else if fires { a1 } else { a };
        &&& b == (if pf >= 192 { reimu_ended(b0) } else { b0 })
        &&& reimu_pattern_env(a, oe, e, if fires { p2 } else { p0 })
    }
}

/// Mode 1 of the third attack: at the opening's end aim at the player; until
/// frame 96 every other frame a 3-way burst of random angles and speeds
/// from the hands; until 128 every 16th frame a speeding-up blue 32-ring at
/// a random angle; then the pattern ends.
#[verifier::opaque]
pub open spec fn reimu_aimed_speedup_post(a: Boss, oe: BossEnv, b: Boss, e: BossEnv) -> bool {
    let pf = a.phase_frame;
    let p0 = (oe.pool.bullets@, oe.pool.rng);
    if pf < 46 {
        b == a && reimu_pattern_env(a, oe, e, p0)
    } else if pf == 46 {
        b == (Boss { angle: spec_iatan2(oe.player.1 - a.y, oe.player.0 - a.x), ..a }) && reimu_pattern_env(a, oe, e, p0)
    } else if pf < 96 {
        &&& b == a
        &&& reimu_pattern_env(a, oe, e, if pf % 2 == 0 {
            pool_after_spawn(p0.0, p0.1, BulletTemplate { spawn_type: 1, group: group::RANDOM_ANGLE_AND_SPEED, count: 3,
                speed: 54, angle: a.angle, ..blank_template() }, a.x + 64, a.y - 448, (0i32, 0i32))
        } else {
            p0
        })
    } else if pf <= 128 {
        let st1 = lcg_next(a.rng.state);
        let fires = pf % 16 == 0;
        &&& b == (if fires { Boss { rng: BossRng { state: st1 }, ..a } } else { a })
        &&& reimu_pattern_env(a, oe, e, if fires {
            pool_after_spawn(p0.0, p0.1, BulletTemplate { spawn_type: 5, patnum: PAT_BALL_BLUE, special: Bsm::Speedup,
                speed_delta: 1, group: group::RING, count: 32, speed: 48, angle: (st1 >> 16u32) as u8, ..blank_template() },
                a.x + 64, a.y - 448, (0i32, 0i32))
        } else {
            p0
        })
    } else {
        b == reimu_ended(a) && reimu_pattern_env(a, oe, e, p0)
    }
}

impl Boss {
    pub(crate) fn reimu_update(&mut self, env: &mut BossEnv)
        requires
            reimu_ok(*old(self), *old(env), 1),
        ensures
            boss_stepped(*old(self), *final(self), 6),
            env_kept(*old(env), *final(env)),
            reimu_update_post(*old(self), *old(env), *final(self), *final(env)),
    {
        let p = self.phase;
        if p == 0 {
            self.phase_frame = self.phase_frame + 1;
            self.hittest_invincible();
            if self.phase_frame > 96 {
                self.phase = 1;
                self.phase_frame = 0;
            }
        } else if p == 1 {
            self.phase_frame = self.phase_frame + 1;
            self.hittest_invincible();
            if self.phase_frame >= 128 {
                self.phase_end_hp = 9100;
                self.phase_next(7900, &mut env.pool); // → phase 2
            }
        } else if p == 2 {
            self.reimu_phase2(env);
        } else if p == 3 {
            if self.reimu_move(true, 96 * SUBPIXEL) {
                self.phase = 4;
                self.reimu_open_orbs(4, PAT_BALL_BLUE);
                self.sb[2] = 0; // subpattern_id
            }
        } else if p == 4 {
            self.reimu_phase4(env);
        } else if p == 5 {
            if self.reimu_move(false, 128 * SUBPIXEL) {
                self.phase = 6;
                self.reimu_open_orbs(4, PAT_BALL_BLUE);
            }
        } else if p == 6 {
            self.reimu_phase6(env);
        } else if p == 7 {
            if self.reimu_move(true, 96 * SUBPIXEL) {
                self.phase = 8;
                self.reimu_open_orbs(0x12, PAT_ORB_YELLOW);
            }
        } else if p == 8 {
            self.reimu_phase8(env);
        } else if p == 9 {
            self.reimu_phase9(env);
        } else if p == 10 {
            if self.reimu_move(true, 96 * SUBPIXEL) {
                self.phase = 11;
                self.reimu_open_orbs(4, PAT_BALL_BLUE);
            }
        } else if p == 11 {
            self.reimu_phase11(env);
        } else {
            // Phase 12: defeat sequence.
            self.phase_frame = self.phase_frame + 1;
            if self.phase_frame >= 32 {
                env.fx.spark(self.x, self.y);
                self.begin_defeat(&mut env.pool);
            }
        }
        let ghost bp = *self;
        self.reimu_orbs_step();
        assert(reimu_orbs_stepped(bp, *self));
    }

    fn reimu_open_orbs(&mut self, angle_speed: i32, patnum: u8)
        requires
            boss_ok(*old(self), 3),
            0 <= angle_speed <= 0x12,
        ensures
            *final(self) == (Boss { phase_frame: 0, phase_state: 0, mode: 0, sb: final(self).sb, ..*old(self) }),
            final(self).sb@ == old(self).sb@.update(0, angle_speed).update(1, patnum as i32),
    {
        self.phase_frame = 0;
        self.phase_state = 0;
        self.mode = 0;
        self.sb[0] = angle_speed;
        self.sb[1] = patnum as i32;
    }

    /// Move-transition phase: servo to (192, `ty`) over 64 vulnerable frames.
    fn reimu_move(&mut self, servo_x: bool, ty: i32) -> (done: bool)
        requires
            boss_ok(*old(self), 1),
            old(self).kind == BossKind::Reimu,
            old(self).phase_state >= 0,
            old(self).phase == 3 || old(self).phase == 5 || old(self).phase == 7 || old(self).phase == 10,
            0 <= ty <= 0x1000,
        ensures
            boss_stepped(*old(self), *final(self), 2),
            final(self).phase == old(self).phase,
            final(self).phase_state == old(self).phase_state,
            *final(self) == reimu_moved(*old(self), servo_x, ty as int),
            done == (final(self).phase_frame >= 64),
    {
        if servo_x {
            self.x = self.x + if self.x < 192 * SUBPIXEL {
                2 * SUBPIXEL
            } else if self.x > 192 * SUBPIXEL {
                -2 * SUBPIXEL
            } else {
                0
            };
        }
        self.y = self.y + if self.y < ty {
            SUBPIXEL
        } else if self.y > ty {
            -SUBPIXEL
        } else {
            0
        };
        self.hittest();
        self.phase_frame >= 64
    }

    // === Shared helpers ===================================================

    /// `reimu_1EA4B`: telegraph gate — 0 before frame 46, 2 at 46, 1 after.
    fn reimu_gate(&self, env: &mut BossEnv) -> (r: i32)
        requires
            boss_ok(*self, 3),
            env_ok(*old(env)),
        ensures
            env_kept(*old(env), *final(env)),
            r == (if self.phase_frame < 46 { 0i32 } else if self.phase_frame == 46 { 2i32 } else { 1i32 }),
            final(env).pool == old(env).pool && final(env).player == old(env).player && final(env).frame == old(env).frame,
            final(env).fx.effects@ == reimu_gate_fx(*self, old(env).fx.effects@),
    {
        let pf = self.phase_frame;
        if pf == 14 {
            env.fx.gather(self.x + 4 * SUBPIXEL, self.y - 28 * SUBPIXEL);
        }
        if pf == 0x16 {
            env.fx.circle_shrink(self.x + 4 * SUBPIXEL, self.y - 28 * SUBPIXEL);
        }
        if pf < 46 {
            0
        } else if pf == 46 {
            2
        } else {
            1
        }
    }

    /// Bullet origin used by most modes (`boss + (4, -28)`).
    fn reimu_bo(&self) -> (r: (i32, i32))
        requires
            boss_ok(*self, 3),
        ensures
            r.0 == self.x + 64 && r.1 == self.y - 448,
    {
        (self.x + 4 * SUBPIXEL, self.y - 28 * SUBPIXEL)
    }

    /// A random origin within ±32px of the boss.
    fn reimu_random_origin(&mut self) -> (r: (i32, i32))
        requires
            boss_ok(*old(self), 3),
        ensures
            *final(self) == (Boss { rng: final(self).rng, ..*old(self) }),
            old(self).x - 512 <= r.0 < old(self).x + 512,
            old(self).y - 512 <= r.1 < old(self).y + 512,
            (r.0 as int, r.1 as int, final(self).rng.state) == reimu_origin(*old(self)),
    {
        let ox = self.x - 32 * SUBPIXEL + self.rng.modulo(64 * SUBPIXEL);
        let oy = self.y - 32 * SUBPIXEL + self.rng.modulo(64 * SUBPIXEL);
        (ox, oy)
    }

    /// jink movement (`reimu_1E917`/`1E9B1`); a leg lasts 32 frames (64 for
    /// the middle one) and then flips the pattern counter. `flip` selects the
    /// `1E9B1` variant (phase 6).
    fn reimu_jink(&mut self, flip: bool)
        requires
            boss_ok(*old(self), 1),
            old(self).kind == BossKind::Reimu,
            old(self).phase_state >= 0,
        ensures
            boss_stepped(*old(self), *final(self), 2),
            final(self).phase == old(self).phase,
            final(self).phase_state >= 0,
            *final(self) == reimu_jinked(*old(self), flip),
    {
        if self.phase_frame == 1 {
            let leg = self.phase_state % 3;
            let v: (i32, i32) = if !flip {
                if leg == 0 { (-4 * SUBPIXEL, SUBPIXEL) } else if leg == 1 { (4 * SUBPIXEL, 0) } else { (-4 * SUBPIXEL, -SUBPIXEL) }
            } else {
                if leg == 0 { (4 * SUBPIXEL, -SUBPIXEL) } else if leg == 1 { (-4 * SUBPIXEL, 0) } else { (4 * SUBPIXEL, SUBPIXEL) }
            };
            self.vx = v.0;
            self.vy = v.1;
        }
        self.x = self.x + self.vx;
        self.y = self.y + self.vy;
        let dur = if self.phase_state % 3 == 1 { 0x40 } else { 0x20 };
        if self.phase_frame == dur {
            self.phase_state = self.phase_state + 1;
            self.mode = self.phase_state % 2;
            self.phase_frame = 0;
        }
    }

    /// The end-of-frame advance check shared by attack phases: the pattern
    /// count reaching `gate`, or the HP threshold, moves to the next phase.
    fn reimu_attack_tail(&mut self, gate: i16, next_end: i32, env: &mut BossEnv) -> (advanced: bool)
        requires
            boss_ok(*old(self), 3),
            old(self).phase < 199,
            env_ok(*old(env)),
            0 <= next_end <= 0x1_0000,
        ensures
            boss_stepped(*old(self), *final(self), 4),
            env_kept(*old(env), *final(env)),
            final(self).phase_state >= 0 || final(self).phase_state == old(self).phase_state,
            !advanced ==> final(self).phase == old(self).phase && final(self).phase_state == old(self).phase_state,
            advanced ==> final(self).phase == old(self).phase + 1,
            advanced == (old(self).phase_state >= gate || hit_tested(*old(self)).hp <= old(self).phase_end_hp),
            *final(self) == (if old(self).phase_state >= gate {
                phase_advanced(*old(self), next_end)
            } else if advanced {
                phase_advanced(hit_tested(*old(self)), next_end)
            } else {
                hit_tested(*old(self))
            }),
            final(env).pool.bullets@ == (if advanced { cleared(old(env).pool.bullets@) } else { old(env).pool.bullets@ }),
            final(env).pool.rng == old(env).pool.rng,
            final(env).fx == old(env).fx,
    {
        if self.phase_state >= gate {
            self.phase_next(next_end, &mut env.pool);
            true
        } else if self.hittest() {
            self.phase_next(next_end, &mut env.pool);
            true
        } else {
            false
        }
    }

    // === Attack phases ====================================================

    fn reimu_phase2(&mut self, env: &mut BossEnv)
        requires
            reimu_ok(*old(self), *old(env), 1),
            old(self).phase == 2,
        ensures
            boss_stepped(*old(self), *final(self), 4),
            env_kept(*old(env), *final(env)),
            reimu_attack_post(*old(self), *old(env), *final(self), *final(env), 9, 6300, false),
    {
        let ghost o = *self;
        let ghost oe = *env;
        if self.mode == 0 {
            self.reimu_m_aimed_spread6(env);
        } else if self.mode == 1 {
            self.reimu_m_decel_cloud9(env);
        } else {
            self.reimu_jink(false);
        }
        let ghost b1 = *self;
        let ghost e1 = *env;
        assert(reimu_held(o, b1));
        assert(reimu_pattern_part(o, oe, b1, e1));
        self.reimu_attack_tail(9, 6300, env);
        assert(reimu_tail(b1, e1, *self, *env, 9, 6300));
    }

    fn reimu_phase4(&mut self, env: &mut BossEnv)
        requires
            reimu_ok(*old(self), *old(env), 1),
            old(self).phase == 4,
        ensures
            boss_stepped(*old(self), *final(self), 4),
            env_kept(*old(env), *final(env)),
            reimu_attack_post(*old(self), *old(env), *final(self), *final(env), 18, 4500, false),
    {
        let ghost o = *self;
        let ghost oe = *env;
        if self.mode == 0 || self.mode == 1 || self.mode == 2 {
            self.reimu_m_spinning_orbs(env);
        } else if self.mode == 3 {
            self.reimu_m_chaos_rings(env);
        } else {
            // loc_1F547: subpattern cycle.
            self.phase_state = self.phase_state + 1;
            if self.sb[2] <= 2 {
                if self.rng.and(1) != 0 {
                    self.sb[2] = self.sb[2] + 1;
                } else {
                    self.sb[2] = 3;
                }
            } else {
                self.sb[2] = 0;
            }
            self.mode = self.sb[2] as i16;
            self.phase_frame = 0;
        }
        let ghost b1 = *self;
        let ghost e1 = *env;
        assert(reimu_held(o, b1));
        assert(reimu_pattern_part(o, oe, b1, e1));
        self.reimu_attack_tail(18, 4500, env);
        assert(reimu_tail(b1, e1, *self, *env, 18, 4500));
    }

    fn reimu_phase6(&mut self, env: &mut BossEnv)
        requires
            reimu_ok(*old(self), *old(env), 1),
            old(self).phase == 6,
        ensures
            boss_stepped(*old(self), *final(self), 4),
            env_kept(*old(env), *final(env)),
            reimu_attack_post(*old(self), *old(env), *final(self), *final(env), 11, 2700, false),
    {
        let ghost o = *self;
        let ghost oe = *env;
        if self.mode == 0 {
            self.reimu_m_random_spray(env);
        } else if self.mode == 1 {
            self.reimu_m_aimed_speedup(env);
        } else {
            self.reimu_jink(true);
        }
        let ghost b1 = *self;
        let ghost e1 = *env;
        assert(reimu_held(o, b1));
        assert(reimu_pattern_part(o, oe, b1, e1));
        self.reimu_attack_tail(11, 2700, env);
        assert(reimu_tail(b1, e1, *self, *env, 11, 2700));
    }

    fn reimu_phase8(&mut self, env: &mut BossEnv)
        requires
            reimu_ok(*old(self), *old(env), 1),
            old(self).phase == 8,
        ensures
            boss_stepped(*old(self), *final(self), 4),
            env_kept(*old(env), *final(env)),
            reimu_attack_post(*old(self), *old(env), *final(self), *final(env), 10, 900, true),
    {
        let ghost o = *self;
        let ghost oe = *env;
        if self.mode == 0 {
            self.reimu_m_moving_orbs(env);
        } else if self.mode == 1 {
            self.reimu_m_alt_spread(env);
        } else {
            self.phase_state = self.phase_state + 1;
            self.mode = self.phase_state % 2;
            self.phase_frame = 0;
        }
        let ghost b1 = *self;
        let ghost e1 = *env;
        assert(reimu_held(o, b1));
        assert(reimu_pattern_part(o, oe, b1, e1));
        let adv = self.reimu_attack_tail(10, 900, env);
        let ghost b2 = *self;
        assert(reimu_tail(b1, e1, b2, *env, 10, 900));
        if adv {
            self.sb[0] = 3; // orb angle_speed for the next phase
        }
    }

    fn reimu_phase9(&mut self, env: &mut BossEnv)
        requires
            reimu_ok(*old(self), *old(env), 1),
            old(self).phase == 9,
        ensures
            boss_stepped(*old(self), *final(self), 4),
            env_kept(*old(env), *final(env)),
            reimu_attack_post(*old(self), *old(env), *final(self), *final(env), 12, 0, true),
    {
        let ghost o = *self;
        let ghost oe = *env;
        if self.mode == 0 {
            self.reimu_m_random_spray(env);
        } else if self.mode == 1 {
            self.reimu_m_stack_fan(env);
        } else {
            self.reimu_jink(false);
        }
        let ghost b1 = *self;
        let ghost e1 = *env;
        assert(reimu_held(o, b1));
        assert(reimu_pattern_part(o, oe, b1, e1));
        let adv = self.reimu_attack_tail(12, 0, env);
        let ghost b2 = *self;
        assert(reimu_tail(b1, e1, b2, *env, 12, 0));
        if adv {
            self.sb[0] = 3;
        }
    }

    fn reimu_phase11(&mut self, env: &mut BossEnv)
        requires
            reimu_ok(*old(self), *old(env), 1),
            old(self).phase == 11,
        ensures
            boss_stepped(*old(self), *final(self), 4),
            env_kept(*old(env), *final(env)),
            reimu_final_post(*old(self), *old(env), *final(self), *final(env)),
    {
        let ghost o = *self;
        let ghost oe = *env;
        self.reimu_m_final(env);
        let ghost b1 = *self;
        let ghost e1 = *env;
        assert(reimu_held(o, b1));
        let dead = self.hittest();
        if dead || self.phase_frame >= 1000 {
            env.fx.spark(self.x, self.y);
            self.phase_state = if self.phase_frame < 1000 { 1 } else { 0 };
            self.phase = 12;
            self.phase_frame = 0;
        }
        assert(reimu_final_pattern_post(o, oe, b1, e1));
        assert(reimu_final_tail(b1, e1, *self, *env));
    }

    // === Modes ============================================================

    /// `reimu_1ED15`: aimed 6-way yellow spread that drifts.
    fn reimu_m_aimed_spread6(&mut self, env: &mut BossEnv)
        requires
            reimu_ok(*old(self), *old(env), 1),
        ensures
            boss_stepped(*old(self), *final(self), 3),
            env_kept(*old(env), *final(env)),
            reimu_held(*old(self), *final(self)) && final(self).phase_state == old(self).phase_state,
            reimu_aimed_spread6_post(*old(self), *old(env), *final(self), *final(env)),
    {
        proof {
            reveal(reimu_aimed_spread6_post);
        }
        let bo = self.reimu_bo();
        let g = self.reimu_gate(env);
        if g == 2 {
            self.angle = iatan2(env.player.1 - self.y, env.player.0 - self.x);
            self.set_sb(4, if env.player.0 < 192 * SUBPIXEL { -2 } else { 2 });
        } else if g == 1 {
            if self.phase_frame % 4 == 0 {
                let t = BulletTemplate {
                    spawn_type: 2,
                    delta: SPREAD6_DELTA,
                    patnum: PAT_BALL_BLUE,
                    ..BulletTemplate::shot(group::SPREAD, 6, (6 * SUBPIXEL) as u8, self.angle)
                };
                env.pool.spawn(&t, bo.0, bo.1, (0, 0));
                if self.phase_frame >= 64 {
                    self.angle = self.angle.wrapping_add(self.sb[4] as u8);
                }
            }
            if self.phase_frame >= 112 {
                self.mode = -1;
                self.phase_frame = 0;
            }
        }
    }

    /// `reimu_1EDBC`: aimed 9-way cloud spread that decelerates then turns.
    fn reimu_m_decel_cloud9(&mut self, env: &mut BossEnv)
        requires
            reimu_ok(*old(self), *old(env), 1),
        ensures
            boss_stepped(*old(self), *final(self), 3),
            env_kept(*old(env), *final(env)),
            reimu_held(*old(self), *final(self)) && final(self).phase_state == old(self).phase_state,
            reimu_decel_cloud9_post(*old(self), *old(env), *final(self), *final(env)),
    {
        proof {
            reveal(reimu_decel_cloud9_post);
        }
        let bo = self.reimu_bo();
        let g = self.reimu_gate(env);
        if g == 2 {
            let t = BulletTemplate {
                spawn_type: 4,
                delta: 6,
                patnum: PAT_BALL_BLUE,
                special: Bsm::DecelThenTurnAimed,
                turns_max: SPREAD_TURNS_MAX,
                ..BulletTemplate::shot(group::SPREAD_AIMED, 9, (5 * SUBPIXEL + 5) as u8, 0)
            };
            env.pool.spawn(&t, bo.0, bo.1, env.player);
        } else if g == 1 {
            if self.phase_frame >= 128 {
                self.mode = -1;
                self.phase_frame = 0;
            }
        }
    }

    /// `reimu_1EE21`: spawn a ring of spinning orbs.
    fn reimu_m_spinning_orbs(&mut self, env: &mut BossEnv)
        requires
            reimu_ok(*old(self), *old(env), 1),
        ensures
            boss_stepped(*old(self), *final(self), 3),
            env_kept(*old(env), *final(env)),
            reimu_held(*old(self), *final(self)) && final(self).phase_state == old(self).phase_state,
            reimu_spinning_orbs_post(*old(self), *old(env), *final(self), *final(env)),
    {
        proof {
            reveal(reimu_spinning_orbs_post);
        }
        if self.phase_frame == 32 {
            let off = self.rng.byte();
            self.reimu_orbs_add_spinning(ORB_COUNT, off, 64);
        }
        if self.phase_frame >= 96 {
            self.phase_frame = 0;
            self.mode = -1;
            self.sb[0] = -self.sb[0];
        }
    }

    /// `reimu_1EE73`: random-origin speeding rings + 12-way pellet-stack fans.
    fn reimu_m_chaos_rings(&mut self, env: &mut BossEnv)
        requires
            reimu_ok(*old(self), *old(env), 1),
        ensures
            boss_stepped(*old(self), *final(self), 3),
            env_kept(*old(env), *final(env)),
            reimu_held(*old(self), *final(self)) && final(self).phase_state == old(self).phase_state,
            reimu_chaos_rings_post(*old(self), *old(env), *final(self), *final(env)),
    {
        proof {
            reveal(reimu_chaos_rings_post);
        }
        if self.reimu_gate(env) == 1 {
            if self.phase_frame % 32 == 0 {
                let o = self.reimu_random_origin();
                let t = BulletTemplate {
                    spawn_type: 5,
                    patnum: PAT_BALL_BLUE,
                    special: Bsm::Speedup,
                    speed_delta: 1,
                    ..BulletTemplate::shot(group::RING, 16, SUBPIXEL as u8, 0)
                };
                env.pool.spawn(&t, o.0, o.1, (0, 0));
            }
            if self.phase_frame % 32 == 16 {
                let o = self.reimu_random_origin();
                let mut angle = self.rng.byte();
                let ghost a0 = angle;
                let ghost p0 = (env.pool.bullets@, env.pool.rng);
                let ghost fx0 = env.fx;
                let mut n: u32 = 0;
                while n < 12
                    invariant
                        n <= 12,
                        env_ok(*env),
                        env.player == old(env).player && env.frame == old(env).frame,
                        env.fx == fx0,
                        -0x0200_0000 <= o.0 <= 0x0200_0000 && -0x0200_0000 <= o.1 <= 0x0200_0000,
                        angle == ring_angle(a0, 0x15, n as nat),
                        (env.pool.bullets@, env.pool.rng) == pellet_stacks(p0, o.0 as int, o.1 as int, a0, 0x15, 8, n as nat),
                    decreases 12 - n,
                {
                    let t = BulletTemplate {
                        spawn_type: 1,
                        delta: 8,
                        ..BulletTemplate::shot(group::STACK, 4, (SUBPIXEL + 8) as u8, angle)
                    };
                    env.pool.spawn(&t, o.0, o.1, (0, 0));
                    angle = angle.wrapping_add(0x15);
                    n = n + 1;
                }
            }
            if self.phase_frame >= 288 {
                self.phase_frame = 0;
                self.mode = -1;
            }
        }
    }

    /// `reimu_1EF87`: fast random spreads + aimed red cloud stacks.
    fn reimu_m_random_spray(&mut self, env: &mut BossEnv)
        requires
            reimu_ok(*old(self), *old(env), 1),
        ensures
            boss_stepped(*old(self), *final(self), 3),
            env_kept(*old(env), *final(env)),
            reimu_held(*old(self), *final(self)) && final(self).phase_state == old(self).phase_state,
            reimu_random_spray_post(*old(self), *old(env), *final(self), *final(env)),
    {
        proof {
            reveal(reimu_random_spray_post);
        }
        let bo = self.reimu_bo();
        if self.reimu_gate(env) == 1 {
            if self.phase_frame % 4 == 0 {
                let angle = (self.rng.and(7) as u8).wrapping_sub(0x44);
                let t = BulletTemplate {
                    spawn_type: 1,
                    delta: SPREAD3_DELTA,
                    ..BulletTemplate::shot(group::SPREAD, SPREAD3_COUNT, (8 * SUBPIXEL) as u8, angle)
                };
                env.pool.spawn(&t, bo.0, bo.1, (0, 0));
                if self.phase_frame % 16 == 0 {
                    let o = self.reimu_random_origin();
                    let st = BulletTemplate {
                        spawn_type: 4,
                        delta: SUBPIXEL as u8,
                        patnum: PAT_BALL_RED,
                        ..BulletTemplate::shot(group::STACK_AIMED, 4, (2 * SUBPIXEL) as u8, 0)
                    };
                    env.pool.spawn(&st, o.0, o.1, env.player);
                }
            }
            if self.phase_frame >= 192 {
                self.phase_frame = 0;
                self.mode = -1;
            }
        }
    }

    /// `reimu_1F04E`: aimed random-speed pellets, then speeding 32-rings.
    fn reimu_m_aimed_speedup(&mut self, env: &mut BossEnv)
        requires
            reimu_ok(*old(self), *old(env), 1),
        ensures
            boss_stepped(*old(self), *final(self), 3),
            env_kept(*old(env), *final(env)),
            reimu_held(*old(self), *final(self)) && final(self).phase_state == old(self).phase_state,
            reimu_aimed_speedup_post(*old(self), *old(env), *final(self), *final(env)),
    {
        proof {
            reveal(reimu_aimed_speedup_post);
        }
        let bo = self.reimu_bo();
        let g = self.reimu_gate(env);
        if g == 2 {
            self.angle = iatan2(env.player.1 - self.y, env.player.0 - self.x);
        } else if g == 1 {
            if self.phase_frame < 96 {
                if self.phase_frame % 2 == 0 {
                    let t = BulletTemplate {
                        spawn_type: 1,
                        ..BulletTemplate::shot(group::RANDOM_ANGLE_AND_SPEED, 3, (3 * SUBPIXEL + 6) as u8, self.angle)
                    };
                    env.pool.spawn(&t, bo.0, bo.1, (0, 0));
                }
            } else if self.phase_frame <= 128 {
                if self.phase_frame % 16 == 0 {
                    let t = BulletTemplate {
                        spawn_type: 5,
                        patnum: PAT_BALL_BLUE,
                        special: Bsm::Speedup,
                        speed_delta: 1,
                        ..BulletTemplate::shot(group::RING, 32, (3 * SUBPIXEL) as u8, self.rng.byte())
                    };
                    env.pool.spawn(&t, bo.0, bo.1, (0, 0));
                }
            } else {
                self.phase_frame = 0;
                self.mode = -1;
            }
        }
    }

    /// `reimu_1F111`: launch moving orbs every `ORB_INTERVAL` frames.
    fn reimu_m_moving_orbs(&mut self, env: &mut BossEnv)
        requires
            reimu_ok(*old(self), *old(env), 1),
        ensures
            boss_stepped(*old(self), *final(self), 3),
            env_kept(*old(env), *final(env)),
            reimu_held(*old(self), *final(self)) && final(self).phase_state == old(self).phase_state,
            reimu_moving_orbs_post(*old(self), *old(env), *final(self), *final(env)),
    {
        proof {
            reveal(reimu_moving_orbs_post);
        }
        if self.phase_frame == 32 {
            self.sb[5] = 0; // orb_template angle
        }
        if self.phase_frame >= 32 && self.phase_frame % ORB_INTERVAL == 0 {
            let v = self.sb[5] - self.sb[0];
            assert(0 <= v & 0xFF <= 0xFF) by (bit_vector);
            self.sb[5] = v & 0xFF;
            self.reimu_orb_add_moving(self.sb[5] as u8);
        }
        if self.phase_frame >= 180 {
            self.phase_frame = 0;
            self.mode = -1;
            self.sb[0] = -self.sb[0];
        }
    }

    /// `reimu_1F22A`: alternating wide cloud spreads from random origins.
    fn reimu_m_alt_spread(&mut self, env: &mut BossEnv)
        requires
            reimu_ok(*old(self), *old(env), 1),
        ensures
            boss_stepped(*old(self), *final(self), 3),
            env_kept(*old(env), *final(env)),
            reimu_held(*old(self), *final(self)) && final(self).phase_state == old(self).phase_state,
            reimu_alt_spread_post(*old(self), *old(env), *final(self), *final(env)),
    {
        proof {
            reveal(reimu_alt_spread_post);
        }
        let g = self.reimu_gate(env);
        if g == 2 {
            self.sb[3] = if self.sb[3] == 0x78 { -0x78 } else { 0x78 };
        } else if g == 1 {
            if self.phase_frame % 4 == 0 {
                let speed = (self.rng.and(0x1F) as u8).wrapping_add(SUBPIXEL as u8);
                let count = (self.rng.and(3) as u8) + 2;
                let o = self.reimu_random_origin();
                let base = (0x100i32 - 0x40 + self.sb[3]) as u8;
                let t = BulletTemplate {
                    spawn_type: 4,
                    delta: 8,
                    patnum: PAT_BALL_BLUE,
                    ..BulletTemplate::shot(group::SPREAD, count, speed, base)
                };
                env.pool.spawn(&t, o.0, o.1, (0, 0));
                let t2 = BulletTemplate { angle: base.wrapping_add(0x80), ..t };
                env.pool.spawn(&t2, o.0, o.1, (0, 0));
            }
            if self.phase_frame >= 224 {
                self.phase_frame = 0;
                self.mode = -1;
            }
        }
    }

    /// `reimu_1F2F3`: aimed 5-way cloud-stack fan.
    fn reimu_m_stack_fan(&mut self, env: &mut BossEnv)
        requires
            reimu_ok(*old(self), *old(env), 1),
        ensures
            boss_stepped(*old(self), *final(self), 3),
            env_kept(*old(env), *final(env)),
            reimu_held(*old(self), *final(self)) && final(self).phase_state == old(self).phase_state,
            reimu_stack_fan_post(*old(self), *old(env), *final(self), *final(env)),
    {
        proof {
            reveal(reimu_stack_fan_post);
        }
        if self.reimu_gate(env) == 1 {
            if self.phase_frame % 32 == 16 {
                let ghost p0 = (env.pool.bullets@, env.pool.rng);
                let ghost fx0 = env.fx;
                let mut angle: u8 = 0x20;
                let mut n: u32 = 0;
                while n < 5
                    invariant
                        n <= 5,
                        reimu_ok(*self, *env, 1),
                        *self == *old(self),
                        env.player == old(env).player && env.frame == old(env).frame,
                        env.fx == fx0,
                        angle == fan_angle(n as nat),
                        (env.pool.bullets@, env.pool.rng) == fan_stacks(p0, self.x as int, self.y as int, env.player, n as nat),
                    decreases 5 - n,
                {
                    let t = BulletTemplate {
                        spawn_type: 4,
                        delta: 12,
                        patnum: PAT_BALL_BLUE,
                        ..BulletTemplate::shot(group::STACK_AIMED, STACK_COUNT, (2 * SUBPIXEL) as u8, angle)
                    };
                    env.pool.spawn(&t, self.x, self.y, env.player);
                    angle = angle.wrapping_sub(0x10);
                    n = n + 1;
                }
            }
            if self.phase_frame >= 128 {
                self.phase_frame = 0;
                self.mode = -1;
            }
        }
    }

    /// `reimu_1F17C`: the final spell — random-origin 8-way pellet-stack fans.
    fn reimu_m_final(&mut self, env: &mut BossEnv)
        requires
            reimu_ok(*old(self), *old(env), 1),
        ensures
            boss_stepped(*old(self), *final(self), 3),
            env_kept(*old(env), *final(env)),
            reimu_held(*old(self), *final(self)) && final(self).phase_state == old(self).phase_state,
            final(self).phase_frame == old(self).phase_frame,
            reimu_final_pattern_post(*old(self), *old(env), *final(self), *final(env)),
    {
        proof {
            reveal(reimu_final_pattern_post);
        }
        if self.phase_frame >= 32 && self.phase_frame % 16 == 0 {
            let o = self.reimu_random_origin();
            let mut angle = self.rng.byte();
            let ghost a0 = angle;
            let ghost p0 = (env.pool.bullets@, env.pool.rng);
            let mut n: u32 = 0;
            while n < 8
                invariant
                    n <= 8,
                    env_ok(*env),
                    env.player == old(env).player && env.frame == old(env).frame,
                    env.fx == old(env).fx,
                    -0x0200_0000 <= o.0 <= 0x0200_0000 && -0x0200_0000 <= o.1 <= 0x0200_0000,
                    angle == ring_angle(a0, 0x20, n as nat),
                    (env.pool.bullets@, env.pool.rng) == pellet_stacks(p0, o.0 as int, o.1 as int, a0, 0x20, 10, n as nat),
                decreases 8 - n,
            {
                let t = BulletTemplate {
                    spawn_type: 1,
                    delta: 10,
                    ..BulletTemplate::shot(group::STACK, 4, (SUBPIXEL + 8) as u8, angle)
                };
                env.pool.spawn(&t, o.0, o.1, (0, 0));
                angle = angle.wrapping_add(0x20);
                n = n + 1;
            }
        }
    }

    // === Orb engine =======================================================

    /// `orbs_add_spinning`: fill up to `count` free orbs with spin-out orbs
    /// (`orbs_spun`).
    fn reimu_orbs_add_spinning(&mut self, count: i32, angle_offset: u8, spin_time: i32)
        requires
            boss_ok(*old(self), 2),
            -0x0100_0000 <= old(self).x <= 0x0100_0000 && -0x0100_0000 <= old(self).y <= 0x0100_0000,
            1 <= count <= 255,
            0 <= spin_time <= 0x100,
            -0x20 <= old(self).sb@[0] <= 0x20,
        ensures
            boss_ok(*final(self), 2),
            *final(self) == (Boss { orbits: final(self).orbits, ..*old(self) }),
            final(self).orbits@ == orbs_spun(old(self).orbits@, 0, 0, orb_source(*old(self)), count as int, angle_offset, spin_time),
    {
        proof {
            reveal(orbs_spun);
        }
        let ox = self.x;
        let oy = self.y;
        let aspeed = self.sb[0] as i8;
        let patnum = self.sb[1] as u8;
        let mut i: i32 = 0;
        let mut j: usize = 0;
        while j < self.orbits.len() && i < count
            invariant
                boss_ok(*self, 2),
                *self == (Boss { orbits: self.orbits, ..*old(self) }),
                ox == self.x && oy == self.y,
                -0x0100_0000 <= ox <= 0x0100_0000 && -0x0100_0000 <= oy <= 0x0100_0000,
                1 <= count <= 255,
                0 <= i <= count,
                0 <= spin_time <= 0x100,
                orbs_spun(self.orbits@, j as int, i as int, orb_source(*old(self)), count as int, angle_offset, spin_time)
                    == orbs_spun(old(self).orbits@, 0, 0, orb_source(*old(self)), count as int, angle_offset, spin_time),
                j <= self.orbits@.len(),
                aspeed == old(self).sb@[0] as i8 && patnum == old(self).sb@[1] as u8,
            decreases self.orbits@.len() - j,
        {
            proof {
                reveal(orbs_spun);
            }
            if self.orbits[j].flag == 0 {
                let o = Orbit {
                    flag: 1,
                    angle: (((i * 0x100) / count) as u8).wrapping_add(angle_offset),
                    aspeed,
                    cx: ox,
                    cy: oy,
                    ox,
                    oy,
                    dist: 0,
                    spin_time,
                    mspeed: ORB_MOVE_SPEED,
                    patnum,
                    vx: 0,
                    vy: 0,
                    hp: 0,
                };
                let ghost before = self.orbits@;
                assert(o == spin_orbit(orb_source(*old(self)), i as int, count as int, angle_offset, spin_time));
                self.orbits.set(j, o);
                assert forall|m: int| 0 <= m < self.orbits@.len() implies orbit_within(#[trigger] self.orbits@[m], 0x0200_0000int) by {
                    if m != j {
                        assert(orbit_within(before[m], 0x0200_0000int));
                    }
                }
                i = i + 1;
            }
            j = j + 1;
        }
        proof {
            reveal(orbs_spun);
        }
    }

    /// `orbs_add_moving`: launch one free orb straight at `angle`.
    fn reimu_orb_add_moving(&mut self, angle: u8)
        requires
            boss_ok(*old(self), 2),
            -0x0100_0000 <= old(self).x <= 0x0100_0000 && -0x0100_0000 <= old(self).y <= 0x0100_0000,
        ensures
            boss_ok(*final(self), 2),
            *final(self) == (Boss { orbits: final(self).orbits, ..*old(self) }),
            final(self).orbits@ == orbit_added(old(self).orbits@, ({
                let v = spec_vector2(angle, ORB_MOVE_SPEED as int);
                Orbit { flag: 2, angle, aspeed: old(self).sb@[0] as i8, cx: old(self).x, cy: old(self).y,
                    ox: old(self).x, oy: old(self).y, dist: 0, spin_time: 0, mspeed: ORB_MOVE_SPEED,
                    patnum: old(self).sb@[1] as u8, vx: v.0 as i32, vy: v.1 as i32, hp: 0 }
            })),
    {
        let cx = self.x;
        let cy = self.y;
        let patnum = self.sb[1] as u8;
        let aspeed = self.sb[0] as i8;
        let mut j: usize = 0;
        while j < self.orbits.len()
            invariant
                boss_ok(*self, 2),
                *self == *old(self),
                forall|q: int| 0 <= q < j ==> (#[trigger] self.orbits@[q]).flag != 0,
                aspeed == old(self).sb@[0] as i8 && patnum == old(self).sb@[1] as u8,
                cx == self.x && cy == self.y,
                -0x0100_0000 <= cx <= 0x0100_0000 && -0x0100_0000 <= cy <= 0x0100_0000,
            decreases self.orbits@.len() - j,
        {
            if self.orbits[j].flag == 0 {
                proof {
                    lemma_first_free_orbit(self.orbits@, 0, j as int);
                    lemma_vector2_fits(angle, ORB_MOVE_SPEED as int);
                    lemma_vector2_bounded(angle, ORB_MOVE_SPEED as int);
                }
                let v = vector2(angle, ORB_MOVE_SPEED);
                let o = Orbit {
                    flag: 2,
                    angle,
                    aspeed,
                    cx,
                    cy,
                    ox: cx,
                    oy: cy,
                    dist: 0,
                    spin_time: 0,
                    mspeed: ORB_MOVE_SPEED,
                    patnum,
                    vx: v.0,
                    vy: v.1,
                    hp: 0,
                };
                let ghost before = self.orbits@;
                self.orbits.set(j, o);
                assert forall|m: int| 0 <= m < self.orbits@.len() implies orbit_within(#[trigger] self.orbits@[m], 0x0200_0000int) by {
                    if m != j {
                        assert(orbit_within(before[m], 0x0200_0000int));
                    }
                }
                return;
            }
            j = j + 1;
        }
        proof {
            lemma_first_free_orbit(self.orbits@, 0, self.orbits@.len() as int);
        }
    }

    /// `reimu_1EBF3`: advance every orb.
    fn reimu_orbs_step(&mut self)
        requires
            boss_ok(*old(self), 5),
        ensures
            boss_ok(*final(self), 6),
            *final(self) == (Boss { orbits: final(self).orbits, ..*old(self) }),
            final(self).orbits@ == old(self).orbits@.map_values(|o: Orbit| orb_next(o)),
    {
        let mut j: usize = 0;
        while j < self.orbits.len()
            invariant
                j <= self.orbits@.len(),
                boss_ok(*old(self), 5),
                *self == (Boss { orbits: self.orbits, ..*old(self) }),
                self.orbits@.len() == old(self).orbits@.len(),
                forall|m: int| 0 <= m < j ==> orbit_within(#[trigger] self.orbits@[m], 0x0600_0000int),
                forall|m: int| j <= m < self.orbits@.len() ==> self.orbits@[m] == old(self).orbits@[m],
                forall|m: int| 0 <= m < j ==> #[trigger] self.orbits@[m] == ({ let o = old(self).orbits@[m]; orb_next(o) }),
            decreases self.orbits@.len() - j,
        {
            let o = self.orbits[j];
            assert(orbit_within(old(self).orbits@[j as int], 0x0500_0000int));
            let o2 = orb_step(o);
            self.orbits.set(j, o2);
            j = j + 1;
        }
        assert(self.orbits@ =~= old(self).orbits@.map_values(|o: Orbit| orb_next(o)));
        assert(boss_ok(*self, 6)) by {
            assert forall|m: int| 0 <= m < self.orbits@.len() implies orbit_within(#[trigger] self.orbits@[m], 0x0600_0000int) by {}
            assert forall|m: int| 0 <= m < 8 implies super::abs_le(#[trigger] self.sb@[m] as int, 0x0600_0000int) by {
                assert(super::abs_le(old(self).sb@[m] as int, 0x0500_0000int));
            }
        }
    }
}

/// The `i`-th of `count` spin-out orbs placed at the boss, evenly spread
/// round the circle from `off`, turning at the boss's orb turn rate.
pub open spec fn spin_orbit(b: OrbSource, i: int, count: int, off: u8, spin_time: i32) -> Orbit {
    Orbit {
        flag: 1,
        angle: angle_add(((i * 0x100) / count) as u8, off),
        aspeed: b.aspeed,
        cx: b.x,
        cy: b.y,
        ox: b.x,
        oy: b.y,
        dist: 0,
        spin_time,
        mspeed: ORB_MOVE_SPEED,
        patnum: b.patnum,
        vx: 0,
        vy: 0,
        hp: 0,
    }
}

/// Where new orbs come from: the boss's position, and the turn rate and
/// sprite it gives them (`sb[0]`, `sb[1]`).
pub struct OrbSource {
    pub x: i32,
    pub y: i32,
    pub aspeed: i8,
    pub patnum: u8,
}

/// The orb source of boss `b`.
pub open spec fn orb_source(b: Boss) -> OrbSource {
    OrbSource { x: b.x, y: b.y, aspeed: b.sb@[0] as i8, patnum: b.sb@[1] as u8 }
}

/// The orbs `os` with the free slots from `j` on filled, in order, by spin-out
/// orbs `i`, `i + 1`, ... until `count` are placed.
#[verifier::opaque]
pub open spec fn orbs_spun(os: Seq<Orbit>, j: int, i: int, b: OrbSource, count: int, off: u8, spin_time: i32) -> Seq<Orbit>
    decreases os.len() - j,
{
    if !(0 <= j < os.len()) || i >= count {
        os
    } else if os[j].flag == 0 {
        orbs_spun(os.update(j, spin_orbit(b, i, count, off, spin_time)), j + 1, i + 1, b, count, off, spin_time)
    } else {
        orbs_spun(os, j + 1, i, b, count, off, spin_time)
    }
}

/// One orb's frame: a spinning orb sits at its distance from its origin
/// along its angle, moves out 4px a frame up to 64px, turns by its angular
/// speed and, once its spin time runs out, turns a quarter circle off along
/// the tangent and starts moving at its linear speed; a moving orb steps by
/// its velocity, bounces off the side walls, vanishes below the field and
/// falls one subpixel faster; a free orb stays as it is.
pub open spec fn orb_next(o: Orbit) -> Orbit {
    if o.flag == 1 {
        let cx = o.ox + (spec_cos8(o.angle) * o.dist) / 256;
        let cy = o.oy + (spec_sin8(o.angle) * o.dist) / 256;
        let dist = if o.dist < 64 * SUBPIXEL { o.dist + 4 * SUBPIXEL } else { o.dist as int };
        let a1 = angle_add(o.angle, o.aspeed as u8);
        let st = o.spin_time - 1;
        if st <= 0 {
            let a2 = angle_add(a1, if o.aspeed >= 0 { 0x40u8 } else { 0xC0u8 });
            let v = spec_vector2(a2, o.mspeed as int);
            Orbit { cx: cx as i32, cy: cy as i32, dist: dist as i32, spin_time: st as i32, angle: a2,
                vx: v.0 as i32, vy: v.1 as i32, flag: 2, ..o }
        } else {
            Orbit { cx: cx as i32, cy: cy as i32, dist: dist as i32, spin_time: st as i32, angle: a1, ..o }
        }
    } else if o.flag == 2 {
        let cx = o.cx + o.vx;
        let cy = o.cy + o.vy;
        Orbit {
            cx: cx as i32,
            vx: if cx < 0 || cx > PLAYFIELD_W * SUBPIXEL { -o.vx as i32 } else { o.vx },
            cy: cy as i32,
            flag: if cy >= PLAYFIELD_H * SUBPIXEL { 0u8 } else { 2u8 },
            vy: (o.vy + 1) as i32,
            ..o
        }
    } else {
        o
    }
}

/// One orb's frame (`orb_next`).
fn orb_step(o: Orbit) -> (r: Orbit)
    requires
        orbit_within(o, 0x0500_0000),
    ensures
        r == orb_next(o),
        orbit_within(r, 0x0600_0000),
{
    let mut o = o;
    if o.flag == 1 {
        let c = cos8(o.angle);
        let s = sin8(o.angle);
        assert(-0x4000_0000 <= c * o.dist <= 0x4000_0000) by (nonlinear_arith)
            requires -256 <= c <= 256, -0x0028_0000 <= o.dist <= 0x0028_0000;
        assert(-0x4000_0000 <= s * o.dist <= 0x4000_0000) by (nonlinear_arith)
            requires -256 <= s <= 256, -0x0028_0000 <= o.dist <= 0x0028_0000;
        assert(-0x0028_0000 <= (c * o.dist) / 256 <= 0x0028_0000) by (nonlinear_arith)
            requires -256 <= c <= 256, -0x0028_0000 <= o.dist <= 0x0028_0000;
        assert(-0x0028_0000 <= (s * o.dist) / 256 <= 0x0028_0000) by (nonlinear_arith)
            requires -256 <= s <= 256, -0x0028_0000 <= o.dist <= 0x0028_0000;
        o.cx = o.ox + shr8(c * o.dist);
        o.cy = o.oy + shr8(s * o.dist);
        if o.dist < 64 * SUBPIXEL {
            o.dist = o.dist + 4 * SUBPIXEL;
        }
        o.spin_time = o.spin_time - 1;
        o.angle = o.angle.wrapping_add(o.aspeed as u8);
        if o.spin_time <= 0 {
            let turn: u8 = if o.aspeed >= 0 { 0x40 } else { 0xC0 };
            o.angle = o.angle.wrapping_add(turn);
            proof {
                lemma_vector2_fits(o.angle, o.mspeed as int);
                lemma_vector2_bounded(o.angle, o.mspeed as int);
            }
            let v = vector2(o.angle, o.mspeed);
            o.vx = v.0;
            o.vy = v.1;
            o.flag = 2;
        }
    } else if o.flag == 2 {
        o.cx = o.cx + o.vx;
        if o.cx < 0 || o.cx > PLAYFIELD_W * SUBPIXEL {
            o.vx = -o.vx;
        }
        o.cy = o.cy + o.vy;
        if o.cy >= PLAYFIELD_H * SUBPIXEL {
            o.flag = 0;
        }
        o.vy = o.vy + 1; // gravity
    }
    o
}

} // verus!

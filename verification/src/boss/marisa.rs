//! Stage 4 rival **Marisa** — `@marisa_update$qv` (th04_main.asm:16535) + the bit
//! engine (`marisa_16C05`/`16C6A`/bit-fire helpers), `flystep_pointreflected`
//! (b4m.cpp), and mode subs `marisa_16DFF`..`17813`. The fight when playing as
//! Reimu. HP 6000.
//!
//! The four **bits** (destructible satellites, hp 220/400/280/450) spin out to
//! a 64px orbit and act as armour — `marisa_179BC` divides incoming damage by
//! `(bits_alive + 1)`, so the bits must be shot down to hurt Marisa; the
//! point-reflected flight she uses while bitless; the `0xFF` wander-selector
//! that drives the mode cycle (intro-toggle/respawn when bitless, else a random
//! 1-7 bit-pattern); and every mode's danmaku. A couple of `boss_statebyte`
//! setup values use Normal-rank constants; bit HP values are the standard set.

use vstd::prelude::*;
use super::{Boss, BossEnv, BossKind, Orbit, SUBPIXEL, shr8, div_i32, boss_ok, boss_stepped, env_ok, env_kept,
    orbit_within, abs_le, lemma_boss_ok_mono, fired, BossRng, div_trunc, update_ok, boss_frame_post};
use crate::bullet::{group, Bsm, Bullet, BulletTemplate, pool_after_spawn, tdiv_exec, tdiv, angle_add, angle_sub, blank_template, lcg_next, cleared};
use crate::math::{cos8, iatan2, sin8, spec_cos8, spec_sin8, spec_iatan2};
use crate::effects::{Effect, EffectKind, new_effect};

verus! {

broadcast use lemma_boss_ok_mono;

pub const PAT_BALL_BLUE: u8 = 2;
pub const PAT_BALL_RED: u8 = 6;
pub const PAT_STAR: u8 = 7;
pub const PAT_D_BLUE: u8 = 8;
pub const PAT_BIT: u8 = 10;

/// Hit points of bit `i`.
pub open spec fn bit_hp(i: int) -> i32 {
    if i == 0 { 220 } else if i == 1 { 400 } else if i == 2 { 280 } else { 450 }
}

fn bit_hp_exec(i: usize) -> (r: i32)
    ensures
        r == bit_hp(i as int),
{
    if i == 0 { 220 } else if i == 1 { 400 } else if i == 2 { 280 } else { 450 }
}

/// A live bit (spinning out, settling or settled).
pub open spec fn bit_alive(o: Orbit) -> bool {
    1 <= o.flag <= 3
}

/// The number of live bits among `os`.
pub open spec fn bits_alive(os: Seq<Orbit>) -> nat
    decreases os.len(),
{
    if os.len() == 0 {
        0
    } else {
        bits_alive(os.drop_last()) + (if bit_alive(os.last()) { 1nat } else { 0nat })
    }
}

pub proof fn lemma_bits_alive_le(os: Seq<Orbit>)
    ensures
        bits_alive(os) <= os.len(),
    decreases os.len(),
{
    if os.len() > 0 {
        lemma_bits_alive_le(os.drop_last());
    }
}

/// Marisa's own state a frame needs: turn rates small enough to double and
/// negate.
pub open spec fn marisa_state_ok(b: Boss) -> bool {
    &&& -0x20 <= b.sb@[7] <= 0x20
    &&& forall|i: int| 0 <= i < b.orbits@.len() ==> -0x20 <= #[trigger] b.orbits@[i].aspeed <= 0x20
}

/// What a Marisa routine asks: Marisa within bound level `k`, her turn rates
/// small, a sane context.
pub open spec fn marisa_ok(b: Boss, env: BossEnv, k: int) -> bool {
    boss_ok(b, k) && b.kind == BossKind::Marisa && env_ok(env) && marisa_state_ok(b)
}

/// The template a live bit `o` fires: kind 0 turns it off the bit's orbit
/// (a 5-way once two or fewer bits are left), kind 1 keeps it.
pub open spec fn bit_template(t: BulletTemplate, o: Orbit, kind: u8, alive: int) -> BulletTemplate {
    if kind == 0 {
        BulletTemplate {
            count: if alive <= 2 { 5u8 } else { t.count },
            angle: angle_add(o.angle, if o.aspeed >= 0 { 0xC0u8 } else { 0x40u8 }),
            ..t
        }
    } else {
        t
    }
}

/// The pool after the first `n` bits of `os` fired `t` at `player`, each
/// live one from where it is.
pub open spec fn bits_fired(p: (Seq<Bullet>, u32), os: Seq<Orbit>, t: BulletTemplate, kind: u8, alive: int,
    player: (i32, i32), n: nat) -> (Seq<Bullet>, u32)
    decreases n,
{
    if n == 0 {
        p
    } else {
        let q = bits_fired(p, os, t, kind, alive, player, (n - 1) as nat);
        let o = os[n - 1];
        if 1 <= o.flag <= 3 {
            pool_after_spawn(q.0, q.1, bit_template(t, o, kind, alive), o.cx as int, o.cy as int, player)
        } else {
            q
        }
    }
}

/// Bit `i` as Marisa spawns it around her: a quarter turn apart from
/// `base`, turning at her bit turn rate (`sb[7]`), moving out at 2px a frame.
pub open spec fn new_bit(b: Boss, base: u8, i: int) -> Orbit {
    Orbit {
        flag: 1,
        angle: angle_add(base, (i * 64) as u8),
        aspeed: b.sb@[7] as i8,
        cx: b.x,
        cy: b.y,
        ox: 0,
        oy: 0,
        vx: 0,
        vy: 0,
        dist: 0,
        spin_time: 0,
        mspeed: 32,
        hp: bit_hp(i),
        patnum: (PAT_BIT + i) as u8,
    }
}

/// One half of a twin spread: 1-4 bullets at a random speed above
/// `base`, from `side` px beside (`x`, `y`) along `angle`, both drawn from
/// the generator at `st`; the generator after the draws and the pool after.
pub open spec fn twin_fire(st: u32, p: (Seq<Bullet>, u32), x: int, y: int, angle: u8, base: u8, side: int)
    -> (u32, (Seq<Bullet>, u32)) {
    let st1 = lcg_next(st);
    let st2 = lcg_next(st1);
    let count = (((st1 >> 16u32) & 3u32) + 1) as u8;
    let speed = (((st2 >> 16u32) & 0x1Fu32) as u8).wrapping_add(base);
    (st2, pool_after_spawn(p.0, p.1, BulletTemplate { spawn_type: 4, delta: 8, patnum: PAT_BALL_BLUE, group: group::SPREAD,
        count, speed, angle, ..blank_template() }, x + side * 16, y, (0i32, 0i32)))
}

/// Both halves of a twin spread from Marisa's bullet origin (6px left,
/// then 12px right).
pub open spec fn twin_spread(b: Boss, p: (Seq<Bullet>, u32), base: u8) -> (u32, (Seq<Bullet>, u32)) {
    let g1 = twin_fire(b.rng.state, p, b.x - 320, b.y - 128, b.angle, base, -6);
    twin_fire(g1.0, g1.1, b.x - 320, b.y - 128, b.angle, base, 12)
}

/// Marisa after a fly step of a `dur`-frame flight past (192, 112) (the
/// step counter `sb[6]` aside), and whether the flight is over: on its first
/// frame she aims to reach the point in `dur / 2 - 6` frames; over the last
/// 12 frames she brakes by halving her velocity; she moves until `dur`.
pub open spec fn marisa_flown(b: Boss, dur: int) -> (Boss, bool) {
    let s6 = b.sb@[6] as int;
    let d = tdiv(dur, 2) - 6;
    let aim = s6 == 0 && d != 0;
    let vx0 = if aim { div_trunc(3072 - b.x, d) } else { b.vx as int };
    let vy0 = if aim { div_trunc(1792 - b.y, d) } else { b.vy as int };
    let brake = s6 + 1 >= dur - 12;
    let vx = if brake { tdiv(vx0, 2) } else { vx0 };
    let vy = if brake { tdiv(vy0, 2) } else { vy0 };
    let done = s6 + 1 >= dur;
    (Boss {
        vx: vx as i32,
        vy: vy as i32,
        x: (if done { b.x as int } else { b.x + vx }) as i32,
        y: (if done { b.y as int } else { b.y + vy }) as i32,
        ..b
    }, done)
}

/// An edge bullet at a random speed from (`ox`, `oy`) along `angle`, the
/// speed drawn from the generator at `st`: the generator after it and the
/// pool after the bullet.
pub open spec fn edge_fire(st: u32, p: (Seq<Bullet>, u32), ox: int, oy: int, angle: u8) -> (u32, (Seq<Bullet>, u32)) {
    let st1 = lcg_next(st);
    (st1, pool_after_spawn(p.0, p.1, BulletTemplate { spawn_type: 4, patnum: PAT_BALL_BLUE, group: group::SINGLE, count: 1,
        speed: (((st1 >> 16u32) & 0x1Fu32) + 16) as u8, angle, ..blank_template() }, ox, oy, (0i32, 0i32)))
}

/// A volley of three edge bullets: from a random height on the left edge,
/// from a random height on the right edge and from a random spot on the top
/// edge, each at a random angle into the field; all drawn from the generator
/// at `st`.
pub open spec fn edge_volley(st: u32, p: (Seq<Bullet>, u32)) -> (u32, (Seq<Bullet>, u32)) {
    let s1 = lcg_next(st);
    let s2 = lcg_next(s1);
    let e1 = edge_fire(s2, p, 0, ((s1 >> 16u32) as int) % 3072, angle_sub(0x30, ((s2 >> 16u32) & 0x1Fu32) as u8));
    let s4 = lcg_next(e1.0);
    let s5 = lcg_next(s4);
    let e2 = edge_fire(s5, e1.1, 6144, ((s4 >> 16u32) as int) % 3072, angle_add(((s5 >> 16u32) & 0x1Fu32) as u8, 0x50));
    let s7 = lcg_next(e2.0);
    let s8 = lcg_next(s7);
    edge_fire(s8, e2.1, ((s7 >> 16u32) as int) % 6144, 0, angle_add(((s8 >> 16u32) & 0x1Fu32) as u8, 0x30))
}

/// `a` turned a quarter-turn `k` times.
pub open spec fn quarter_turned(a: u8, k: nat) -> u8
    decreases k,
{
    if k == 0 { a } else { angle_add(quarter_turned(a, (k - 1) as nat), 0x40) }
}

/// The pool after the first `n` of four blue 3-way spreads a quarter-turn
/// apart from (`x`, `y`), the first along `a`.
pub open spec fn quad_spreads(p: (Seq<Bullet>, u32), x: int, y: int, a: u8, n: nat) -> (Seq<Bullet>, u32)
    decreases n,
{
    if n == 0 {
        p
    } else {
        let q = quad_spreads(p, x, y, a, (n - 1) as nat);
        pool_after_spawn(q.0, q.1, BulletTemplate { spawn_type: 2, delta: 6, patnum: PAT_D_BLUE, group: group::SPREAD,
            count: 3, speed: 52, angle: quarter_turned(a, (n - 1) as nat), ..blank_template() }, x, y, (0i32, 0i32))
    }
}

/// The effects after `marisa_gate`'s frame: the telegraph at frame 30.
pub open spec fn gate_fx(o: Boss, fx: Seq<Effect>) -> Seq<Effect> {
    if o.phase_frame == 30 {
        fx.push(new_effect((o.x - 320) as i32, (o.y - 128) as i32, EffectKind::Gather))
            .push(new_effect((o.x - 320) as i32, (o.y - 128) as i32, EffectKind::CircleShrink))
    } else {
        fx
    }
}

/// What `marisa_m_perp_or_fan` does in a frame: after the opening, every
/// fourth frame the bits fire 3-way spreads, or, bitless, Marisa flies a
/// step and fires four blue spreads a quarter-turn apart; at frame 160 the
/// bits turn and the pattern ends.
pub open spec fn marisa_perp_or_fan_post(o: Boss, oe: BossEnv, b: Boss, e: BossEnv) -> bool {
    let pf = o.phase_frame;
    let p0 = (oe.pool.bullets@, oe.pool.rng);
    &&& e.fx.effects@ =~= gate_fx(o, oe.fx.effects@)
    &&& e.player == oe.player && e.frame == oe.frame
    &&& if pf < 64 {
        b == o && e.pool == oe.pool
    } else if pf == 64 {
        &&& b.sb@ =~= o.sb@.update(5, pf)
        &&& b == (Boss { sb: b.sb, ..o })
        &&& e.pool == oe.pool
    } else {
        let fires = pf % 4 == 0;
        let alive = bits_alive(o.orbits@) > 0;
        let flown = marisa_flown(o, 160 - o.sb@[5]).0;
        let a = angle_add(o.angle, 6);
        let b0 = if fires && !alive { Boss { angle: quarter_turned(a, 4), ..flown } } else { o };
        let sb1 = if fires && alive { o.sb@.update(5, pf) } else if fires { o.sb@.update(6, (o.sb@[6] + 1) as i32) } else { o.sb@ };
        let t1 = BulletTemplate { spawn_type: 1, delta: 8, group: group::SPREAD, count: 3, speed: 56, angle: 0, ..blank_template() };
        &&& (e.pool.bullets@, e.pool.rng) == (if fires && alive {
            bits_fired(p0, o.orbits@, t1, 0, bits_alive(o.orbits@) as int, oe.player, o.orbits@.len())
        } else if fires {
            quad_spreads(p0, flown.x - 320, flown.y - 128, a, 4)
        } else {
            p0
        })
        &&& b.sb@ =~= sb1
        &&& b.orbits@ =~= (if pf >= 160 { bits_turned(o.orbits@, 0, 1) } else { o.orbits@ })
        &&& b == (if pf >= 160 { Boss { sb: b.sb, orbits: b.orbits, phase_frame: 0i32, mode: -1i16, ..b0 } }
            else { Boss { sb: b.sb, orbits: b.orbits, ..b0 } })
    }
}

/// What `marisa_m_aimed_stars` does in a frame: after the opening (whose end
/// turns the bits and starts the speed ramp at 1px), every fourth frame
/// Marisa aims at the player and the bits fire single shots, or, bitless,
/// she flies a step and fires an aimed 3-way star spread; the speed ramps
/// by 4; at frame 160 the bits turn and the pattern ends.
pub open spec fn marisa_aimed_stars_post(o: Boss, oe: BossEnv, b: Boss, e: BossEnv) -> bool {
    let pf = o.phase_frame;
    let p0 = (oe.pool.bullets@, oe.pool.rng);
    &&& e.fx.effects@ =~= gate_fx(o, oe.fx.effects@)
    &&& e.player == oe.player && e.frame == oe.frame
    &&& if pf < 64 {
        b == o && e.pool == oe.pool
    } else if pf == 64 {
        &&& b.sb@ =~= o.sb@.update(5, pf).update(3, 16i32)
        &&& b.orbits@ =~= bits_turned(o.orbits@, 1, 1)
        &&& b == (Boss { sb: b.sb, orbits: b.orbits, ..o })
        &&& e.pool == oe.pool
    } else {
        let fires = pf % 4 == 0;
        let alive = bits_alive(o.orbits@) > 0;
        let ang = spec_iatan2(oe.player.1 - o.y, oe.player.0 - o.x);
        let aimed = Boss { angle: ang, ..o };
        let flown = marisa_flown(aimed, 160 - o.sb@[5]).0;
        let b0 = if fires && alive { aimed } else if fires { flown } else { o };
        let sb1 = if fires && alive { o.sb@.update(5, pf) } else if fires { o.sb@.update(6, (o.sb@[6] + 1) as i32) } else { o.sb@ };
        let sb2 = if fires { sb1.update(3, (o.sb@[3] + 4) as i32) } else { sb1 };
        &&& (e.pool.bullets@, e.pool.rng) == (if fires && alive {
            bits_fired(p0, o.orbits@, BulletTemplate { spawn_type: 1, group: group::SINGLE, count: 1, speed: o.sb@[3] as u8,
                angle: ang, ..blank_template() }, 1, bits_alive(o.orbits@) as int, oe.player, o.orbits@.len())
        } else if fires {
            pool_after_spawn(p0.0, p0.1, BulletTemplate { spawn_type: 2, delta: 0x0C, patnum: PAT_STAR,
                group: group::SPREAD_AIMED, count: 3, speed: o.sb@[3] as u8, angle: 0, ..blank_template() },
                flown.x - 320, flown.y - 128, oe.player)
        } else {
            p0
        })
        &&& b.sb@ =~= sb2
        &&& b.orbits@ =~= (if pf >= 160 { bits_turned(o.orbits@, 2, 1) } else { o.orbits@ })
        &&& b == (if pf >= 160 { Boss { sb: b.sb, orbits: b.orbits, phase_frame: 0i32, mode: -1i16, ..b0 } }
            else { Boss { sb: b.sb, orbits: b.orbits, ..b0 } })
    }
}

/// What `marisa_m_mirror` does in a frame: after the opening (whose end sets
/// the spread speed to 2px and draws the mirror side), the bits fire a
/// sweeping single every fourth frame and a ramping blue single every
/// eighth, until frame 160 when the bits turn and the pattern ends; bitless,
/// Marisa flies a 72-frame flight firing an aimed blue stack every eighth
/// frame.
pub open spec fn marisa_mirror_post(o: Boss, oe: BossEnv, b: Boss, e: BossEnv) -> bool {
    let pf = o.phase_frame;
    let p0 = (oe.pool.bullets@, oe.pool.rng);
    &&& e.fx.effects@ =~= gate_fx(o, oe.fx.effects@)
    &&& e.player == oe.player && e.frame == oe.frame
    &&& if pf < 64 {
        b == o && e.pool == oe.pool
    } else if pf == 64 {
        let st1 = lcg_next(o.rng.state);
        &&& b.sb@ =~= o.sb@.update(3, 32i32).update(5, ((st1 >> 16u32) & 1u32) as i32)
        &&& b == (Boss { sb: b.sb, rng: BossRng { state: st1 }, ..o })
        &&& e.pool == oe.pool
    } else if bits_alive(o.orbits@) > 0 {
        let n = bits_alive(o.orbits@) as int;
        let a0 = ((oe.frame % 32) * 8) as u8;
        let a = if o.sb@[5] != 0 { angle_sub(0, a0) } else { a0 };
        let p1 = if oe.frame % 4 == 0 {
            bits_fired(p0, o.orbits@, BulletTemplate { spawn_type: 1, group: group::SINGLE, count: 1, speed: 32, angle: a,
                ..blank_template() }, 1, n, oe.player, o.orbits@.len())
        } else {
            p0
        };
        let p2 = if oe.frame % 8 == 0 {
            bits_fired(p1, o.orbits@, BulletTemplate { spawn_type: 4, patnum: PAT_BALL_BLUE, group: group::SINGLE, count: 1,
                speed: o.sb@[3] as u8, angle: 0, ..blank_template() }, 0, n, oe.player, o.orbits@.len())
        } else {
            p1
        };
        &&& (e.pool.bullets@, e.pool.rng) == p2
        &&& b.sb@ =~= (if oe.frame % 8 == 0 { o.sb@.update(3, (o.sb@[3] + 2) as i32) } else { o.sb@ })
        &&& b.orbits@ =~= (if pf >= 160 { bits_turned(o.orbits@, 0, 1) } else { o.orbits@ })
        &&& b == (if pf >= 160 { Boss { sb: b.sb, orbits: b.orbits, phase_frame: 0i32, mode: -1i16, ..o } }
            else { Boss { sb: b.sb, orbits: b.orbits, ..o } })
    } else {
        let fl = marisa_flown(o, 72);
        &&& b.sb@ =~= o.sb@.update(6, (o.sb@[6] + 1) as i32)
        &&& b == (if fl.1 { Boss { sb: b.sb, phase_frame: 0i32, mode: -1i16, ..fl.0 } } else { Boss { sb: b.sb, ..fl.0 } })
        &&& (e.pool.bullets@, e.pool.rng) == (if !fl.1 && pf % 8 == 0 {
            pool_after_spawn(p0.0, p0.1, BulletTemplate { spawn_type: 4, delta: 5, patnum: PAT_BALL_BLUE,
                group: group::STACK_AIMED, count: 16, speed: 16, angle: 0, ..blank_template() },
                fl.0.x - 320, fl.0.y - 128, oe.player)
        } else {
            p0
        })
    }
}

/// The pool after the first `n` of the bits' four decelerating star
/// volleys, each an eighth-turn from the last, the first along `base`.
pub open spec fn star_volleys(p: (Seq<Bullet>, u32), o: Boss, player: (i32, i32), target: u8, base: u8, n: nat)
    -> (Seq<Bullet>, u32)
    decreases n,
{
    if n == 0 {
        p
    } else {
        let q = star_volleys(p, o, player, target, base, (n - 1) as nat);
        bits_fired(q, o.orbits@, BulletTemplate { spawn_type: 2, patnum: PAT_STAR, special: Bsm::DecelToAngle,
            turn_arg: target, group: group::SINGLE, count: 1, speed: 92, angle: eighth_turned(base, (n - 1) as nat),
            ..blank_template() }, 1, bits_alive(o.orbits@) as int, player, o.orbits@.len())
    }
}

/// `a` turned an eighth-turn `k` times.
pub open spec fn eighth_turned(a: u8, k: nat) -> u8
    decreases k,
{
    if k == 0 { a } else { angle_add(eighth_turned(a, (k - 1) as nat), 0x20) }
}

/// The target and first angle of the star volleys at frame `f`.
pub open spec fn star_window(f: int) -> (u8, u8) {
    if f <= 96 { (0x40, 0x10) } else if f <= 128 { (0x30, 0x90) } else if f <= 160 { (0x70, 0x10) }
    else if f <= 192 { (0x10, 0x10) } else { (0x40, 0x10) }
}

/// What `marisa_m_decel_stars` does in a frame: after the opening, every
/// fourth frame the bits fire four decelerating star volleys toward the
/// window's target until frame 224; bitless, Marisa flies a 128-frame
/// flight, the first bitless frame drawing her angle, and every eighth
/// frame fires a blue cloud stack and turns back 8, until frame 256.
pub open spec fn marisa_decel_stars_post(o: Boss, oe: BossEnv, b: Boss, e: BossEnv) -> bool {
    let pf = o.phase_frame;
    let p0 = (oe.pool.bullets@, oe.pool.rng);
    &&& e.player == oe.player && e.frame == oe.frame
    &&& if pf < 64 {
        b == o && e.pool == oe.pool && e.fx.effects@ =~= gate_fx(o, oe.fx.effects@)
    } else if pf == 64 {
        &&& b.sb@ =~= o.sb@.update(5, 0i32)
        &&& b == (Boss { sb: b.sb, ..o })
        &&& e.pool == oe.pool
        &&& e.fx.effects@ =~= gate_fx(o, oe.fx.effects@)
    } else if bits_alive(o.orbits@) > 0 {
        let w = star_window(pf as int);
        &&& e.fx.effects@ =~= gate_fx(o, oe.fx.effects@)
        &&& (e.pool.bullets@, e.pool.rng) == (if pf % 4 == 0 { star_volleys(p0, o, oe.player, w.0, w.1, 4) } else { p0 })
        &&& b == (if pf >= 224 { Boss { phase_frame: 0i32, mode: -1i16, ..o } } else { o })
    } else {
        let fl = marisa_flown(o, 128).0;
        let st1 = lcg_next(o.rng.state);
        let first = o.sb@[5] == 0;
        let a1 = if first { angle_sub(0x80, ((st1 >> 16u32) & 0x1Fu32) as u8) } else { o.angle };
        let m = Boss { angle: a1, rng: if first { BossRng { state: st1 } } else { o.rng }, ..fl };
        let fires = pf % 8 == 0;
        let sb1 = o.sb@.update(6, (o.sb@[6] + 1) as i32);
        &&& b.sb@ =~= (if first { sb1.update(5, 1i32) } else { sb1 })
        &&& b == ({
            let m2 = Boss { sb: b.sb, angle: if fires { angle_sub(a1, 8) } else { a1 }, ..m };
            if pf >= 256 { Boss { phase_frame: 0i32, mode: -1i16, ..m2 } } else { m2 }
        })
        &&& (e.pool.bullets@, e.pool.rng) == (if fires {
            pool_after_spawn(p0.0, p0.1, BulletTemplate { spawn_type: 4, delta: 5, patnum: PAT_BALL_BLUE, group: group::STACK,
                count: 16, speed: 16, angle: a1, ..blank_template() }, m.x - 320, m.y - 128, (0i32, 0i32))
        } else {
            p0
        })
        &&& e.fx.effects@ =~= gate_fx(o, oe.fx.effects@)
    }
}

/// The generator and pool after the first `n` of a bitless dense-ring
/// frame's red aimed shots, scattered around (`x`, `y`) with random speeds.
pub open spec fn red_scatter(st: u32, p: (Seq<Bullet>, u32), x: int, y: int, player: (i32, i32), n: nat)
    -> (u32, (Seq<Bullet>, u32))
    decreases n,
{
    if n == 0 {
        (st, p)
    } else {
        let r = red_scatter(st, p, x, y, player, (n - 1) as nat);
        let s1 = lcg_next(r.0);
        let s2 = lcg_next(s1);
        let s3 = lcg_next(s2);
        let ox = x - 832 + ((s1 >> 16u32) as int) % 1024;
        let oy = y - 640 + ((s2 >> 16u32) as int) % 1024;
        let speed = ((s3 >> 16u32) as int) % 96 + 16;
        (s3, pool_after_spawn(r.1.0, r.1.1, BulletTemplate { spawn_type: 4, patnum: PAT_BALL_RED, group: group::SINGLE_AIMED,
            count: 1, speed: speed as u8, angle: 0, ..blank_template() }, ox, oy, player))
    }
}

/// What `marisa_m_dense_ring` does in a frame: after the opening, every 32nd
/// frame the bits fire aimed blue rings (24 less two per bit alive, 28 in
/// the last tier) until frame 160, when the bits turn and the pattern ends;
/// bitless, Marisa flies a 64-frame flight, every 16th frame scattering 32
/// red aimed shots.
pub open spec fn marisa_dense_ring_post(o: Boss, oe: BossEnv, b: Boss, e: BossEnv) -> bool {
    let pf = o.phase_frame;
    let p0 = (oe.pool.bullets@, oe.pool.rng);
    &&& e.fx.effects@ =~= gate_fx(o, oe.fx.effects@)
    &&& e.player == oe.player && e.frame == oe.frame
    &&& if pf <= 64 {
        b == o && e.pool == oe.pool
    } else if bits_alive(o.orbits@) > 0 {
        let n = bits_alive(o.orbits@) as int;
        let count: u8 = if o.sb@[4] == 2 { 28 } else { (24 - n * 2) as u8 };
        &&& (e.pool.bullets@, e.pool.rng) == (if pf % 32 == 0 {
            bits_fired(p0, o.orbits@, BulletTemplate { spawn_type: 5, patnum: PAT_BALL_BLUE, group: group::RING_AIMED,
                count, speed: 50, angle: 0, ..blank_template() }, 1, n, oe.player, o.orbits@.len())
        } else {
            p0
        })
        &&& b.orbits@ =~= (if pf >= 160 { bits_turned(o.orbits@, 0, 2) } else { o.orbits@ })
        &&& b == (if pf >= 160 { Boss { orbits: b.orbits, phase_frame: 0i32, mode: -1i16, ..o } }
            else { Boss { orbits: b.orbits, ..o } })
    } else {
        let fl = marisa_flown(o, 64);
        let scatters = !fl.1 && pf % 16 == 0;
        let r = red_scatter(o.rng.state, p0, fl.0.x as int, fl.0.y as int, oe.player, 32);
        &&& b.sb@ =~= o.sb@.update(6, (o.sb@[6] + 1) as i32)
        &&& b == (if fl.1 { Boss { sb: b.sb, phase_frame: 0i32, mode: -1i16, ..fl.0 } }
            else if scatters { Boss { sb: b.sb, rng: BossRng { state: r.0 }, ..fl.0 } }
            else { Boss { sb: b.sb, ..fl.0 } })
        &&& (e.pool.bullets@, e.pool.rng) == (if scatters { r.1 } else { p0 })
    }
}

/// The selector's next mode, drawn from the generator at `st` until it
/// differs from `prev` (or `0x4_0000` redraws have been made): the generator
/// after the draws and the mode (1-7).
#[verifier::opaque]
pub open spec fn mode_draw(st: u32, prev: i16, tries: int) -> (u32, i16)
    decreases 0x4_0000 - tries,
{
    let st1 = lcg_next(st);
    let m = (((st1 >> 16u32) as int) % 7 + 1) as i16;
    if m != prev || tries >= 0x4_0000 { (st1, m) } else { mode_draw(st1, prev, tries + 1) }
}

/// One draw of `mode_draw`.
pub proof fn lemma_mode_draw(st: u32, prev: i16, tries: int)
    ensures
        mode_draw(st, prev, tries) == ({
            let st1 = lcg_next(st);
            let m = (((st1 >> 16u32) as int) % 7 + 1) as i16;
            if m != prev || tries >= 0x4_0000 { (st1, m) } else { mode_draw(st1, prev, tries + 1) }
        }),
{
    reveal(mode_draw);
}

/// Marisa after the selector's wander step: every 32 frames (at frame
/// 1 mod 32) a new velocity, 1px a frame either way inside the band
/// (112..272, 80..144) and 2px back toward it outside, drawn from the
/// generator where both ways are open; then a step.
pub open spec fn marisa_wandered(o: Boss) -> Boss {
    let turn = o.phase_frame % 32 == 1;
    let inside = o.x > 1792 && o.x < 4352;
    let sa = lcg_next(o.rng.state);
    let vx: i32 = if !turn { o.vx } else if inside { if ((sa >> 16u32) & 1u32) != 0 { 16i32 } else { -16i32 } }
        else if o.x <= 1792 { 32i32 } else { -32i32 };
    let s1 = if turn && inside { sa } else { o.rng.state };
    let ymid = 1280 < o.y < 2304;
    let sb = lcg_next(s1);
    let vy: i32 = if !turn { o.vy } else if o.y <= 1280 { 16i32 } else if o.y >= 2304 { -16i32 }
        else if ((sb >> 16u32) & 1u32) != 0 { 16i32 } else { -16i32 };
    let s2 = if turn && ymid { sb } else { s1 };
    Boss { vx, vy, x: (o.x + vx) as i32, y: (o.y + vy) as i32, rng: BossRng { state: s2 }, ..o }
}

/// What `marisa_selector` does in a frame: the wander step; from frame 64
/// the next pattern (after bitless windows, the bit spawn every other time
/// and otherwise one of the twin patterns; with bits, a mode 1-7 other than
/// the last), and after 52 patterns the end of the fight with a spark.
pub open spec fn marisa_selector_post(o: Boss, oe: BossEnv, b: Boss, e: BossEnv) -> bool {
    let w = marisa_wandered(o);
    if o.phase_frame < 64 {
        b == w && e == oe
    } else {
        let ps = o.phase_state + 1;
        let alive = bits_alive(o.orbits@);
        let sb1 = o.sb@.update(6, 0i32);
        let spawns = o.sb@[2] == 0 && alive == 0;
        let s3 = o.sb@[3] + 1;
        let st3 = lcg_next(w.rng.state);
        let d = mode_draw(w.rng.state, o.sb@[1] as i16, 0);
        let mode: i16 = if spawns { if s3 >= 2 { 0i16 } else { (((st3 >> 16u32) & 1u32) + 10) as i16 } } else { d.1 };
        let rng = if spawns { if s3 >= 2 { w.rng.state } else { st3 } } else { d.0 };
        let sb2 = if spawns { sb1.update(3, if s3 >= 2 { 0i32 } else { s3 as i32 }) }
            else { sb1.update(1, d.1 as i32).update(2, alive as i32) };
        let ends = ps >= 52;
        &&& b.sb@ =~= sb2
        &&& b == (Boss { sb: b.sb, mode, rng: BossRng { state: rng }, phase_state: if ends { 0i16 } else { ps as i16 },
            phase_frame: 0, phase: if ends { 3u8 } else { o.phase }, ..w })
        &&& e.pool == oe.pool
        &&& e.player == oe.player && e.frame == oe.frame
        &&& e.fx.effects@ =~= (if ends { oe.fx.effects@.push(new_effect(w.x, w.y, EffectKind::Spark)) } else { oe.fx.effects@ })
    }
}

/// A frame that leaves Marisa's HP bookkeeping and defeat flag as they were.
pub open spec fn marisa_hp_held(a: Boss, b: Boss) -> bool {
    &&& b.hp == a.hp
    &&& b.damage_pending == a.damage_pending
    &&& b.phase_end_hp == a.phase_end_hp
    &&& b.defeated == a.defeated
}

/// A frame that leaves Marisa's HP bookkeeping, phase and defeat flag as
/// they were.
pub open spec fn marisa_held(a: Boss, b: Boss) -> bool {
    marisa_hp_held(a, b) && b.phase == a.phase
}

/// The end of an attack frame from (`b1`, `e1`), unless the selector ended
/// the fight: the queued damage divided by one more than the bits alive is
/// taken; HP at the threshold leaves the fight; otherwise an HP checkpoint
/// (4500, 2500, 1000) crossed for the first time clears the screen and
/// counts the tier.
pub open spec fn marisa_attack_tail(b1: Boss, e1: BossEnv, b: Boss, e: BossEnv) -> bool {
    if b1.phase != 2 {
        b == b1 && e == e1
    } else {
        let h = Boss {
            phase_frame: (b1.phase_frame + 1) as i32,
            damage_pending: 0,
            hp: (b1.hp - tdiv(b1.damage_pending as int, (bits_alive(b1.orbits@) + 1) as int)) as i32,
            ..b1
        };
        if h.hp <= h.phase_end_hp {
            b == (Boss { phase_state: 1, phase: 3, phase_frame: 0, ..h }) && e == e1
        } else {
            let t = h.sb@[4];
            let crossed = (t == 0 && h.hp <= 4500) || (t == 1 && h.hp <= 2500) || (t == 2 && h.hp <= 1000);
            &&& b.sb@ =~= (if crossed { h.sb@.update(4, (t + 1) as i32) } else { h.sb@ })
            &&& b == (Boss { sb: b.sb, ..h })
            &&& e.pool.bullets@ =~= (if crossed { cleared(e1.pool.bullets@) } else { e1.pool.bullets@ })
            &&& e.pool.rng == e1.pool.rng
            &&& e.fx == e1.fx
        }
    }
}

/// The pattern part of an attack frame: a pattern leaves the HP
/// bookkeeping and phase alone; the selector leaves the HP bookkeeping alone
/// and may end the fight; the bit slots stay.
pub open spec fn marisa_pattern_part(o: Boss, oe: BossEnv, b1: Boss, e1: BossEnv) -> bool {
    &&& b1.orbits@.len() == o.orbits@.len()
    &&& if (0 <= o.mode <= 7) || o.mode == 10 || o.mode == 11 {
        &&& marisa_held(o, b1)
        &&& (o.mode == 0 ==> marisa_spawn_post(o, oe, b1, e1))
        &&& (o.mode == 1 ==> marisa_perp_or_fan_post(o, oe, b1, e1))
        &&& (o.mode == 2 ==> marisa_aimed_stars_post(o, oe, b1, e1))
        &&& (o.mode == 4 ==> marisa_dense_ring_post(o, oe, b1, e1))
        &&& (o.mode == 5 ==> marisa_decel_stars_post(o, oe, b1, e1))
        &&& (o.mode == 7 ==> marisa_mirror_post(o, oe, b1, e1))
        &&& (o.mode == 3 ==> marisa_inout_rings_post(o, oe, b1, e1))
        &&& (o.mode == 6 ==> marisa_edge_bullets_post(o, oe, b1, e1))
        &&& (o.mode == 10 ==> marisa_twin_random_post(o, oe, b1, e1))
        &&& (o.mode == 11 ==> marisa_rotring_post(o, oe, b1, e1))
    } else {
        marisa_hp_held(o, b1) && (b1.phase == 2 || b1.phase == 3) && marisa_selector_post(o, oe, b1, e1)
    }
}

/// What `marisa_attack` does in a frame: the pattern part, then
/// `marisa_attack_tail`.
pub open spec fn marisa_attack_post(o: Boss, oe: BossEnv, b: Boss, e: BossEnv) -> bool {
    exists|b1: Boss, e1: BossEnv| marisa_pattern_part(o, oe, b1, e1) && #[trigger] marisa_attack_tail(b1, e1, b, e)
}

/// Marisa after her bits' frame.
pub open spec fn marisa_bits_stepped(a: Boss, b: Boss) -> bool {
    &&& b == (Boss { orbits: b.orbits, ..a })
    &&& b.orbits@ =~= a.orbits@.map_values(|o: Orbit| bit_next(o, a.x, a.y))
}

/// Marisa's entrance frame: invulnerable, the bits' turn seed set, out of
/// the entrance after 96 frames.
pub open spec fn marisa_entrance_post(o: Boss, oe: BossEnv, b: Boss, e: BossEnv) -> bool {
    let pf = o.phase_frame + 2;
    &&& b.sb@ =~= o.sb@.update(7, 2i32)
    &&& b == (Boss { sb: b.sb, phase_frame: if pf > 96 { 0i32 } else { pf as i32 }, phase: if pf > 96 { 1u8 } else { 0u8 },
        damage_pending: 0, ..o })
    &&& e == oe
}

/// Marisa's pause before the attack: invulnerable; after 128 frames the
/// attack opens with the selector, threshold 0 and the pattern state reset.
pub open spec fn marisa_opening_post(o: Boss, oe: BossEnv, b: Boss, e: BossEnv) -> bool {
    let pf = o.phase_frame + 2;
    &&& e == oe
    &&& if pf >= 128 {
        &&& b.sb@ =~= o.sb@.update(1, 0x0Ai32).update(2, 0i32).update(3, 1i32).update(4, 0i32).update(6, 0i32)
        &&& b == (Boss { sb: b.sb, phase: 2, phase_frame: 0, phase_state: 0, phase_end_hp: 0, mode: 0x0A, damage_pending: 0, ..o })
    } else {
        b == (Boss { phase_frame: pf as i32, damage_pending: 0, ..o })
    }
}

/// Marisa's count-down after she leaves the fight: 32 frames, then the
/// defeat, with a spark and the screen cleared.
pub open spec fn marisa_countdown_post(o: Boss, oe: BossEnv, b: Boss, e: BossEnv) -> bool {
    let pf = o.phase_frame + 1;
    if pf >= 32 {
        &&& b == (Boss { phase_frame: pf as i32, defeated: true, defeat_frame: 0, ..o })
        &&& e.pool.bullets@ =~= cleared(oe.pool.bullets@)
        &&& e.pool.rng == oe.pool.rng
        &&& e.fx.effects@ =~= oe.fx.effects@.push(new_effect(o.x, o.y, EffectKind::Spark))
    } else {
        b == (Boss { phase_frame: pf as i32, ..o }) && e == oe
    }
}

/// What `marisa_update` does in a frame of a live Marisa: the entrance, the pause, the attack as `marisa_attack_post` and
/// the defeat count-down, then the bits' frame.
pub open spec fn marisa_update_post(o: Boss, oe: BossEnv, b: Boss, e: BossEnv) -> bool {
    exists|bp: Boss| #[trigger] marisa_bits_stepped(bp, b) && {
        if o.phase == 0 { marisa_entrance_post(o, oe, bp, e) }
        else if o.phase == 1 { marisa_opening_post(o, oe, bp, e) }
        else if o.phase == 2 { marisa_attack_post(o, oe, bp, e) }
        else { marisa_countdown_post(o, oe, bp, e) }
    }
}

/// Under damage, Marisa leaves the fight at her HP threshold, her bits
/// shielding her: the damage she takes is divided by one more than the
/// number of her bits alive, so by at most 5. A frame of an attack pattern
/// whose HP, less a fifth of the queued damage, is at or below the
/// threshold ends the fight (phase 3, the defeat count-down), whatever bits
/// are alive.
pub proof fn law_marisa_threshold(o: Boss, oe: BossEnv, b: Boss, e: BossEnv)
    requires
        o.kind == BossKind::Marisa,
        update_ok(o, oe),
        !o.defeated,
        o.phase == 2,
        (0 <= o.mode <= 7) || o.mode == 10 || o.mode == 11,
        o.damage_pending >= 0,
        o.hp - o.damage_pending / 5 <= o.phase_end_hp,
        boss_frame_post(o, oe, b, e),
    ensures
        b.phase == 3,
        !b.defeated,
        b.damage_pending == 0,
{
    assert(marisa_update_post(o, oe, b, e));
    let bp = choose|bp: Boss| #[trigger] marisa_bits_stepped(bp, b) && {
        if o.phase == 0 { marisa_entrance_post(o, oe, bp, e) }
        else if o.phase == 1 { marisa_opening_post(o, oe, bp, e) }
        else if o.phase == 2 { marisa_attack_post(o, oe, bp, e) }
        else { marisa_countdown_post(o, oe, bp, e) }
    };
    assert(marisa_attack_post(o, oe, bp, e));
    let (b1, e1) = choose|b1: Boss, e1: BossEnv| marisa_pattern_part(o, oe, b1, e1) && #[trigger] marisa_attack_tail(b1, e1, bp, e);
    assert(marisa_held(o, b1));
    let k = bits_alive(b1.orbits@) + 1;
    lemma_bits_alive_le(b1.orbits@);
    assert(b1.orbits@.len() == o.orbits@.len());
    vstd::arithmetic::div_mod::lemma_div_is_ordered_by_denominator(o.damage_pending as int, k as int, 5);
}

/// Marisa is defeated 32 frames after she leaves the fight: the
/// count-down frame that reaches frame 32 starts the defeat sequence.
pub proof fn law_marisa_countdown(o: Boss, oe: BossEnv, b: Boss, e: BossEnv)
    requires
        o.kind == BossKind::Marisa,
        update_ok(o, oe),
        !o.defeated,
        o.phase >= 3,
        o.phase_frame + 1 >= 32,
        boss_frame_post(o, oe, b, e),
    ensures
        b.defeated,
        b.defeat_frame == 0,
{
    assert(marisa_update_post(o, oe, b, e));
}

/// What `marisa_m_spawn` does in a frame.
pub open spec fn marisa_spawn_post(o: Boss, oe: BossEnv, b: Boss, e: BossEnv) -> bool {
    &&& (e.pool == oe.pool)
    &&& (({
                    let o = o;
                    let pf = o.phase_frame;
                    let st1 = lcg_next(o.rng.state);
                    &&& e.fx.effects@ =~= (if pf == 0x20 || pf == 0x22 || pf == 0x24 {
                        oe.fx.effects@.push(new_effect(o.x, o.y, EffectKind::Gather))
                    } else {
                        oe.fx.effects@
                    })
                    &&& b.orbits@ =~= (if pf == 0x40 { Seq::new(4, |i: int| new_bit(o, (st1 >> 16u32) as u8, i)) } else { o.orbits@ })
                    &&& b.sb@ =~= (if pf == 0x40 { o.sb@.update(7, (-o.sb@[7]) as i32) } else { o.sb@ })
                    &&& b == (if pf == 0x20 || pf == 0x22 || pf == 0x24 {
                        o
                    } else if pf == 0x40 {
                        Boss { orbits: b.orbits, sb: b.sb, rng: BossRng { state: st1 }, ..o }
                    } else if pf >= 0x60 {
                        Boss { phase_frame: 0i32, mode: -1i16, ..o }
                    } else {
                        o
                    })
                }))
}

/// What `marisa_m_twin_random` does in a frame.
pub open spec fn marisa_twin_random_post(o: Boss, oe: BossEnv, b: Boss, e: BossEnv) -> bool {
    &&& (({
                    let o = o;
                    let pf = o.phase_frame;
                    let fx1 = if pf == 30 {
                        oe.fx.effects@.push(new_effect((o.x - 320) as i32, (o.y - 128) as i32, EffectKind::Gather))
                            .push(new_effect((o.x - 320) as i32, (o.y - 128) as i32, EffectKind::CircleShrink))
                    } else {
                        oe.fx.effects@
                    };
                    let fires = pf > 64 && pf % 2 == 0;
                    let a = angle_sub(o.angle, 8);
                    let tw = twin_spread(Boss { angle: a, ..o }, (oe.pool.bullets@, oe.pool.rng), 32);
                    let b1 = if pf == 64 { Boss { angle: 0x80, ..o } }
                        else if fires { Boss { angle: a, rng: BossRng { state: tw.0 }, ..o } } else { o };
                    &&& e.fx.effects@ =~= fx1
                    &&& (e.pool.bullets@, e.pool.rng) == (if fires { tw.1 } else { (oe.pool.bullets@, oe.pool.rng) })
                    &&& b == (if pf > 64 && b1.angle == 0 { Boss { phase_frame: 0i32, mode: -1i16, ..b1 } } else { b1 })
                }))
}

/// What `marisa_m_rotring` does in a frame.
pub open spec fn marisa_rotring_post(o: Boss, oe: BossEnv, b: Boss, e: BossEnv) -> bool {
    &&& (e.fx.effects@ =~= (if o.phase_frame == 30 {
                    oe.fx.effects@.push(new_effect((o.x - 320) as i32, (o.y - 128) as i32, EffectKind::Gather))
                        .push(new_effect((o.x - 320) as i32, (o.y - 128) as i32, EffectKind::CircleShrink))
                } else {
                    oe.fx.effects@
                }))
    &&& (({
                    let pf = o.phase_frame;
                    let st1 = lcg_next(o.rng.state);
                    let fires = pf > 64 && pf % 8 == 0;
                    let b1 = Boss { angle: if fires { angle_add(o.angle, o.sb@[5] as u8) } else { o.angle },
                        sb: b.sb, rng: if pf == 64 { BossRng { state: st1 } } else { o.rng }, ..o };
                    &&& b.sb@ =~= (if pf == 64 {
                        o.sb@.update(5, if ((st1 >> 16u32) & 1u32) != 0 { -1i32 } else { 1i32 })
                    } else {
                        o.sb@
                    })
                    &&& b == (if pf > 64 && pf >= 128 { Boss { phase_frame: 0i32, mode: -1i16, ..b1 } } else { b1 })
                    &&& (e.pool.bullets@, e.pool.rng) == (if fires {
                        pool_after_spawn(oe.pool.bullets@, oe.pool.rng, BulletTemplate { spawn_type: 1, group: group::RING,
                            count: 32, speed: 56, angle: o.angle, ..blank_template() }, o.x - 320, o.y - 128,
                            (0i32, 0i32))
                    } else {
                        (oe.pool.bullets@, oe.pool.rng)
                    })
                }))
}

/// What `marisa_m_inout_rings` does in a frame.
pub open spec fn marisa_inout_rings_post(o: Boss, oe: BossEnv, b: Boss, e: BossEnv) -> bool {
    &&& (({
                    let o = o;
                    let pf = o.phase_frame;
                    let p0 = (oe.pool.bullets@, oe.pool.rng);
                    let fx1 = if pf == 30 {
                        oe.fx.effects@.push(new_effect((o.x - 320) as i32, (o.y - 128) as i32, EffectKind::Gather))
                            .push(new_effect((o.x - 320) as i32, (o.y - 128) as i32, EffectKind::CircleShrink))
                    } else {
                        oe.fx.effects@
                    };
                    let alive = bits_alive(o.orbits@) > 0;
                    let ring = BulletTemplate { spawn_type: 1, group: group::RING_AIMED, count: 16, speed: 32, angle: 0,
                        ..blank_template() };
                    let spread = BulletTemplate { spawn_type: 1, delta: 6, group: group::SPREAD, count: 3, speed: 64, angle: 0,
                        ..blank_template() };
                    let p1 = if pf % 32 == 0 {
                        pool_after_spawn(p0.0, p0.1, ring, o.x as int, o.y as int, oe.player)
                    } else { p0 };
                    let fl = marisa_flown(o, 96).0;
                    let a = angle_add(fl.angle, if o.sb@[5] % 2 != 0 { 0xF8u8 } else { 8u8 });
                    let tw = twin_spread(Boss { angle: a, ..fl }, p0, 16);
                    let turn = pf % 2 == 0;
                    let wraps = turn && (a == 0 || a >= 0x80);
                    let s5 = if wraps { o.sb@[5] + 1 } else { o.sb@[5] as int };
                    let b1 = if turn { Boss { angle: a, rng: BossRng { state: tw.0 }, ..fl } } else { fl };
                    &&& e.fx.effects@ =~= fx1
                    &&& if pf < 64 {
                        &&& b == o
                        &&& (e.pool.bullets@, e.pool.rng) == p0
                    } else if pf == 64 {
                        &&& b.sb@ =~= o.sb@.update(5, 0i32)
                        &&& b == (Boss { sb: b.sb, ..o })
                        &&& (e.pool.bullets@, e.pool.rng) == p0
                    } else if alive {
                        if pf <= 192 {
                            &&& b == (Boss { orbits: b.orbits, ..o })
                            &&& b.orbits@ =~= bits_moved(o.orbits@, 0x18)
                            &&& (e.pool.bullets@, e.pool.rng) == p0
                        } else if pf <= 256 {
                            &&& b == o
                            &&& (e.pool.bullets@, e.pool.rng) == (if pf % 4 == 0 {
                                bits_fired(p1, o.orbits@, spread, 0, bits_alive(o.orbits@) as int, oe.player, o.orbits@.len())
                            } else { p0 })
                        } else if pf <= 384 {
                            &&& b == (Boss { orbits: b.orbits, ..o })
                            &&& b.orbits@ =~= bits_moved(o.orbits@, -0x18)
                            &&& (e.pool.bullets@, e.pool.rng) == p0
                        } else {
                            &&& b == (Boss { orbits: b.orbits, phase_frame: 0i32, mode: -1i16, ..o })
                            &&& b.orbits@ =~= bits_turned(o.orbits@, 0, 2)
                            &&& (e.pool.bullets@, e.pool.rng) == p0
                        }
                    } else {
                        &&& b.sb@ =~= o.sb@.update(6, (o.sb@[6] + 1) as i32).update(5, s5 as i32)
                        &&& b == (if wraps && s5 >= 4 { Boss { phase_frame: 0i32, mode: -1i16, sb: b.sb, ..b1 } }
                            else { Boss { sb: b.sb, ..b1 } })
                        &&& (e.pool.bullets@, e.pool.rng) == (if turn { tw.1 } else { p0 })
                    }
                }))
}

/// What `marisa_m_edge_bullets` does in a frame.
pub open spec fn marisa_edge_bullets_post(o: Boss, oe: BossEnv, b: Boss, e: BossEnv) -> bool {
    &&& (({
                    let o = o;
                    let pf = o.phase_frame;
                    let p0 = (oe.pool.bullets@, oe.pool.rng);
                    let fx1 = if pf == 30 {
                        oe.fx.effects@.push(new_effect((o.x - 320) as i32, (o.y - 128) as i32, EffectKind::Gather))
                            .push(new_effect((o.x - 320) as i32, (o.y - 128) as i32, EffectKind::CircleShrink))
                    } else {
                        oe.fx.effects@
                    };
                    let alive = bits_alive(o.orbits@) > 0;
                    let fire4 = oe.frame % 4 == 0;
                    let star = BulletTemplate { spawn_type: 2, patnum: PAT_STAR, group: group::SINGLE, count: 1, speed: 96,
                        angle: o.angle, ..blank_template() };
                    let ev = edge_volley(o.rng.state, p0);
                    let fl = marisa_flown(o, 160).0;
                    let st1 = lcg_next(o.rng.state);
                    let b1 = if o.sb@[5] == 0 { Boss { angle: ((st1 >> 16u32) & 0x1Fu32) as u8, rng: BossRng { state: st1 }, ..fl } }
                        else { fl };
                    let s5 = if o.sb@[5] == 0 { 1i32 } else { o.sb@[5] };
                    let cloud = pf % 8 == 0;
                    let b2 = if cloud { Boss { angle: angle_add(b1.angle, 8), ..b1 } } else { b1 };
                    &&& e.fx.effects@ =~= fx1
                    &&& if pf < 64 {
                        &&& b == o
                        &&& (e.pool.bullets@, e.pool.rng) == p0
                    } else if pf == 64 {
                        &&& b.sb@ =~= o.sb@.update(5, 0i32)
                        &&& b == (Boss { angle: 0x40, sb: b.sb, ..o })
                        &&& (e.pool.bullets@, e.pool.rng) == p0
                    } else if alive {
                        if pf <= 128 {
                            &&& b == o
                            &&& (e.pool.bullets@, e.pool.rng) == (if fire4 {
                                bits_fired(p0, o.orbits@, star, 1, bits_alive(o.orbits@) as int, oe.player, o.orbits@.len())
                            } else { p0 })
                        } else if pf <= 192 {
                            &&& b == (if fire4 { Boss { rng: BossRng { state: ev.0 }, ..o } } else { o })
                            &&& (e.pool.bullets@, e.pool.rng) == (if fire4 { ev.1 } else { p0 })
                        } else {
                            &&& b == (if pf >= 256 { Boss { phase_frame: 0i32, mode: -1i16, ..o } } else { o })
                            &&& (e.pool.bullets@, e.pool.rng) == p0
                        }
                    } else {
                        &&& b.sb@ =~= o.sb@.update(6, (o.sb@[6] + 1) as i32).update(5, s5)
                        &&& b == (if pf >= 192 { Boss { phase_frame: 0i32, mode: -1i16, sb: b.sb, ..b2 } }
                            else { Boss { sb: b.sb, ..b2 } })
                        &&& (e.pool.bullets@, e.pool.rng) == (if cloud {
                            pool_after_spawn(p0.0, p0.1, BulletTemplate { spawn_type: 4, delta: 5, patnum: PAT_BALL_BLUE,
                                group: group::STACK, count: 16, speed: 16, angle: b1.angle, ..blank_template() },
                                b1.x - 320, b1.y - 128, (0i32, 0i32))
                        } else { p0 })
                    }
                }))
}

impl Boss {
    pub(crate) fn marisa_update(&mut self, env: &mut BossEnv)
        requires
            marisa_ok(*old(self), *old(env), 1),
        ensures
            boss_stepped(*old(self), *final(self), 6),
            env_kept(*old(env), *final(env)),
            marisa_update_post(*old(self), *old(env), *final(self), *final(env)),
    {
        if self.phase == 0 {
            self.sb[7] = 2; // byte_25671 (bit angle_speed seed)
            self.phase_frame = self.phase_frame + 1;
            self.hittest_invincible();
            if self.phase_frame > 96 {
                self.phase = 1;
                self.phase_frame = 0;
            }
        } else if self.phase == 1 {
            self.phase_frame = self.phase_frame + 1;
            self.hittest_invincible();
            if self.phase_frame >= 128 {
                self.phase = 2;
                self.phase_frame = 0;
                self.phase_state = 0;
                self.phase_end_hp = 0;
                self.mode = 0x0A;
                self.sb[1] = 0x0A; // last mode
                self.sb[2] = 0; // bits snapshot
                self.sb[3] = 1; // intro toggle
                self.sb[4] = 0; // hp tier
                self.sb[6] = 0; // flystep tick
            }
        } else if self.phase == 2 {
            self.marisa_attack(env);
        } else {
            self.phase_frame = self.phase_frame + 1;
            if self.phase_frame >= 32 {
                env.fx.spark(self.x, self.y);
                self.begin_defeat(&mut env.pool);
            }
        }
        let ghost bp = *self;
        self.marisa_bits_step();
        assert(marisa_bits_stepped(bp, *self));
    }

    /// The pattern part of an attack frame: the current mode's pattern, or
    /// the selector.
    #[verifier::rlimit(40)]
    fn marisa_pattern(&mut self, env: &mut BossEnv)
        requires
            marisa_ok(*old(self), *old(env), 1),
            old(self).phase == 2,
        ensures
            boss_stepped(*old(self), *final(self), 3),
            env_kept(*old(env), *final(env)),
            marisa_pattern_part(*old(self), *old(env), *final(self), *final(env)),
    {
        let ghost o = *self;
        let m = self.mode;
        if m == 0 {
            self.marisa_m_spawn(env);
        } else if m == 1 {
            self.marisa_m_perp_or_fan(env);
        } else if m == 2 {
            self.marisa_m_aimed_stars(env);
        } else if m == 3 {
            self.marisa_m_inout_rings(env);
            assert(marisa_held(o, *self));
        } else if m == 4 {
            self.marisa_m_dense_ring(env);
        } else if m == 5 {
            self.marisa_m_decel_stars(env);
        } else if m == 6 {
            self.marisa_m_edge_bullets(env);
        } else if m == 7 {
            self.marisa_m_mirror(env);
        } else if m == 10 {
            self.marisa_m_twin_random(env);
        } else if m == 11 {
            self.marisa_m_rotring(env);
        } else {
            self.marisa_selector(env);
        }
    }

    fn marisa_attack(&mut self, env: &mut BossEnv)
        requires
            marisa_ok(*old(self), *old(env), 1),
            old(self).phase == 2,
        ensures
            boss_stepped(*old(self), *final(self), 5),
            env_kept(*old(env), *final(env)),
            marisa_attack_post(*old(self), *old(env), *final(self), *final(env)),
    {
        let ghost o = *self;
        let ghost oe = *env;
        self.marisa_pattern(env);
        let ghost b1 = *self;
        let ghost e1 = *env;
        assert(marisa_pattern_part(o, oe, b1, e1));
        if self.phase != 2 {
            assert(marisa_attack_tail(b1, e1, *self, *env));
            return; // selector triggered the defeat
        }
        // marisa_179BC: damage divided by (bits_alive + 1); end at phase_end.
        self.phase_frame = self.phase_frame + 1;
        let dmg = self.damage_pending;
        self.damage_pending = 0;
        let alive = self.marisa_bits_alive();
        self.hp = self.hp - tdiv_exec(dmg, alive + 1);
        if self.hp <= self.phase_end_hp {
            self.phase_state = 1;
            self.phase = 3;
            self.phase_frame = 0;
            assert(marisa_attack_tail(b1, e1, *self, *env));
            return;
        }
        // HP item-drop checkpoints (clear bullets + advance the tier counter).
        self.marisa_checkpoints(env);
        assert(marisa_attack_tail(b1, e1, *self, *env));
    }

    fn marisa_checkpoints(&mut self, env: &mut BossEnv)
        requires
            boss_ok(*old(self), 4),
            env_ok(*old(env)),
        ensures
            boss_ok(*final(self), 5),
            *final(self) == (Boss { sb: final(self).sb, ..*old(self) }),
            env_kept(*old(env), *final(env)),
            ({
                let t = old(self).sb@[4];
                let h = old(self).hp;
                let crossed = (t == 0 && h <= 4500) || (t == 1 && h <= 2500) || (t == 2 && h <= 1000);
                &&& final(self).sb@ == (if crossed { old(self).sb@.update(4, (t + 1) as i32) } else { old(self).sb@ })
                &&& final(env).pool.bullets@ == (if crossed { cleared(old(env).pool.bullets@) } else { old(env).pool.bullets@ })
                &&& final(env).pool.rng == old(env).pool.rng && final(env).fx == old(env).fx
            }),
    {
        let crossed = (self.sb[4] == 0 && self.hp <= 4500) || (self.sb[4] == 1 && self.hp <= 2500) || (self.sb[4] == 2
            && self.hp <= 1000);
        if crossed {
            env.pool.clear_all();
            self.sb[4] = self.sb[4] + 1;
        }
    }

    /// Draw the selector's next mode until it differs from the last one
    /// (`sb[1]`), or `0x4_0000` redraws have been made.
    fn marisa_redraw(&mut self, tries: u32) -> (m: i16)
        requires
            tries <= 0x4_0000,
        ensures
            *final(self) == (Boss { rng: final(self).rng, ..*old(self) }),
            (final(self).rng.state, m) == mode_draw(old(self).rng.state, old(self).sb@[1] as i16, tries as int),
            1 <= m <= 7,
        decreases 0x4_0000 - tries,
    {
        let ghost st = self.rng.state;
        let m = (self.rng.modulo(7) as i16) + 1;
        proof {
            lemma_mode_draw(st, self.sb@[1] as i16, tries as int);
        }
        if m != self.sb[1] as i16 || tries >= 0x4_0000 {
            return m;
        }
        self.marisa_redraw(tries + 1)
    }

    /// `0xFF` wander + mode selector (`marisa_16AE9` + `loc_17B1E`). The low
    /// 18 bits of the generator run through all values in 2^18 draws, so the
    /// redraw finds a new mode well within that many tries.
    fn marisa_selector(&mut self, env: &mut BossEnv)
        requires
            marisa_ok(*old(self), *old(env), 1),
            old(self).phase == 2,
        ensures
            boss_stepped(*old(self), *final(self), 3),
            env_kept(*old(env), *final(env)),
            final(self).phase == 2 || final(self).phase == 3,
            marisa_hp_held(*old(self), *final(self)),
            marisa_selector_post(*old(self), *old(env), *final(self), *final(env)),
    {
        // Wander within (112..272, 80..144), flipping every 32 frames.
        if self.phase_frame % 32 == 1 {
            self.vx = if self.x > 112 * SUBPIXEL && self.x < 272 * SUBPIXEL {
                if self.rng.and(1) != 0 { SUBPIXEL } else { -SUBPIXEL }
            } else if self.x <= 112 * SUBPIXEL {
                2 * SUBPIXEL
            } else {
                -2 * SUBPIXEL
            };
            self.vy = if self.y <= 80 * SUBPIXEL {
                SUBPIXEL
            } else if self.y >= 144 * SUBPIXEL {
                -SUBPIXEL
            } else if self.rng.and(1) != 0 {
                SUBPIXEL
            } else {
                -SUBPIXEL
            };
        }
        self.x = self.x + self.vx;
        self.y = self.y + self.vy;
        if self.phase_frame < 64 {
            return;
        }
        // Pick the next mode.
        self.phase_state = self.phase_state + 1;
        self.sb[6] = 0; // flystep tick
        let alive = self.marisa_bits_alive();
        if self.sb[2] == 0 && alive == 0 {
            self.sb[3] = self.sb[3] + 1;
            if self.sb[3] >= 2 {
                self.mode = 0;
                self.sb[3] = 0;
            } else {
                self.mode = (self.rng.and(1) as i16) + 0x0A;
            }
        } else {
            let m = self.marisa_redraw(0);
            self.mode = m;
            self.sb[1] = m as i32;
            self.sb[2] = alive;
        }
        self.phase_frame = 0;
        if self.phase_state >= 52 {
            self.phase_state = 0;
            env.fx.spark(self.x, self.y);
            self.phase = 3;
            self.phase_frame = 0;
        }
    }

    // === Bit engine =======================================================

    fn marisa_bits_alive(&self) -> (n: i32)
        requires
            self.orbits@.len() <= 0x1000,
        ensures
            n == bits_alive(self.orbits@),
            0 <= n <= self.orbits@.len(),
    {
        let mut n: i32 = 0;
        let mut i: usize = 0;
        while i < self.orbits.len()
            invariant
                i <= self.orbits@.len() <= 0x1000,
                n == bits_alive(self.orbits@.take(i as int)),
                0 <= n <= i,
            decreases self.orbits@.len() - i,
        {
            assert(self.orbits@.take((i + 1) as int).drop_last() =~= self.orbits@.take(i as int));
            let f = self.orbits[i].flag;
            if 1 <= f && f <= 3 {
                n = n + 1;
            }
            i = i + 1;
        }
        assert(self.orbits@.take(i as int) =~= self.orbits@);
        n
    }

    fn marisa_spawn_bits(&mut self)
        requires
            boss_ok(*old(self), 2),
            old(self).kind == BossKind::Marisa,
            -0x0100_0000 <= old(self).x <= 0x0100_0000 && -0x0100_0000 <= old(self).y <= 0x0100_0000,
            -0x20 <= old(self).sb@[7] <= 0x20,
        ensures
            boss_ok(*final(self), 2),
            *final(self) == (Boss { orbits: final(self).orbits, rng: final(self).rng, ..*old(self) }),
            forall|i: int| 0 <= i < final(self).orbits@.len() ==> -0x20 <= #[trigger] final(self).orbits@[i].aspeed <= 0x20,
            final(self).rng.state == lcg_next(old(self).rng.state),
            final(self).orbits@ == Seq::new(4, |i: int| new_bit(*old(self), (lcg_next(old(self).rng.state) >> 16u32) as u8, i)),
    {
        let base = self.rng.byte();
        let aspeed = self.sb[7] as i8;
        let bx = self.x;
        let by = self.y;
        let mut i: usize = 0;
        while i < self.orbits.len()
            invariant
                boss_ok(*self, 2),
                *self == (Boss { orbits: self.orbits, rng: self.rng, ..*old(self) }),
                self.orbits@.len() == 4,
                bx == self.x && by == self.y,
                -0x0100_0000 <= bx <= 0x0100_0000 && -0x0100_0000 <= by <= 0x0100_0000,
                -0x20 <= aspeed <= 0x20,
                forall|m: int| 0 <= m < i ==> -0x20 <= #[trigger] self.orbits@[m].aspeed <= 0x20,
                i <= 4,
                self.rng.state == lcg_next(old(self).rng.state),
                base == (self.rng.state >> 16u32) as u8,
                aspeed == old(self).sb@[7] as i8,
                forall|m: int| 0 <= m < i ==> #[trigger] self.orbits@[m] == new_bit(*old(self), base, m),
            decreases self.orbits@.len() - i,
        {
            let o = Orbit {
                flag: 1,
                angle: base.wrapping_add((i as u8).wrapping_mul(64)),
                aspeed,
                cx: bx,
                cy: by,
                ox: 0,
                oy: 0,
                vx: 0,
                vy: 0,
                dist: 0,
                spin_time: 0,
                mspeed: 2 * SUBPIXEL,
                hp: bit_hp_exec(i),
                patnum: PAT_BIT + i as u8,
            };
            assert(o == new_bit(*old(self), base, i as int));
            self.set_orbit(i, o, Ghost(2));
            i = i + 1;
        }
        assert(self.orbits@ =~= Seq::new(4, |i: int| new_bit(*old(self), base, i)));
    }

    /// `marisa_16C6A` motion half (collision/HP handled in the stage sim).
    fn marisa_bits_step(&mut self)
        requires
            boss_ok(*old(self), 5),
        ensures
            boss_ok(*final(self), 6),
            *final(self) == (Boss { orbits: final(self).orbits, ..*old(self) }),
            final(self).orbits@ == old(self).orbits@.map_values(|o: Orbit| bit_next(o, old(self).x, old(self).y)),
    {
        let bx = self.x;
        let by = self.y;
        let mut j: usize = 0;
        while j < self.orbits.len()
            invariant
                j <= self.orbits@.len(),
                boss_ok(*old(self), 5),
                bx == old(self).x && by == old(self).y,
                *self == (Boss { orbits: self.orbits, ..*old(self) }),
                self.orbits@.len() == old(self).orbits@.len(),
                forall|m: int| 0 <= m < j ==> orbit_within(#[trigger] self.orbits@[m], 0x0600_0000int),
                forall|m: int| j <= m < self.orbits@.len() ==> self.orbits@[m] == old(self).orbits@[m],
                forall|m: int| 0 <= m < j ==> #[trigger] self.orbits@[m] == ({ let o = old(self).orbits@[m]; bit_next(o, old(self).x, old(self).y) }),
            decreases self.orbits@.len() - j,
        {
            let o = self.orbits[j];
            assert(orbit_within(old(self).orbits@[j as int], 0x0500_0000int));
            let o2 = bit_step(o, bx, by);
            self.orbits.set(j, o2);
            j = j + 1;
        }
        assert(self.orbits@ =~= old(self).orbits@.map_values(|o: Orbit| bit_next(o, old(self).x, old(self).y)));
        assert(boss_ok(*self, 6)) by {
            assert forall|m: int| 0 <= m < self.orbits@.len() implies orbit_within(#[trigger] self.orbits@[m], 0x0600_0000int) by {}
            assert forall|m: int| 0 <= m < 8 implies abs_le(#[trigger] self.sb@[m] as int, 0x0600_0000int) by {
                assert(abs_le(old(self).sb@[m] as int, 0x0500_0000int));
            }
        }
    }

    /// Fire `template` from every live bit (`marisa_16DD7` + the two
    /// `bit_fire` variants). `kind` 0 fires perpendicular to the bit's orbit
    /// (5-way once two or fewer bits are left), 1 along the template's angle.
    fn marisa_bits_fire(&self, env: &mut BossEnv, template: &BulletTemplate, kind: u8)
        requires
            boss_ok(*self, 4),
            env_ok(*old(env)),
        ensures
            env_kept(*old(env), *final(env)),
            final(env).fx == old(env).fx,
            (final(env).pool.bullets@, final(env).pool.rng) == bits_fired((old(env).pool.bullets@, old(env).pool.rng),
                self.orbits@, *template, kind, bits_alive(self.orbits@) as int, old(env).player, self.orbits@.len()),
    {
        let alive = self.marisa_bits_alive();
        let mut i: usize = 0;
        while i < self.orbits.len()
            invariant
                boss_ok(*self, 4),
                env_ok(*env),
                env.player == old(env).player && env.frame == old(env).frame,
                i <= self.orbits@.len(),
                alive == bits_alive(self.orbits@),
                env.fx == old(env).fx,
                (env.pool.bullets@, env.pool.rng) == bits_fired((old(env).pool.bullets@, old(env).pool.rng),
                    self.orbits@, *template, kind, alive as int, old(env).player, i as nat),
            decreases self.orbits@.len() - i,
        {
            let o = self.orbits[i];
            assert(orbit_within(self.orbits@[i as int], 0x0400_0000int));
            if 1 <= o.flag && o.flag <= 3 {
                let mut t = *template;
                if kind == 0 {
                    if alive <= 2 {
                        t.count = 5;
                    }
                    let off: u8 = if o.aspeed >= 0 { 0xC0 } else { 0x40 };
                    t.angle = o.angle.wrapping_add(off);
                }
                env.pool.spawn(&t, o.cx, o.cy, env.player);
            }
            i = i + 1;
        }
    }

    fn marisa_bo(&self) -> (r: (i32, i32))
        requires
            boss_ok(*self, 4),
        ensures
            r.0 == self.x - 320 && r.1 == self.y - 128,
    {
        (self.x - 20 * SUBPIXEL, self.y - 8 * SUBPIXEL)
    }

    /// b4m.cpp `marisa_flystep_pointreflected`: fly past (192, 112) then brake;
    /// true once `duration` frames have passed.
    fn marisa_flystep(&mut self, duration: i32) -> (done: bool)
        requires
            boss_ok(*old(self), 1),
            -0x0400_0000 <= duration <= 0x0400_0000,
        ensures
            boss_ok(*final(self), 2),
            *final(self) == (Boss { x: final(self).x, y: final(self).y, vx: final(self).vx, vy: final(self).vy, sb: final(self).sb, ..*old(self) }),
            final(self).sb@ == old(self).sb@.update(6, (old(self).sb@[6] + 1) as i32),
            (Boss { sb: old(self).sb, ..*final(self) }, done) == marisa_flown(*old(self), duration as int),
    {
        if self.sb[6] == 0 {
            let d = tdiv_exec(duration, 2) - 6;
            if d != 0 {
                proof {
                    super::lemma_div_trunc_le((3072 - self.x) as int, d as int);
                    super::lemma_div_trunc_le((1792 - self.y) as int, d as int);
                }
                self.vx = div_i32(192 * SUBPIXEL - self.x, d);
                self.vy = div_i32(112 * SUBPIXEL - self.y, d);
            }
        }
        self.sb[6] = self.sb[6] + 1;
        if self.sb[6] >= duration - 12 {
            self.vx = tdiv_exec(self.vx, 2);
            self.vy = tdiv_exec(self.vy, 2);
        }
        if self.sb[6] >= duration {
            return true;
        }
        self.x = self.x + self.vx;
        self.y = self.y + self.vy;
        false
    }
    /// `marisa_16A1A`: telegraph gate — 0 before frame 64, 2 at 64, 1 after.
    fn marisa_gate(&self, env: &mut BossEnv) -> (r: i32)
        requires
            boss_ok(*self, 3),
            env_ok(*old(env)),
        ensures
            env_kept(*old(env), *final(env)),
            r == (if self.phase_frame < 64 { 0i32 } else if self.phase_frame == 64 { 2i32 } else { 1i32 }),
            final(env).pool == old(env).pool,
            final(env).fx.effects@ == (if self.phase_frame == 30 {
                old(env).fx.effects@.push(new_effect((self.x - 320) as i32, (self.y - 128) as i32, EffectKind::Gather))
                    .push(new_effect((self.x - 320) as i32, (self.y - 128) as i32, EffectKind::CircleShrink))
            } else {
                old(env).fx.effects@
            }),
    {
        let pf = self.phase_frame;
        if pf == 30 {
            let bo = self.marisa_bo();
            env.fx.gather(bo.0, bo.1);
            env.fx.circle_shrink(bo.0, bo.1);
        }
        if pf < 64 {
            0
        } else if pf == 64 {
            2
        } else {
            1
        }
    }

    fn marisa_end_pattern(&mut self)
        ensures
            *final(self) == (Boss { phase_frame: 0i32, mode: -1i16, ..*old(self) }),
    {
        self.phase_frame = 0;
        self.mode = -1;
    }

    /// Apply `f` to the turn rate of every bit (`every` = 1) or of every
    /// other bit starting with the first (`every` = 2): 0 negates, 1 doubles,
    /// 2 halves (rounding toward zero).
    fn marisa_bits_turn(&mut self, f: u8, every: usize)
        requires
            boss_ok(*old(self), 3),
            forall|i: int| 0 <= i < old(self).orbits@.len() ==> -0x40 <= #[trigger] old(self).orbits@[i].aspeed <= 0x40,
            f == 0 || f == 2 || forall|i: int| 0 <= i < old(self).orbits@.len() ==> -0x20 <= #[trigger] old(self).orbits@[i].aspeed <= 0x20,
            every == 1 || every == 2,
        ensures
            boss_ok(*final(self), 3),
            *final(self) == (Boss { orbits: final(self).orbits, ..*old(self) }),
            forall|i: int| 0 <= i < final(self).orbits@.len() ==> -0x40 <= #[trigger] final(self).orbits@[i].aspeed <= 0x40,
            final(self).orbits@ == bits_turned(old(self).orbits@, f, every as int),
    {
        let mut j: usize = 0;
        while j < self.orbits.len()
            invariant
                boss_ok(*self, 3),
                *self == (Boss { orbits: self.orbits, ..*old(self) }),
                self.orbits@.len() == old(self).orbits@.len(),
                f == 0 || f == 2 || forall|i: int| j <= i < self.orbits@.len() ==> -0x20 <= #[trigger] self.orbits@[i].aspeed <= 0x20,
                forall|i: int| 0 <= i < self.orbits@.len() ==> -0x40 <= #[trigger] self.orbits@[i].aspeed <= 0x40,
                forall|i: int| j <= i < self.orbits@.len() ==> self.orbits@[i] == old(self).orbits@[i],
                forall|i: int| 0 <= i < j ==> #[trigger] self.orbits@[i] == bits_turned(old(self).orbits@, f, every as int)[i],
                j <= self.orbits@.len(),
                every == 1 || every == 2,
            decreases self.orbits@.len() - j,
        {
            if j % every == 0 {
                let mut o = self.orbits[j];
                assert(orbit_within(self.orbits@[j as int], 0x0300_0000int));
                let a = o.aspeed;
                o.aspeed = if f == 0 { -a } else if f == 1 { a * 2 } else if a >= 0 { a / 2 } else { -((-a) / 2) };
                self.set_orbit(j, o, Ghost(3));
            }
            j = j + 1;
        }
        assert(self.orbits@ =~= bits_turned(old(self).orbits@, f, every as int));
    }

    /// Move every live bit `delta` along its radius.
    fn marisa_bits_dist(&mut self, delta: i32)
        requires
            boss_ok(*old(self), 1),
            -0x18 <= delta <= 0x18,
        ensures
            boss_ok(*final(self), 2),
            *final(self) == (Boss { orbits: final(self).orbits, ..*old(self) }),
            forall|i: int| 0 <= i < final(self).orbits@.len() ==> #[trigger] final(self).orbits@[i].aspeed == old(self).orbits@[i].aspeed,
            final(self).orbits@ == bits_moved(old(self).orbits@, delta as int),
    {
        let mut j: usize = 0;
        while j < self.orbits.len()
            invariant
                boss_ok(*self, 2),
                *self == (Boss { orbits: self.orbits, ..*old(self) }),
                self.orbits@.len() == old(self).orbits@.len(),
                forall|i: int| 0 <= i < self.orbits@.len() ==> #[trigger] self.orbits@[i].aspeed == old(self).orbits@[i].aspeed,
                forall|i: int| j <= i < self.orbits@.len() ==> self.orbits@[i] == old(self).orbits@[i],
                forall|i: int| 0 <= i < j ==> #[trigger] self.orbits@[i] == bits_moved(old(self).orbits@, delta as int)[i],
                j <= self.orbits@.len(),
                boss_ok(*old(self), 1),
                -0x18 <= delta <= 0x18,
            decreases self.orbits@.len() - j,
        {
            let mut o = self.orbits[j];
            if 1 <= o.flag && o.flag <= 3 {
                assert(orbit_within(old(self).orbits@[j as int], 0x0100_0000int));
                o.dist = o.dist + delta;
                self.set_orbit(j, o, Ghost(2));
            }
            j = j + 1;
        }
        assert(self.orbits@ =~= bits_moved(old(self).orbits@, delta as int));
    }

    // === Modes ============================================================

    /// mode 0 (`marisa_16E9D`): telegraph, then spawn the bits.
    fn marisa_m_spawn(&mut self, env: &mut BossEnv)
        requires
            marisa_ok(*old(self), *old(env), 1),
        ensures
            boss_stepped(*old(self), *final(self), 3),
            env_kept(*old(env), *final(env)),
            marisa_held(*old(self), *final(self)),
            marisa_spawn_post(*old(self), *old(env), *final(self), *final(env)),
    {
        let pf = self.phase_frame;
        if pf == 0x20 || pf == 0x22 || pf == 0x24 {
            env.fx.gather(self.x, self.y);
        } else if pf == 0x40 {
            self.marisa_spawn_bits();
            self.sb[7] = -self.sb[7];
        } else if pf >= 0x60 {
            self.marisa_end_pattern();
        }
    }

    /// Two spreads of 1–4 random-speed bullets from either side of the bullet
    /// origin along `angle` (modes 0x0A and 3).
    fn marisa_twin_spread(&mut self, env: &mut BossEnv, base_speed: u8)
        requires
            boss_ok(*old(self), 3),
            env_ok(*old(env)),
        ensures
            *final(self) == (Boss { rng: final(self).rng, ..*old(self) }),
            env_kept(*old(env), *final(env)),
            final(env).fx == old(env).fx,
            (final(self).rng.state, (final(env).pool.bullets@, final(env).pool.rng))
                == twin_spread(*old(self), (old(env).pool.bullets@, old(env).pool.rng), base_speed),
    {
        let bo = self.marisa_bo();
        let mut k: u32 = 0;
        while k < 2
            invariant
                env.fx == old(env).fx,
                (self.rng.state, (env.pool.bullets@, env.pool.rng)) == (if k == 0 {
                    (old(self).rng.state, (old(env).pool.bullets@, old(env).pool.rng))
                } else if k == 1 {
                    twin_fire(old(self).rng.state, (old(env).pool.bullets@, old(env).pool.rng), old(self).x - 320,
                        old(self).y - 128, old(self).angle, base_speed, -6)
                } else {
                    twin_spread(*old(self), (old(env).pool.bullets@, old(env).pool.rng), base_speed)
                }),
                k <= 2,
                boss_ok(*self, 3),
                *self == (Boss { rng: self.rng, ..*old(self) }),
                bo.0 == self.x - 320 && bo.1 == self.y - 128,
                env_ok(*env),
                env.player == old(env).player && env.frame == old(env).frame,
            decreases 2 - k,
        {
            let side: i32 = if k == 0 { -6 } else { 12 };
            let count = (self.rng.and(3) as u8) + 1;
            let speed = (self.rng.and(0x1F) as u8).wrapping_add(base_speed);
            let t = BulletTemplate {
                spawn_type: 4,
                delta: 8,
                patnum: PAT_BALL_BLUE,
                ..BulletTemplate::shot(group::SPREAD, count, speed, self.angle)
            };
            env.pool.spawn(&t, bo.0 + side * SUBPIXEL, bo.1, (0, 0));
            k = k + 1;
        }
    }

    /// mode 0x0A (`marisa_16DFF`): twin random spreads, base angle drifting 0x80→0.
    fn marisa_m_twin_random(&mut self, env: &mut BossEnv)
        requires
            marisa_ok(*old(self), *old(env), 1),
        ensures
            boss_stepped(*old(self), *final(self), 3),
            env_kept(*old(env), *final(env)),
            marisa_held(*old(self), *final(self)),
            marisa_twin_random_post(*old(self), *old(env), *final(self), *final(env)),
    {
        let g = self.marisa_gate(env);
        if g == 2 {
            self.angle = 0x80;
        } else if g == 1 {
            if self.phase_frame % 2 == 0 {
                self.angle = self.angle.wrapping_sub(8);
                self.marisa_twin_spread(env, (2 * SUBPIXEL) as u8);
            }
            if self.angle == 0 {
                self.marisa_end_pattern();
            }
        }
    }

    /// mode 0x0B (`marisa_17813`): a rotating 32-ring of pellets.
    fn marisa_m_rotring(&mut self, env: &mut BossEnv)
        requires
            marisa_ok(*old(self), *old(env), 1),
        ensures
            boss_stepped(*old(self), *final(self), 3),
            env_kept(*old(env), *final(env)),
            marisa_held(*old(self), *final(self)),
            marisa_rotring_post(*old(self), *old(env), *final(self), *final(env)),
    {
        let g = self.marisa_gate(env);
        if g == 2 {
            self.sb[5] = if self.rng.and(1) != 0 { -1 } else { 1 };
        } else if g == 1 {
            if self.phase_frame % 8 == 0 {
                let bo = self.marisa_bo();
                let t = BulletTemplate { spawn_type: 1, ..BulletTemplate::shot(group::RING, 32, (3 * SUBPIXEL + 8) as u8, self.angle) };
                env.pool.spawn(&t, bo.0, bo.1, (0, 0));
                self.angle = self.angle.wrapping_add(self.sb[5] as u8);
            }
            if self.phase_frame >= 128 {
                self.marisa_end_pattern();
            }
        }
    }

    /// mode 1 (`marisa_16F61`): bits fire perpendicular spreads; when bitless,
    /// Marisa flies and rakes a 4-way blue spread.
    fn marisa_m_perp_or_fan(&mut self, env: &mut BossEnv)
        requires
            marisa_ok(*old(self), *old(env), 1),
        ensures
            boss_stepped(*old(self), *final(self), 3),
            env_kept(*old(env), *final(env)),
            marisa_held(*old(self), *final(self)),
            marisa_perp_or_fan_post(*old(self), *old(env), *final(self), *final(env)),
    {
        let g = self.marisa_gate(env);
        if g == 2 {
            self.sb[5] = self.phase_frame; // last_frame_with_bits
        } else if g == 1 {
            if self.phase_frame % 4 == 0 {
                if self.marisa_bits_alive() > 0 {
                    let t = BulletTemplate { spawn_type: 1, delta: 8, ..BulletTemplate::shot(group::SPREAD, 3, (3 * SUBPIXEL + 8) as u8, 0) };
                    self.marisa_bits_fire(env, &t, 0);
                    self.sb[5] = self.phase_frame;
                } else {
                    self.marisa_flystep(160 - self.sb[5]);
                    let bo = self.marisa_bo();
                    let mut a = self.angle.wrapping_add(6);
                    let ghost a0 = a;
                    let ghost p0 = (env.pool.bullets@, env.pool.rng);
                    let ghost fx0 = env.fx;
                    let mut n: u32 = 0;
                    while n < 4
                        invariant
                            n <= 4,
                            env_ok(*env),
                            env.player == old(env).player && env.frame == old(env).frame,
                            env.fx == fx0,
                            -0x0400_0000 <= bo.0 <= 0x0400_0000 && -0x0400_0000 <= bo.1 <= 0x0400_0000,
                            a == quarter_turned(a0, n as nat),
                            (env.pool.bullets@, env.pool.rng) == quad_spreads(p0, bo.0 as int, bo.1 as int, a0, n as nat),
                        decreases 4 - n,
                    {
                        let t = BulletTemplate {
                            spawn_type: 2,
                            delta: 6,
                            patnum: PAT_D_BLUE,
                            ..BulletTemplate::shot(group::SPREAD, 3, (3 * SUBPIXEL + 4) as u8, a)
                        };
                        env.pool.spawn(&t, bo.0, bo.1, (0, 0));
                        a = a.wrapping_add(0x40);
                        n = n + 1;
                    }
                    self.angle = a;
                }
            }
            if self.phase_frame >= 160 {
                self.marisa_bits_turn(0, 1);
                self.marisa_end_pattern();
            }
        }
    }

    /// mode 2 (`marisa_17079`): bits fire aimed stars; bitless → aimed star spread.
    fn marisa_m_aimed_stars(&mut self, env: &mut BossEnv)
        requires
            marisa_ok(*old(self), *old(env), 1),
        ensures
            boss_stepped(*old(self), *final(self), 3),
            env_kept(*old(env), *final(env)),
            marisa_held(*old(self), *final(self)),
            marisa_aimed_stars_post(*old(self), *old(env), *final(self), *final(env)),
    {
        let g = self.marisa_gate(env);
        if g == 2 {
            self.marisa_bits_turn(1, 1);
            self.sb[5] = self.phase_frame;
            self.sb[3] = SUBPIXEL; // reuse: bit-fire speed ramp
        } else if g == 1 {
            if self.phase_frame % 4 == 0 {
                self.angle = iatan2(env.player.1 - self.y, env.player.0 - self.x);
                if self.marisa_bits_alive() > 0 {
                    let t = BulletTemplate { spawn_type: 1, ..BulletTemplate::shot(group::SINGLE, 1, self.sb[3] as u8, self.angle) };
                    self.marisa_bits_fire(env, &t, 1);
                    self.sb[5] = self.phase_frame;
                } else {
                    self.marisa_flystep(160 - self.sb[5]);
                    let bo = self.marisa_bo();
                    let t = BulletTemplate {
                        spawn_type: 2,
                        delta: 0x0C,
                        patnum: PAT_STAR,
                        ..BulletTemplate::shot(group::SPREAD_AIMED, 3, self.sb[3] as u8, 0)
                    };
                    env.pool.spawn(&t, bo.0, bo.1, env.player);
                }
                self.sb[3] = self.sb[3] + 4;
            }
            if self.phase_frame >= 160 {
                self.marisa_bits_turn(2, 1);
                self.marisa_end_pattern();
            }
        }
    }

    /// mode 3 (`marisa_1717D`): bits move out/in while firing aimed rings;
    /// bitless → twin random spreads.
    #[verifier::rlimit(100)]
    #[verifier::spinoff_prover]
    fn marisa_m_inout_rings(&mut self, env: &mut BossEnv)
        requires
            marisa_ok(*old(self), *old(env), 1),
        ensures
            boss_stepped(*old(self), *final(self), 3),
            env_kept(*old(env), *final(env)),
            final(self).phase == old(self).phase,
            marisa_inout_rings_post(*old(self), *old(env), *final(self), *final(env)),
    {
        let g = self.marisa_gate(env);
        if g == 2 {
            self.sb[5] = 0; // subpattern_num
        } else if g == 1 {
            if self.marisa_bits_alive() > 0 {
                let pf = self.phase_frame;
                if pf <= 192 {
                    self.marisa_bits_dist(0x18);
                } else if pf <= 256 {
                    if pf % 4 == 0 {
                        if pf % 32 == 0 {
                            let t = BulletTemplate { spawn_type: 1, ..BulletTemplate::shot(group::RING_AIMED, 16, (2 * SUBPIXEL) as u8, 0) };
                            env.pool.spawn(&t, self.x, self.y, env.player);
                        }
                        let t = BulletTemplate { spawn_type: 1, delta: 6, ..BulletTemplate::shot(group::SPREAD, 3, (4 * SUBPIXEL) as u8, 0) };
                        self.marisa_bits_fire(env, &t, 0);
                    }
                } else if pf <= 384 {
                    self.marisa_bits_dist(-0x18);
                } else {
                    self.marisa_bits_turn(0, 2);
                    self.marisa_end_pattern();
                }
            } else {
                self.marisa_flystep(96);
                if self.phase_frame % 2 == 0 {
                    let dir: u8 = if self.sb[5] % 2 != 0 { 0xF8 } else { 8 };
                    self.angle = self.angle.wrapping_add(dir);
                    self.marisa_twin_spread(env, SUBPIXEL as u8);
                    if self.angle == 0 || self.angle >= 0x80 {
                        self.sb[5] = self.sb[5] + 1;
                        if self.sb[5] >= 4 {
                            self.marisa_end_pattern();
                        }
                    }
                }
            }
        }
    }

    /// mode 4 (`marisa_17335`): bits fire dense aimed rings; bitless → scattered
    /// red aimed cloud bullets.
    fn marisa_m_dense_ring(&mut self, env: &mut BossEnv)
        requires
            marisa_ok(*old(self), *old(env), 1),
        ensures
            boss_stepped(*old(self), *final(self), 3),
            env_kept(*old(env), *final(env)),
            marisa_held(*old(self), *final(self)),
            marisa_dense_ring_post(*old(self), *old(env), *final(self), *final(env)),
    {
        let g = self.marisa_gate(env);
        if g != 1 {
            return;
        }
        let alive = self.marisa_bits_alive();
        if alive > 0 {
            if self.phase_frame % 32 == 0 {
                let mut count = 24 - (alive as u8) * 2;
                if self.sb[4] == 2 {
                    count = 28;
                }
                let t = BulletTemplate { spawn_type: 5, patnum: PAT_BALL_BLUE, ..BulletTemplate::shot(group::RING_AIMED, count, (3 * SUBPIXEL + 2) as u8, 0) };
                self.marisa_bits_fire(env, &t, 1);
            }
            if self.phase_frame >= 160 {
                self.marisa_bits_turn(0, 2);
                self.marisa_end_pattern();
            }
        } else if self.marisa_flystep(64) {
            self.marisa_end_pattern();
        } else if self.phase_frame % 16 == 0 {
            let ghost m0 = *self;
            let ghost p0 = (env.pool.bullets@, env.pool.rng);
            let ghost fx0 = env.fx;
            let mut n: u32 = 0;
            while n < 0x20
                invariant
                    n <= 0x20,
                    boss_ok(*self, 2),
                    self.kind == old(self).kind && self.defeated == old(self).defeated && self.phase == old(self).phase && self.max_hp == old(self).max_hp,
                    marisa_held(*old(self), *self),
                    env_ok(*env),
                    env.player == old(env).player && env.frame == old(env).frame,
                    env.fx == fx0,
                    *self == (Boss { rng: self.rng, ..m0 }),
                    (self.rng.state, (env.pool.bullets@, env.pool.rng))
                        == red_scatter(m0.rng.state, p0, m0.x as int, m0.y as int, env.player, n as nat),
                decreases 0x20 - n,
            {
                let ox = self.x - 52 * SUBPIXEL + self.rng.modulo(64 * SUBPIXEL);
                let oy = self.y - 40 * SUBPIXEL + self.rng.modulo(64 * SUBPIXEL);
                let speed = (self.rng.modulo(6 * SUBPIXEL) + SUBPIXEL) as u8;
                let t = BulletTemplate { spawn_type: 4, patnum: PAT_BALL_RED, ..BulletTemplate::shot(group::SINGLE_AIMED, 1, speed, 0) };
                env.pool.spawn(&t, ox, oy, env.player);
                n = n + 1;
            }
        }
    }

    /// mode 5 (`marisa_17491`): bits fire decelerate-to-angle star volleys;
    /// bitless → stacked blue clouds.
    fn marisa_m_decel_stars(&mut self, env: &mut BossEnv)
        requires
            marisa_ok(*old(self), *old(env), 1),
        ensures
            boss_stepped(*old(self), *final(self), 3),
            env_kept(*old(env), *final(env)),
            marisa_held(*old(self), *final(self)),
            marisa_decel_stars_post(*old(self), *old(env), *final(self), *final(env)),
    {
        let g = self.marisa_gate(env);
        if g == 2 {
            self.sb[5] = 0; // bitless_started
        } else if g == 1 {
            if self.marisa_bits_alive() > 0 {
                if self.phase_frame % 4 == 0 {
                    // Volley target sweeps across phase windows.
                    let f = self.phase_frame;
                    let (target, base): (u8, u8) = if f <= 96 {
                        (0x40, 0x10)
                    } else if f <= 128 {
                        (0x30, 0x90)
                    } else if f <= 160 {
                        (0x70, 0x10)
                    } else if f <= 192 {
                        (0x10, 0x10)
                    } else {
                        (0x40, 0x10)
                    };
                    let mut a = base;
                    let ghost p0 = (env.pool.bullets@, env.pool.rng);
                    let ghost fx0 = env.fx;
                    assert((target, base) == star_window(f as int));
                    let mut n: u32 = 0;
                    while n < 4
                        invariant
                            n <= 4,
                            boss_ok(*self, 1),
                            env_ok(*env),
                            env.player == old(env).player && env.frame == old(env).frame,
                            env.fx == fx0,
                            a == eighth_turned(base, n as nat),
                            (env.pool.bullets@, env.pool.rng) == star_volleys(p0, *self, env.player, target, base, n as nat),
                        decreases 4 - n,
                    {
                        let t = BulletTemplate {
                            spawn_type: 2,
                            patnum: PAT_STAR,
                            special: Bsm::DecelToAngle,
                            turn_arg: target,
                            ..BulletTemplate::shot(group::SINGLE, 1, (5 * SUBPIXEL + 12) as u8, a)
                        };
                        self.marisa_bits_fire(env, &t, 1);
                        a = a.wrapping_add(0x20);
                        n = n + 1;
                    }
                }
                if self.phase_frame >= 224 {
                    self.marisa_end_pattern();
                }
            } else {
                self.marisa_flystep(128);
                if self.sb[5] == 0 {
                    self.angle = 0x80u8.wrapping_sub(self.rng.and(0x1F) as u8);
                    self.sb[5] = 1;
                }
                if self.phase_frame % 8 == 0 {
                    self.marisa_cloud_stack(env);
                    self.angle = self.angle.wrapping_sub(8);
                }
                if self.phase_frame >= 256 {
                    self.marisa_end_pattern();
                }
            }
        }
    }

    /// A 16-bullet blue cloud stack along `angle` from the bullet origin.
    fn marisa_cloud_stack(&self, env: &mut BossEnv)
        requires
            boss_ok(*self, 3),
            env_ok(*old(env)),
        ensures
            env_kept(*old(env), *final(env)),
            fired(*old(env), *final(env), BulletTemplate { spawn_type: 4, delta: 5, patnum: PAT_BALL_BLUE,
                group: group::STACK, count: 16, speed: 16, angle: self.angle, ..blank_template() },
                self.x - 320, self.y - 128, (0i32, 0i32)),
    {
        let bo = self.marisa_bo();
        let t = BulletTemplate {
            spawn_type: 4,
            delta: 5,
            patnum: PAT_BALL_BLUE,
            ..BulletTemplate::shot(group::STACK, 16, SUBPIXEL as u8, self.angle)
        };
        env.pool.spawn(&t, bo.0, bo.1, (0, 0));
    }

    /// mode 6 (`marisa_1769E`): bits fire aimed stars; bitless → wall bullets.
    #[verifier::rlimit(100)]
    #[verifier::spinoff_prover]
    fn marisa_m_edge_bullets(&mut self, env: &mut BossEnv)
        requires
            marisa_ok(*old(self), *old(env), 1),
        ensures
            boss_stepped(*old(self), *final(self), 3),
            env_kept(*old(env), *final(env)),
            marisa_held(*old(self), *final(self)),
            marisa_edge_bullets_post(*old(self), *old(env), *final(self), *final(env)),
    {
        let g = self.marisa_gate(env);
        if g == 2 {
            self.angle = 0x80u8.wrapping_sub(0x40); // -0x40
            self.sb[5] = 0;
        } else if g == 1 {
            if self.marisa_bits_alive() > 0 {
                if self.phase_frame <= 128 {
                    if env.frame % 4 == 0 {
                        let t = BulletTemplate { spawn_type: 2, patnum: PAT_STAR, ..BulletTemplate::shot(group::SINGLE, 1, (6 * SUBPIXEL) as u8, self.angle) };
                        self.marisa_bits_fire(env, &t, 1);
                    }
                } else if self.phase_frame <= 192 {
                    if env.frame % 4 == 0 {
                        // Bullets stream in from the left, right and top edges.
                        let oy1 = self.rng.modulo(192 * SUBPIXEL);
                        let a1 = 0x30u8.wrapping_sub(self.rng.and(0x1F) as u8);
                        self.marisa_edge_bullet(env, 0, oy1, a1);
                        let oy2 = self.rng.modulo(192 * SUBPIXEL);
                        let a2 = (self.rng.and(0x1F) as u8).wrapping_add(0x50);
                        self.marisa_edge_bullet(env, 384 * SUBPIXEL, oy2, a2);
                        let ox = self.rng.modulo(384 * SUBPIXEL);
                        let a3 = (self.rng.and(0x1F) as u8).wrapping_add(0x30);
                        self.marisa_edge_bullet(env, ox, 0, a3);
                    }
                } else if self.phase_frame >= 256 {
                    self.marisa_end_pattern();
                }
            } else {
                self.marisa_flystep(160);
                if self.sb[5] == 0 {
                    self.angle = self.rng.and(0x1F) as u8;
                    self.sb[5] = 1;
                }
                if self.phase_frame % 8 == 0 {
                    self.marisa_cloud_stack(env);
                    self.angle = self.angle.wrapping_add(8);
                }
                if self.phase_frame >= 192 {
                    self.marisa_end_pattern();
                }
            }
        }
    }

    /// One random-speed blue bullet from (`ox`, `oy`) along `angle`.
    fn marisa_edge_bullet(&mut self, env: &mut BossEnv, ox: i32, oy: i32, angle: u8)
        requires
            env_ok(*old(env)),
            0 <= ox <= 0x2000 && 0 <= oy <= 0x2000,
        ensures
            *final(self) == (Boss { rng: final(self).rng, ..*old(self) }),
            env_kept(*old(env), *final(env)),
            final(self).rng == (BossRng { state: lcg_next(old(self).rng.state) }),
            fired(*old(env), *final(env), BulletTemplate { spawn_type: 4, patnum: PAT_BALL_BLUE, group: group::SINGLE,
                count: 1, speed: (((final(self).rng.state >> 16u32) & 0x1Fu32) + 16) as u8, angle, ..blank_template() },
                ox as int, oy as int, (0i32, 0i32)),
    {
        let speed = (self.rng.and(0x1F) as u8).wrapping_add(SUBPIXEL as u8);
        let t = BulletTemplate { spawn_type: 4, patnum: PAT_BALL_BLUE, ..BulletTemplate::shot(group::SINGLE, 1, speed, angle) };
        env.pool.spawn(&t, ox, oy, (0, 0));
    }

    /// mode 7 (`marisa_1788E`): bits fire spinning pellets + accelerating clouds;
    /// bitless → aimed cloud stack.
    fn marisa_m_mirror(&mut self, env: &mut BossEnv)
        requires
            marisa_ok(*old(self), *old(env), 1),
        ensures
            boss_stepped(*old(self), *final(self), 3),
            env_kept(*old(env), *final(env)),
            marisa_held(*old(self), *final(self)),
            marisa_mirror_post(*old(self), *old(env), *final(self), *final(env)),
    {
        let g = self.marisa_gate(env);
        if g == 2 {
            self.sb[3] = 2 * SUBPIXEL; // spread_speed
            self.sb[5] = self.rng.and(1) as i32; // angle mirror
        } else if g == 1 {
            if self.marisa_bits_alive() > 0 {
                if env.frame % 4 == 0 {
                    let mut a = ((env.frame % 32) * 8) as u8;
                    if self.sb[5] != 0 {
                        a = 0u8.wrapping_sub(a);
                    }
                    let t = BulletTemplate { spawn_type: 1, ..BulletTemplate::shot(group::SINGLE, 1, (2 * SUBPIXEL) as u8, a) };
                    self.marisa_bits_fire(env, &t, 1);
                }
                if env.frame % 8 == 0 {
                    let t = BulletTemplate { spawn_type: 4, patnum: PAT_BALL_BLUE, ..BulletTemplate::shot(group::SINGLE, 1, self.sb[3] as u8, 0) };
                    self.marisa_bits_fire(env, &t, 0);
                    self.sb[3] = self.sb[3] + 2;
                }
                if self.phase_frame >= 160 {
                    self.marisa_bits_turn(0, 1);
                    self.marisa_end_pattern();
                }
            } else if self.marisa_flystep(72) {
                self.marisa_end_pattern();
            } else if self.phase_frame % 8 == 0 {
                let bo = self.marisa_bo();
                let t = BulletTemplate {
                    spawn_type: 4,
                    delta: 5,
                    patnum: PAT_BALL_BLUE,
                    ..BulletTemplate::shot(group::STACK_AIMED, 16, SUBPIXEL as u8, 0)
                };
                env.pool.spawn(&t, bo.0, bo.1, env.player);
            }
        }
    }
}

/// A turn rate after `f`: 0 negates it, 1 doubles it, 2 halves it
/// (rounding toward zero).
pub open spec fn turn_rate(a: i8, f: u8) -> i8 {
    (if f == 0 { -a } else if f == 1 { a * 2 } else if a >= 0 { a / 2 } else { -((-a) / 2) }) as i8
}

/// The bits with the turn rate of every `every`-th one, from the first,
/// changed by `f`.
pub open spec fn bits_turned(os: Seq<Orbit>, f: u8, every: int) -> Seq<Orbit> {
    Seq::new(os.len(), |i: int| if i % every == 0 { Orbit { aspeed: turn_rate(os[i].aspeed, f), ..os[i] } } else { os[i] })
}

/// The bits with every live one moved `delta` along its radius.
pub open spec fn bits_moved(os: Seq<Orbit>, delta: int) -> Seq<Orbit> {
    Seq::new(os.len(), |i: int| if 1 <= os[i].flag <= 3 { Orbit { dist: (os[i].dist + delta) as i32, ..os[i] } } else { os[i] })
}

/// One bit's frame: a live bit turns by its angular speed, moves along its
/// radius by its linear speed and is placed at that distance and angle around
/// the boss at (`bx`, `by`); it stops moving out once at 64px, then holds
/// there; a dead bit stays as it is.
pub open spec fn bit_next(o: Orbit, bx: i32, by: i32) -> Orbit {
    if !(1 <= o.flag <= 3) {
        o
    } else {
        let a = angle_add(o.angle, o.aspeed as u8);
        let dist = o.dist + o.mspeed;
        let moved = Orbit {
            angle: a,
            dist: dist as i32,
            cx: (bx + (spec_cos8(a) * dist) / 256) as i32,
            cy: (by + (spec_sin8(a) * dist) / 256) as i32,
            ..o
        };
        if o.flag == 1 && dist >= 64 * SUBPIXEL {
            Orbit { flag: 2, mspeed: 0, ..moved }
        } else if o.flag == 2 && dist >= 4 * SUBPIXEL {
            Orbit { flag: 3, ..moved }
        } else {
            moved
        }
    }
}

/// One bit's frame (`bit_next`).
fn bit_step(o: Orbit, bx: i32, by: i32) -> (r: Orbit)
    requires
        orbit_within(o, 0x0500_0000),
        -0x0500_0000 <= bx <= 0x0500_0000 && -0x0500_0000 <= by <= 0x0500_0000,
    ensures
        r == bit_next(o, bx, by),
        orbit_within(r, 0x0600_0000),
{
    let mut o = o;
    if !(1 <= o.flag && o.flag <= 3) {
        return o;
    }
    o.angle = o.angle.wrapping_add(o.aspeed as u8);
    o.dist = o.dist + o.mspeed;
    let c = cos8(o.angle);
    let s = sin8(o.angle);
    assert(-0x4000_0000 <= c * o.dist <= 0x4000_0000) by (nonlinear_arith)
        requires -256 <= c <= 256, -0x0030_0000 <= o.dist <= 0x0030_0000;
    assert(-0x4000_0000 <= s * o.dist <= 0x4000_0000) by (nonlinear_arith)
        requires -256 <= s <= 256, -0x0030_0000 <= o.dist <= 0x0030_0000;
    assert(-0x0030_0000 <= (c * o.dist) / 256 <= 0x0030_0000) by (nonlinear_arith)
        requires -256 <= c <= 256, -0x0030_0000 <= o.dist <= 0x0030_0000;
    assert(-0x0030_0000 <= (s * o.dist) / 256 <= 0x0030_0000) by (nonlinear_arith)
        requires -256 <= s <= 256, -0x0030_0000 <= o.dist <= 0x0030_0000;
    o.cx = bx + shr8(c * o.dist);
    o.cy = by + shr8(s * o.dist);
    if o.flag == 1 && o.dist >= 64 * SUBPIXEL {
        o.flag = 2;
        o.mspeed = 0;
    } else if o.flag == 2 && o.dist >= 4 * SUBPIXEL {
        o.flag = 3;
    }
    o
}

} // verus!

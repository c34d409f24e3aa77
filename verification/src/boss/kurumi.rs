//! Stage 2 boss **Kurumi** — `@kurumi_update$qv` (th04_main.asm:19251) plus its
//! pattern subs (`kurumi_18A79`..`18F8B`) and the `kurumi_spawnrays_add` /
//! `kurumi_18A79` spawn-ray engine. HP 4800; thresholds 3300 → 2050 → 550 → 0.
//!
//! Phases: intro (invincible) → settle → barrage+spawn-rays → decelerating
//! aimed rings → stacked spawn-rays → final spiral → defeat. The signature is
//! the **spawn-ray**: a line grows out from Kurumi along a fixed direction and,
//! where its tip leaves the field, erupts into three accelerating aimed rings.
//!
//! The ray-burst rings use `BSM_SPEEDUP` and the phase-3 rings use
//! `BSM_DECELERATE_THEN_TURN` exactly (the elliptical sway amplitude is the only
//! eyeballed value).

use vstd::prelude::*;
use super::{Boss, BossEnv, BossKind, BossRng, Ray, PLAYFIELD_H, PLAYFIELD_W, SUBPIXEL, shr8, boss_ok, boss_stepped, env_ok,
    env_kept, ray_within, lemma_boss_ok_mono, ray_added, lemma_first_free_ray, phase_advanced, hit_tested, update_ok,
    boss_frame_post};
use crate::bullet::{group, Bsm, Bullet, BulletTemplate, lcg_next, angle_add, angle_sub, cleared, pool_after_spawn,
    blank_template};
use crate::effects::{Effect, EffectKind, new_effect};
use crate::math::{cos8, sin8, vector2, lemma_vector2_fits, lemma_vector2_bounded, spec_vector2, spec_cos8, spec_sin8};

verus! {

broadcast use lemma_boss_ok_mono;

pub const PAT_BALL_BLUE: u8 = 2;

/// What a Kurumi routine asks: Kurumi within bound level `k`, a sane context.
pub open spec fn kurumi_ok(b: Boss, env: BossEnv, k: int) -> bool {
    boss_ok(b, k) && b.kind == BossKind::Kurumi && env_ok(env)
}

/// A spawn-ray launch schedule entry: (frame, x offset, angle), with a small
/// offset.
pub open spec fn launches_ok(l: Seq<(i32, i32, u8)>) -> bool {
    forall|i: int| 0 <= i < l.len() ==> abs_le_256(#[trigger] l[i].1)
}

pub open spec fn abs_le_256(v: i32) -> bool {
    -256 <= v <= 256
}

/// A spawn-ray starting to grow from `dx` beside the boss (10px above it)
/// along `angle` at 16px a frame.
pub open spec fn new_ray(b: Boss, dx: int, angle: u8) -> Ray {
    let v = spec_vector2(angle, 16 * SUBPIXEL);
    let ox = b.x + dx;
    let oy = b.y - 10 * SUBPIXEL;
    Ray { flag: 1, ox: ox as i32, oy: oy as i32, tx: ox as i32, ty: oy as i32, vx: v.0 as i32, vy: v.1 as i32 }
}

/// The angle of the `k`-th burst ring: the first at `a0`, each next one
/// turned by `step`.
pub open spec fn burst_angle(a0: u8, step: i8, k: nat) -> u8
    decreases k,
{
    if k == 0 { a0 } else { angle_add(burst_angle(a0, step, (k - 1) as nat), step as u8) }
}

/// The pool after the first `n` rings of a burst from (`x`, `y`): 22-rings
/// at 1px a frame plus 0.5px per ring, turning by `step`.
pub open spec fn burst_rings(p: (Seq<Bullet>, u32), x: int, y: int, a0: u8, step: i8, n: nat) -> (Seq<Bullet>, u32)
    decreases n,
{
    if n == 0 {
        p
    } else {
        let q = burst_rings(p, x, y, a0, step, (n - 1) as nat);
        pool_after_spawn(q.0, q.1, BulletTemplate { patnum: PAT_BALL_BLUE, group: group::RING, count: 22,
            speed: (16 + 8 * (n - 1)) as u8, angle: burst_angle(a0, step, (n - 1) as nat), ..blank_template() }, x, y, (0i32, 0i32))
    }
}

/// The pool after the first `n` shots of a stream from `off` px beside and
/// 10px above (`x`, `y`) along `angle`, at 1, 1.5 and 2px a frame.
pub open spec fn stream_shots(p: (Seq<Bullet>, u32), x: int, y: int, off: int, angle: u8, n: nat) -> (Seq<Bullet>, u32)
    decreases n,
{
    if n == 0 {
        p
    } else {
        let q = stream_shots(p, x, y, off, angle, (n - 1) as nat);
        pool_after_spawn(q.0, q.1, BulletTemplate { origin_x: (off * 16) as i16, origin_y: -160i16, patnum: PAT_BALL_BLUE,
            group: group::SINGLE, count: 1, speed: (16 + 8 * (n - 1)) as u8, angle, ..blank_template() }, x, y, (0i32, 0i32))
    }
}

/// A point strictly inside the play field (in subpixels).
pub open spec fn in_field(x: int, y: int) -> bool {
    0 < x < 6144 && 0 < y < 5888
}

/// A ray after a frame of the ray engine: a growing tip moves on inside the
/// field and, once outside, the ray starts to shrink; a shrinking tail moves
/// on inside the field and, once outside, frees the ray.
pub open spec fn ray_stepped(r: Ray) -> Ray {
    if r.flag == 0 {
        r
    } else if r.flag == 1 {
        if in_field(r.tx as int, r.ty as int) { Ray { tx: (r.tx + r.vx) as i32, ty: (r.ty + r.vy) as i32, ..r } }
        else { Ray { flag: 2, ..r } }
    } else {
        if in_field(r.ox as int, r.oy as int) { Ray { ox: (r.ox + r.vx) as i32, oy: (r.oy + r.vy) as i32, ..r } }
        else { Ray { flag: 0, ..r } }
    }
}

/// Where the rays among the first `n` burst this frame: each growing tip
/// that has left the field, one step back inside.
pub open spec fn ray_bursts(rs: Seq<Ray>, n: nat) -> Seq<(i32, i32)>
    decreases n,
{
    if n == 0 {
        Seq::empty()
    } else {
        let r = rs[n - 1];
        let s = ray_bursts(rs, (n - 1) as nat);
        if r.flag == 1 && !in_field(r.tx as int, r.ty as int) { s.push(((r.tx - r.vx) as i32, (r.ty - r.vy) as i32)) } else { s }
    }
}

/// How many of the first `n` rays are free.
pub open spec fn rays_free(rs: Seq<Ray>, n: nat) -> nat
    decreases n,
{
    if n == 0 { 0 } else { rays_free(rs, (n - 1) as nat) + if rs[n - 1].flag == 0 { 1nat } else { 0nat } }
}

/// The pool after the first `n` of a burst's three aimed speeding-up rings of
/// `count` from (`x`, `y`), at 2px a frame and 6/16px more each.
pub open spec fn burst_trio(p: (Seq<Bullet>, u32), x: int, y: int, count: u8, player: (i32, i32), n: nat) -> (Seq<Bullet>, u32)
    decreases n,
{
    if n == 0 {
        p
    } else {
        let q = burst_trio(p, x, y, count, player, (n - 1) as nat);
        pool_after_spawn(q.0, q.1, BulletTemplate { patnum: PAT_BALL_BLUE, special: Bsm::Speedup, speed_delta: 1,
            group: group::RING_AIMED, count, speed: (32 + 6 * (n - 1)) as u8, angle: 0, ..blank_template() }, x, y, player)
    }
}

/// The pool after the first `n` bursts of `bs`.
pub open spec fn burst_volleys(p: (Seq<Bullet>, u32), bs: Seq<(i32, i32)>, count: u8, player: (i32, i32), n: nat) -> (Seq<Bullet>, u32)
    decreases n,
{
    if n == 0 {
        p
    } else {
        let b = bs[n - 1];
        burst_trio(burst_volleys(p, bs, count, player, (n - 1) as nat), b.0 as int, b.1 as int, count, player, 3)
    }
}

/// The effects after the first `n` bursts of `bs`: a growing circle at each.
pub open spec fn burst_fx(fx: Seq<Effect>, bs: Seq<(i32, i32)>, n: nat) -> Seq<Effect>
    decreases n,
{
    if n == 0 { fx } else { burst_fx(fx, bs, (n - 1) as nat).push(new_effect(bs[n - 1].0, bs[n - 1].1, EffectKind::CircleGrow)) }
}

/// The rays and generator after those launches among the first `n` of `ls`
/// (frame, offset beside Kurumi, angle) that fall on Kurumi's frame: each
/// draws a jitter of up to 15 away from the centre line and takes the first
/// free slot.
pub open spec fn launched(rs: Seq<Ray>, st: u32, o: Boss, ls: Seq<(i32, i32, u8)>, n: nat) -> (Seq<Ray>, u32)
    decreases n,
{
    if n == 0 {
        (rs, st)
    } else {
        let q = launched(rs, st, o, ls, (n - 1) as nat);
        let l = ls[n - 1];
        if o.phase_frame == l.0 {
            let st1 = lcg_next(q.1);
            let jitter = ((st1 >> 16u32) & 15u32) as u8;
            let a = angle_add(l.2, if l.1 < 0 { angle_sub(0u8, jitter) } else { jitter });
            (ray_added(q.0, new_ray(o, l.1 as int, a)), st1)
        } else {
            q
        }
    }
}

/// A frame of a ray attack with launch schedule `ls` and bursts of `count`:
/// the telegraph at frame 48, this frame's launches, and from frame 65 the
/// ray engine; once every ray is free the pattern ends.
#[verifier::opaque]
pub open spec fn kurumi_rays_post(o: Boss, oe: BossEnv, b: Boss, e: BossEnv, ls: Seq<(i32, i32, u8)>, count: u8) -> bool {
    let fx1 = if o.phase_frame == 48 {
        oe.fx.effects@.push(new_effect((o.x - 192) as i32, (o.y - 160) as i32, EffectKind::CircleShrink))
            .push(new_effect((o.x + 192) as i32, (o.y - 160) as i32, EffectKind::CircleShrink))
    } else {
        oe.fx.effects@
    };
    let l = launched(o.rays@, o.rng.state, o, ls, ls.len());
    let p0 = (oe.pool.bullets@, oe.pool.rng);
    let runs = o.phase_frame > 64;
    let bs = ray_bursts(l.0, l.0.len());
    let done = runs && rays_free(l.0, l.0.len()) == l.0.len();
    &&& b.rays@ == (if runs { l.0.map_values(|r: Ray| ray_stepped(r)) } else { l.0 })
    &&& b == (Boss { rays: b.rays, rng: BossRng { state: l.1 }, phase_frame: if done { 0i32 } else { o.phase_frame },
        mode: if done { 0i16 } else { o.mode }, ..o })
    &&& e.fx.effects@ == (if runs { burst_fx(fx1, bs, bs.len()) } else { fx1 })
    &&& (e.pool.bullets@, e.pool.rng) == (if runs { burst_volleys(p0, bs, count, oe.player, bs.len()) } else { p0 })
    &&& e.player == oe.player && e.frame == oe.frame
}

/// The launch schedule of ray mode `m` (1 left, 2 right, else both; three
/// rays a side when `late`).
pub open spec fn ray_schedule(m: i16, late: bool) -> Seq<(i32, i32, u8)> {
    if !late {
        if m == 1 { seq![(64i32, -192i32, 0x18u8)] }
        else if m == 2 { seq![(64i32, 192i32, 0x68u8)] }
        else { seq![(64i32, 192i32, 0x68u8), (64i32, -192i32, 0x18u8)] }
    } else {
        if m == 1 { seq![(64i32, -192i32, 0x18u8), (80i32, -192i32, 0x10u8), (96i32, -192i32, 0x08u8)] }
        else if m == 2 { seq![(64i32, 192i32, 0x68u8), (80i32, 192i32, 0x70u8), (96i32, 192i32, 0x78u8)] }
        else { seq![(64i32, -192i32, 0x18u8), (64i32, 192i32, 0x68u8), (80i32, -192i32, 0x10u8), (80i32, 192i32, 0x70u8),
            (96i32, -192i32, 0x08u8), (96i32, 192i32, 0x78u8)] }
    }
}

/// The ring size of ray mode `m`'s bursts.
pub open spec fn ray_burst_count(m: i16, late: bool) -> u8 {
    if m == 1 || m == 2 { if late { 12u8 } else { 16u8 } } else if late { 6u8 } else { 8u8 }
}

/// A frame that leaves Kurumi's HP bookkeeping, phase and defeat flag as
/// they were.
pub open spec fn kurumi_held(a: Boss, b: Boss) -> bool {
    &&& b.hp == a.hp
    &&& b.damage_pending == a.damage_pending
    &&& b.phase_end_hp == a.phase_end_hp
    &&& b.phase == a.phase
    &&& b.defeated == a.defeated
}

/// The end of a barrage frame from (`b1`, `e1`): the hit test, and at the
/// threshold the next phase (threshold 2050 after phase 2, with the
/// pattern choice reset; 0 after phase 4) with the screen cleared.
pub open spec fn kurumi_barrage_tail(b1: Boss, e1: BossEnv, b: Boss, e: BossEnv, late: bool) -> bool {
    let h = hit_tested(b1);
    if h.hp <= h.phase_end_hp {
        &&& b == (if late { phase_advanced(h, 0) } else { Boss { mode: 0, ..phase_advanced(h, 2050) } })
        &&& e.pool.bullets@ == cleared(e1.pool.bullets@)
        &&& e.pool.rng == e1.pool.rng
        &&& e.fx == e1.fx
    } else {
        &&& b == h
        &&& e == e1
    }
}

/// What a barrage frame (phase 2, or phase 4 when `late`) does: the sway
/// (mode 0) or the ray attack of the current mode, which leave the HP
/// bookkeeping and phase alone, then the hit test and threshold.
pub open spec fn kurumi_barrage_post(o: Boss, oe: BossEnv, b: Boss, e: BossEnv, late: bool) -> bool {
    exists|b1: Boss, e1: BossEnv| kurumi_held(o, b1) && (o.mode == 0 ==> kurumi_sway_post(o, oe, b1, e1, late))
        && (o.mode != 0 ==> kurumi_rays_post(o, oe, b1, e1, ray_schedule(o.mode, late), ray_burst_count(o.mode, late)))
        && #[trigger] kurumi_barrage_tail(b1, e1, b, e, late)
}

/// Kurumi after a frame of her elliptical sway (`cw`: angle forward).
pub open spec fn kurumi_swayed(b: Boss, cw: bool) -> Boss {
    Boss {
        x: (3072 + (spec_cos8(b.angle) * 1344) / 256) as i32,
        y: (1280 + (spec_sin8(b.angle) * 256) / 256) as i32,
        angle: if cw { angle_add(b.angle, 1) } else { angle_sub(b.angle, 1) },
        ..b
    }
}

/// The barrage's sway pattern (mode 0) in a frame: sway; after 96 frames
/// count the window, fire the expanding ring burst (rings for the first ten
/// windows, at most five rings), and draw the next mode (1-4, or 1-3 when
/// `late`).
pub open spec fn kurumi_sway_post(o: Boss, oe: BossEnv, b: Boss, e: BossEnv, late: bool) -> bool {
    let m = kurumi_swayed(o, true);
    if m.phase_frame >= 96 {
        let ps = o.phase_state + 1;
        let m2 = Boss { phase_frame: 0, phase_state: ps as i16, ..m };
        let st1 = lcg_next(m2.rng.state);
        let bursts = ps <= 10;
        let rings = if ps > 5 { 5 } else if ps < 0 { 0 } else { ps };
        let p1 = if bursts {
            burst_rings((oe.pool.bullets@, oe.pool.rng), m2.x as int, m2.y as int, (st1 >> 16u32) as u8,
                if late { 3i8 } else { -3i8 }, rings as nat)
        } else {
            (oe.pool.bullets@, oe.pool.rng)
        };
        let st2 = if bursts { lcg_next(st1) } else { st1 };
        let modes: int = if late { 3 } else { 4 };
        &&& b == (Boss { rng: BossRng { state: st2 }, mode: (((st2 >> 16u32) as int) % modes + 1) as i16, ..m2 })
        &&& (e.pool.bullets@, e.pool.rng) == p1
        &&& e.fx == oe.fx
        &&& e.player == oe.player && e.frame == oe.frame
    } else {
        b == m && e == oe
    }
}

/// What `kurumi_phase0_intro` does in a frame.
pub open spec fn kurumi_phase0_post(o: Boss, oe: BossEnv, b: Boss, e: BossEnv) -> bool {
    &&& (({
                    let pf = o.phase_frame + 1;
                    let b1 = if pf >= 320 { Boss { phase: 1, phase_frame: 0, ..o } }
                        else { Boss { phase_frame: pf as i32, ..o } };
                    b == (Boss { phase_frame: (b1.phase_frame + 1) as i32, damage_pending: 0, ..b1 })
                }))
    &&& (e.pool == oe.pool)
    &&& (e.fx.effects@ =~= (if o.phase_frame >= 288 && o.phase_frame % 8 == 0 {
                    oe.fx.effects@.push(new_effect(o.x, o.y, EffectKind::Gather))
                } else {
                    oe.fx.effects@
                }))
}

/// What `kurumi_phase1_pause` does in a frame.
pub open spec fn kurumi_phase1_post(o: Boss, oe: BossEnv, b: Boss, e: BossEnv) -> bool {
    &&& (({
                    let h = Boss { phase_frame: (o.phase_frame + 1) as i32, damage_pending: 0, ..o };
                    &&& h.phase_frame >= 32 ==> b == (Boss { mode: 3, angle: 192, ..phase_advanced(h, 3300) })
                        && e.pool.bullets@ =~= cleared(oe.pool.bullets@)
                    &&& h.phase_frame < 32 ==> b == h && e.pool.bullets@ =~= oe.pool.bullets@
                    &&& e.pool.rng == oe.pool.rng && e.fx == oe.fx
                }))
}

/// What `kurumi_phase3_decel` does in a frame.
pub open spec fn kurumi_phase3_post(o: Boss, oe: BossEnv, b: Boss, e: BossEnv) -> bool {
    &&& (e.fx == oe.fx)
    &&& (({
                    let o = o;
                    let m = Boss {
                        x: (3072 + (spec_cos8(o.angle) * 1344) / 256) as i32,
                        y: (1280 + (spec_sin8(o.angle) * 256) / 256) as i32,
                        angle: angle_sub(o.angle, 1),
                        ..o
                    };
                    let b1 = if o.mode == 0 && o.phase_frame >= 128 { Boss { phase_frame: 0, mode: 1, ..m } } else { m };
                    let fires = o.mode != 0 && oe.frame % 57 == 0;
                    let t = BulletTemplate { patnum: PAT_BALL_BLUE, special: Bsm::DecelThenTurn, turn_arg: 0x40, turns_max: 1,
                        group: group::RING_AIMED, count: 16, speed: 48, angle: 0, ..blank_template() };
                    let q1 = pool_after_spawn(oe.pool.bullets@, oe.pool.rng, t, m.x as int, m.y as int, oe.player);
                    let p1 = if fires {
                        pool_after_spawn(q1.0, q1.1, BulletTemplate { speed: 32, turn_arg: 0xC0, ..t }, m.x as int, m.y as int,
                            oe.player)
                    } else {
                        (oe.pool.bullets@, oe.pool.rng)
                    };
                    let h = hit_tested(b1);
                    let ends = b1.phase_frame > 2000 || h.hp <= h.phase_end_hp;
                    let b2 = if b1.phase_frame > 2000 { b1 } else { h };
                    &&& b == (if ends { phase_advanced(b2, 550) } else { b2 })
                    &&& (e.pool.bullets@, e.pool.rng) == (if ends { (cleared(p1.0), p1.1) } else { p1 })
                }))
}

/// What `kurumi_phase5_final` does in a frame.
pub open spec fn kurumi_phase5_post(o: Boss, oe: BossEnv, b: Boss, e: BossEnv) -> bool {
    &&& (({
                    let o = o;
                    let pf = o.phase_frame;
                    let vx = if o.x < 191 * SUBPIXEL { 24i32 } else if o.x > 193 * SUBPIXEL { -24i32 } else { 0i32 };
                    let vy = if o.y < 79 * SUBPIXEL { 12i32 } else if o.y > 81 * SUBPIXEL { -12i32 } else { 0i32 };
                    let x = (o.x + vx) as i32;
                    let y = (o.y + vy) as i32;
                    let st1 = lcg_next(o.rng.state);
                    let st2 = lcg_next(st1);
                    let s0 = if pf == 16 { -0x20 - ((st1 >> 16u32) & 15u32) } else { o.sb@[0] as int };
                    let s1 = if pf == 16 { -0x60 + ((st2 >> 16u32) & 15u32) } else { o.sb@[1] as int };
                    let streams = pf % 8 == 0;
                    let p0 = (oe.pool.bullets@, oe.pool.rng);
                    let q1 = stream_shots(p0, x as int, y as int, 12, s0 as u8, 3);
                    let q2 = stream_shots(q1, x as int, y as int, -12, s1 as u8, 3);
                    let p1 = if streams { q2 } else { p0 };
                    let p2 = if pf % 48 == 0 {
                        pool_after_spawn(p1.0, p1.1, BulletTemplate { delta: 9, group: group::SPREAD_AIMED, count: 5, speed: 32, angle: 0,
                            ..blank_template() }, x as int, y as int, oe.player)
                    } else {
                        p1
                    };
                    let b1 = Boss { vx, vy, x, y, sb: b.sb, rng: if pf == 16 { BossRng { state: st2 } } else { o.rng }, ..o };
                    let h = if pf > 700 { b1 } else { hit_tested(b1) };
                    let ends = pf > 700 || h.hp <= h.phase_end_hp;
                    &&& b.sb@ =~= o.sb@.update(0, (if streams { s0 + 0x10 } else { s0 }) as i32)
                        .update(1, (if streams { s1 - 0x10 } else { s1 }) as i32)
                    &&& b == (if ends {
                        Boss { phase_state: if h.phase_frame > 700 { 0i16 } else { 1i16 }, phase: 6, defeated: true, defeat_frame: 0, ..h }
                    } else {
                        h
                    })
                    &&& e.fx.effects@ =~= (if ends { oe.fx.effects@.push(new_effect(x, y, EffectKind::Spark)) }
                        else { oe.fx.effects@ })
                    &&& (e.pool.bullets@, e.pool.rng) == (if ends { (cleared(p2.0), p2.1) } else { p2 })
                }))
}

/// What `kurumi_update` does in a frame of a live Kurumi: each phase's
/// frame, the barrage as `kurumi_barrage_post`.
pub open spec fn kurumi_update_post(o: Boss, oe: BossEnv, b: Boss, e: BossEnv) -> bool {
    if o.phase == 0 {
        kurumi_phase0_post(o, oe, b, e)
    } else if o.phase == 1 {
        kurumi_phase1_post(o, oe, b, e)
    } else if o.phase == 2 {
        kurumi_barrage_post(o, oe, b, e, false)
    } else if o.phase == 3 {
        kurumi_phase3_post(o, oe, b, e)
    } else if o.phase == 4 {
        kurumi_barrage_post(o, oe, b, e, true)
    } else if o.phase == 5 {
        kurumi_phase5_post(o, oe, b, e)
    } else {
        b == (Boss { defeat_frame: (o.defeat_frame + 1) as u32, ..o }) && e == oe
    }
}

/// Under damage, Kurumi goes through her phases at her HP thresholds
/// (3300, 2050, 550, 0). A frame of a live Kurumi in an attacking phase
/// whose HP, once the queued damage is taken, is at or below the current
/// threshold moves to the next phase with the HP set to the threshold
/// reached and the next one armed, and in the final phase starts the defeat
/// sequence.
pub proof fn law_kurumi_thresholds(o: Boss, oe: BossEnv, b: Boss, e: BossEnv)
    requires
        o.kind == BossKind::Kurumi,
        update_ok(o, oe),
        !o.defeated,
        2 <= o.phase <= 5,
        o.hp - o.damage_pending <= o.phase_end_hp,
        boss_frame_post(o, oe, b, e),
    ensures
        o.phase == 2 ==> b.phase == 3 && b.hp == o.phase_end_hp && b.phase_end_hp == 2050 && !b.defeated,
        o.phase == 3 ==> b.phase == 4 && b.hp == o.phase_end_hp && b.phase_end_hp == 550 && !b.defeated,
        o.phase == 4 ==> b.phase == 5 && b.hp == o.phase_end_hp && b.phase_end_hp == 0 && !b.defeated,
        o.phase == 5 ==> b.phase == 6 && b.defeated && b.defeat_frame == 0,
{
    assert(kurumi_update_post(o, oe, b, e));
    if o.phase == 2 || o.phase == 4 {
        let late = o.phase == 4;
        assert(kurumi_barrage_post(o, oe, b, e, late));
        let (b1, e1) = choose|b1: Boss, e1: BossEnv| kurumi_held(o, b1) && (o.mode == 0 ==> kurumi_sway_post(o, oe, b1, e1, late))
            && #[trigger] kurumi_barrage_tail(b1, e1, b, e, late);
        assert(kurumi_held(o, b1));
    }
}

impl Boss {
    pub(crate) fn kurumi_update(&mut self, env: &mut BossEnv)
        requires
            kurumi_ok(*old(self), *old(env), 1),
        ensures
            boss_stepped(*old(self), *final(self), 5),
            env_kept(*old(env), *final(env)),
            kurumi_update_post(*old(self), *old(env), *final(self), *final(env)),
    {
        if self.phase == 0 {
            self.kurumi_phase0_intro(env);
        } else if self.phase == 1 {
            self.kurumi_phase1_pause(env);
        } else if self.phase == 2 {
            self.kurumi_phase2_barrage(env, false);
        } else if self.phase == 3 {
            self.kurumi_phase3_decel(env);
        } else if self.phase == 4 {
            self.kurumi_phase2_barrage(env, true);
        } else if self.phase == 5 {
            self.kurumi_phase5_final(env);
        } else {
            self.defeat_frame = self.defeat_frame + 1;
        }
    }

    /// Phase 0 (loc_19178): 320-frame invincible charge.
    fn kurumi_phase0_intro(&mut self, env: &mut BossEnv)
        requires
            kurumi_ok(*old(self), *old(env), 1),
            old(self).phase == 0,
        ensures
            boss_stepped(*old(self), *final(self), 2),
            env_kept(*old(env), *final(env)),
            kurumi_phase0_post(*old(self), *old(env), *final(self), *final(env)),
    {
        if self.phase_frame >= 288 && self.phase_frame % 8 == 0 {
            env.fx.gather(self.x, self.y);
        }
        self.phase_frame = self.phase_frame + 1;
        if self.phase_frame >= 320 {
            self.phase = 1;
            self.phase_frame = 0;
        }
        self.hittest_invincible();
    }

    /// Phase 1 (loc_1923B): 32-frame invincible pause → barrage.
    fn kurumi_phase1_pause(&mut self, env: &mut BossEnv)
        requires
            kurumi_ok(*old(self), *old(env), 1),
            old(self).phase == 1,
        ensures
            boss_stepped(*old(self), *final(self), 2),
            env_kept(*old(env), *final(env)),
            kurumi_phase1_post(*old(self), *old(env), *final(self), *final(env)),
    {
        self.hittest_invincible();
        if self.phase_frame >= 32 {
            self.phase_next(3300, &mut env.pool);
            self.mode = 3;
            self.angle = 192;
        }
    }

    /// Elliptical sway (`kurumi_18B68`/`18BA7`); `cw` steps the angle forward.
    fn kurumi_move(&mut self, cw: bool)
        requires
            boss_ok(*old(self), 3),
        ensures
            *final(self) == (Boss {
                x: (3072 + (crate::math::spec_cos8(old(self).angle) * 1344) / 256) as i32,
                y: (1280 + (crate::math::spec_sin8(old(self).angle) * 256) / 256) as i32,
                angle: if cw { crate::bullet::angle_add(old(self).angle, 1) } else { crate::bullet::angle_sub(old(self).angle, 1) },
                ..*old(self)
            }),
            -0x10_0000 <= final(self).x <= 0x10_0000 && -0x10_0000 <= final(self).y <= 0x10_0000,
    {
        let a = self.angle;
        self.x = 192 * SUBPIXEL + shr8(cos8(a) * (84 * SUBPIXEL));
        self.y = 80 * SUBPIXEL + shr8(sin8(a) * (16 * SUBPIXEL));
        self.angle = if cw { self.angle.wrapping_add(1) } else { self.angle.wrapping_sub(1) };
    }

    /// Launch a spawn-ray from `boss + (dx, -10px)` travelling along `angle`,
    /// into the first free slot (none if all are busy).
    fn kurumi_ray_add(&mut self, dx: i32, angle: u8)
        requires
            boss_ok(*old(self), 2),
            -0x0100_0000 <= old(self).x <= 0x0100_0000 && -0x0100_0000 <= old(self).y <= 0x0100_0000,
            -256 <= dx <= 256,
        ensures
            boss_ok(*final(self), 2),
            final(self).kind == old(self).kind && final(self).max_hp == old(self).max_hp,
            final(self).defeated == old(self).defeated,
            final(self).phase == old(self).phase,
            final(self).phase_frame == old(self).phase_frame,
            final(self).x == old(self).x && final(self).y == old(self).y,
            *final(self) == (Boss { rays: final(self).rays, ..*old(self) }),
            final(self).rays@ == ray_added(old(self).rays@, new_ray(*old(self), dx as int, angle)),
    {
        let mut i: usize = 0;
        while i < self.rays.len()
            invariant
                boss_ok(*self, 2),
                *self == *old(self),
                forall|q: int| 0 <= q < i ==> (#[trigger] self.rays@[q]).flag != 0,
                -0x0100_0000 <= old(self).x <= 0x0100_0000 && -0x0100_0000 <= old(self).y <= 0x0100_0000,
                -256 <= dx <= 256,
            decreases self.rays@.len() - i,
        {
            if self.rays[i].flag == 0 {
                proof {
                    lemma_first_free_ray(self.rays@, 0, i as int);
                    lemma_vector2_fits(angle, 256);
                    lemma_vector2_bounded(angle, 256);
                }
                let v = vector2(angle, 16 * SUBPIXEL);
                let ox = self.x + dx;
                let oy = self.y - 10 * SUBPIXEL;
                self.rays.set(i, Ray { flag: 1, ox, oy, tx: ox, ty: oy, vx: v.0, vy: v.1 });
                assert forall|j: int| 0 <= j < self.rays@.len() implies ray_within(#[trigger] self.rays@[j], 0x0200_0000int) by {
                    if j != i {
                        assert(ray_within(old(self).rays@[j], 0x0200_0000int));
                    }
                }
                return;
            }
            i = i + 1;
        }
        proof {
            lemma_first_free_ray(self.rays@, 0, self.rays@.len() as int);
        }
    }

    /// Launch a ray along `angle` jittered by up to 15 away from the centre
    /// line (outward for a left-side ray).
    fn kurumi_launch(&mut self, dx: i32, angle: u8)
        requires
            boss_ok(*old(self), 2),
            -0x0100_0000 <= old(self).x <= 0x0100_0000 && -0x0100_0000 <= old(self).y <= 0x0100_0000,
            -256 <= dx <= 256,
        ensures
            boss_ok(*final(self), 2),
            final(self).kind == old(self).kind && final(self).max_hp == old(self).max_hp,
            final(self).defeated == old(self).defeated,
            final(self).phase == old(self).phase,
            final(self).phase_frame == old(self).phase_frame,
            final(self).x == old(self).x && final(self).y == old(self).y,
            ({
                let st = lcg_next(old(self).rng.state);
                let jitter = ((st >> 16u32) & 15u32) as u8;
                let a = angle_add(angle, if dx < 0 { angle_sub(0u8, jitter) } else { jitter });
                &&& *final(self) == (Boss { rays: final(self).rays, rng: BossRng { state: st }, ..*old(self) })
                &&& final(self).rays@ == ray_added(old(self).rays@, new_ray(*old(self), dx as int, a))
            }),
    {
        let jitter = self.rng.and(15) as u8;
        self.kurumi_ray_add(dx, angle.wrapping_add(if dx < 0 { 0u8.wrapping_sub(jitter) } else { jitter }));
    }

    /// `kurumi_18A79`: advance every spawn-ray; when a tip leaves the field fire
    /// three accelerating aimed rings of `burst_count` there. Returns whether
    /// all rays were free at the start of the step.
    fn kurumi_rays_step(&mut self, env: &mut BossEnv, burst_count: u8) -> (all_free: bool)
        requires
            kurumi_ok(*old(self), *old(env), 2),
        ensures
            boss_ok(*final(self), 2),
            env_kept(*old(env), *final(env)),
            final(self).kind == old(self).kind && final(self).max_hp == old(self).max_hp,
            kurumi_held(*old(self), *final(self)),
            final(self).phase_frame == old(self).phase_frame,
            *final(self) == (Boss { rays: final(self).rays, ..*old(self) }),
            final(self).rays@ =~= old(self).rays@.map_values(|r: Ray| ray_stepped(r)),
            all_free == (rays_free(old(self).rays@, old(self).rays@.len()) == old(self).rays@.len()),
            ({
                let bs = ray_bursts(old(self).rays@, old(self).rays@.len());
                &&& final(env).fx.effects@ == burst_fx(old(env).fx.effects@, bs, bs.len())
                &&& (final(env).pool.bullets@, final(env).pool.rng) == burst_volleys((old(env).pool.bullets@, old(env).pool.rng),
                    bs, burst_count, old(env).player, bs.len())
                &&& final(env).player == old(env).player && final(env).frame == old(env).frame
            }),
    {
        let w = PLAYFIELD_W * SUBPIXEL;
        let h = PLAYFIELD_H * SUBPIXEL;
        let mut bursts: Vec<(i32, i32)> = Vec::new();
        let mut free: usize = 0;
        let mut i: usize = 0;
        let ghost rs0 = self.rays@;
        while i < self.rays.len()
            invariant
                i <= self.rays@.len(),
                self.rays@.len() == rs0.len(),
                free <= i,
                boss_ok(*self, 2),
                self.kind == old(self).kind && self.max_hp == old(self).max_hp,
                kurumi_held(*old(self), *self),
                self.phase == old(self).phase,
                self.phase_frame == old(self).phase_frame,
                *self == (Boss { rays: self.rays, ..*old(self) }),
                rs0 == old(self).rays@,
                w == 6144 && h == 5888,
                forall|j: int| 0 <= j < bursts@.len() ==> abs_le_burst(#[trigger] bursts@[j]),
                forall|j: int| 0 <= j < i ==> #[trigger] self.rays@[j] == ray_stepped(rs0[j]),
                forall|j: int| i <= j < rs0.len() ==> #[trigger] self.rays@[j] == rs0[j],
                bursts@ == ray_bursts(rs0, i as nat),
                free == rays_free(rs0, i as nat),
            decreases self.rays@.len() - i,
        {
            let mut r = self.rays[i];
            assert(ray_within(r, 0x0200_0000int));
            if r.flag == 0 {
                free = free + 1;
            } else if r.flag == 1 {
                if r.tx > 0 && r.tx < w && r.ty > 0 && r.ty < h {
                    r.tx = r.tx + r.vx;
                    r.ty = r.ty + r.vy;
                } else {
                    bursts.push((r.tx - r.vx, r.ty - r.vy));
                    r.flag = 2;
                }
            } else {
                if r.ox > 0 && r.ox < w && r.oy > 0 && r.oy < h {
                    r.ox = r.ox + r.vx;
                    r.oy = r.oy + r.vy;
                } else {
                    r.flag = 0;
                }
            }
            let ghost before = self.rays@;
            self.rays.set(i, r);
            assert forall|j: int| 0 <= j < self.rays@.len() implies ray_within(#[trigger] self.rays@[j], 0x0200_0000int) by {
                if j != i {
                    assert(ray_within(before[j], 0x0200_0000int));
                }
            }
            i = i + 1;
        }
        let ghost bs = bursts@;
        let ghost fx0 = env.fx.effects@;
        let ghost p0 = (env.pool.bullets@, env.pool.rng);
        let mut k: usize = 0;
        while k < bursts.len()
            invariant
                k <= bursts@.len(),
                bs == bursts@,
                env_ok(*env),
                env.player == old(env).player && env.frame == old(env).frame,
                forall|j: int| 0 <= j < bursts@.len() ==> abs_le_burst(#[trigger] bursts@[j]),
                env.fx.effects@ == burst_fx(fx0, bs, k as nat),
                (env.pool.bullets@, env.pool.rng) == burst_volleys(p0, bs, burst_count, old(env).player, k as nat),
            decreases bursts@.len() - k,
        {
            let (bx, by) = bursts[k];
            assert(abs_le_burst(bursts@[k as int]));
            env.fx.circle_grow(bx, by);
            let ghost q0 = (env.pool.bullets@, env.pool.rng);
            let mut speed: i32 = 2 * SUBPIXEL;
            let mut n: u32 = 0;
            while n < 3
                invariant
                    n <= 3,
                    speed == 32 + 6 * n,
                    env_ok(*env),
                    env.player == old(env).player && env.frame == old(env).frame,
                    abs_le_burst((bx, by)),
                    env.fx.effects@ == burst_fx(fx0, bs, (k + 1) as nat),
                    (env.pool.bullets@, env.pool.rng) == burst_trio(q0, bx as int, by as int, burst_count, old(env).player, n as nat),
                decreases 3 - n,
            {
                let t = BulletTemplate {
                    patnum: PAT_BALL_BLUE,
                    special: Bsm::Speedup,
                    speed_delta: 1,
                    ..BulletTemplate::shot(group::RING_AIMED, burst_count, speed as u8, 0)
                };
                env.pool.spawn(&t, bx, by, env.player);
                speed = speed + 6;
                n = n + 1;
            }
            k = k + 1;
        }
        proof {
            assert(self.rays@ =~= old(self).rays@.map_values(|r: Ray| ray_stepped(r)));
        }
        free == self.rays.len()
    }

    /// The expanding 22-ring blue burst fired when a barrage mode-0 window ends
    /// (loc_19279/loc_19387). `step` is the per-ring angle delta (−3 / +3).
    fn kurumi_ring_burst(&mut self, env: &mut BossEnv, step: i8)
        requires
            kurumi_ok(*old(self), *old(env), 2),
        ensures
            *final(self) == (Boss { rng: final(self).rng, ..*old(self) }),
            env_kept(*old(env), *final(env)),
            final(env).fx == old(env).fx,
            ({
                let st1 = lcg_next(old(self).rng.state);
                let ps = old(self).phase_state;
                let rings = if ps > 5 { 5 } else if ps < 0 { 0 } else { ps as int };
                &&& final(self).rng.state == st1
                &&& (final(env).pool.bullets@, final(env).pool.rng) == burst_rings((old(env).pool.bullets@, old(env).pool.rng),
                    old(self).x as int, old(self).y as int, (st1 >> 16u32) as u8, step, rings as nat)
            }),
    {
        let ps = self.phase_state as i32;
        let rings: i32 = if ps > 5 { 5 } else if ps < 0 { 0 } else { ps };
        let mut angle = self.rng.byte();
        let mut speed: i32 = SUBPIXEL; // 1px
        let mut n: i32 = 0;
        while n < rings
            invariant
                0 <= n <= rings <= 5,
                speed == 16 + 8 * n,
                kurumi_ok(*self, *env, 2),
                env.player == old(env).player && env.frame == old(env).frame,
                *self == (Boss { rng: self.rng, ..*old(self) }),
                self.rng.state == lcg_next(old(self).rng.state),
                rings == (if old(self).phase_state > 5 { 5 } else if old(self).phase_state < 0 { 0 } else { old(self).phase_state as int }),
                angle == burst_angle((lcg_next(old(self).rng.state) >> 16u32) as u8, step, n as nat),
                env.fx == old(env).fx,
                (env.pool.bullets@, env.pool.rng) == burst_rings((old(env).pool.bullets@, old(env).pool.rng),
                    old(self).x as int, old(self).y as int, (lcg_next(old(self).rng.state) >> 16u32) as u8, step, n as nat),
            decreases rings - n,
        {
            let t = BulletTemplate { patnum: PAT_BALL_BLUE, ..BulletTemplate::shot(group::RING, 22, speed as u8, angle) };
            env.pool.spawn(&t, self.x, self.y, (0, 0));
            speed = speed + 8;
            angle = angle.wrapping_add(step as u8);
            n = n + 1;
        }
    }

    /// A spawn-ray attack window (loc_18BE6 etc.): telegraph, launch rays at the
    /// given (frame, dx, angle) schedule, then run the ray engine; resets `mode`
    /// to 0 once every ray is spent.
    fn kurumi_ray_pattern(&mut self, env: &mut BossEnv, launches: &[(i32, i32, u8)], burst_count: u8)
        requires
            kurumi_ok(*old(self), *old(env), 1),
            launches_ok(launches@),
        ensures
            boss_ok(*final(self), 3),
            env_kept(*old(env), *final(env)),
            final(self).kind == old(self).kind && final(self).max_hp == old(self).max_hp,
            kurumi_held(*old(self), *final(self)),
            final(self).phase == old(self).phase,
            final(self).phase_frame <= old(self).phase_frame,
            kurumi_rays_post(*old(self), *old(env), *final(self), *final(env), launches@, burst_count),
    {
        proof {
            reveal(kurumi_rays_post);
        }
        let ghost o = *self;
        if self.phase_frame == 48 {
            env.fx.circle_shrink(self.x - 12 * SUBPIXEL, self.y - 10 * SUBPIXEL);
            env.fx.circle_shrink(self.x + 12 * SUBPIXEL, self.y - 10 * SUBPIXEL);
        }
        let mut i: usize = 0;
        while i < launches.len()
            invariant
                i <= launches@.len(),
                launches_ok(launches@),
                boss_ok(*self, 2),
                self.kind == old(self).kind && self.max_hp == old(self).max_hp,
                kurumi_held(*old(self), *self),
                self.phase == old(self).phase,
                self.phase_frame == old(self).phase_frame,
                self.x == old(self).x && self.y == old(self).y,
                -0x0100_0000 <= self.x <= 0x0100_0000 && -0x0100_0000 <= self.y <= 0x0100_0000,
                o == *old(self),
                *self == (Boss { rays: self.rays, rng: self.rng, ..o }),
                (self.rays@, self.rng.state) == launched(o.rays@, o.rng.state, o, launches@, i as nat),
            decreases launches@.len() - i,
        {
            let launch = launches[i];
            assert(abs_le_256(launches@[i as int].1));
            if self.phase_frame == launch.0 {
                self.kurumi_launch(launch.1, launch.2);
            }
            i = i + 1;
        }
        if self.phase_frame > 64 && self.kurumi_rays_step(env, burst_count) {
            self.phase_frame = 0;
            self.mode = 0;
        }
    }
    /// Phases 2 & 4 (loc_19264 / loc_19372): circular movement, then a random
    /// pattern — either the 22-ring burst (mode 0) or a spawn-ray attack. The
    /// `late` flag selects phase-4 parameters (angle step +3, fewer ray bursts).
    fn kurumi_phase2_barrage(&mut self, env: &mut BossEnv, late: bool)
        requires
            kurumi_ok(*old(self), *old(env), 1),
            old(self).phase == (if late { 4u8 } else { 2u8 }),
        ensures
            boss_stepped(*old(self), *final(self), 4),
            env_kept(*old(env), *final(env)),
            kurumi_barrage_post(*old(self), *old(env), *final(self), *final(env), late),
    {
        let ghost o = *self;
        let next_end: i32 = if late { 0 } else { 2050 };
        let burst_step: i8 = if late { 3 } else { -3 };
        let dl: i32 = -12 * SUBPIXEL;
        let dr: i32 = 12 * SUBPIXEL;
        if self.mode == 0 {
            let ghost oe = *env;
            self.kurumi_move(true);
            if self.phase_frame >= 96 {
                self.phase_frame = 0;
                self.phase_state = self.phase_state + 1;
                if self.phase_state <= 10 {
                    self.kurumi_ring_burst(env, burst_step);
                }
                let pool_modes: i32 = if late { 3 } else { 4 };
                self.mode = (self.rng.modulo(pool_modes) as i16) + 1;
            }
            assert(kurumi_sway_post(o, oe, *self, *env, late));
        } else {
            let ghost oe = *env;
            let ls: &[(i32, i32, u8)] = if !late {
                // Spawn-ray attacks. Phase 2: left / right / dual (burst 16/16/8).
                if self.mode == 1 {
                    &[(64, dl, 0x18)]
                } else if self.mode == 2 {
                    &[(64, dr, 0x68)]
                } else {
                    &[(64, dr, 0x68), (64, dl, 0x18)]
                }
            } else {
                // Phase 4: stacked left / right / dual (burst 12/12/6).
                if self.mode == 1 {
                    &[(64, dl, 0x18), (80, dl, 0x10), (96, dl, 0x08)]
                } else if self.mode == 2 {
                    &[(64, dr, 0x68), (80, dr, 0x70), (96, dr, 0x78)]
                } else {
                    &[(64, dl, 0x18), (64, dr, 0x68), (80, dl, 0x10), (80, dr, 0x70), (96, dl, 0x08), (96, dr, 0x78)]
                }
            };
            let count: u8 = if self.mode == 1 || self.mode == 2 {
                if late { 12 } else { 16 }
            } else if late {
                6
            } else {
                8
            };
            assert(ls@ =~= ray_schedule(o.mode, late));
            self.kurumi_ray_pattern(env, ls, count);
            assert(kurumi_rays_post(o, oe, *self, *env, ray_schedule(o.mode, late), ray_burst_count(o.mode, late)));
        }
        let ghost b1 = *self;
        let ghost e1 = *env;
        assert(kurumi_held(o, b1));
        if self.hittest() {
            self.phase_next(next_end, &mut env.pool);
            if !late {
                self.mode = 0;
            }
        }
        assert(kurumi_barrage_tail(b1, e1, *self, *env, late));
    }

    /// Phase 3 (loc_19328): counter-rotate while spamming aimed rings that
    /// decelerate to 0 then turn ±0x40 (`BSM_DECELERATE_THEN_TURN`). Ends on the
    /// HP threshold or a 2000-frame timeout.
    #[verifier::rlimit(40)]
    fn kurumi_phase3_decel(&mut self, env: &mut BossEnv)
        requires
            kurumi_ok(*old(self), *old(env), 1),
            old(self).phase == 3,
        ensures
            boss_stepped(*old(self), *final(self), 4),
            env_kept(*old(env), *final(env)),
            kurumi_phase3_post(*old(self), *old(env), *final(self), *final(env)),
    {
        self.kurumi_move(false);
        if self.mode == 0 {
            if self.phase_frame >= 128 {
                self.phase_frame = 0;
                self.mode = 1;
            }
        } else if env.frame % 57 == 0 {
            let t = BulletTemplate {
                patnum: PAT_BALL_BLUE,
                special: Bsm::DecelThenTurn,
                turn_arg: 0x40,
                turns_max: 1,
                ..BulletTemplate::shot(group::RING_AIMED, 16, (3 * SUBPIXEL) as u8, 0)
            };
            env.pool.spawn(&t, self.x, self.y, env.player);
            let t2 = BulletTemplate { speed: (2 * SUBPIXEL) as u8, turn_arg: 0xC0, ..t };
            env.pool.spawn(&t2, self.x, self.y, env.player);
        }
        if self.phase_frame > 2000 || self.hittest() {
            self.phase_next(550, &mut env.pool);
        }
    }

    /// Phase 5 (loc_19431): final spiral — return to centre and fire a twin
    /// rotating stream from ±12px plus a periodic aimed 5-spread. Ends on HP=0 or
    /// a 700-frame timeout (`kurumi_1905A`, approximated).
    #[verifier::rlimit(60)]
    fn kurumi_phase5_final(&mut self, env: &mut BossEnv)
        requires
            kurumi_ok(*old(self), *old(env), 1),
            old(self).phase == 5,
        ensures
            boss_stepped(*old(self), *final(self), 4),
            env_kept(*old(env), *final(env)),
            kurumi_phase5_post(*old(self), *old(env), *final(self), *final(env)),
    {
        // Drift back toward the home position.
        self.vx = if self.x < 191 * SUBPIXEL { 24 } else if self.x > 193 * SUBPIXEL { -24 } else { 0 };
        self.vy = if self.y < 79 * SUBPIXEL { 12 } else if self.y > 81 * SUBPIXEL { -12 } else { 0 };
        self.move_step();

        if self.phase_frame == 16 {
            self.sb[0] = -0x20 - self.rng.and(15) as i32; // right stream angle
            self.sb[1] = -0x60 + self.rng.and(15) as i32; // left stream angle
        }
        if self.phase_frame % 8 == 0 {
            self.kurumi_stream(env, 12, 0);
            self.kurumi_stream(env, -12, 1);
            self.sb[0] = self.sb[0] + 0x10;
            self.sb[1] = self.sb[1] - 0x10;
        }
        if self.phase_frame % 48 == 0 {
            let t = BulletTemplate { delta: 9, ..BulletTemplate::shot(group::SPREAD_AIMED, 5, (2 * SUBPIXEL) as u8, 0) };
            env.pool.spawn(&t, self.x, self.y, env.player);
        }

        if self.phase_frame > 700 || self.hittest() {
            self.phase_state = if self.phase_frame > 700 { 0 } else { 1 };
            env.fx.spark(self.x, self.y);
            self.phase = 6;
            self.begin_defeat(&mut env.pool);
        }
    }

    /// One arm of the final spiral: three bullets at 1, 1.5 and 2px from the
    /// `off`-pixel side, along the angle in scratch slot `track`.
    fn kurumi_stream(&self, env: &mut BossEnv, off: i32, track: usize)
        requires
            kurumi_ok(*self, *old(env), 2),
            -16 <= off <= 16,
            track < 8,
        ensures
            env_kept(*old(env), *final(env)),
            final(env).fx == old(env).fx,
            (final(env).pool.bullets@, final(env).pool.rng) == stream_shots((old(env).pool.bullets@, old(env).pool.rng),
                self.x as int, self.y as int, off as int, self.sb@[track as int] as u8, 3),
    {
        let mut speed: i32 = SUBPIXEL;
        let mut n: u32 = 0;
        while n < 3
            invariant
                n <= 3,
                speed == 16 + 8 * n,
                env.fx == old(env).fx,
                (env.pool.bullets@, env.pool.rng) == stream_shots((old(env).pool.bullets@, old(env).pool.rng),
                    self.x as int, self.y as int, off as int, self.sb@[track as int] as u8, n as nat),
                kurumi_ok(*self, *env, 2),
                env.player == old(env).player && env.frame == old(env).frame,
                -16 <= off <= 16,
                track < 8,
            decreases 3 - n,
        {
            let t = BulletTemplate {
                origin_x: (off * SUBPIXEL) as i16,
                origin_y: (-10 * SUBPIXEL) as i16,
                patnum: PAT_BALL_BLUE,
                ..BulletTemplate::shot(group::SINGLE, 1, speed as u8, self.sb[track] as u8)
            };
            env.pool.spawn(&t, self.x, self.y, (0, 0));
            speed = speed + 8;
            n = n + 1;
        }
    }
}


/// A burst point near the field (a ray tip just past an edge).
pub open spec fn abs_le_burst(p: (i32, i32)) -> bool {
    -0x0300_0000 <= p.0 <= 0x0300_0000 && -0x0300_0000 <= p.1 <= 0x0300_0000
}

} // verus!

//! TH04 bullet system: spawn bullets from a [`BulletTemplate`] by group, and
//! move them each frame with the TH04 motion model: straight flight, the
//! slow-bullet decelerate ramp (`BMF_DECELERATE`), and the special motions
//! (`BSM_*`), after ReC98 `th04/main/bullet/update.cpp`.
//!
//! Positions and velocities are subpixels (16/px); angles are 256-direction
//! bytes (0 = +x, 64 = +y).

use vstd::prelude::*;
use crate::math::{iatan2_wide, vector2, spec_vector2, spec_iatan2, lemma_vector2_fits};

pub mod group;

verus! {

pub const SUBPIXEL: i32 = 16;
pub const PLAYFIELD_W: i32 = 384;
pub const PLAYFIELD_H: i32 = 368;
/// `BMF_DECELERATE_BASE_SPEED` = 4.5px.
pub const DECEL_BASE: i32 = 72;
/// `BMF_DECELERATE_THRESHOLD` = 4.0px: regular bullets slower than this ramp.
pub const DECEL_THRESHOLD: i32 = 64;
pub const DECEL_FRAMES: i32 = 32;
/// Bullets further than this outside the playfield are removed.
pub const CULL_MARGIN: i32 = 256;

/// Special motion types (`bullet_special_motion_t`).
#[derive(Debug, Clone, Copy, PartialEq, Eq, Structural)]
pub enum Bsm {
    Straight,
    /// Decelerate to 0, then aim at the player and resume initial speed.
    DecelThenTurnAimed,
    /// Decelerate to 0, then `angle += turn_by` and resume initial speed.
    DecelThenTurn,
    /// `speed += speed_delta` every frame.
    Speedup,
    /// Decelerate to 0 while turning toward `target`, then resume at `target`.
    DecelToAngle,
    BounceLeftRight,
    BounceTopBottom,
    BounceLeftRightTopBottom,
    BounceLeftRightTop,
    /// `velocity.y += speed_delta` every two frames.
    Gravity,
}

impl Default for Bsm {
    fn default() -> (r: Bsm)
        ensures
            r == Bsm::Straight,
    {
        Bsm::Straight
    }
}

#[derive(Debug, Clone, Copy, PartialEq, Eq, Structural)]
pub enum MoveFlag {
    Decelerate,
    Special,
    Regular,
}

/// Bullet spawn parameters an enemy or boss builds up before firing.
#[derive(Debug, Clone, Copy)]
pub struct BulletTemplate {
    pub spawn_type: u8,
    /// Origin relative to the firing entity (subpixels).
    pub origin_x: i16,
    pub origin_y: i16,
    pub group: u8,
    pub angle: u8,
    pub speed: u8,
    pub patnum: u8,
    pub count: u8,
    /// Spread angle (for SPREAD) or stack speed delta (for STACK).
    pub delta: u8,
    /// Special motion applied to every spawned bullet.
    pub special: Bsm,
    /// `bullet_template_special_angle`: turn_by / target for the decel-turn motions.
    pub turn_arg: u8,
    /// `bullet_special.speed_delta` (SPEEDUP / GRAVITY), in subpixels.
    pub speed_delta: u8,
    /// `bullet_special.turns_max` for the turning/bouncing motions.
    pub turns_max: u8,
}

/// The all-zero template with no special motion.
pub open spec fn blank_template() -> BulletTemplate {
    BulletTemplate {
        spawn_type: 0,
        origin_x: 0,
        origin_y: 0,
        group: 0,
        angle: 0,
        speed: 0,
        patnum: 0,
        count: 0,
        delta: 0,
        special: Bsm::Straight,
        turn_arg: 0,
        speed_delta: 0,
        turns_max: 0,
    }
}

impl Default for BulletTemplate {
    fn default() -> (r: BulletTemplate)
        ensures
            r == blank_template(),
    {
        BulletTemplate {
            spawn_type: 0,
            origin_x: 0,
            origin_y: 0,
            group: 0,
            angle: 0,
            speed: 0,
            patnum: 0,
            count: 0,
            delta: 0,
            special: Bsm::Straight,
            turn_arg: 0,
            speed_delta: 0,
            turns_max: 0,
        }
    }
}

impl BulletTemplate {
    /// A template for `count` bullets of `group` at `speed` and `angle`, the
    /// rest blank.
    pub fn shot(group: u8, count: u8, speed: u8, angle: u8) -> (r: BulletTemplate)
        ensures
            r == (BulletTemplate { group, count, speed, angle, ..blank_template() }),
    {
        BulletTemplate {
            spawn_type: 0,
            origin_x: 0,
            origin_y: 0,
            group,
            angle,
            speed,
            patnum: 0,
            count,
            delta: 0,
            special: Bsm::Straight,
            turn_arg: 0,
            speed_delta: 0,
            turns_max: 0,
        }
    }
}

#[derive(Debug, Clone, Copy)]
pub struct Bullet {
    pub x: i32,
    pub y: i32,
    pub vx: i32,
    pub vy: i32,
    pub angle: u8,
    pub patnum: u8,
    pub active: bool,
    pub speed_cur: i32,
    pub speed_final: i32,
    pub move_flag: MoveFlag,
    pub special: Bsm,
    pub turns_done: u8,
    pub turns_max: u8,
    pub turn_arg: u8,
    pub speed_delta: i32,
    pub decel_time: i32,
    pub decel_delta: i32,
}

pub struct BulletPool {
    pub bullets: Vec<Bullet>,
    pub rng: u32,
}

// ---------------------------------------------------------------------------
// Shared arithmetic

/// One step of the pool's linear congruential generator,
/// `rng * 1103515245 + 12345` modulo 2^32.
pub open spec fn lcg_next(r: u32) -> u32 {
    let m = ((r as nat * 1103515245nat) % 0x1_0000_0000nat) as u32;
    if m + 12345 > u32::MAX { (m + 12345 - 0x1_0000_0000) as u32 } else { (m + 12345) as u32 }
}

/// `n` steps of the generator.
pub open spec fn lcg_iter(r: u32, n: nat) -> u32
    decreases n,
{
    if n == 0 { r } else { lcg_next(lcg_iter(r, (n - 1) as nat)) }
}

/// The byte a generator step yields: bits 16..23 of the new state.
pub open spec fn lcg_byte(r: u32) -> u8 {
    (r >> 16u32) as u8
}

pub fn lcg_step(r: u32) -> (n: u32)
    ensures
        n == lcg_next(r),
{
    r.wrapping_mul(1103515245).wrapping_add(12345)
}

/// `a + b` on angles (mod 256).
pub open spec fn angle_add(a: u8, b: u8) -> u8 {
    if a + b > 255 { (a + b - 256) as u8 } else { (a + b) as u8 }
}

/// `a - b` on angles (mod 256).
pub open spec fn angle_sub(a: u8, b: u8) -> u8 {
    if a >= b { (a - b) as u8 } else { (a - b + 256) as u8 }
}

/// An integer reduced to an angle byte (two's complement truncation).
pub open spec fn to_angle(v: int) -> u8 {
    (v % 256) as u8
}

/// Division truncating toward zero, as Rust's `/` on signed integers.
pub open spec fn tdiv(a: int, b: int) -> int {
    if a >= 0 { a / b } else { -((-a) / b) }
}

pub fn to_angle_exec(v: i32) -> (r: u8)
    ensures
        r == to_angle(v as int),
{
    let m = v % 256;
    if m < 0 { (m + 256) as u8 } else { m as u8 }
}

/// `v / d` truncating toward zero, for `d > 0`.
pub fn tdiv_exec(v: i32, d: i32) -> (r: i32)
    requires
        d > 0,
        v > i32::MIN,
    ensures
        r == tdiv(v as int, d as int),
{
    if v >= 0 { v / d } else { -((-v) / d) }
}

// ---------------------------------------------------------------------------
// Bullet state

/// Playfield edges of the culling box.
pub open spec fn in_cull_box(x: int, y: int) -> bool {
    -256 <= x <= 384 * 16 + 256 && -256 <= y <= 368 * 16 + 256
}

/// Both walls of a double bounce are touched at once.
pub open spec fn double_bounce(b: Bullet) -> bool {
    let side = b.x <= 0 || b.x >= 384 * 16;
    ||| b.special == Bsm::BounceLeftRightTopBottom && side && (b.y <= 0 || b.y >= 368 * 16)
    ||| b.special == Bsm::BounceLeftRightTop && side && b.y <= 0
}

/// An active bullet whose next frame stays within machine integers.
pub open spec fn bullet_ok(b: Bullet) -> bool {
    b.active ==> {
        &&& -0x1000_0000 <= b.x <= 0x1000_0000
        &&& -0x1000_0000 <= b.y <= 0x1000_0000
        &&& -0x100_0000 <= b.vx <= 0x100_0000
        &&& -0x100_0000 <= b.vy <= 0x100_0000
        &&& -0x40_0000 <= b.speed_cur <= 0x40_0000
        &&& -0x40_0000 <= b.speed_final <= 0x40_0000
        &&& 0 <= b.speed_delta <= 255
        &&& (b.move_flag == MoveFlag::Decelerate ==> 1 <= b.decel_time <= 32 && 0 <= b.decel_delta <= 72 && 0 <= b.speed_final <= 64)
        &&& (b.move_flag == MoveFlag::Special ==> b.turns_done == 0 || b.turns_done < b.turns_max)
        &&& (b.move_flag == MoveFlag::Special && double_bounce(b) ==> b.turns_done != 254)
    }
}

pub open spec fn pool_ok(bs: Seq<Bullet>) -> bool {
    forall|i: int| 0 <= i < bs.len() ==> bullet_ok(#[trigger] bs[i])
}

/// A player position the bullet system can aim at.
pub open spec fn target_ok(p: (i32, i32)) -> bool {
    -0x1000_0000 <= p.0 <= 0x1000_0000 && -0x1000_0000 <= p.1 <= 0x1000_0000
}

/// `b` with its velocity recomputed from its angle and current speed.
pub open spec fn with_velocity(b: Bullet) -> Bullet {
    let v = spec_vector2(b.angle, b.speed_cur as int);
    Bullet { vx: v.0 as i32, vy: v.1 as i32, ..b }
}

/// `bullet_turn_complete`: restore the speed, drop to regular motion once out
/// of turns.
pub open spec fn turn_complete(b: Bullet) -> Bullet {
    with_velocity(Bullet {
        speed_cur: b.speed_final,
        move_flag: if b.turns_done >= b.turns_max { MoveFlag::Regular } else { b.move_flag },
        ..b
    })
}

/// Reflect off a side wall.
pub open spec fn turn_x(b: Bullet) -> Bullet {
    let t = (b.turns_done + 1) as u8;
    with_velocity(Bullet {
        turns_done: t,
        angle: angle_sub(0x80, b.angle),
        move_flag: if t >= b.turns_max { MoveFlag::Regular } else { b.move_flag },
        ..b
    })
}

/// Reflect off the top or bottom wall.
pub open spec fn turn_y(b: Bullet) -> Bullet {
    let t = (b.turns_done + 1) as u8;
    with_velocity(Bullet {
        turns_done: t,
        angle: angle_sub(0, b.angle),
        move_flag: if t >= b.turns_max { MoveFlag::Regular } else { b.move_flag },
        ..b
    })
}

pub open spec fn bounce(b: Bullet, lr: bool, tb: bool) -> Bullet {
    let b1 = if lr && (b.x <= 0 || b.x >= 384 * 16) { turn_x(b) } else { b };
    if tb && (b1.y <= 0 || b1.y >= 368 * 16) { turn_y(b1) } else { b1 }
}

pub open spec fn bounce_lrt(b: Bullet) -> Bullet {
    let b1 = if b.x <= 0 || b.x >= 384 * 16 { turn_x(b) } else { b };
    if b1.y <= 0 { turn_y(b1) } else { b1 }
}

/// The angle step toward `target` while decelerating: a quarter of the signed
/// angle difference, truncated toward zero.
pub open spec fn turn_toward(target: u8, angle: u8) -> u8 {
    let dd = angle_sub(target, angle);
    let d = if dd >= 128 { dd - 256 } else { dd as int };
    to_angle(tdiv(d, 4))
}

/// `bullet_update_special`: the velocity change of a special motion.
pub open spec fn special_step(b: Bullet, player: (i32, i32), frame: u16) -> Bullet {
    match b.special {
        Bsm::DecelThenTurnAimed => if b.speed_cur != 0 {
            Bullet { speed_cur: (b.speed_cur - 1) as i32, ..with_velocity(b) }
        } else {
            turn_complete(Bullet {
                turns_done: (b.turns_done + 1) as u8,
                angle: spec_iatan2(player.1 - b.y, player.0 - b.x),
                ..b
            })
        },
        Bsm::DecelThenTurn => if b.speed_cur != 0 {
            Bullet { speed_cur: (b.speed_cur - 1) as i32, ..with_velocity(b) }
        } else {
            turn_complete(Bullet { turns_done: (b.turns_done + 1) as u8, angle: angle_add(b.angle, b.turn_arg), ..b })
        },
        Bsm::Speedup => Bullet { speed_cur: (b.speed_cur + b.speed_delta) as i32, ..with_velocity(b) },
        Bsm::DecelToAngle => if b.speed_cur != 0 {
            let b1 = with_velocity(b);
            let s = if b1.speed_cur > 1 { b1.speed_cur - 2 } else { 0 };
            let a = if s < 32 { angle_add(b1.angle, turn_toward(b1.turn_arg, b1.angle)) } else { b1.angle };
            Bullet { speed_cur: s as i32, angle: a, ..b1 }
        } else {
            with_velocity(Bullet { angle: b.turn_arg, speed_cur: b.speed_final, move_flag: MoveFlag::Regular, ..b })
        },
        Bsm::BounceLeftRight => bounce(b, true, false),
        Bsm::BounceTopBottom => bounce(b, false, true),
        Bsm::BounceLeftRightTopBottom => bounce(b, true, true),
        Bsm::BounceLeftRightTop => bounce_lrt(b),
        Bsm::Gravity => if frame % 2 != 0 { Bullet { vy: (b.vy + b.speed_delta) as i32, ..b } } else { b },
        Bsm::Straight => b,
    }
}

/// The decelerate ramp: speed eases from the base speed to the final speed
/// over `DECEL_FRAMES` frames.
pub open spec fn decel_step(b: Bullet) -> Bullet {
    let t = b.decel_time - 1;
    let s = b.speed_final + (t * b.decel_delta) / 32;
    with_velocity(Bullet {
        decel_time: t as i32,
        speed_cur: if t <= 0 { b.speed_final } else { s as i32 },
        move_flag: if t <= 0 { MoveFlag::Regular } else { b.move_flag },
        ..b
    })
}

/// One frame of a bullet: motion model, step, then cull off-screen bullets.
pub open spec fn bullet_step(b: Bullet, player: (i32, i32), frame: u16) -> Bullet {
    if !b.active {
        b
    } else {
        let b1 = match b.move_flag {
            MoveFlag::Special => special_step(b, player, frame),
            MoveFlag::Decelerate => decel_step(b),
            MoveFlag::Regular => b,
        };
        let x = b1.x + b1.vx;
        let y = b1.y + b1.vy;
        Bullet { x: x as i32, y: y as i32, active: in_cull_box(x, y), ..b1 }
    }
}

// ---------------------------------------------------------------------------
// Spawning

/// The bullet `add` sets up for `t` at (`x`, `y`).
#[verifier::opaque]
pub open spec fn make_bullet(t: BulletTemplate, x: int, y: int, angle: u8, speed: int, is_stack: bool) -> Bullet {
    let special = t.special != Bsm::Straight;
    let decel = !special && !is_stack && speed < 64;
    let speed_cur = if decel { 72 } else { speed };
    let v = spec_vector2(angle, speed_cur);
    Bullet {
        x: x as i32,
        y: y as i32,
        vx: v.0 as i32,
        vy: v.1 as i32,
        angle,
        patnum: t.patnum,
        active: true,
        speed_cur: speed_cur as i32,
        speed_final: speed as i32,
        move_flag: if special { MoveFlag::Special } else if decel { MoveFlag::Decelerate } else { MoveFlag::Regular },
        special: t.special,
        turns_done: 0,
        turns_max: t.turns_max,
        turn_arg: t.turn_arg,
        speed_delta: t.speed_delta as i32,
        decel_time: if decel { 32 } else { 0 },
        decel_delta: (if decel { 72 - speed } else { 0 }) as i32,
    }
}

/// First free slot of the pool.
pub open spec fn first_free(bs: Seq<Bullet>, from: int) -> Option<int>
    decreases bs.len() - from,
{
    if from < 0 || from >= bs.len() {
        None
    } else if !bs[from].active {
        Some(from)
    } else {
        first_free(bs, from + 1)
    }
}

/// The pool after adding `b`: into the first free slot, else appended.
pub open spec fn pool_add(bs: Seq<Bullet>, b: Bullet) -> Seq<Bullet> {
    match first_free(bs, 0) {
        Some(i) => bs.update(i, b),
        None => bs.push(b),
    }
}

/// The pool after adding one bullet per shot (angle, speed, is_stack).
pub open spec fn pool_add_all(bs: Seq<Bullet>, t: BulletTemplate, x: int, y: int, shots: Seq<(u8, int, bool)>) -> Seq<Bullet>
    decreases shots.len(),
{
    if shots.len() == 0 {
        bs
    } else {
        let s = shots.last();
        pool_add(pool_add_all(bs, t, x, y, shots.drop_last()), make_bullet(t, x, y, s.0, s.1, s.2))
    }
}

pub open spec fn is_aimed(g: u8) -> bool {
    g == group::SINGLE_AIMED || g == group::RING_AIMED || g == group::SPREAD_AIMED || g == group::STACK_AIMED
        || g == group::FORCESINGLE_AIMED || g == group::RANDOM_CONSTRAINED_ANGLE_AIMED
}

/// The shots a template fires around angle `base`, and the generator state
/// afterwards.
#[verifier::opaque]
pub open spec fn spawn_shots(t: BulletTemplate, base: u8, rng: u32) -> (Seq<(u8, int, bool)>, u32) {
    let count: int = if t.count == 0 { 1 } else { t.count as int };
    let speed = t.speed as int;
    let g = t.group;
    if g == group::RING || g == group::RING_AIMED {
        (Seq::new(count as nat, |i: int| (angle_add(base, ((i * 256) / count) as u8), speed, false)), rng)
    } else if g == group::SPREAD || g == group::SPREAD_AIMED {
        (Seq::new(count as nat, |i: int| (angle_add(base, to_angle(tdiv((2 * i - (count - 1)) * t.delta, 2))), speed, false)), rng)
    } else if g == group::STACK || g == group::STACK_AIMED {
        (Seq::new(count as nat, |i: int| (base, speed + i * t.delta, true)), rng)
    } else if g == group::RANDOM_ANGLE || g == group::RANDOM_ANGLE_AND_SPEED {
        (Seq::new(count as nat, |i: int| (lcg_byte(lcg_iter(rng, (i + 1) as nat)), speed, false)), lcg_iter(rng, count as nat))
    } else if g == group::FORCESINGLE_RANDOM_ANGLE {
        (seq![(lcg_byte(lcg_next(rng)), speed, false)], lcg_next(rng))
    } else {
        (seq![(base, speed, false)], rng)
    }
}

/// The aim offset of a template fired from (`ox`, `oy`) at `player`.
pub open spec fn aim(t: BulletTemplate, ox: int, oy: int, player: (i32, i32)) -> u8 {
    if is_aimed(t.group) { spec_iatan2(player.1 - oy, player.0 - ox) } else { 0 }
}

/// The pool (bullets and generator state) after firing `t` from (`ex`, `ey`).
pub open spec fn pool_after_spawn(bs: Seq<Bullet>, rng: u32, t: BulletTemplate, ex: int, ey: int, player: (i32, i32)) -> (Seq<Bullet>, u32) {
    let ox = ex + t.origin_x;
    let oy = ey + t.origin_y;
    let shots = spawn_shots(t, angle_add(t.angle, aim(t, ox, oy, player)), rng);
    (pool_add_all(bs, t, ox, oy, shots.0), shots.1)
}

/// Every bullet deactivated, nothing else changed.
pub open spec fn cleared(bs: Seq<Bullet>) -> Seq<Bullet> {
    bs.map_values(|b: Bullet| Bullet { active: false, ..b })
}

/// A firing position the bullet system can spawn at.
pub open spec fn origin_ok(x: int, y: int) -> bool {
    -0x0800_0000 <= x <= 0x0800_0000 && -0x0800_0000 <= y <= 0x0800_0000
}

pub proof fn lemma_make_bullet_ok(t: BulletTemplate, x: int, y: int, angle: u8, speed: int, is_stack: bool)
    requires
        -0x1000_0000 <= x <= 0x1000_0000,
        -0x1000_0000 <= y <= 0x1000_0000,
        0 <= speed <= 0x1_0000,
    ensures
        bullet_ok(make_bullet(t, x, y, angle, speed, is_stack)),
{
    reveal(make_bullet);
    let decel = t.special == Bsm::Straight && !is_stack && speed < 64;
    let speed_cur = if decel { 72 } else { speed };
    lemma_vector2_fits(angle, speed_cur);
}

pub proof fn lemma_pool_add_ok(bs: Seq<Bullet>, b: Bullet)
    requires
        pool_ok(bs),
        bullet_ok(b),
    ensures
        pool_ok(pool_add(bs, b)),
        pool_add(bs, b).len() >= bs.len(),
{
    match first_free(bs, 0) {
        Some(i) => {
            lemma_first_free_in(bs, 0);
        },
        None => {},
    }
}

pub proof fn lemma_first_free_in(bs: Seq<Bullet>, from: int)
    requires
        from >= 0,
    ensures
        first_free(bs, from) matches Some(i) ==> from <= i < bs.len() && !bs[i].active,
        first_free(bs, from) is None ==> forall|j: int| from <= j < bs.len() ==> #[trigger] bs[j].active,
    decreases bs.len() - from,
{
    if from >= 0 && from < bs.len() && bs[from].active {
        lemma_first_free_in(bs, from + 1);
    }
}

/// `bullet_ok`, computed.
fn bullet_ready(b: &Bullet) -> (r: bool)
    ensures
        r == bullet_ok(*b),
{
    if !b.active {
        return true;
    }
    let side = b.x <= 0 || b.x >= 384 * 16;
    let double = (b.special == Bsm::BounceLeftRightTopBottom && side && (b.y <= 0 || b.y >= 368 * 16))
        || (b.special == Bsm::BounceLeftRightTop && side && b.y <= 0);
    -0x1000_0000 <= b.x && b.x <= 0x1000_0000 && -0x1000_0000 <= b.y && b.y <= 0x1000_0000
        && -0x100_0000 <= b.vx && b.vx <= 0x100_0000 && -0x100_0000 <= b.vy && b.vy <= 0x100_0000
        && -0x40_0000 <= b.speed_cur && b.speed_cur <= 0x40_0000
        && -0x40_0000 <= b.speed_final && b.speed_final <= 0x40_0000
        && 0 <= b.speed_delta && b.speed_delta <= 255
        && (b.move_flag != MoveFlag::Decelerate || (1 <= b.decel_time && b.decel_time <= 32 && 0 <= b.decel_delta
            && b.decel_delta <= 72 && 0 <= b.speed_final && b.speed_final <= 64))
        && (b.move_flag != MoveFlag::Special || b.turns_done == 0 || b.turns_done < b.turns_max)
        && (!(b.move_flag == MoveFlag::Special && double) || b.turns_done != 254)
}

impl BulletPool {
    pub fn new() -> (r: Self)
        ensures
            r.bullets@.len() == 0,
            r.rng == 0x2345_6789,
    {
        BulletPool { bullets: Vec::new(), rng: 0x2345_6789 }
    }

    /// Number of active bullets.
    pub open spec fn spec_active_count(bs: Seq<Bullet>) -> nat
        decreases bs.len(),
    {
        if bs.len() == 0 {
            0
        } else {
            Self::spec_active_count(bs.drop_last()) + if bs.last().active { 1nat } else { 0nat }
        }
    }

    /// Whether every bullet's next frame stays within machine integers
    /// (`pool_ok`).
    pub fn pool_ready(&self) -> (r: bool)
        ensures
            r == pool_ok(self.bullets@),
    {
        let n = self.bullets.len();
        let mut i: usize = 0;
        while i < n
            invariant
                n == self.bullets@.len(),
                i <= n,
                forall|j: int| 0 <= j < i ==> bullet_ok(#[trigger] self.bullets@[j]),
            decreases n - i,
        {
            let b = self.bullets[i];
            if !bullet_ready(&b) {
                assert(!bullet_ok(self.bullets@[i as int]));
                return false;
            }
            i = i + 1;
        }
        true
    }

    pub fn active_count(&self) -> (r: usize)
        ensures
            r == Self::spec_active_count(self.bullets@),
    {
        let mut n: usize = 0;
        let mut i: usize = 0;
        while i < self.bullets.len()
            invariant
                i <= self.bullets@.len(),
                n == Self::spec_active_count(self.bullets@.take(i as int)),
                n <= i,
            decreases self.bullets@.len() - i,
        {
            assert(self.bullets@.take((i + 1) as int).drop_last() =~= self.bullets@.take(i as int));
            if self.bullets[i].active {
                n = n + 1;
            }
            i = i + 1;
        }
        assert(self.bullets@.take(i as int) =~= self.bullets@);
        n
    }

    /// Deactivate every bullet (the screen clear of bombs, deaths and boss
    /// phase changes).
    pub(crate) fn clear_all(&mut self)
        ensures
            final(self).bullets@ == cleared(old(self).bullets@),
            final(self).rng == old(self).rng,
            pool_ok(final(self).bullets@),
    {
        let mut i: usize = 0;
        let ghost old_bs = self.bullets@;
        while i < self.bullets.len()
            invariant
                i <= self.bullets@.len(),
                self.bullets@.len() == old_bs.len(),
                forall|j: int| 0 <= j < i ==> #[trigger] self.bullets@[j] == (Bullet { active: false, ..old_bs[j] }),
                forall|j: int| i <= j < self.bullets@.len() ==> #[trigger] self.bullets@[j] == old_bs[j],
                self.rng == old(self).rng,
                old_bs == old(self).bullets@,
            decreases self.bullets@.len() - i,
        {
            let mut b = self.bullets[i];
            b.active = false;
            self.bullets.set(i, b);
            i = i + 1;
        }
        assert(self.bullets@ =~= cleared(old_bs));
    }

    fn rand8(&mut self) -> (r: u8)
        ensures
            final(self).rng == lcg_next(old(self).rng),
            r == lcg_byte(final(self).rng),
            final(self).bullets@ == old(self).bullets@,
    {
        self.rng = lcg_step(self.rng);
        (self.rng >> 16u32) as u8
    }

    /// Add one bullet, setting up its motion state from `t`.
    fn add(&mut self, t: &BulletTemplate, x: i32, y: i32, angle: u8, speed: i32, is_stack: bool)
        requires
            -0x1000_0000 <= x <= 0x1000_0000,
            -0x1000_0000 <= y <= 0x1000_0000,
            0 <= speed <= 0x1_0000,
        ensures
            final(self).bullets@ == pool_add(old(self).bullets@, make_bullet(*t, x as int, y as int, angle, speed as int, is_stack)),
            final(self).rng == old(self).rng,
            final(self).bullets@.len() >= old(self).bullets@.len(),
    {
        let special = t.special != Bsm::Straight;
        let decel = !special && !is_stack && speed < DECEL_THRESHOLD;
        let speed_cur = if decel { DECEL_BASE } else { speed };
        proof {
            lemma_vector2_fits(angle, speed_cur as int);
        }
        let v = vector2(angle, speed_cur);
        let b = Bullet {
            x,
            y,
            vx: v.0,
            vy: v.1,
            angle,
            patnum: t.patnum,
            active: true,
            speed_cur,
            speed_final: speed,
            move_flag: if special { MoveFlag::Special } else if decel { MoveFlag::Decelerate } else { MoveFlag::Regular },
            special: t.special,
            turns_done: 0,
            turns_max: t.turns_max,
            turn_arg: t.turn_arg,
            speed_delta: t.speed_delta as i32,
            decel_time: if decel { DECEL_FRAMES } else { 0 },
            decel_delta: if decel { DECEL_BASE - speed } else { 0 },
        };
        assert(b == make_bullet(*t, x as int, y as int, angle, speed as int, is_stack)) by {
            reveal(make_bullet);
        }
        let mut i: usize = 0;
        while i < self.bullets.len()
            invariant
                b == make_bullet(*t, x as int, y as int, angle, speed as int, is_stack),
                i <= self.bullets@.len(),
                self.bullets@ == old(self).bullets@,
                self.rng == old(self).rng,
                first_free(old(self).bullets@, 0) == first_free(old(self).bullets@, i as int),
            decreases self.bullets@.len() - i,
        {
            if !self.bullets[i].active {
                assert(first_free(old(self).bullets@, i as int) == Some(i as int));
                self.bullets.set(i, b);
                return;
            }
            i = i + 1;
        }
        self.bullets.push(b);
    }


    /// Shot `i` of a multi-bullet group (ring, spread, stack or random).
    fn shot_at(&mut self, t: &BulletTemplate, base: u8, count: i32, i: i32, Ghost(rng0): Ghost<u32>) -> (r: (u8, i32, bool))
        requires
            0 <= i < count,
            count == (if t.count == 0 { 1 } else { t.count as int }),
            t.group == group::RING || t.group == group::RING_AIMED || t.group == group::SPREAD
                || t.group == group::SPREAD_AIMED || t.group == group::STACK || t.group == group::STACK_AIMED
                || t.group == group::RANDOM_ANGLE || t.group == group::RANDOM_ANGLE_AND_SPEED,
            (t.group == group::RANDOM_ANGLE || t.group == group::RANDOM_ANGLE_AND_SPEED) ==> old(self).rng == lcg_iter(rng0, i as nat),
        ensures
            (r.0, r.1 as int, r.2) == spawn_shots(*t, base, rng0).0[i as int],
            0 <= r.1 <= 0x1_0000,
            final(self).bullets@ == old(self).bullets@,
            (t.group == group::RANDOM_ANGLE || t.group == group::RANDOM_ANGLE_AND_SPEED) ==> final(self).rng == lcg_iter(rng0, (i + 1) as nat),
            !(t.group == group::RANDOM_ANGLE || t.group == group::RANDOM_ANGLE_AND_SPEED) ==> final(self).rng == old(self).rng,
    {
        reveal(spawn_shots);
        let g = t.group;
        let speed = t.speed as i32;
        if g == group::RING || g == group::RING_AIMED {
            assert(0 <= i * 256 < count * 256) by (nonlinear_arith) requires 0 <= i < count;
            assert((i * 256) / (count as int) < 256) by (nonlinear_arith) requires 0 <= i < count, count > 0;
            (base.wrapping_add(((i * 0x100) / count) as u8), speed, false)
        } else if g == group::SPREAD || g == group::SPREAD_AIMED {
            let d = t.delta as i32;
            assert(-0x1_0000 <= (2 * i - (count - 1)) * d <= 0x1_0000) by (nonlinear_arith)
                requires 0 <= i < count, count <= 255, 0 <= d <= 255;
            let off = tdiv_exec((2 * i - (count - 1)) * d, 2);
            (base.wrapping_add(to_angle_exec(off)), speed, false)
        } else if g == group::STACK || g == group::STACK_AIMED {
            let d = t.delta as i32;
            assert(0 <= i * d <= 255 * 255) by (nonlinear_arith) requires 0 <= i < 255, 0 <= d <= 255;
            (base, speed + i * d, true)
        } else {
            let r = self.rand8();
            (r, speed, false)
        }
    }

    /// Spawn bullets from `t`, fired by an entity at (`ex`, `ey`) subpixels,
    /// aiming at `player` for `_AIMED` groups.
    #[verifier::rlimit(30)]
    pub fn spawn(&mut self, t: &BulletTemplate, ex: i32, ey: i32, player: (i32, i32))
        requires
            origin_ok(ex as int, ey as int),
        ensures
            (final(self).bullets@, final(self).rng) == pool_after_spawn(old(self).bullets@, old(self).rng, *t, ex as int, ey as int, player),
            pool_ok(old(self).bullets@) ==> pool_ok(final(self).bullets@),
            final(self).bullets@.len() >= old(self).bullets@.len(),
    {
        let ox = ex + t.origin_x as i32;
        let oy = ey + t.origin_y as i32;
        let speed = t.speed as i32;
        let count: i32 = if t.count == 0 { 1 } else { t.count as i32 };
        let g = t.group;
        let aimed = g == group::SINGLE_AIMED || g == group::RING_AIMED || g == group::SPREAD_AIMED
            || g == group::STACK_AIMED || g == group::FORCESINGLE_AIMED || g == group::RANDOM_CONSTRAINED_ANGLE_AIMED;
        let a = if aimed { iatan2_wide(player.1 as i64 - oy as i64, player.0 as i64 - ox as i64) } else { 0 };
        let base = t.angle.wrapping_add(a);
        if g == group::RING || g == group::RING_AIMED || g == group::SPREAD || g == group::SPREAD_AIMED
            || g == group::STACK || g == group::STACK_AIMED || g == group::RANDOM_ANGLE
            || g == group::RANDOM_ANGLE_AND_SPEED {
            self.spawn_many(t, ox, oy, base, count);
        } else {
            let ghost rng0 = self.rng;
            let ghost bs0 = self.bullets@;
            let ghost shots = spawn_shots(*t, base, rng0);
            let angle = if g == group::FORCESINGLE_RANDOM_ANGLE { self.rand8() } else { base };
            assert(shots.0.len() == 1 && shots.0[0] == (angle, speed as int, false) && self.rng == shots.1) by {
                reveal(spawn_shots);
            }
            assert(shots.0.drop_last() =~= Seq::<(u8, int, bool)>::empty());
            self.add(t, ox, oy, angle, speed, false);
            assert(pool_add_all(bs0, *t, ox as int, oy as int, shots.0.drop_last()) == bs0);
            assert(pool_add_all(bs0, *t, ox as int, oy as int, shots.0)
                == pool_add(bs0, make_bullet(*t, ox as int, oy as int, angle, speed as int, false)));
            proof {
                lemma_make_bullet_ok(*t, ox as int, oy as int, angle, speed as int, false);
                if pool_ok(bs0) {
                    lemma_pool_add_ok(bs0, make_bullet(*t, ox as int, oy as int, angle, speed as int, false));
                }
            }
        }
    }

    /// The multi-bullet groups: one bullet per shot of `spawn_shots`.
    fn spawn_many(&mut self, t: &BulletTemplate, ox: i32, oy: i32, base: u8, count: i32)
        requires
            count == (if t.count == 0 { 1 } else { t.count as int }),
            -0x0900_0000 <= ox <= 0x0900_0000,
            -0x0900_0000 <= oy <= 0x0900_0000,
            t.group == group::RING || t.group == group::RING_AIMED || t.group == group::SPREAD
                || t.group == group::SPREAD_AIMED || t.group == group::STACK || t.group == group::STACK_AIMED
                || t.group == group::RANDOM_ANGLE || t.group == group::RANDOM_ANGLE_AND_SPEED,
        ensures
            ({
                let shots = spawn_shots(*t, base, old(self).rng);
                &&& final(self).bullets@ == pool_add_all(old(self).bullets@, *t, ox as int, oy as int, shots.0)
                &&& final(self).rng == shots.1
            }),
            pool_ok(old(self).bullets@) ==> pool_ok(final(self).bullets@),
            final(self).bullets@.len() >= old(self).bullets@.len(),
    {
        let ghost rng0 = self.rng;
        let ghost bs0 = self.bullets@;
        let ghost shots = spawn_shots(*t, base, rng0);
        let ghost random = t.group == group::RANDOM_ANGLE || t.group == group::RANDOM_ANGLE_AND_SPEED;
        assert(shots.0.len() == count && (random ==> shots.1 == lcg_iter(rng0, count as nat)) && (!random ==> shots.1 == rng0)) by {
            reveal(spawn_shots);
        }
        let mut i: i32 = 0;
        while i < count
            invariant
                0 <= i <= count,
                count == (if t.count == 0 { 1 } else { t.count as int }),
                shots == spawn_shots(*t, base, rng0),
                shots.0.len() == count,
                random == (t.group == group::RANDOM_ANGLE || t.group == group::RANDOM_ANGLE_AND_SPEED),
                t.group == group::RING || t.group == group::RING_AIMED || t.group == group::SPREAD
                    || t.group == group::SPREAD_AIMED || t.group == group::STACK || t.group == group::STACK_AIMED
                    || random,
                random ==> self.rng == lcg_iter(rng0, i as nat),
                !random ==> self.rng == rng0,
                self.bullets@ == pool_add_all(bs0, *t, ox as int, oy as int, shots.0.take(i as int)),
                self.bullets@.len() >= bs0.len(),
                pool_ok(bs0) ==> pool_ok(self.bullets@),
                -0x0900_0000 <= ox <= 0x0900_0000,
                -0x0900_0000 <= oy <= 0x0900_0000,
            decreases count - i,
        {
            let ghost before = self.bullets@;
            let (angle, sp, stack) = self.shot_at(t, base, count, i, Ghost(rng0));
            assert(shots.0.take(i + 1).drop_last() =~= shots.0.take(i as int));
            assert(shots.0.take(i + 1).last() == shots.0[i as int]);
            self.add(t, ox, oy, angle, sp, stack);
            proof {
                lemma_make_bullet_ok(*t, ox as int, oy as int, angle, sp as int, stack);
                if pool_ok(bs0) {
                    lemma_pool_add_ok(before, make_bullet(*t, ox as int, oy as int, angle, sp as int, stack));
                }
            }
            i = i + 1;
        }
        assert(shots.0.take(count as int) =~= shots.0);
    }
}

impl Bullet {
    fn set_velocity(&mut self)
        requires
            -0x40_0000 <= old(self).speed_cur <= 0x40_0000,
        ensures
            *final(self) == with_velocity(*old(self)),
            -0x80_0000 <= final(self).vx <= 0x80_0000,
            -0x80_0000 <= final(self).vy <= 0x80_0000,
    {
        proof {
            lemma_vector2_fits(self.angle, self.speed_cur as int);
        }
        let v = vector2(self.angle, self.speed_cur);
        self.vx = v.0;
        self.vy = v.1;
    }

    /// `bullet_turn_complete`: finish a decel-turn, restore speed, drop to
    /// regular once out of turns.
    fn turn_complete(&mut self)
        requires
            -0x40_0000 <= old(self).speed_final <= 0x40_0000,
        ensures
            *final(self) == turn_complete(*old(self)),
    {
        self.speed_cur = self.speed_final;
        if self.turns_done >= self.turns_max {
            self.move_flag = MoveFlag::Regular;
        }
        self.set_velocity();
    }

    fn turn_x(&mut self)
        requires
            old(self).turns_done < 255,
            -0x40_0000 <= old(self).speed_cur <= 0x40_0000,
        ensures
            *final(self) == turn_x(*old(self)),
    {
        self.turns_done = self.turns_done + 1;
        self.angle = 0x80u8.wrapping_sub(self.angle);
        if self.turns_done >= self.turns_max {
            self.move_flag = MoveFlag::Regular;
        }
        self.set_velocity();
    }

    fn turn_y(&mut self)
        requires
            old(self).turns_done < 255,
            -0x40_0000 <= old(self).speed_cur <= 0x40_0000,
        ensures
            *final(self) == turn_y(*old(self)),
    {
        self.turns_done = self.turns_done + 1;
        self.angle = 0u8.wrapping_sub(self.angle);
        if self.turns_done >= self.turns_max {
            self.move_flag = MoveFlag::Regular;
        }
        self.set_velocity();
    }

    fn bounce(&mut self, lr: bool, tb: bool)
        requires
            bullet_ok(*old(self)),
            old(self).active,
            old(self).move_flag == MoveFlag::Special,
            lr && tb ==> old(self).special == Bsm::BounceLeftRightTopBottom,
        ensures
            *final(self) == bounce(*old(self), lr, tb),
    {
        if lr && (self.x <= 0 || self.x >= PLAYFIELD_W * SUBPIXEL) {
            self.turn_x();
        }
        if tb && (self.y <= 0 || self.y >= PLAYFIELD_H * SUBPIXEL) {
            self.turn_y();
        }
    }

    fn bounce_lrt(&mut self)
        requires
            bullet_ok(*old(self)),
            old(self).active,
            old(self).move_flag == MoveFlag::Special,
            old(self).special == Bsm::BounceLeftRightTop,
        ensures
            *final(self) == bounce_lrt(*old(self)),
    {
        if self.x <= 0 || self.x >= PLAYFIELD_W * SUBPIXEL {
            self.turn_x();
        }
        if self.y <= 0 {
            self.turn_y();
        }
    }

    /// `bullet_update_special`: per-frame velocity for the special motions.
    fn update_special(&mut self, player: (i32, i32), frame: u16)
        requires
            bullet_ok(*old(self)),
            old(self).active,
            old(self).move_flag == MoveFlag::Special,
        ensures
            *final(self) == special_step(*old(self), player, frame),
    {
        match self.special {
            Bsm::DecelThenTurnAimed => {
                if self.speed_cur != 0 {
                    self.set_velocity();
                    self.speed_cur = self.speed_cur - 1;
                } else {
                    self.turns_done = self.turns_done + 1;
                    self.angle = iatan2_wide(player.1 as i64 - self.y as i64, player.0 as i64 - self.x as i64);
                    self.turn_complete();
                }
            },
            Bsm::DecelThenTurn => {
                if self.speed_cur != 0 {
                    self.set_velocity();
                    self.speed_cur = self.speed_cur - 1;
                } else {
                    self.turns_done = self.turns_done + 1;
                    self.angle = self.angle.wrapping_add(self.turn_arg);
                    self.turn_complete();
                }
            },
            Bsm::Speedup => {
                self.set_velocity();
                self.speed_cur = self.speed_cur + self.speed_delta;
            },
            Bsm::DecelToAngle => {
                if self.speed_cur != 0 {
                    self.set_velocity();
                    if self.speed_cur > 1 {
                        self.speed_cur = self.speed_cur - 2;
                    } else {
                        self.speed_cur = 0;
                    }
                    if self.speed_cur < 2 * SUBPIXEL {
                        let dd = self.turn_arg.wrapping_sub(self.angle);
                        let d: i32 = if dd >= 128 { dd as i32 - 256 } else { dd as i32 };
                        let step = to_angle_exec(tdiv_exec(d, 4));
                        self.angle = self.angle.wrapping_add(step);
                    }
                } else {
                    self.angle = self.turn_arg;
                    self.speed_cur = self.speed_final;
                    self.move_flag = MoveFlag::Regular;
                    self.set_velocity();
                }
            },
            Bsm::BounceLeftRight => self.bounce(true, false),
            Bsm::BounceTopBottom => self.bounce(false, true),
            Bsm::BounceLeftRightTopBottom => self.bounce(true, true),
            Bsm::BounceLeftRightTop => self.bounce_lrt(),
            Bsm::Gravity => {
                if frame % 2 != 0 {
                    self.vy = self.vy + self.speed_delta;
                }
            },
            Bsm::Straight => {},
        }
    }
}

impl BulletPool {
    /// Advance every bullet one frame (`bullets_update`): apply its motion
    /// model, step, then cull off-screen bullets. `player` drives aimed turns;
    /// `frame` drives the gravity cadence.
    pub fn update(&mut self, player: (i32, i32), frame: u16)
        requires
            pool_ok(old(self).bullets@),
        ensures
            final(self).bullets@.len() == old(self).bullets@.len(),
            forall|i: int| 0 <= i < final(self).bullets@.len()
                ==> #[trigger] final(self).bullets@[i] == bullet_step(old(self).bullets@[i], player, frame),
            forall|i: int| 0 <= i < final(self).bullets@.len() && (#[trigger] final(self).bullets@[i]).active
                ==> in_cull_box(final(self).bullets@[i].x as int, final(self).bullets@[i].y as int),
            final(self).rng == old(self).rng,
    {
        let n = self.bullets.len();
        let mut i: usize = 0;
        while i < n
            invariant
                i <= n,
                n == self.bullets@.len(),
                n == old(self).bullets@.len(),
                self.rng == old(self).rng,
                    pool_ok(old(self).bullets@),
                forall|j: int| i <= j < n ==> #[trigger] self.bullets@[j] == old(self).bullets@[j],
                forall|j: int| 0 <= j < i ==> #[trigger] self.bullets@[j] == bullet_step(old(self).bullets@[j], player, frame),
                forall|j: int| 0 <= j < i && (#[trigger] self.bullets@[j]).active
                    ==> in_cull_box(self.bullets@[j].x as int, self.bullets@[j].y as int),
            decreases n - i,
        {
            let mut b = self.bullets[i];
            assert(bullet_ok(old(self).bullets@[i as int]));
            if b.active {
                match b.move_flag {
                    MoveFlag::Special => b.update_special(player, frame),
                    MoveFlag::Decelerate => {
                        b.decel_time = b.decel_time - 1;
                        assert(0 <= b.decel_time * b.decel_delta <= 32 * 72) by (nonlinear_arith)
                            requires 0 <= b.decel_time <= 31, 0 <= b.decel_delta <= 72;
                        b.speed_cur = b.speed_final + (b.decel_time * b.decel_delta) / DECEL_FRAMES;
                        if b.decel_time <= 0 {
                            b.speed_cur = b.speed_final;
                            b.move_flag = MoveFlag::Regular;
                        }
                        b.set_velocity();
                    },
                    MoveFlag::Regular => {},
                }
                proof {
                    lemma_special_step_bounds(old(self).bullets@[i as int], player, frame);
                }
                b.x = b.x + b.vx;
                b.y = b.y + b.vy;
                if b.x < -CULL_MARGIN || b.x > PLAYFIELD_W * SUBPIXEL + CULL_MARGIN || b.y < -CULL_MARGIN
                    || b.y > PLAYFIELD_H * SUBPIXEL + CULL_MARGIN {
                    b.active = false;
                }
            }
            self.bullets.set(i, b);
            i = i + 1;
        }
    }
}

/// Every bullet moves by its velocity. An inactive bullet stays as it is;
/// an active one takes its motion step (a special motion or the decelerate
/// ramp, which change its velocity and motion state but not its position),
/// moves by the velocity that step leaves, and stays active exactly while it
/// is inside the cull box. A regular bullet keeps its velocity.
pub proof fn law_bullet_motion(b: Bullet, player: (i32, i32), frame: u16)
    requires
        bullet_ok(b),
    ensures
        !b.active ==> bullet_step(b, player, frame) == b,
        b.active ==> ({
            let n = bullet_step(b, player, frame);
            &&& n.x == b.x + n.vx
            &&& n.y == b.y + n.vy
            &&& n.active == in_cull_box(n.x as int, n.y as int)
        }),
        b.active && b.move_flag == MoveFlag::Regular ==> bullet_step(b, player, frame).vx == b.vx
            && bullet_step(b, player, frame).vy == b.vy,
{
    if b.active {
        lemma_special_step_bounds(b, player, frame);
    }
}

/// The motion model keeps positions and velocities within reach of the step.
pub proof fn lemma_special_step_bounds(b: Bullet, player: (i32, i32), frame: u16)
    requires
        bullet_ok(b),
        b.active,
    ensures
        ({
            let b1 = match b.move_flag {
                MoveFlag::Special => special_step(b, player, frame),
                MoveFlag::Decelerate => decel_step(b),
                MoveFlag::Regular => b,
            };
            &&& -0x1000_0000 <= b1.x <= 0x1000_0000
            &&& -0x1000_0000 <= b1.y <= 0x1000_0000
            &&& -0x100_0000 - 255 <= b1.vx <= 0x100_0000 + 255
            &&& -0x100_0000 - 255 <= b1.vy <= 0x100_0000 + 255
        }),
{
    lemma_vector2_fits(b.angle, b.speed_cur as int);
    lemma_vector2_fits(b.angle, b.speed_final as int);
    lemma_vector2_fits(b.turn_arg, b.speed_final as int);
    lemma_vector2_fits(angle_add(b.angle, b.turn_arg), b.speed_final as int);
    lemma_vector2_fits(spec_iatan2(player.1 - b.y, player.0 - b.x), b.speed_final as int);
    lemma_vector2_fits(angle_sub(0x80, b.angle), b.speed_cur as int);
    lemma_vector2_fits(angle_sub(0, b.angle), b.speed_cur as int);
    let t1 = turn_x(b);
    lemma_vector2_fits(angle_sub(0, t1.angle), t1.speed_cur as int);
    if b.move_flag == MoveFlag::Decelerate {
        let t = b.decel_time - 1;
        assert(0 <= t * b.decel_delta <= 32 * 72) by (nonlinear_arith)
            requires 0 <= t <= 31, 0 <= b.decel_delta <= 72;
        lemma_vector2_fits(b.angle, b.speed_final + (t * b.decel_delta) / 32);
    }
}

proof fn lemma_full_no_free(bs: Seq<Bullet>, from: int)
    requires
        forall|i: int| 0 <= i < bs.len() ==> #[trigger] bs[i].active,
    ensures
        first_free(bs, from) is None,
    decreases bs.len() - from,
{
    if 0 <= from < bs.len() {
        lemma_full_no_free(bs, from + 1);
    }
}

/// Into a pool with no free slot the shots' bullets are appended in order.
proof fn lemma_add_all_full(bs: Seq<Bullet>, t: BulletTemplate, x: int, y: int, shots: Seq<(u8, int, bool)>)
    requires
        forall|i: int| 0 <= i < bs.len() ==> #[trigger] bs[i].active,
    ensures
        pool_add_all(bs, t, x, y, shots).len() == bs.len() + shots.len(),
        forall|i: int| 0 <= i < bs.len() ==> #[trigger] pool_add_all(bs, t, x, y, shots)[i] == bs[i],
        forall|j: int| 0 <= j < shots.len() ==> #[trigger] pool_add_all(bs, t, x, y, shots)[bs.len() + j]
            == make_bullet(t, x, y, shots[j].0, shots[j].1, shots[j].2),
    decreases shots.len(),
{
    reveal(make_bullet);
    if shots.len() > 0 {
        let sd = shots.drop_last();
        lemma_add_all_full(bs, t, x, y, sd);
        let r = pool_add_all(bs, t, x, y, sd);
        assert forall|i: int| 0 <= i < r.len() implies #[trigger] r[i].active by {
            if i >= bs.len() {
                let j = i - bs.len();
                assert(0 <= j < sd.len());
                assert(r[bs.len() + j] == make_bullet(t, x, y, sd[j].0, sd[j].1, sd[j].2));
                assert(make_bullet(t, x, y, sd[j].0, sd[j].1, sd[j].2).active);
                assert(r[i] == r[bs.len() + j]);
            } else {
                assert(r[i] == bs[i]);
            }
        }
        lemma_full_no_free(r, 0);
        let s = shots.last();
        assert(pool_add_all(bs, t, x, y, shots) == r.push(make_bullet(t, x, y, s.0, s.1, s.2)));
        assert forall|j: int| 0 <= j < shots.len() implies #[trigger] pool_add_all(bs, t, x, y, shots)[bs.len() + j]
            == make_bullet(t, x, y, shots[j].0, shots[j].1, shots[j].2) by {
            if j < sd.len() {
                assert(sd[j] == shots[j]);
            }
        }
    }
}

/// The shots of a stack: one angle, each `delta` faster than the last.
proof fn lemma_stack_shots(t: BulletTemplate, base: u8, rng: u32)
    requires
        t.group == group::STACK || t.group == group::STACK_AIMED,
    ensures
        spawn_shots(t, base, rng).0 == Seq::new((if t.count == 0 { 1 } else { t.count as int }) as nat,
            |i: int| (base, t.speed + i * t.delta, true)),
{
    reveal(spawn_shots);
}

/// A stack fires its bullets one behind the other: bullet `i` of a STACK or
/// STACK_AIMED group leaves along the group's one angle at the template's
/// speed plus `i` times its delta. Into a pool with no free slot (a new one,
/// say) the group's bullets are appended in order after the others.
pub proof fn law_stack_speeds(bs: Seq<Bullet>, rng: u32, t: BulletTemplate, ex: int, ey: int, player: (i32, i32))
    requires
        t.group == group::STACK || t.group == group::STACK_AIMED,
        forall|i: int| 0 <= i < bs.len() ==> #[trigger] bs[i].active,
    ensures
        ({
            let r = pool_after_spawn(bs, rng, t, ex, ey, player).0;
            let n: int = if t.count == 0 { 1 } else { t.count as int };
            &&& r.len() == bs.len() + n
            &&& forall|i: int| 0 <= i < bs.len() ==> #[trigger] r[i] == bs[i]
            &&& forall|i: int| 0 <= i < n ==> {
                &&& (#[trigger] r[bs.len() + i]).speed_final == t.speed + i * t.delta
                &&& r[bs.len() + i].speed_cur == t.speed + i * t.delta
                &&& r[bs.len() + i].angle == r[bs.len() as int].angle
                &&& r[bs.len() + i].active
            }
        }),
{
    let ox = ex + t.origin_x;
    let oy = ey + t.origin_y;
    reveal(make_bullet);
    let base = angle_add(t.angle, aim(t, ox, oy, player));
    let shots = spawn_shots(t, base, rng).0;
    lemma_stack_shots(t, base, rng);
    lemma_add_all_full(bs, t, ox, oy, shots);
    let n: int = if t.count == 0 { 1 } else { t.count as int };
    let r = pool_after_spawn(bs, rng, t, ex, ey, player).0;
    assert forall|i: int| 0 <= i < n implies {
        &&& (#[trigger] r[bs.len() + i]).speed_final == t.speed + i * t.delta
        &&& r[bs.len() + i].speed_cur == t.speed + i * t.delta
        &&& r[bs.len() + i].angle == r[bs.len() as int].angle
        &&& r[bs.len() + i].active
    } by {
        assert(0 <= i * t.delta <= 255 * 255) by (nonlinear_arith) requires 0 <= i < n, n <= 255, 0 <= t.delta <= 255;
        assert(shots.len() == n);
        assert(shots[i] == (base, t.speed + i * t.delta, true));
        assert(r[bs.len() + i] == make_bullet(t, ox, oy, shots[i].0, shots[i].1, shots[i].2));
        assert(r[bs.len() + 0int] == make_bullet(t, ox, oy, shots[0].0, shots[0].1, shots[0].2));
        assert(r[bs.len() + i].speed_final == t.speed + i * t.delta);
        assert(r[bs.len() + i].speed_cur == t.speed + i * t.delta);
        assert(r[bs.len() + i].angle == base);
    }
}

} // verus!

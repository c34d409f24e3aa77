//! A generic boss modelled on ReC98 `boss_stuff_t` (th04/main/boss/boss.hpp):
//! position, HP split into phases that each end at an HP threshold
//! (`boss_phase_next`), a defeat sequence, and `boss_hittest_shots`-style
//! damage, with a generic multi-phase behaviour (sway + alternating
//! ring/aimed-spread attacks). The per-boss fights live in [`crate::boss`].
//!
//! Positions are subpixels (16/px).

use vstd::prelude::*;
use crate::bullet::{group, BulletPool, BulletTemplate, Bullet, blank_template, pool_after_spawn, pool_ok, target_ok,
    origin_ok, tdiv, angle_add};
use crate::math::{cos8, spec_cos8};

pub use crate::boss::{Midboss, MIDBOSS1_HP};

verus! {

pub const SUBPIXEL: i32 = 16;
pub const PLAYFIELD_W: i32 = 384;
/// Boss hitbox half-extent (ReC98 BOSS_HITBOX_DEFAULT ≈ 24px).
pub const BOSS_HIT: i32 = 384;
pub const BOSS_DEFEAT_FRAMES: u32 = 120;
pub const FIRE_INTERVAL: u32 = 48;

pub struct Boss {
    pub x: i32,
    pub y: i32,
    pub hp: i32,
    pub max_hp: i32,
    pub phase: u8,
    pub phase_count: u8,
    pub phase_frame: u32,
    pub defeated: bool,
    pub defeat_frame: u32,
    pub angle: u8,
    pub home_x: i32,
}

/// HP left before phase `phase` of `count` ends: the share of `max_hp` of
/// the phases after it (rounded toward zero).
pub open spec fn phase_end_hp(max_hp: int, phase: u8, count: u8) -> int {
    tdiv(max_hp * phases_after(phase, count), count as int)
}

/// The phases after `phase` (the last phase counts as current once passed).
pub open spec fn phases_after(phase: u8, count: u8) -> int {
    let last = count - 1;
    last - (if phase < last { phase as int } else { last })
}

/// What `damage` asks: counts that a phase threshold can be computed from,
/// and HP with room for the damage.
pub open spec fn damage_ok(b: Boss, dmg: i32) -> bool {
    !b.defeated ==> {
        &&& b.phase_count >= 1
        &&& i32::MIN <= b.max_hp * phases_after(b.phase, b.phase_count) <= i32::MAX
        &&& i32::MIN <= b.hp - dmg <= i32::MAX
    }
}

/// The boss after taking `dmg`: at or below the phase threshold the next
/// phase starts, or after the last one the defeat sequence.
pub open spec fn damaged(b: Boss, dmg: i32) -> Boss {
    if b.defeated {
        b
    } else {
        let hp = (b.hp - dmg) as i32;
        if hp <= phase_end_hp(b.max_hp as int, b.phase, b.phase_count) {
            if b.phase + 1 >= b.phase_count {
                Boss { hp, defeated: true, defeat_frame: 0, ..b }
            } else {
                Boss { hp, phase: (b.phase + 1) as u8, phase_frame: 0, ..b }
            }
        } else {
            Boss { hp, ..b }
        }
    }
}

/// The attack of phase `phase`: an aimed 16-ring, an aimed 5-spread or a
/// 24-ring, in turn.
pub open spec fn attack_template(phase: u8) -> BulletTemplate {
    if phase % 3 == 0 {
        BulletTemplate { group: group::RING_AIMED, count: 16, speed: 28, ..blank_template() }
    } else if phase % 3 == 1 {
        BulletTemplate { group: group::SPREAD_AIMED, count: 5, speed: 32, delta: 10, ..blank_template() }
    } else {
        BulletTemplate { group: group::RING, count: 24, speed: 24, ..blank_template() }
    }
}

/// One frame: the defeat sequence counts on; otherwise the boss sways around
/// its home position (a 96px cosine sway) and fires the phase's attack every
/// `FIRE_INTERVAL` frames.
pub open spec fn boss_next(b: Boss, bs: Seq<Bullet>, rng: u32, player: (i32, i32)) -> (Boss, Seq<Bullet>, u32) {
    if b.defeated {
        (Boss { defeat_frame: (b.defeat_frame + 1) as u32, ..b }, bs, rng)
    } else {
        let f = (b.phase_frame + 1) as u32;
        let a = angle_add(b.angle, 1);
        let x = (b.home_x + (spec_cos8(a) * 1536) / 256) as i32;
        let nb = Boss { phase_frame: f, angle: a, x, ..b };
        if f % FIRE_INTERVAL == 0 {
            let r = pool_after_spawn(bs, rng, attack_template(b.phase), x as int, b.y as int, player);
            (nb, r.0, r.1)
        } else {
            (nb, bs, rng)
        }
    }
}

/// What `update` asks: counters with room to count, a home the sway stays
/// near, and a position and target the bullet system can fire between.
pub open spec fn update_ok(b: Boss, player: (i32, i32)) -> bool {
    if b.defeated {
        b.defeat_frame < u32::MAX
    } else {
        &&& b.phase_frame < u32::MAX
        &&& -0x0100_0000 <= b.home_x <= 0x0100_0000
        &&& origin_ok(0, b.y as int)
        &&& target_ok(player)
    }
}

impl Boss {
    /// Spawn a boss with `max_hp` split across `phases` HP thresholds (at
    /// least one).
    pub fn new(max_hp: i32, phases: u8) -> (r: Self)
        ensures
            r == (Boss {
                x: 3072,
                y: 1280,
                hp: max_hp,
                max_hp,
                phase: 0,
                phase_count: if phases < 1 { 1 } else { phases },
                phase_frame: 0,
                defeated: false,
                defeat_frame: 0,
                angle: 0,
                home_x: 3072,
            }),
    {
        let home_x = (PLAYFIELD_W / 2) * SUBPIXEL;
        Boss {
            x: home_x,
            y: 80 * SUBPIXEL,
            hp: max_hp,
            max_hp,
            phase: 0,
            phase_count: if phases < 1 { 1 } else { phases },
            phase_frame: 0,
            defeated: false,
            defeat_frame: 0,
            angle: 0,
            home_x,
        }
    }

    /// HP threshold at which the current phase ends.
    fn phase_end_hp(&self) -> (r: i32)
        requires
            self.phase_count >= 1,
            i32::MIN <= self.max_hp * phases_after(self.phase, self.phase_count) <= i32::MAX,
        ensures
            r == phase_end_hp(self.max_hp as int, self.phase, self.phase_count),
    {
        let last = self.phase_count - 1;
        let cur = if self.phase < last { self.phase } else { last };
        let remaining = (last - cur) as i32;
        let v = self.max_hp * remaining;
        let c = self.phase_count as i32;
        if v >= 0 {
            v / c
        } else if v == i32::MIN {
            assert((0x8000_0000int - c) / (c as int) == 0x8000_0000int / (c as int) - 1) by (nonlinear_arith)
                requires 1 <= c <= 255;
            -((-(v + c)) / c) - 1
        } else {
            -((-v) / c)
        }
    }

    /// True once the defeat animation has finished (stage may advance).
    pub fn done(&self) -> (r: bool)
        ensures
            r == (self.defeated && self.defeat_frame >= BOSS_DEFEAT_FRAMES),
    {
        self.defeated && self.defeat_frame >= BOSS_DEFEAT_FRAMES
    }

    /// Apply player-shot damage; advances phases and triggers defeat.
    pub fn damage(&mut self, dmg: i32)
        requires
            damage_ok(*old(self), dmg),
        ensures
            *final(self) == damaged(*old(self), dmg),
    {
        if self.defeated {
            return;
        }
        self.hp = self.hp - dmg;
        if self.hp <= self.phase_end_hp() {
            if (self.phase as u16 + 1) >= self.phase_count as u16 {
                self.defeated = true;
                self.defeat_frame = 0;
            } else {
                self.phase = self.phase + 1;
                self.phase_frame = 0;
            }
        }
    }

    /// Advance one frame: movement + attacks (fires into `pool`).
    pub fn update(&mut self, player: (i32, i32), pool: &mut BulletPool)
        requires
            update_ok(*old(self), player),
        ensures
            (*final(self), final(pool).bullets@, final(pool).rng) == boss_next(*old(self), old(pool).bullets@, old(pool).rng, player),
            pool_ok(old(pool).bullets@) ==> pool_ok(final(pool).bullets@),
    {
        if self.defeated {
            self.defeat_frame = self.defeat_frame + 1;
            return;
        }
        self.phase_frame = self.phase_frame + 1;
        // Sway horizontally around the home position.
        self.angle = self.angle.wrapping_add(1);
        let c = cos8(self.angle);
        let sway = crate::boss::shr8(c * 1536); // 96px
        self.x = self.home_x + sway;

        // Attack: alternate patterns per phase on a fixed cadence.
        if self.phase_frame % FIRE_INTERVAL == 0 {
            let t = if self.phase % 3 == 0 {
                BulletTemplate::shot(group::RING_AIMED, 16, 28, 0)
            } else if self.phase % 3 == 1 {
                BulletTemplate { delta: 10, ..BulletTemplate::shot(group::SPREAD_AIMED, 5, 32, 0) }
            } else {
                BulletTemplate::shot(group::RING, 24, 24, 0)
            };
            pool.spawn(&t, self.x, self.y, player);
        }
    }
}

} // verus!

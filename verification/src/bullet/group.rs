//! Bullet group ids (ReC98 `bullet_group_t`). `_AIMED` puts angle 0 at the
//! player.

use vstd::prelude::*;

verus! {

pub const SINGLE: u8 = 0x00;
pub const SINGLE_AIMED: u8 = 0x01;
pub const FORCESINGLE_RANDOM_ANGLE: u8 = 0x1A;
pub const RANDOM_ANGLE: u8 = 0x1B;
pub const RANDOM_ANGLE_AND_SPEED: u8 = 0x1C;
pub const RANDOM_CONSTRAINED_ANGLE_AIMED: u8 = 0x1D;
pub const RING: u8 = 0x26;
pub const RING_AIMED: u8 = 0x2C;
pub const SPREAD: u8 = 0x2D;
pub const SPREAD_AIMED: u8 = 0x2E;
pub const STACK: u8 = 0x2F;
pub const STACK_AIMED: u8 = 0x30;
pub const FORCESINGLE: u8 = 0x40;
pub const FORCESINGLE_AIMED: u8 = 0x41;

} // verus!

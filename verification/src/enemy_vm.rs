//! Stateful execution of the enemy-script bytecode disassembled by
//! [`crate::enemy`] (ReC98 interpreter `sub_155DD`): the live enemy state
//! (position, velocity, angle/speed, script pointer, blocking-frame counter,
//! loop counter, bullet template, autofire), advanced one game frame at a
//! time. *Blocking* instructions repeat their per-frame action for an
//! operand-given number of frames before advancing; *immediate* instructions
//! execute and fall through to the next instruction the same frame.
//!
//! Motion and aiming use TH04's 256-direction trig (see [`crate::math`]).
//! `fire` and autofire spawn bullets into a [`BulletPool`]. Positions are
//! subpixels (16/px).

use vstd::prelude::*;
use crate::bullet::{BulletPool, BulletTemplate, Bullet, lcg_next, lcg_byte, lcg_step, pool_after_spawn, angle_add, angle_sub,
    pool_ok, origin_ok, blank_template};
use crate::enemy::{op_len, spec_op_len};
use crate::math::{iatan2_wide, vector2, spec_vector2, spec_iatan2, lemma_vector2_fits};
use crate::par::byte_at;
use crate::stage::to_i16;

verus! {

pub const SUBPIXEL: i32 = 16;
pub const ENEMY_W: i32 = 32;
pub const ENEMY_H: i32 = 32;
/// Only affects when a clipped enemy is removed.
pub const PLAYFIELD_W: i32 = 384;
pub const PLAYFIELD_H: i32 = 368;

#[derive(Clone, Copy)]
pub struct Enemy {
    pub x: i32,
    pub y: i32,
    pub vx: i32,
    pub vy: i32,
    pub angle: u8,
    pub speed: i16,
    pub angle_delta: u8,
    pub script_ip: usize,
    pub cur_instr_frame: u8,
    pub loop_i: u8,
    pub hp: i16,
    pub score: i32,
    pub patnum_base: u8,
    pub anim_cels: u8,
    pub anim_frames_per_cel: u8,
    pub clip_x: bool,
    pub clip_y: bool,
    pub alive: bool,
    pub killed: bool,
    pub kills_player: bool,
    pub can_be_damaged: bool,
    pub autofire: bool,
    pub autofire_interval: u8,
    pub autofire_cur_frame: u8,
    pub spawned_left_half: bool,
    pub bullet: BulletTemplate,
    pub fire_count: u32,
    pub rng: u32,
    /// Which of the stage's enemy scripts this enemy runs.
    pub script_index: usize,
    /// Item dropped on death (from the spawn record).
    pub item: u8,
}

/// The pool as the enemy sees it: its bullets and generator state.
pub struct PoolState {
    pub bullets: Seq<Bullet>,
    pub rng: u32,
}

/// The enemy `spawn` creates.
pub open spec fn spawned_enemy(x: i32, y: i32) -> Enemy {
    Enemy {
        x,
        y,
        vx: 0,
        vy: 0,
        angle: 0,
        speed: 0,
        angle_delta: 0,
        script_ip: 0,
        cur_instr_frame: 0,
        loop_i: 0,
        hp: 1,
        score: 0,
        patnum_base: 0,
        anim_cels: 1,
        anim_frames_per_cel: 4,
        clip_x: false,
        clip_y: false,
        alive: false,
        killed: false,
        kills_player: false,
        can_be_damaged: false,
        autofire: false,
        autofire_interval: 128,
        autofire_cur_frame: 0,
        spawned_left_half: x < 3072,
        bullet: blank_template(),
        fire_count: 0,
        rng: 0x1234_5678,
        script_index: 0,
        item: 0,
    }
}

/// Operand byte `i` of the instruction at `ip` (0 past the end).
pub open spec fn opnd(s: Seq<u8>, ip: int, i: int) -> u8 {
    byte_at(s, ip + 1 + i)
}

/// Signed 16-bit operand at operand offset `i`.
pub open spec fn opnd16(s: Seq<u8>, ip: int, i: int) -> i16 {
    to_i16(opnd(s, ip, i) + 256 * opnd(s, ip, i + 1))
}

/// An operand byte read as a signed 8-bit value.
pub open spec fn signed8(b: u8) -> int {
    if b >= 128 { b - 256 } else { b as int }
}

/// `e` with its velocity recomputed from angle and speed.
#[verifier::opaque]
pub open spec fn enemy_with_velocity(e: Enemy) -> Enemy {
    let v = spec_vector2(e.angle, e.speed as int);
    Enemy { vx: v.0 as i32, vy: v.1 as i32, ..e }
}

/// One frame of motion, and whether a clipped enemy left the playfield.
#[verifier::opaque]
pub open spec fn enemy_moved(e: Enemy) -> (Enemy, bool) {
    let x = e.x + e.vx;
    let y = e.y + e.vy;
    let out_x = e.clip_x && (x + 256 < 0 || x + 256 >= 416 * 16);
    let out_y = e.clip_y && (y + 256 < 0 || y + 256 >= 400 * 16);
    (Enemy { x: x as i32, y: y as i32, ..e }, out_x || out_y)
}

/// Finish a frame of a blocking instruction lasting `frames` frames.
pub open spec fn block_end(e: Enemy, frames: u8, len: int) -> Enemy {
    if e.cur_instr_frame >= frames {
        Enemy { cur_instr_frame: 0, script_ip: (e.script_ip + len) as usize, ..e }
    } else {
        Enemy { cur_instr_frame: (e.cur_instr_frame + 1) as u8, ..e }
    }
}

/// A blocking instruction's frame: move, then count down (or die off-screen).
#[verifier::opaque]
pub open spec fn block(e: Enemy, frames: u8, len: int) -> Enemy {
    let m = enemy_moved(e);
    if m.1 { Enemy { killed: true, ..m.0 } } else { block_end(m.0, frames, len) }
}

/// The turning moves (0x04/0x05/0x0D/0x0E): move, turn by `angle_delta`, then
/// count down (or die off-screen).
#[verifier::opaque]
pub open spec fn turning_block(e: Enemy, frames: u8, len: int) -> Enemy {
    let m = enemy_moved(e);
    let turned = Enemy { angle: angle_add(m.0.angle, m.0.angle_delta), ..m.0 };
    if m.1 { Enemy { killed: true, ..turned } } else { block_end(turned, frames, len) }
}

/// Advance to the next instruction.
pub open spec fn next_ip(e: Enemy, len: int) -> Enemy {
    Enemy { script_ip: (e.script_ip + len) as usize, ..e }
}

/// Fire the bullet template.
pub open spec fn enemy_fire(e: Enemy, p: PoolState, player: (i32, i32)) -> (Enemy, PoolState) {
    let r = pool_after_spawn(p.bullets, p.rng, e.bullet, e.x as int, e.y as int, player);
    (Enemy { fire_count: (e.fire_count + 1) as u32, ..e }, PoolState { bullets: r.0, rng: r.1 })
}

/// The enemy's generator: next state and the byte it yields.
pub open spec fn enemy_rand(e: Enemy) -> (Enemy, u8) {
    let r = lcg_next(e.rng);
    (Enemy { rng: r, ..e }, lcg_byte(r))
}

/// The movement opcodes that block for an operand-given number of frames.
pub open spec fn is_blocking_move(op: u8) -> bool {
    op == 0x01 || op == 0x02 || op == 0x03 || op == 0x04 || op == 0x05 || op == 0x06 || op == 0x0B
        || op == 0x0D || op == 0x0E
}

/// A blocking movement opcode that moves in a straight line (0x01, 0x02,
/// 0x03, 0x06, 0x0B).
#[verifier::opaque]
pub open spec fn straight_move(e: Enemy, s: Seq<u8>, ip: int, op: u8, len: int, scroll_dy: i32) -> Enemy {
    let o0 = opnd(s, ip, 0);
    let o1 = opnd(s, ip, 1);
    let o2 = opnd(s, ip, 2);
    if op == 0x01 {
        let e1 = if e.cur_instr_frame == 0 { enemy_with_velocity(Enemy { angle: o0, speed: o1 as i16, ..e }) } else { e };
        block(e1, o2, len)
    } else if op == 0x03 {
        let e1 = if e.cur_instr_frame == 0 { enemy_with_velocity(Enemy { speed: o0 as i16, ..e }) } else { e };
        block(e1, o1, len)
    } else if op == 0x0B {
        let e1 = if e.cur_instr_frame == 0 { Enemy { vx: 0, ..e } } else { e };
        block(Enemy { vy: scroll_dy, ..e1 }, o0, len)
    } else {
        block(e, o0, len)
    }
}

/// The velocity nudge and frame count of a turning move: 0x04 and 0x0D take
/// no nudge, 0x05 and 0x0E add signed operand bytes to the velocity.
pub open spec fn turn_operands(s: Seq<u8>, ip: int, op: u8) -> (int, int, u8) {
    if op == 0x04 {
        (0, 0, opnd(s, ip, 3))
    } else if op == 0x05 {
        (signed8(opnd(s, ip, 3)), signed8(opnd(s, ip, 4)), opnd(s, ip, 5))
    } else if op == 0x0E {
        (signed8(opnd(s, ip, 0)), signed8(opnd(s, ip, 1)), opnd(s, ip, 2))
    } else {
        (0, 0, opnd(s, ip, 0))
    }
}

/// A blocking movement opcode that turns by `angle_delta` every frame (0x04,
/// 0x05, 0x0D, 0x0E). 0x04 and 0x05 first set angle, speed and turn rate.
#[verifier::opaque]
pub open spec fn turning_move(e: Enemy, s: Seq<u8>, ip: int, op: u8, len: int) -> Enemy {
    let e1 = if (op == 0x04 || op == 0x05) && e.cur_instr_frame == 0 {
        Enemy { angle: opnd(s, ip, 0), speed: opnd(s, ip, 1) as i16, angle_delta: opnd(s, ip, 2), ..e }
    } else {
        e
    };
    let e2 = enemy_with_velocity(e1);
    let t = turn_operands(s, ip, op);
    turning_block(Enemy { vx: (e2.vx + t.0) as i32, vy: (e2.vy + t.1) as i32, ..e2 }, t.2, len)
}

/// A blocking movement opcode's frame.
pub open spec fn blocking_move(e: Enemy, s: Seq<u8>, ip: int, op: u8, len: int, scroll_dy: i32) -> Enemy {
    if op == 0x04 || op == 0x05 || op == 0x0D || op == 0x0E {
        turning_move(e, s, ip, op, len)
    } else {
        straight_move(e, s, ip, op, len, scroll_dy)
    }
}

/// The angle a velocity-setting opcode gives: aimed at the player plus an
/// offset (0x09), turned (0x0A), set (0x12), set and mirrored for enemies
/// spawned on the right (0x13), or kept (0x0C, 0x14).
#[verifier::opaque]
pub open spec fn move_angle(e: Enemy, s: Seq<u8>, ip: int, op: u8, player: (i32, i32)) -> u8 {
    let o0 = opnd(s, ip, 0);
    if op == 0x09 {
        angle_add(spec_iatan2(player.1 - e.y, player.0 - e.x), o0)
    } else if op == 0x0A {
        angle_add(e.angle, o0)
    } else if op == 0x12 {
        o0
    } else if op == 0x13 {
        if e.spawned_left_half { o0 } else { angle_sub(0x80, o0) }
    } else {
        e.angle
    }
}

/// The speed a velocity-setting opcode gives: an operand byte, a signed
/// (wrapping) change (0x0C), or kept (0x0A).
#[verifier::opaque]
pub open spec fn move_speed(e: Enemy, s: Seq<u8>, ip: int, op: u8) -> i16 {
    if op == 0x0A {
        e.speed
    } else if op == 0x0C {
        let sp = e.speed + signed8(opnd(s, ip, 0));
        (if sp > 32767 { sp - 65536 } else if sp < -32768 { sp + 65536 } else { sp }) as i16
    } else if op == 0x14 {
        opnd(s, ip, 0) as i16
    } else {
        opnd(s, ip, 1) as i16
    }
}

/// The immediate movement opcodes that set a new velocity (aim, turn,
/// accelerate, set angle and speed).
pub open spec fn velocity_move(e: Enemy, s: Seq<u8>, ip: int, op: u8, len: int, player: (i32, i32)) -> Enemy {
    next_ip(enemy_with_velocity(Enemy { angle: move_angle(e, s, ip, op, player), speed: move_speed(e, s, ip, op), ..e }), len)
}

/// The opcodes below 0x20 that set a new velocity.
pub open spec fn is_velocity_move(op: u8) -> bool {
    op == 0x09 || op == 0x0A || op == 0x0C || op == 0x12 || op == 0x13 || op == 0x14
}

/// The other immediate opcodes below 0x20 (spawn stats, random angle); any
/// opcode below 0x20 not named here kills the enemy.
pub open spec fn immediate_move(e: Enemy, s: Seq<u8>, ip: int, op: u8, len: int, player: (i32, i32)) -> (Enemy, bool) {
    if is_velocity_move(op) {
        (velocity_move(e, s, ip, op, len, player), true)
    } else if op == 0x10 {
        (next_ip(Enemy {
            patnum_base: opnd(s, ip, 0),
            hp: opnd16(s, ip, 1),
            score: opnd16(s, ip, 3) as i32,
            alive: true,
            can_be_damaged: true,
            kills_player: true,
            ..e
        }, len), true)
    } else if op == 0x11 {
        let r = enemy_rand(e);
        (next_ip(Enemy { angle: r.1, ..r.0 }, len), true)
    } else {
        (Enemy { killed: true, ..e }, false)
    }
}

/// The movement opcodes (below 0x20): a blocking one ends the frame.
pub open spec fn motion_instr(e: Enemy, s: Seq<u8>, ip: int, op: u8, len: int, scroll_dy: i32, player: (i32, i32)) -> (Enemy, bool) {
    if is_blocking_move(op) {
        (blocking_move(e, s, ip, op, len, scroll_dy), false)
    } else {
        immediate_move(e, s, ip, op, len, player)
    }
}

/// The template opcodes that only rewrite the bullet template (0x21..=0x2A
/// and 0x30).
pub open spec fn is_template_write(op: u8) -> bool {
    (0x21 <= op <= 0x2A) || op == 0x30
}

/// The bullet template after a template-writing opcode.
#[verifier::opaque]
pub open spec fn template_write(t: BulletTemplate, s: Seq<u8>, ip: int, op: u8) -> BulletTemplate {
    let o0 = opnd(s, ip, 0);
    if op == 0x21 {
        BulletTemplate {
            spawn_type: o0,
            origin_x: opnd16(s, ip, 1),
            origin_y: opnd16(s, ip, 3),
            group: opnd(s, ip, 5),
            angle: opnd(s, ip, 6),
            speed: opnd(s, ip, 7),
            patnum: opnd(s, ip, 8),
            count: opnd(s, ip, 9),
            ..t
        }
    } else if op == 0x22 {
        BulletTemplate { spawn_type: o0, ..t }
    } else if op == 0x23 {
        BulletTemplate { origin_x: opnd16(s, ip, 0), origin_y: opnd16(s, ip, 2), ..t }
    } else if op == 0x24 {
        BulletTemplate { angle: o0, ..t }
    } else if op == 0x25 {
        BulletTemplate { angle: angle_add(t.angle, o0), ..t }
    } else if op == 0x26 {
        BulletTemplate { speed: o0, ..t }
    } else if op == 0x27 {
        BulletTemplate { speed: angle_add(t.speed, o0), ..t }
    } else if op == 0x28 {
        BulletTemplate { group: o0, ..t }
    } else if op == 0x29 {
        BulletTemplate { count: o0, ..t }
    } else if op == 0x2A {
        BulletTemplate { patnum: o0, ..t }
    } else {
        BulletTemplate { delta: o0, ..t }
    }
}

/// The bullet-template opcodes (0x21..=0x30), which never end the frame.
/// 0x21 also switches autofire off; 0x2B/0x2E switch it on/off, 0x2C sets its
/// interval and 0x2D aims the template at random.
pub open spec fn template_instr(e: Enemy, s: Seq<u8>, ip: int, op: u8, len: int) -> (Enemy, bool) {
    if is_template_write(op) {
        let af = if op == 0x21 { false } else { e.autofire };
        (next_ip(Enemy { autofire: af, bullet: template_write(e.bullet, s, ip, op), ..e }, len), true)
    } else if op == 0x2B {
        (next_ip(Enemy { autofire: true, ..e }, len), true)
    } else if op == 0x2C {
        (next_ip(Enemy { autofire_interval: opnd(s, ip, 0), ..e }, len), true)
    } else if op == 0x2D {
        let r = enemy_rand(e);
        (next_ip(Enemy { bullet: BulletTemplate { angle: r.1, ..e.bullet }, ..r.0 }, len), true)
    } else if op == 0x2E {
        (next_ip(Enemy { autofire: false, ..e }, len), true)
    } else {
        (Enemy { killed: true, ..e }, false)
    }
}

/// The loop opcodes: jump back (to an absolute offset for 0x80, by a
/// relative one for 0x81, not below 0) until the counter reaches the limit,
/// then reset it and go on.
pub open spec fn loop_instr(e: Enemy, s: Seq<u8>, ip: int, op: u8, len: int) -> Enemy {
    let o0 = opnd(s, ip, 0);
    if e.loop_i < opnd(s, ip, 1) {
        let ip2: int = if op == 0x80 { o0 as int } else if ip >= o0 { ip - o0 } else { 0 };
        Enemy { loop_i: (e.loop_i + 1) as u8, script_ip: ip2 as usize, ..e }
    } else {
        next_ip(Enemy { loop_i: 0, ..e }, len)
    }
}

/// The flag opcodes of the control range (clipping, animation, sound,
/// sprite, damage and contact flags).
pub open spec fn is_flag_op(op: u8) -> bool {
    (0x82 <= op <= 0x89) || (0x8C <= op <= 0x8F)
}

/// The enemy after a flag opcode.
#[verifier::opaque]
pub open spec fn flag_instr(e: Enemy, s: Seq<u8>, ip: int, op: u8, len: int) -> Enemy {
    let o0 = opnd(s, ip, 0);
    if op == 0x82 {
        next_ip(Enemy { clip_x: true, ..e }, len)
    } else if op == 0x83 {
        next_ip(Enemy { clip_y: true, ..e }, len)
    } else if op == 0x84 {
        next_ip(Enemy { clip_x: true, clip_y: true, ..e }, len)
    } else if op == 0x85 {
        next_ip(Enemy { anim_cels: o0, anim_frames_per_cel: opnd(s, ip, 1), ..e }, len)
    } else if op == 0x87 {
        next_ip(Enemy { patnum_base: o0, ..e }, len)
    } else if op == 0x88 {
        next_ip(Enemy { can_be_damaged: false, autofire: false, ..e }, len)
    } else if op == 0x89 {
        next_ip(Enemy { can_be_damaged: true, ..e }, len)
    } else if op == 0x8C {
        next_ip(Enemy { kills_player: false, ..e }, len)
    } else if op == 0x8D {
        next_ip(Enemy { kills_player: true, ..e }, len)
    } else if op == 0x8E {
        next_ip(Enemy { patnum_base: angle_add(e.patnum_base, o0), ..e }, len)
    } else {
        next_ip(e, len)
    }
}

/// The control opcodes (0x80 and up): loops, flags and position changes. A
/// position change (0x8A to, 0x8B by) takes the rest of the frame.
pub open spec fn control_instr(e: Enemy, s: Seq<u8>, ip: int, op: u8, len: int) -> (Enemy, bool) {
    if op == 0x80 || op == 0x81 {
        (loop_instr(e, s, ip, op, len), true)
    } else if is_flag_op(op) {
        (flag_instr(e, s, ip, op, len), true)
    } else if op == 0x8A {
        (next_ip(Enemy { x: opnd16(s, ip, 0) as i32, y: opnd16(s, ip, 2) as i32, ..e }, len), false)
    } else if op == 0x8B {
        (next_ip(Enemy { x: (e.x + opnd16(s, ip, 0)) as i32, y: (e.y + opnd16(s, ip, 2)) as i32, ..e }, len), false)
    } else {
        (Enemy { killed: true, ..e }, false)
    }
}

/// One instruction: the new enemy and pool, and whether the frame goes on
/// with the next instruction. `0x00` ends the script (the enemy dies), `0x20`
/// fires the template, and unknown opcodes kill the enemy.
pub open spec fn exec_instr(e: Enemy, s: Seq<u8>, scroll_dy: i32, player: (i32, i32), p: PoolState) -> (Enemy, PoolState, bool) {
    let ip = e.script_ip as int;
    if ip >= s.len() {
        (Enemy { killed: true, ..e }, p, false)
    } else {
        let op = s[ip];
        let len: int = match spec_op_len(op) { Some(l) => l as int, None => 1 };
        if op == 0x00 {
            (Enemy { killed: true, ..e }, p, false)
        } else if op == 0x20 {
            let f = enemy_fire(e, p, player);
            (next_ip(f.0, len), f.1, true)
        } else if op < 0x20 {
            let r = motion_instr(e, s, ip, op, len, scroll_dy, player);
            (r.0, p, r.1)
        } else if op < 0x80 {
            let r = template_instr(e, s, ip, op, len);
            (r.0, p, r.1)
        } else {
            let r = control_instr(e, s, ip, op, len);
            (r.0, p, r.1)
        }
    }
}

/// Run instructions until one ends the frame, for at most `fuel` of them.
pub open spec fn run_frame(e: Enemy, s: Seq<u8>, scroll_dy: i32, player: (i32, i32), p: PoolState, fuel: nat) -> Option<(Enemy, PoolState)>
    decreases fuel,
{
    if fuel == 0 {
        None
    } else {
        let r = exec_instr(e, s, scroll_dy, player, p);
        if r.2 { run_frame(r.0, s, scroll_dy, player, r.1, (fuel - 1) as nat) } else { Some((r.0, r.1)) }
    }
}

/// Autofire, independent of the script: fire every `autofire_interval` frames.
pub open spec fn autofire_step(e: Enemy, p: PoolState, player: (i32, i32)) -> (Enemy, PoolState) {
    if e.autofire {
        let c = if e.autofire_cur_frame == 255 { 0u8 } else { (e.autofire_cur_frame + 1) as u8 };
        if c >= e.autofire_interval {
            enemy_fire(Enemy { autofire_cur_frame: 0, ..e }, p, player)
        } else {
            (Enemy { autofire_cur_frame: c, ..e }, p)
        }
    } else {
        (e, p)
    }
}

/// Positions, velocities and counters from which a frame cannot overflow,
/// given the frame's instruction budget.
pub open spec fn enemy_ok(e: Enemy, fuel: nat) -> bool {
    &&& -0x0700_0000 <= e.x <= 0x0700_0000
    &&& -0x0700_0000 <= e.y <= 0x0700_0000
    &&& -0x0080_0000 <= e.vx <= 0x0080_0000
    &&& -0x0080_0000 <= e.vy <= 0x0080_0000
    &&& e.fire_count + fuel + 1 <= u32::MAX
}

pub open spec fn pool_state(pool: BulletPool) -> PoolState {
    PoolState { bullets: pool.bullets@, rng: pool.rng }
}

/// The control flow of one instruction: where the frame goes on (script
/// position and loop counter), or `None` where the instruction ends the frame.
/// It depends on the script and these two values alone.
pub open spec fn ctrl_next(s: Seq<u8>, ip: int, li: u8) -> Option<(int, u8)> {
    if ip < 0 || ip >= s.len() {
        None
    } else {
        let op = s[ip];
        let len: int = match spec_op_len(op) { Some(l) => l as int, None => 1 };
        if op == 0x00 {
            None
        } else if op == 0x20 {
            Some((ip + len, li))
        } else if op < 0x20 {
            if !is_blocking_move(op) && (is_velocity_move(op) || op == 0x10 || op == 0x11) { Some((ip + len, li)) } else { None }
        } else if op < 0x80 {
            if is_template_write(op) || (0x2B <= op <= 0x2E) { Some((ip + len, li)) } else { None }
        } else if op == 0x80 || op == 0x81 {
            let o0 = opnd(s, ip, 0);
            if li < opnd(s, ip, 1) {
                Some((if op == 0x80 { o0 as int } else if ip >= o0 { ip - o0 } else { 0 }, (li + 1) as u8))
            } else {
                Some((ip + len, 0u8))
            }
        } else if is_flag_op(op) {
            Some((ip + len, li))
        } else {
            None
        }
    }
}

/// Starting at `ip` with loop counter `li`, the frame ends within `n`
/// instructions.
pub open spec fn ctrl_ends(s: Seq<u8>, ip: int, li: u8, n: nat) -> bool
    decreases n,
{
    n > 0 && match ctrl_next(s, ip, li) {
        None => true,
        Some(c) => ctrl_ends(s, c.0, c.1, (n - 1) as nat),
    }
}

/// The instruction budget within which `e`'s next frame of `s` ends (one
/// exists under `step_ok`).
pub open spec fn frame_budget(e: Enemy, s: Seq<u8>) -> nat {
    choose|n: nat| #[trigger] ctrl_ends(s, e.script_ip as int, e.loop_i, n) && e.fire_count + n + 2 <= u32::MAX
}

/// The frame's result, once it is known to end.
pub open spec fn frame_result(e: Enemy, s: Seq<u8>, scroll_dy: i32, player: (i32, i32), p: PoolState) -> (Enemy, PoolState) {
    let a = autofire_step(e, p, player);
    run_frame(a.0, s, scroll_dy, player, a.1, frame_budget(e, s)).unwrap()
}

/// What a frame of `step` asks of a live enemy: room to autofire, positions
/// and velocities the frame cannot overflow, and a script whose control flow
/// reaches the end of the frame within a budget the fire counter has room
/// for (a script can loop forever within a frame, and then the frame never
/// ends).
pub open spec fn step_ok(e: Enemy, s: Seq<u8>) -> bool {
    &&& e.fire_count < u32::MAX
    &&& -0x0700_0000 <= e.x <= 0x0700_0000
    &&& -0x0700_0000 <= e.y <= 0x0700_0000
    &&& -0x0080_0000 <= e.vx <= 0x0080_0000
    &&& -0x0080_0000 <= e.vy <= 0x0080_0000
    &&& exists|n: nat| #[trigger] ctrl_ends(s, e.script_ip as int, e.loop_i, n) && e.fire_count + n + 2 <= u32::MAX
}

/// An instruction's control flow is `ctrl_next`: it lets the frame go on
/// exactly when `ctrl_next` does, and then to the position and loop counter
/// `ctrl_next` gives.
pub proof fn lemma_exec_ctrl(e: Enemy, s: Seq<u8>, scroll_dy: i32, player: (i32, i32), p: PoolState)
    requires
        s.len() + 16 <= usize::MAX,
    ensures
        ({
            let r = exec_instr(e, s, scroll_dy, player, p);
            let c = ctrl_next(s, e.script_ip as int, e.loop_i);
            &&& r.2 == c is Some
            &&& r.2 ==> r.0.script_ip as int == c.unwrap().0 && r.0.loop_i == c.unwrap().1
        }),
{
    let ip = e.script_ip as int;
    if ip < s.len() {
        let op = s[ip];
        if op != 0x00 && op != 0x20 {
            if op < 0x20 {
                if !is_blocking_move(op) && is_velocity_move(op) {
                    reveal(enemy_with_velocity);
                }
            } else if op < 0x80 {
                reveal(template_write);
            } else {
                reveal(flag_instr);
            }
        }
    }
}

/// A frame whose control flow ends within `n` instructions, from a state
/// that `n` instructions cannot overflow, runs to its end within `n`.
pub proof fn lemma_ctrl_run(e: Enemy, s: Seq<u8>, scroll_dy: i32, player: (i32, i32), p: PoolState, n: nat)
    requires
        s.len() + 16 <= usize::MAX,
        ctrl_ends(s, e.script_ip as int, e.loop_i, n),
        enemy_ok(e, n),
    ensures
        run_frame(e, s, scroll_dy, player, p, n) is Some,
    decreases n,
{
    let r = exec_instr(e, s, scroll_dy, player, p);
    lemma_exec_ctrl(e, s, scroll_dy, player, p);
    if r.2 {
        lemma_instr_bounds(e, s, scroll_dy, player, p);
        lemma_ctrl_run(r.0, s, scroll_dy, player, r.1, (n - 1) as nat);
    }
}

/// Budgets beyond one that reaches the end of the frame give the same result.
pub proof fn lemma_run_frame_fuel(e: Enemy, s: Seq<u8>, scroll_dy: i32, player: (i32, i32), p: PoolState, f1: nat, f2: nat)
    requires
        run_frame(e, s, scroll_dy, player, p, f1) is Some,
        f1 <= f2,
    ensures
        run_frame(e, s, scroll_dy, player, p, f2) == run_frame(e, s, scroll_dy, player, p, f1),
    decreases f1,
{
    let r = exec_instr(e, s, scroll_dy, player, p);
    if r.2 {
        lemma_run_frame_fuel(r.0, s, scroll_dy, player, r.1, (f1 - 1) as nat, (f2 - 1) as nat);
    }
}

/// An instruction after which the frame goes on leaves the position alone,
/// keeps the velocity small and fires at most once.
pub proof fn lemma_instr_bounds(e: Enemy, s: Seq<u8>, scroll_dy: i32, player: (i32, i32), p: PoolState)
    requires
        instr_ok(e),
    ensures
        ({
            let r = exec_instr(e, s, scroll_dy, player, p);
            r.2 ==> {
                &&& r.0.x == e.x && r.0.y == e.y
                &&& -0x0080_0000 <= r.0.vx <= 0x0080_0000 && -0x0080_0000 <= r.0.vy <= 0x0080_0000
                &&& r.0.fire_count <= e.fire_count + 1
            }
        }),
{
    let ip = e.script_ip as int;
    if ip < s.len() {
        let op = s[ip];
        let len: int = match spec_op_len(op) { Some(l) => l as int, None => 1 };
        if op != 0x00 && op != 0x20 {
            if op < 0x20 {
                if !is_blocking_move(op) && is_velocity_move(op) {
                    reveal(enemy_with_velocity);
                    lemma_vector2_small(move_angle(e, s, ip, op, player), move_speed(e, s, ip, op) as int);
                }
            } else if op < 0x80 {
                reveal(template_write);
            } else {
                reveal(flag_instr);
            }
        }
    }
}

/// An instruction that ends the frame leaves the enemy near where it was:
/// it moves it by one small velocity, or places it at (or by) a 16-bit
/// offset.
pub proof fn lemma_frame_end_bounds(e: Enemy, s: Seq<u8>, scroll_dy: i32, player: (i32, i32), p: PoolState)
    requires
        instr_ok(e),
        -0x0080_0000 <= scroll_dy <= 0x0080_0000,
    ensures
        ({
            let r = exec_instr(e, s, scroll_dy, player, p);
            !r.2 ==> -0x0790_0000 <= r.0.x <= 0x0790_0000 && -0x0790_0000 <= r.0.y <= 0x0790_0000
        }),
{
    let ip = e.script_ip as int;
    if ip < s.len() {
        let op = s[ip];
        let len: int = match spec_op_len(op) { Some(l) => l as int, None => 1 };
        if op != 0x00 && op < 0x20 && is_blocking_move(op) {
            reveal(block);
            reveal(turning_block);
            reveal(enemy_moved);
            reveal(enemy_with_velocity);
            if op == 0x04 || op == 0x05 || op == 0x0D || op == 0x0E {
                reveal(turning_move);
                let e1 = if (op == 0x04 || op == 0x05) && e.cur_instr_frame == 0 {
                    Enemy { angle: opnd(s, ip, 0), speed: opnd(s, ip, 1) as i16, angle_delta: opnd(s, ip, 2), ..e }
                } else {
                    e
                };
                lemma_vector2_small(e1.angle, e1.speed as int);
            } else {
                reveal(straight_move);
                lemma_vector2_small(opnd(s, ip, 0), opnd(s, ip, 1) as int);
                lemma_vector2_small(e.angle, opnd(s, ip, 0) as int);
            }
        }
    }
}

impl Enemy {
    /// Spawn an enemy at (`x`, `y`) subpixels, running from the start of a script.
    pub fn spawn(x: i32, y: i32) -> (r: Self)
        ensures
            r == spawned_enemy(x, y),
    {
        Enemy {
            x,
            y,
            vx: 0,
            vy: 0,
            angle: 0,
            speed: 0,
            angle_delta: 0,
            script_ip: 0,
            cur_instr_frame: 0,
            loop_i: 0,
            hp: 1,
            score: 0,
            patnum_base: 0,
            anim_cels: 1,
            anim_frames_per_cel: 4,
            clip_x: false,
            clip_y: false,
            alive: false,
            killed: false,
            kills_player: false,
            can_be_damaged: false,
            autofire: false,
            autofire_interval: 128,
            autofire_cur_frame: 0,
            spawned_left_half: x < (PLAYFIELD_W / 2) * SUBPIXEL,
            bullet: BulletTemplate::default(),
            fire_count: 0,
            rng: 0x1234_5678,
            script_index: 0,
            item: 0,
        }
    }

    fn set_velocity(&mut self)
        ensures
            *final(self) == enemy_with_velocity(*old(self)),
            final(self).x == old(self).x && final(self).y == old(self).y,
            final(self).fire_count == old(self).fire_count,
            final(self).script_ip == old(self).script_ip,
            final(self).cur_instr_frame == old(self).cur_instr_frame,
            -0x8000 <= final(self).vx <= 0x8000,
            -0x8000 <= final(self).vy <= 0x8000,
    {
        proof {
            reveal(enemy_with_velocity);
            lemma_vector2_fits(self.angle, self.speed as int);
            lemma_vector2_small(self.angle, self.speed as int);
        }
        let v = vector2(self.angle, self.speed as i32);
        self.vx = v.0;
        self.vy = v.1;
    }

    fn rand8(&mut self) -> (r: u8)
        ensures
            (*final(self), r) == enemy_rand(*old(self)),
    {
        self.rng = lcg_step(self.rng);
        (self.rng >> 16u32) as u8
    }

    fn fire(&mut self, pool: &mut BulletPool, player: (i32, i32))
        requires
            old(self).fire_count < u32::MAX,
            origin_ok(old(self).x as int, old(self).y as int),
        ensures
            (*final(self), pool_state(*final(pool))) == enemy_fire(*old(self), pool_state(*old(pool)), player),
            pool_ok(old(pool).bullets@) ==> pool_ok(final(pool).bullets@),
    {
        self.fire_count = self.fire_count + 1;
        pool.spawn(&self.bullet, self.x, self.y, player);
    }

    /// Run one game frame of `script`. `scroll_dy` is this frame's vertical
    /// scroll delta (subpixels), `player` the player position (subpixels);
    /// fired bullets are added to `pool`. A killed enemy stays as it is.
    pub fn step(&mut self, script: &[u8], scroll_dy: i32, player: (i32, i32), pool: &mut BulletPool)
        requires
            script@.len() + 16 <= usize::MAX,
            -0x0080_0000 <= scroll_dy <= 0x0080_0000,
            !old(self).killed ==> step_ok(*old(self), script@),
        ensures
            old(self).killed ==> *final(self) == *old(self) && pool_state(*final(pool)) == pool_state(*old(pool)),
            !old(self).killed ==> (*final(self), pool_state(*final(pool))) == frame_result(*old(self), script@, scroll_dy, player, pool_state(*old(pool))),
            !old(self).killed ==> -0x0790_0000 <= final(self).x <= 0x0790_0000 && -0x0790_0000 <= final(self).y <= 0x0790_0000,
            pool_ok(old(pool).bullets@) ==> pool_ok(final(pool).bullets@),
    {
        if self.killed {
            return;
        }
        let ghost p0 = pool_state(*pool);
        let ghost ok0 = pool_ok(pool.bullets@);
        // Autofire runs independently of the script: fire the template every
        // `autofire_interval` frames.
        if self.autofire {
            self.autofire_cur_frame = self.autofire_cur_frame.wrapping_add(1);
            if self.autofire_cur_frame >= self.autofire_interval {
                self.autofire_cur_frame = 0;
                self.fire(pool, player);
            }
        }
        let ghost a = (*self, pool_state(*pool));
        let ghost fuel0: nat = frame_budget(*old(self), script@);
        proof {
            lemma_ctrl_run(a.0, script@, scroll_dy, player, a.1, fuel0);
        }
        let ghost mut fuel: nat = fuel0;
        loop
            invariant_except_break
                run_frame(*self, script@, scroll_dy, player, pool_state(*pool), fuel) is Some,
                run_frame(*self, script@, scroll_dy, player, pool_state(*pool), fuel) == run_frame(a.0, script@, scroll_dy, player, a.1, fuel0),
                enemy_ok(*self, fuel),
            invariant
                script@.len() + 16 <= usize::MAX,
                    -0x0080_0000 <= scroll_dy <= 0x0080_0000,
                ok0 ==> pool_ok(pool.bullets@),
            ensures
                Some((*self, pool_state(*pool))) == run_frame(a.0, script@, scroll_dy, player, a.1, fuel0),
                -0x0790_0000 <= self.x <= 0x0790_0000 && -0x0790_0000 <= self.y <= 0x0790_0000,
            decreases fuel,
        {
            proof {
                lemma_instr_bounds(*self, script@, scroll_dy, player, pool_state(*pool));
                lemma_frame_end_bounds(*self, script@, scroll_dy, player, pool_state(*pool));
            }
            let cont = self.exec_one(script, scroll_dy, player, pool);
            if !cont {
                break;
            }
            proof {
                fuel = (fuel - 1) as nat;
            }
        }
    }

    /// Apply velocity; return true if a clipped enemy left the playfield.
    fn motion(&mut self) -> (r: bool)
        requires
            -0x0800_0000 <= old(self).x <= 0x0800_0000,
            -0x0800_0000 <= old(self).y <= 0x0800_0000,
            -0x0100_0000 <= old(self).vx <= 0x0100_0000,
            -0x0100_0000 <= old(self).vy <= 0x0100_0000,
        ensures
            (*final(self), r) == enemy_moved(*old(self)),
            final(self).fire_count == old(self).fire_count,
            final(self).script_ip == old(self).script_ip,
            final(self).cur_instr_frame == old(self).cur_instr_frame,
    {
        reveal(enemy_moved);
        self.x = self.x + self.vx;
        self.y = self.y + self.vy;
        let mut clipped = false;
        let tx = self.x + (ENEMY_W / 2) * SUBPIXEL;
        if self.clip_x && (tx < 0 || tx >= (PLAYFIELD_W + ENEMY_W) * SUBPIXEL) {
            clipped = true;
        }
        let ty = self.y + (ENEMY_H / 2) * SUBPIXEL;
        if self.clip_y && (ty < 0 || ty >= (PLAYFIELD_H + ENEMY_H) * SUBPIXEL) {
            clipped = true;
        }
        clipped
    }
}

/// A velocity from a 16-bit speed is small.
pub proof fn lemma_vector2_small(angle: u8, speed: int)
    requires
        -0x8000 <= speed <= 0x8000,
    ensures
        -0x8000 <= spec_vector2(angle, speed).0 <= 0x8000,
        -0x8000 <= spec_vector2(angle, speed).1 <= 0x8000,
{
    crate::math::lemma_vector2_bounded(angle, speed);
}

/// The control flow of the instruction at `ip` (`ctrl_next`).
fn ctrl_step(script: &[u8], ip: usize, li: u8) -> (r: Option<(usize, u8)>)
    requires
        script@.len() + 16 <= usize::MAX,
    ensures
        match ctrl_next(script@, ip as int, li) {
            None => r is None,
            Some(c) => r matches Some(p) && p.0 as int == c.0 && p.1 == c.1,
        },
{
    if ip >= script.len() {
        return None;
    }
    let op = script[ip];
    let len: usize = match op_len(op) {
        Some(l) => l,
        None => 1,
    };
    if op == 0x00 {
        None
    } else if op == 0x20 {
        Some((ip + len, li))
    } else if op < 0x20 {
        let blocking = op == 0x01 || op == 0x02 || op == 0x03 || op == 0x04 || op == 0x05 || op == 0x06 || op == 0x0B
            || op == 0x0D || op == 0x0E;
        let velocity = op == 0x09 || op == 0x0A || op == 0x0C || op == 0x12 || op == 0x13 || op == 0x14;
        if !blocking && (velocity || op == 0x10 || op == 0x11) {
            Some((ip + len, li))
        } else {
            None
        }
    } else if op < 0x80 {
        if (0x21 <= op && op <= 0x2A) || op == 0x30 || (0x2B <= op && op <= 0x2E) {
            Some((ip + len, li))
        } else {
            None
        }
    } else if op == 0x80 || op == 0x81 {
        let o0 = get_op(script, ip, 0);
        let o1 = get_op(script, ip, 1);
        if li < o1 {
            let target: usize = if op == 0x80 {
                o0 as usize
            } else if ip >= o0 as usize {
                ip - o0 as usize
            } else {
                0
            };
            Some((target, li + 1))
        } else {
            Some((ip + len, 0))
        }
    } else if (0x82 <= op && op <= 0x89) || (0x8C <= op && op <= 0x8F) {
        Some((ip + len, li))
    } else {
        None
    }
}

/// Whether a frame of `script` started at `ip` with loop counter `li` ends
/// within `budget` instructions.
pub open spec fn frame_ends_by(s: Seq<u8>, ip: int, li: u8, budget: int) -> bool {
    exists|n: nat| n <= budget && #[trigger] ctrl_ends(s, ip, li, n)
}

/// Whether a frame of `script` started at `ip` with loop counter `li` ends
/// within `budget` instructions, found by following its control flow.
pub fn frame_ends_within(script: &[u8], ip: usize, li: u8, budget: u64) -> (r: bool)
    requires
        script@.len() + 16 <= usize::MAX,
    ensures
        r == frame_ends_by(script@, ip as int, li, budget as int),
{
    let mut cur_ip = ip;
    let mut cur_li = li;
    let mut k: u64 = 0;
    while k < budget
        invariant
            script@.len() + 16 <= usize::MAX,
            k <= budget,
            forall|m: nat| #[trigger] ctrl_ends(script@, cur_ip as int, cur_li, m)
                == ctrl_ends(script@, ip as int, li, (m + k) as nat),
            forall|m: nat| m <= k ==> !#[trigger] ctrl_ends(script@, ip as int, li, m),
        decreases budget - k,
    {
        match ctrl_step(script, cur_ip, cur_li) {
            None => {
                assert(ctrl_ends(script@, cur_ip as int, cur_li, 1));
                assert(ctrl_ends(script@, ip as int, li, (1 + k) as nat));
                return true;
            },
            Some(next) => {
                proof {
                    assert forall|m: nat| #[trigger] ctrl_ends(script@, next.0 as int, next.1, m)
                        == ctrl_ends(script@, ip as int, li, (m + k + 1) as nat) by {
                        assert(ctrl_ends(script@, cur_ip as int, cur_li, (m + 1) as nat)
                            == ctrl_ends(script@, next.0 as int, next.1, m));
                        assert(ctrl_ends(script@, cur_ip as int, cur_li, (m + 1) as nat)
                            == ctrl_ends(script@, ip as int, li, (m + 1 + k) as nat));
                    }
                    assert forall|m: nat| m <= k + 1 implies !#[trigger] ctrl_ends(script@, ip as int, li, m) by {
                        if m == k + 1 {
                            assert(ctrl_ends(script@, cur_ip as int, cur_li, 1)
                                == ctrl_ends(script@, ip as int, li, (1 + k) as nat));
                            assert(!ctrl_ends(script@, next.0 as int, next.1, 0));
                        }
                    }
                }
                cur_ip = next.0;
                cur_li = next.1;
                k = k + 1;
            },
        }
    }
    proof {
        assert forall|n: nat| n <= budget implies !#[trigger] ctrl_ends(script@, ip as int, li, n) by {}
    }
    false
}

/// How many instructions a frame walk follows for a script of `len` bytes
/// with `room` instructions of counter room: one visit of each (position,
/// loop counter) pair plus one, unless the room is smaller.
pub open spec fn walk_budget(len: int, room: int) -> int {
    if len < 0x0100_0000 && len * 256 + 1 < room { len * 256 + 1 } else { room }
}

/// What `Enemy::can_step` checks: room to fire, positions and velocities in
/// range, and a next frame that ends within the walk budget.
pub open spec fn step_checked(e: Enemy, s: Seq<u8>) -> bool {
    &&& e.fire_count < u32::MAX - 1
    &&& -0x0700_0000 <= e.x <= 0x0700_0000
    &&& -0x0700_0000 <= e.y <= 0x0700_0000
    &&& -0x0080_0000 <= e.vx <= 0x0080_0000
    &&& -0x0080_0000 <= e.vy <= 0x0080_0000
    &&& frame_ends_by(s, e.script_ip as int, e.loop_i, walk_budget(s.len() as int, u32::MAX - e.fire_count - 2))
}

/// A frame found to end within the walk budget can be run by `step`.
pub proof fn lemma_step_checked(e: Enemy, s: Seq<u8>)
    requires
        step_checked(e, s),
    ensures
        step_ok(e, s),
{
    let budget = walk_budget(s.len() as int, u32::MAX - e.fire_count - 2);
    let w = choose|w: nat| w <= budget && #[trigger] ctrl_ends(s, e.script_ip as int, e.loop_i, w);
    assert(ctrl_ends(s, e.script_ip as int, e.loop_i, w) && e.fire_count + w + 2 <= u32::MAX);
}

impl Enemy {
    /// Whether `step` can run this enemy's next frame of `script`: room to
    /// fire, positions and velocities in range, and a frame that ends. The
    /// control flow is followed for at most one visit of each (position,
    /// loop counter) pair, past which it would only repeat itself.
    pub fn can_step(&self, script: &[u8]) -> (r: bool)
        requires
            script@.len() + 16 <= usize::MAX,
        ensures
            r == step_checked(*self, script@),
            r ==> step_ok(*self, script@),
    {
        if self.fire_count >= u32::MAX - 1 {
            return false;
        }
        if self.x < -0x0700_0000 || self.x > 0x0700_0000 || self.y < -0x0700_0000 || self.y > 0x0700_0000 {
            return false;
        }
        if self.vx < -0x0080_0000 || self.vx > 0x0080_0000 || self.vy < -0x0080_0000 || self.vy > 0x0080_0000 {
            return false;
        }
        let room: u64 = (u32::MAX - self.fire_count - 2) as u64;
        let n = script.len() as u64;
        let budget: u64 = if n < 0x0100_0000 && n * 256 + 1 < room { n * 256 + 1 } else { room };
        let ends = frame_ends_within(script, self.script_ip, self.loop_i, budget);
        proof {
            if ends {
                let w = choose|w: nat| w <= budget && #[trigger] ctrl_ends(script@, self.script_ip as int, self.loop_i, w);
                assert(ctrl_ends(script@, self.script_ip as int, self.loop_i, w) && self.fire_count + w + 2 <= u32::MAX);
            }
        }
        ends
    }
}

fn get_op(script: &[u8], ip: usize, i: usize) -> (r: u8)
    requires
        ip < script@.len(),
        i <= 16,
        script@.len() + 16 <= usize::MAX,
    ensures
        r == opnd(script@, ip as int, i as int),
{
    let k = ip + 1 + i;
    if k < script.len() { script[k] } else { 0 }
}

fn get_op16(script: &[u8], ip: usize, i: usize) -> (r: i16)
    requires
        ip < script@.len(),
        i <= 15,
        script@.len() + 16 <= usize::MAX,
    ensures
        r == opnd16(script@, ip as int, i as int),
{
    let v: u16 = get_op(script, ip, i) as u16 + 256 * (get_op(script, ip, i + 1) as u16);
    if v >= 0x8000 { (v as i32 - 0x10000) as i16 } else { v as i16 }
}

fn signed8_exec(b: u8) -> (r: i32)
    ensures
        r == signed8(b),
{
    if b >= 128 { b as i32 - 256 } else { b as i32 }
}

fn turn_operands_exec(script: &[u8], ip: usize, op: u8) -> (r: (i32, i32, u8))
    requires
        ip < script@.len(),
        script@.len() + 16 <= usize::MAX,
    ensures
        r.0 == turn_operands(script@, ip as int, op).0,
        r.1 == turn_operands(script@, ip as int, op).1,
        r.2 == turn_operands(script@, ip as int, op).2,
        -128 <= r.0 < 128 && -128 <= r.1 < 128,
{
    if op == 0x04 {
        (0i32, 0i32, get_op(script, ip, 3))
    } else if op == 0x05 {
        (signed8_exec(get_op(script, ip, 3)), signed8_exec(get_op(script, ip, 4)), get_op(script, ip, 5))
    } else if op == 0x0E {
        (signed8_exec(get_op(script, ip, 0)), signed8_exec(get_op(script, ip, 1)), get_op(script, ip, 2))
    } else {
        (0i32, 0i32, get_op(script, ip, 0))
    }
}

/// Bounds on the enemy within which one instruction cannot overflow.
pub open spec fn instr_ok(e: Enemy) -> bool {
    &&& -0x0700_0000 <= e.x <= 0x0700_0000
    &&& -0x0700_0000 <= e.y <= 0x0700_0000
    &&& -0x0080_0000 <= e.vx <= 0x0080_0000
    &&& -0x0080_0000 <= e.vy <= 0x0080_0000
    &&& e.fire_count < u32::MAX
}

impl Enemy {
    fn block(&mut self, frames: u8, len: usize) -> (cont: bool)
        requires
            -0x0780_0000 <= old(self).x <= 0x0780_0000,
            -0x0780_0000 <= old(self).y <= 0x0780_0000,
            -0x0081_0000 <= old(self).vx <= 0x0081_0000,
            -0x0081_0000 <= old(self).vy <= 0x0081_0000,
            old(self).script_ip + len <= usize::MAX,
        ensures
            *final(self) == block(*old(self), frames, len as int),
            final(self).fire_count == old(self).fire_count,
            !cont,
    {
        reveal(block);
        if self.motion() {
            self.killed = true;
            return false;
        }
        if self.cur_instr_frame >= frames {
            self.cur_instr_frame = 0;
            self.script_ip = self.script_ip + len;
        } else {
            self.cur_instr_frame = self.cur_instr_frame + 1;
        }
        false
    }

    fn turning_block(&mut self, frames: u8, len: usize) -> (cont: bool)
        requires
            -0x0780_0000 <= old(self).x <= 0x0780_0000,
            -0x0780_0000 <= old(self).y <= 0x0780_0000,
            -0x0081_0000 <= old(self).vx <= 0x0081_0000,
            -0x0081_0000 <= old(self).vy <= 0x0081_0000,
            old(self).script_ip + len <= usize::MAX,
        ensures
            *final(self) == turning_block(*old(self), frames, len as int),
            final(self).fire_count == old(self).fire_count,
            !cont,
    {
        reveal(turning_block);
        let killed = self.motion();
        self.angle = self.angle.wrapping_add(self.angle_delta);
        if killed {
            self.killed = true;
            return false;
        }
        if self.cur_instr_frame >= frames {
            self.cur_instr_frame = 0;
            self.script_ip = self.script_ip + len;
        } else {
            self.cur_instr_frame = self.cur_instr_frame + 1;
        }
        false
    }

    /// Execute the instruction at `script_ip`; true when the frame goes on
    /// with the next one.
    fn exec_one(&mut self, script: &[u8], scroll_dy: i32, player: (i32, i32), pool: &mut BulletPool) -> (cont: bool)
        requires
            instr_ok(*old(self)),
            script@.len() + 16 <= usize::MAX,
            -0x0080_0000 <= scroll_dy <= 0x0080_0000,
        ensures
            ({
                let r = exec_instr(*old(self), script@, scroll_dy, player, pool_state(*old(pool)));
                &&& *final(self) == r.0
                &&& pool_state(*final(pool)) == r.1
                &&& cont == r.2
            }),
            pool_ok(old(pool).bullets@) ==> pool_ok(final(pool).bullets@),
    {
        let ip = self.script_ip;
        if ip >= script.len() {
            self.killed = true;
            return false;
        }
        let op = script[ip];
        let len = match op_len(op) {
            Some(l) => l,
            None => 1,
        };
        if op == 0x00 {
            self.killed = true;
            false
        } else if op == 0x20 {
            self.fire(pool, player);
            self.script_ip = ip + len;
            true
        } else if op < 0x20 {
            self.exec_motion(script, op, len, scroll_dy, player)
        } else if op < 0x80 {
            self.exec_template(script, op, len)
        } else {
            self.exec_control(script, op, len)
        }
    }

    /// The movement opcodes.
    fn exec_motion(&mut self, script: &[u8], op: u8, len: usize, scroll_dy: i32, player: (i32, i32)) -> (cont: bool)
        requires
            instr_ok(*old(self)),
            old(self).script_ip < script@.len(),
            script@.len() + 16 <= usize::MAX,
            -0x0080_0000 <= scroll_dy <= 0x0080_0000,
            1 <= len <= 11,
        ensures
            (*final(self), cont) == motion_instr(*old(self), script@, old(self).script_ip as int, op, len as int, scroll_dy, player),
    {
        if op == 0x01 || op == 0x02 || op == 0x03 || op == 0x04 || op == 0x05 || op == 0x06 || op == 0x0B
            || op == 0x0D || op == 0x0E {
            self.exec_blocking_move(script, op, len, scroll_dy);
            false
        } else {
            self.exec_immediate_move(script, op, len, player)
        }
    }

    fn exec_blocking_move(&mut self, script: &[u8], op: u8, len: usize, scroll_dy: i32)
        requires
            instr_ok(*old(self)),
            is_blocking_move(op),
            old(self).script_ip < script@.len(),
            script@.len() + 16 <= usize::MAX,
            -0x0080_0000 <= scroll_dy <= 0x0080_0000,
            1 <= len <= 11,
        ensures
            *final(self) == blocking_move(*old(self), script@, old(self).script_ip as int, op, len as int, scroll_dy),
    {
        if op == 0x04 || op == 0x05 || op == 0x0D || op == 0x0E {
            self.exec_turning_move(script, op, len);
        } else {
            self.exec_straight_move(script, op, len, scroll_dy);
        }
    }

    fn exec_straight_move(&mut self, script: &[u8], op: u8, len: usize, scroll_dy: i32)
        requires
            instr_ok(*old(self)),
            old(self).script_ip < script@.len(),
            script@.len() + 16 <= usize::MAX,
            -0x0080_0000 <= scroll_dy <= 0x0080_0000,
            1 <= len <= 11,
        ensures
            *final(self) == straight_move(*old(self), script@, old(self).script_ip as int, op, len as int, scroll_dy),
    {
        reveal(straight_move);
        let ip = self.script_ip;
        let o0 = get_op(script, ip, 0);
        if op == 0x01 {
            if self.cur_instr_frame == 0 {
                self.angle = o0;
                self.speed = get_op(script, ip, 1) as i16;
                self.set_velocity();
            }
            self.block(get_op(script, ip, 2), len);
        } else if op == 0x03 {
            if self.cur_instr_frame == 0 {
                self.speed = o0 as i16;
                self.set_velocity();
            }
            self.block(get_op(script, ip, 1), len);
        } else if op == 0x0B {
            if self.cur_instr_frame == 0 {
                self.vx = 0;
            }
            self.vy = scroll_dy;
            self.block(o0, len);
        } else {
            self.block(o0, len);
        }
    }

    fn exec_turning_move(&mut self, script: &[u8], op: u8, len: usize)
        requires
            instr_ok(*old(self)),
            old(self).script_ip < script@.len(),
            script@.len() + 16 <= usize::MAX,
            1 <= len <= 11,
        ensures
            *final(self) == turning_move(*old(self), script@, old(self).script_ip as int, op, len as int),
    {
        let ghost e0 = *self;
        let ip = self.script_ip;
        let ghost e1 = if (op == 0x04 || op == 0x05) && e0.cur_instr_frame == 0 {
            Enemy { angle: opnd(script@, ip as int, 0), speed: opnd(script@, ip as int, 1) as i16, angle_delta: opnd(script@, ip as int, 2), ..e0 }
        } else {
            e0
        };
        if (op == 0x04 || op == 0x05) && self.cur_instr_frame == 0 {
            self.angle = get_op(script, ip, 0);
            self.speed = get_op(script, ip, 1) as i16;
            self.angle_delta = get_op(script, ip, 2);
        }
        assert(*self == e1);
        self.set_velocity();
        let t = turn_operands_exec(script, ip, op);
        self.vx = self.vx + t.0;
        self.vy = self.vy + t.1;
        self.turning_block(t.2, len);
        proof { reveal(turning_move); }
    }

    fn exec_immediate_move(&mut self, script: &[u8], op: u8, len: usize, player: (i32, i32)) -> (cont: bool)
        requires
            instr_ok(*old(self)),
            old(self).script_ip < script@.len(),
            script@.len() + 16 <= usize::MAX,
            1 <= len <= 11,
        ensures
            (*final(self), cont) == immediate_move(*old(self), script@, old(self).script_ip as int, op, len as int, player),
    {
        let ip = self.script_ip;
        if op == 0x09 || op == 0x0A || op == 0x0C || op == 0x12 || op == 0x13 || op == 0x14 {
            self.exec_velocity_move(script, op, len, player);
            return true;
        } else if op == 0x10 {
            self.patnum_base = get_op(script, ip, 0);
            self.hp = get_op16(script, ip, 1);
            self.score = get_op16(script, ip, 3) as i32;
            self.alive = true;
            self.can_be_damaged = true;
            self.kills_player = true;
        } else if op == 0x11 {
            self.angle = self.rand8();
        } else {
            self.killed = true;
            return false;
        }
        self.script_ip = ip + len;
        true
    }

    fn exec_velocity_move(&mut self, script: &[u8], op: u8, len: usize, player: (i32, i32))
        requires
            instr_ok(*old(self)),
            old(self).script_ip < script@.len(),
            script@.len() + 16 <= usize::MAX,
            1 <= len <= 11,
        ensures
            *final(self) == velocity_move(*old(self), script@, old(self).script_ip as int, op, len as int, player),
    {
        let ghost e0 = *self;
        let ip = self.script_ip;
        let angle = self.move_angle_exec(script, op, player);
        let speed = self.move_speed_exec(script, op);
        self.angle = angle;
        self.speed = speed;
        assert(*self == (Enemy { angle: move_angle(e0, script@, ip as int, op, player), speed: move_speed(e0, script@, ip as int, op), ..e0 }));
        self.set_velocity();
        self.script_ip = ip + len;
    }

    fn move_angle_exec(&self, script: &[u8], op: u8, player: (i32, i32)) -> (a: u8)
        requires
            instr_ok(*self),
            self.script_ip < script@.len(),
            script@.len() + 16 <= usize::MAX,
        ensures
            a == move_angle(*self, script@, self.script_ip as int, op, player),
    {
        reveal(move_angle);
        let o0 = get_op(script, self.script_ip, 0);
        if op == 0x09 {
            iatan2_wide(player.1 as i64 - self.y as i64, player.0 as i64 - self.x as i64).wrapping_add(o0)
        } else if op == 0x0A {
            self.angle.wrapping_add(o0)
        } else if op == 0x12 {
            o0
        } else if op == 0x13 {
            if self.spawned_left_half { o0 } else { 0x80u8.wrapping_sub(o0) }
        } else {
            self.angle
        }
    }

    fn move_speed_exec(&self, script: &[u8], op: u8) -> (sp: i16)
        requires
            self.script_ip < script@.len(),
            script@.len() + 16 <= usize::MAX,
        ensures
            sp == move_speed(*self, script@, self.script_ip as int, op),
    {
        reveal(move_speed);
        let ip = self.script_ip;
        if op == 0x0A {
            self.speed
        } else if op == 0x0C {
            self.speed.wrapping_add(signed8_exec(get_op(script, ip, 0)) as i16)
        } else if op == 0x14 {
            get_op(script, ip, 0) as i16
        } else {
            get_op(script, ip, 1) as i16
        }
    }

    /// The bullet-template opcodes.
    fn exec_template(&mut self, script: &[u8], op: u8, len: usize) -> (cont: bool)
        requires
            old(self).script_ip < script@.len(),
            script@.len() + 16 <= usize::MAX,
            1 <= len <= 11,
        ensures
            (*final(self), cont) == template_instr(*old(self), script@, old(self).script_ip as int, op, len as int),
    {
        let ip = self.script_ip;
        if (0x21 <= op && op <= 0x2A) || op == 0x30 {
            if op == 0x21 {
                self.autofire = false;
            }
            self.bullet = template_write_exec(self.bullet, script, ip, op);
        } else if op == 0x2B {
            self.autofire = true;
        } else if op == 0x2C {
            self.autofire_interval = get_op(script, ip, 0);
        } else if op == 0x2D {
            self.bullet.angle = self.rand8();
        } else if op == 0x2E {
            self.autofire = false;
        } else {
            self.killed = true;
            return false;
        }
        self.script_ip = ip + len;
        true
    }

    /// The control opcodes.
    fn exec_control(&mut self, script: &[u8], op: u8, len: usize) -> (cont: bool)
        requires
            instr_ok(*old(self)),
            old(self).script_ip < script@.len(),
            script@.len() + 16 <= usize::MAX,
            1 <= len <= 11,
        ensures
            (*final(self), cont) == control_instr(*old(self), script@, old(self).script_ip as int, op, len as int),
    {
        let ip = self.script_ip;
        if op == 0x80 || op == 0x81 {
            let o0 = get_op(script, ip, 0);
            if self.loop_i < get_op(script, ip, 1) {
                self.loop_i = self.loop_i + 1;
                if op == 0x80 {
                    self.script_ip = o0 as usize;
                } else {
                    self.script_ip = self.script_ip.saturating_sub(o0 as usize);
                }
            } else {
                self.loop_i = 0;
                self.script_ip = ip + len;
            }
            true
        } else if (0x82 <= op && op <= 0x89) || (0x8C <= op && op <= 0x8F) {
            self.exec_flag(script, op, len);
            true
        } else if op == 0x8A {
            self.x = get_op16(script, ip, 0) as i32;
            self.y = get_op16(script, ip, 2) as i32;
            self.script_ip = ip + len;
            false
        } else if op == 0x8B {
            self.x = self.x + get_op16(script, ip, 0) as i32;
            self.y = self.y + get_op16(script, ip, 2) as i32;
            self.script_ip = ip + len;
            false
        } else {
            self.killed = true;
            false
        }
    }

    fn exec_flag(&mut self, script: &[u8], op: u8, len: usize)
        requires
            old(self).script_ip < script@.len(),
            script@.len() + 16 <= usize::MAX,
            1 <= len <= 11,
        ensures
            *final(self) == flag_instr(*old(self), script@, old(self).script_ip as int, op, len as int),
    {
        reveal(flag_instr);
        let ip = self.script_ip;
        let o0 = get_op(script, ip, 0);
        if op == 0x82 {
            self.clip_x = true;
        } else if op == 0x83 {
            self.clip_y = true;
        } else if op == 0x84 {
            self.clip_x = true;
            self.clip_y = true;
        } else if op == 0x85 {
            self.anim_cels = o0;
            self.anim_frames_per_cel = get_op(script, ip, 1);
        } else if op == 0x87 {
            self.patnum_base = o0;
        } else if op == 0x88 {
            self.can_be_damaged = false;
            self.autofire = false;
        } else if op == 0x89 {
            self.can_be_damaged = true;
        } else if op == 0x8C {
            self.kills_player = false;
        } else if op == 0x8D {
            self.kills_player = true;
        } else if op == 0x8E {
            self.patnum_base = self.patnum_base.wrapping_add(o0);
        }
        self.script_ip = ip + len;
    }
}

fn template_write_exec(t: BulletTemplate, script: &[u8], ip: usize, op: u8) -> (r: BulletTemplate)
    requires
        ip < script@.len(),
        script@.len() + 16 <= usize::MAX,
    ensures
        r == template_write(t, script@, ip as int, op),
{
    reveal(template_write);
    let o0 = get_op(script, ip, 0);
    let mut t = t;
    if op == 0x21 {
        t.spawn_type = o0;
        t.origin_x = get_op16(script, ip, 1);
        t.origin_y = get_op16(script, ip, 3);
        t.group = get_op(script, ip, 5);
        t.angle = get_op(script, ip, 6);
        t.speed = get_op(script, ip, 7);
        t.patnum = get_op(script, ip, 8);
        t.count = get_op(script, ip, 9);
    } else if op == 0x22 {
        t.spawn_type = o0;
    } else if op == 0x23 {
        t.origin_x = get_op16(script, ip, 0);
        t.origin_y = get_op16(script, ip, 2);
    } else if op == 0x24 {
        t.angle = o0;
    } else if op == 0x25 {
        t.angle = t.angle.wrapping_add(o0);
    } else if op == 0x26 {
        t.speed = o0;
    } else if op == 0x27 {
        t.speed = t.speed.wrapping_add(o0);
    } else if op == 0x28 {
        t.group = o0;
    } else if op == 0x29 {
        t.count = o0;
    } else if op == 0x2A {
        t.patnum = o0;
    } else {
        t.delta = o0;
    }
    t
}

} // verus!

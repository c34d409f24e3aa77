//! TH04 enemy-script bytecode: the per-enemy VM that drives movement,
//! animation and bullet firing. Each instruction is an opcode plus fixed-length
//! operands; the interpreter (`sub_155DD` and its 0x90-entry jump table in
//! `th04_main.asm`) classes opcodes as *blocking* (they run for an
//! operand-given number of frames) or *immediate*. `0x00` ends the script.
//!
//! This module is the disassembler: it splits a script into instructions with
//! correct boundaries.

use vstd::prelude::*;

verus! {

/// Total length of an instruction (opcode and operands), or `None` for opcodes
/// that TH04 scripts never use.
pub open spec fn spec_op_len(op: u8) -> Option<usize> {
    match op {
        0x00 => Some(1usize), // END (kills the enemy)
        0x01 => Some(4usize), // move: angle, speed, frames
        0x02 => Some(2usize), // move with current velocity: frames
        0x03 => Some(3usize), // set speed + move: speed, frames
        0x04 => Some(5usize), // set angle/speed/angle_delta: angle, speed, delta, frames
        0x05 => Some(7usize), // 0x04 + velocity bias: + dvx, dvy, (frames at +6)
        0x06 => Some(2usize), // hold position: frames
        0x07 => Some(5usize), // velocity from magnitude·cos(angle): mag, delta, vy, frames
        0x08 => Some(5usize), // 0x07 with x/y swapped
        0x09 => Some(3usize), // aim at player: angle offset, speed
        0x0A => Some(2usize), // turn: angle += d
        0x0B => Some(2usize), // follow vertical scroll: frames
        0x0C => Some(2usize), // accelerate: speed += d (signed)
        0x0D => Some(2usize), // move (delta) : frames; angle += angle_delta
        0x0E => Some(4usize), // 0x0D + velocity bias: dvx, dvy, frames
        0x10 => Some(6usize), // stats: patnum_base, hp(u16), score(u16); becomes alive/damageable
        0x11 => Some(1usize), // angle = random
        0x12 => Some(3usize), // set angle, speed (immediate)
        0x13 => Some(3usize), // set angle (mirrored if spawned right-half), speed
        0x14 => Some(2usize), // set speed (immediate)
        0x20 => Some(1usize), // FIRE bullets from the template
        0x21 => Some(11usize), // set bullet template: type, ox(u16), oy(u16), group, angle, speed, patnum, count
        0x22 => Some(2usize), // bullet spawn type
        0x23 => Some(5usize), // bullet origin x(u16), y(u16)
        0x24 => Some(2usize), // bullet angle =
        0x25 => Some(2usize), // bullet angle +=
        0x26 => Some(2usize), // bullet speed =
        0x27 => Some(2usize), // bullet speed +=
        0x28 => Some(2usize), // bullet group =
        0x29 => Some(2usize), // bullet count =
        0x2A => Some(2usize), // bullet patnum =
        0x2B => Some(1usize), // autofire on
        0x2C => Some(2usize), // autofire interval = (rank/perf-adjusted)
        0x2D => Some(1usize), // bullet angle = random
        0x2E => Some(1usize), // autofire off
        0x30 => Some(2usize), // bullet angle delta (BT_delta)
        0x80 => Some(3usize), // loop: target(abs), count
        0x81 => Some(3usize), // loop: offset(back), count
        0x82 => Some(1usize), // clip x
        0x83 => Some(1usize), // clip y
        0x84 => Some(1usize), // clip x+y
        0x85 => Some(3usize), // animation: cels, frames_per_cel
        0x86 => Some(2usize), // play sound effect
        0x87 => Some(2usize), // patnum_base =
        0x88 => Some(1usize), // invulnerable (can't be damaged, autofire off)
        0x89 => Some(1usize), // vulnerable
        0x8A => Some(5usize), // set position x(u16), y(u16)
        0x8B => Some(5usize), // move position by x(u16), y(u16)
        0x8C => Some(1usize), // no longer kills player on collision
        0x8D => Some(1usize), // kills player on collision
        0x8E => Some(2usize), // patnum_base +=
        0x8F => Some(2usize), // set tile-ring image
        _ => None,
    }
}

/// Total length of an instruction (opcode + operands), or `None` for opcodes
/// that don't appear in TH04 scripts.
pub fn op_len(op: u8) -> (r: Option<usize>)
    ensures
        r == spec_op_len(op),
        r matches Some(l) ==> 1 <= l <= 11,
{
    match op {
        0x00 => Some(1), // END (kills the enemy)
        0x01 => Some(4), // move: angle, speed, frames
        0x02 => Some(2), // move with current velocity: frames
        0x03 => Some(3), // set speed + move: speed, frames
        0x04 => Some(5), // set angle/speed/angle_delta: angle, speed, delta, frames
        0x05 => Some(7), // 0x04 + velocity bias: + dvx, dvy, (frames at +6)
        0x06 => Some(2), // hold position: frames
        0x07 => Some(5), // velocity from magnitude·cos(angle): mag, delta, vy, frames
        0x08 => Some(5), // 0x07 with x/y swapped
        0x09 => Some(3), // aim at player: angle offset, speed
        0x0A => Some(2), // turn: angle += d
        0x0B => Some(2), // follow vertical scroll: frames
        0x0C => Some(2), // accelerate: speed += d (signed)
        0x0D => Some(2), // move (delta) : frames; angle += angle_delta
        0x0E => Some(4), // 0x0D + velocity bias: dvx, dvy, frames
        0x10 => Some(6), // stats: patnum_base, hp(u16), score(u16); becomes alive/damageable
        0x11 => Some(1), // angle = random
        0x12 => Some(3), // set angle, speed (immediate)
        0x13 => Some(3), // set angle (mirrored if spawned right-half), speed
        0x14 => Some(2), // set speed (immediate)
        0x20 => Some(1), // FIRE bullets from the template
        0x21 => Some(11), // set bullet template: type, ox(u16), oy(u16), group, angle, speed, patnum, count
        0x22 => Some(2), // bullet spawn type
        0x23 => Some(5), // bullet origin x(u16), y(u16)
        0x24 => Some(2), // bullet angle =
        0x25 => Some(2), // bullet angle +=
        0x26 => Some(2), // bullet speed =
        0x27 => Some(2), // bullet speed +=
        0x28 => Some(2), // bullet group =
        0x29 => Some(2), // bullet count =
        0x2A => Some(2), // bullet patnum =
        0x2B => Some(1), // autofire on
        0x2C => Some(2), // autofire interval = (rank/perf-adjusted)
        0x2D => Some(1), // bullet angle = random
        0x2E => Some(1), // autofire off
        0x30 => Some(2), // bullet angle delta (BT_delta)
        0x80 => Some(3), // loop: target(abs), count
        0x81 => Some(3), // loop: offset(back), count
        0x82 => Some(1), // clip x
        0x83 => Some(1), // clip y
        0x84 => Some(1), // clip x+y
        0x85 => Some(3), // animation: cels, frames_per_cel
        0x86 => Some(2), // play sound effect
        0x87 => Some(2), // patnum_base =
        0x88 => Some(1), // invulnerable (can't be damaged, autofire off)
        0x89 => Some(1), // vulnerable
        0x8A => Some(5), // set position x(u16), y(u16)
        0x8B => Some(5), // move position by x(u16), y(u16)
        0x8C => Some(1), // no longer kills player on collision
        0x8D => Some(1), // kills player on collision
        0x8E => Some(2), // patnum_base +=
        0x8F => Some(2), // set tile-ring image
        _ => None,
    }
}

/// The mnemonic of an opcode, `?` for unknown ones.
pub open spec fn spec_op_name(op: u8) -> Seq<char> {
    match op {
        0x00 => "end"@,
        0x01 => "move"@,
        0x02 => "move_cur"@,
        0x03 => "set_speed_move"@,
        0x04 => "set_avd"@,
        0x05 => "set_avd_bias"@,
        0x06 => "hold"@,
        0x07 => "vel_mag"@,
        0x08 => "vel_mag_swap"@,
        0x09 => "aim_player"@,
        0x0A => "turn"@,
        0x0B => "follow_scroll"@,
        0x0C => "accel"@,
        0x0D => "move_delta"@,
        0x0E => "move_delta_bias"@,
        0x10 => "stats"@,
        0x11 => "rand_angle"@,
        0x12 => "set_av"@,
        0x13 => "set_av_mirror"@,
        0x14 => "set_speed"@,
        0x20 => "fire"@,
        0x21 => "bt_set"@,
        0x22 => "bt_type"@,
        0x23 => "bt_origin"@,
        0x24 => "bt_angle"@,
        0x25 => "bt_angle_add"@,
        0x26 => "bt_speed"@,
        0x27 => "bt_speed_add"@,
        0x28 => "bt_group"@,
        0x29 => "bt_count"@,
        0x2A => "bt_patnum"@,
        0x2B => "autofire_on"@,
        0x2C => "autofire_interval"@,
        0x2D => "bt_angle_rand"@,
        0x2E => "autofire_off"@,
        0x30 => "bt_delta"@,
        0x80 => "loop_abs"@,
        0x81 => "loop_rel"@,
        0x82 => "clip_x"@,
        0x83 => "clip_y"@,
        0x84 => "clip_xy"@,
        0x85 => "anim"@,
        0x86 => "se"@,
        0x87 => "patnum"@,
        0x88 => "invuln"@,
        0x89 => "vuln"@,
        0x8A => "set_pos"@,
        0x8B => "move_pos"@,
        0x8C => "no_kill"@,
        0x8D => "kill_on_touch"@,
        0x8E => "patnum_add"@,
        0x8F => "tile_set"@,
        _ => "?"@,
    }
}

/// An opcode has a length exactly when it has a name: `op_name` answers
/// "?" for the opcodes `op_len` does not know, and only for those.
pub proof fn law_op_name_known(op: u8)
    ensures
        spec_op_len(op) is None <==> spec_op_name(op) == "?"@,
{
    reveal_strlit("?");
    assert("?"@.len() == 1);
    match op {
        0x00 => {
            reveal_strlit("end");
            assert("end"@.len() == 3);
        },
        0x01 => {
            reveal_strlit("move");
            assert("move"@.len() == 4);
        },
        0x02 => {
            reveal_strlit("move_cur");
            assert("move_cur"@.len() == 8);
        },
        0x03 => {
            reveal_strlit("set_speed_move");
            assert("set_speed_move"@.len() == 14);
        },
        0x04 => {
            reveal_strlit("set_avd");
            assert("set_avd"@.len() == 7);
        },
        0x05 => {
            reveal_strlit("set_avd_bias");
            assert("set_avd_bias"@.len() == 12);
        },
        0x06 => {
            reveal_strlit("hold");
            assert("hold"@.len() == 4);
        },
        0x07 => {
            reveal_strlit("vel_mag");
            assert("vel_mag"@.len() == 7);
        },
        0x08 => {
            reveal_strlit("vel_mag_swap");
            assert("vel_mag_swap"@.len() == 12);
        },
        0x09 => {
            reveal_strlit("aim_player");
            assert("aim_player"@.len() == 10);
        },
        0x0A => {
            reveal_strlit("turn");
            assert("turn"@.len() == 4);
        },
        0x0B => {
            reveal_strlit("follow_scroll");
            assert("follow_scroll"@.len() == 13);
        },
        0x0C => {
            reveal_strlit("accel");
            assert("accel"@.len() == 5);
        },
        0x0D => {
            reveal_strlit("move_delta");
            assert("move_delta"@.len() == 10);
        },
        0x0E => {
            reveal_strlit("move_delta_bias");
            assert("move_delta_bias"@.len() == 15);
        },
        0x10 => {
            reveal_strlit("stats");
            assert("stats"@.len() == 5);
        },
        0x11 => {
            reveal_strlit("rand_angle");
            assert("rand_angle"@.len() == 10);
        },
        0x12 => {
            reveal_strlit("set_av");
            assert("set_av"@.len() == 6);
        },
        0x13 => {
            reveal_strlit("set_av_mirror");
            assert("set_av_mirror"@.len() == 13);
        },
        0x14 => {
            reveal_strlit("set_speed");
            assert("set_speed"@.len() == 9);
        },
        0x20 => {
            reveal_strlit("fire");
            assert("fire"@.len() == 4);
        },
        0x21 => {
            reveal_strlit("bt_set");
            assert("bt_set"@.len() == 6);
        },
        0x22 => {
            reveal_strlit("bt_type");
            assert("bt_type"@.len() == 7);
        },
        0x23 => {
            reveal_strlit("bt_origin");
            assert("bt_origin"@.len() == 9);
        },
        0x24 => {
            reveal_strlit("bt_angle");
            assert("bt_angle"@.len() == 8);
        },
        0x25 => {
            reveal_strlit("bt_angle_add");
            assert("bt_angle_add"@.len() == 12);
        },
        0x26 => {
            reveal_strlit("bt_speed");
            assert("bt_speed"@.len() == 8);
        },
        0x27 => {
            reveal_strlit("bt_speed_add");
            assert("bt_speed_add"@.len() == 12);
        },
        0x28 => {
            reveal_strlit("bt_group");
            assert("bt_group"@.len() == 8);
        },
        0x29 => {
            reveal_strlit("bt_count");
            assert("bt_count"@.len() == 8);
        },
        0x2A => {
            reveal_strlit("bt_patnum");
            assert("bt_patnum"@.len() == 9);
        },
        0x2B => {
            reveal_strlit("autofire_on");
            assert("autofire_on"@.len() == 11);
        },
        0x2C => {
            reveal_strlit("autofire_interval");
            assert("autofire_interval"@.len() == 17);
        },
        0x2D => {
            reveal_strlit("bt_angle_rand");
            assert("bt_angle_rand"@.len() == 13);
        },
        0x2E => {
            reveal_strlit("autofire_off");
            assert("autofire_off"@.len() == 12);
        },
        0x30 => {
            reveal_strlit("bt_delta");
            assert("bt_delta"@.len() == 8);
        },
        0x80 => {
            reveal_strlit("loop_abs");
            assert("loop_abs"@.len() == 8);
        },
        0x81 => {
            reveal_strlit("loop_rel");
            assert("loop_rel"@.len() == 8);
        },
        0x82 => {
            reveal_strlit("clip_x");
            assert("clip_x"@.len() == 6);
        },
        0x83 => {
            reveal_strlit("clip_y");
            assert("clip_y"@.len() == 6);
        },
        0x84 => {
            reveal_strlit("clip_xy");
            assert("clip_xy"@.len() == 7);
        },
        0x85 => {
            reveal_strlit("anim");
            assert("anim"@.len() == 4);
        },
        0x86 => {
            reveal_strlit("se");
            assert("se"@.len() == 2);
        },
        0x87 => {
            reveal_strlit("patnum");
            assert("patnum"@.len() == 6);
        },
        0x88 => {
            reveal_strlit("invuln");
            assert("invuln"@.len() == 6);
        },
        0x89 => {
            reveal_strlit("vuln");
            assert("vuln"@.len() == 4);
        },
        0x8A => {
            reveal_strlit("set_pos");
            assert("set_pos"@.len() == 7);
        },
        0x8B => {
            reveal_strlit("move_pos");
            assert("move_pos"@.len() == 8);
        },
        0x8C => {
            reveal_strlit("no_kill");
            assert("no_kill"@.len() == 7);
        },
        0x8D => {
            reveal_strlit("kill_on_touch");
            assert("kill_on_touch"@.len() == 13);
        },
        0x8E => {
            reveal_strlit("patnum_add");
            assert("patnum_add"@.len() == 10);
        },
        0x8F => {
            reveal_strlit("tile_set");
            assert("tile_set"@.len() == 8);
        },
        _ => {},
    }
}

/// Human-readable mnemonic for an opcode.
pub fn op_name(op: u8) -> (r: &'static str)
    ensures
        r@ == spec_op_name(op),
{
    match op {
        0x00 => "end",
        0x01 => "move",
        0x02 => "move_cur",
        0x03 => "set_speed_move",
        0x04 => "set_avd",
        0x05 => "set_avd_bias",
        0x06 => "hold",
        0x07 => "vel_mag",
        0x08 => "vel_mag_swap",
        0x09 => "aim_player",
        0x0A => "turn",
        0x0B => "follow_scroll",
        0x0C => "accel",
        0x0D => "move_delta",
        0x0E => "move_delta_bias",
        0x10 => "stats",
        0x11 => "rand_angle",
        0x12 => "set_av",
        0x13 => "set_av_mirror",
        0x14 => "set_speed",
        0x20 => "fire",
        0x21 => "bt_set",
        0x22 => "bt_type",
        0x23 => "bt_origin",
        0x24 => "bt_angle",
        0x25 => "bt_angle_add",
        0x26 => "bt_speed",
        0x27 => "bt_speed_add",
        0x28 => "bt_group",
        0x29 => "bt_count",
        0x2A => "bt_patnum",
        0x2B => "autofire_on",
        0x2C => "autofire_interval",
        0x2D => "bt_angle_rand",
        0x2E => "autofire_off",
        0x30 => "bt_delta",
        0x80 => "loop_abs",
        0x81 => "loop_rel",
        0x82 => "clip_x",
        0x83 => "clip_y",
        0x84 => "clip_xy",
        0x85 => "anim",
        0x86 => "se",
        0x87 => "patnum",
        0x88 => "invuln",
        0x89 => "vuln",
        0x8A => "set_pos",
        0x8B => "move_pos",
        0x8C => "no_kill",
        0x8D => "kill_on_touch",
        0x8E => "patnum_add",
        0x8F => "tile_set",
        _ => "?",
    }
}

/// One decoded instruction.
#[derive(Debug, Clone)]
pub struct Insn {
    pub offset: usize,
    pub opcode: u8,
    pub mnemonic: &'static str,
    /// Operand bytes (everything after the opcode byte).
    pub operands: Vec<u8>,
}

/// The instructions of `s` from `ip` on, as (offset, opcode, operands), and
/// whether the walk reached an `END`. It stops at `END`, at an opcode with no
/// defined length, or at the end of the script; operands are cut at the end of
/// the script.
pub open spec fn disasm_from(s: Seq<u8>, ip: int) -> (Seq<(int, u8, Seq<u8>)>, bool)
    decreases s.len() - ip,
{
    if ip < 0 || ip >= s.len() {
        (Seq::empty(), false)
    } else {
        match spec_op_len(s[ip]) {
            None => (Seq::empty(), false),
            Some(l) => {
                let end = if ip + l < s.len() { ip + l } else { s.len() as int };
                let insn = (ip, s[ip], s.subrange(ip + 1, end));
                if s[ip] == 0 || l == 0 || ip + l >= s.len() {
                    (seq![insn], s[ip] == 0)
                } else {
                    let rest = disasm_from(s, ip + l);
                    (seq![insn] + rest.0, rest.1)
                }
            },
        }
    }
}

/// Disassemble an enemy script. Stops at the `END` opcode (0x00) or at an
/// opcode with no defined length; the flag is true when the walk reached `END`.
pub fn disassemble(script: &[u8]) -> (r: (Vec<Insn>, bool))
    ensures
        r.1 == disasm_from(script@, 0).1,
        r.0@.len() == disasm_from(script@, 0).0.len(),
        forall|k: int| 0 <= k < r.0@.len() ==> {
            let d = #[trigger] disasm_from(script@, 0).0[k];
            &&& r.0@[k].offset == d.0
            &&& r.0@[k].opcode == d.1
            &&& r.0@[k].operands@ == d.2
            &&& r.0@[k].mnemonic@ == spec_op_name(d.1)
        },
{
    let len = script.len();
    let ghost all = disasm_from(script@, 0).0;
    let mut out: Vec<Insn> = Vec::new();
    let mut ip: usize = 0;
    while ip < len
        invariant
            len == script@.len(),
            ip <= len,
            all == disasm_from(script@, 0).0,
            disasm_from(script@, 0).1 == disasm_from(script@, ip as int).1,
            out@.len() + disasm_from(script@, ip as int).0.len() == all.len(),
            forall|k: int| 0 <= k < out@.len() ==> {
                &&& (#[trigger] out@[k]).offset == all[k].0
                &&& out@[k].opcode == all[k].1
                &&& out@[k].operands@ == all[k].2
                &&& out@[k].mnemonic@ == spec_op_name(all[k].1)
            },
            forall|k: int| 0 <= k < disasm_from(script@, ip as int).0.len()
                ==> #[trigger] disasm_from(script@, ip as int).0[k] == all[out@.len() + k],
        decreases len - ip,
    {
        let opcode = script[ip];
        let l = match op_len(opcode) {
            Some(l) => l,
            None => return (out, false),
        };
        let end = if l < len - ip { ip + l } else { len };
        let ghost before = out@.len();
        let ghost cur = disasm_from(script@, ip as int);
        assert(cur.0[0] == all[before as int]);
        out.push(Insn {
            offset: ip,
            opcode,
            mnemonic: op_name(opcode),
            operands: vstd::slice::slice_to_vec(vstd::slice::slice_subrange(script, ip + 1, end)),
        });
        if opcode == 0 {
            return (out, true);
        }
        if l >= len - ip {
            return (out, false);
        }
        assert forall|k: int| 0 <= k < disasm_from(script@, (ip + l) as int).0.len()
            implies #[trigger] disasm_from(script@, (ip + l) as int).0[k] == all[before + 1 + k] by {
            assert(cur.0[k + 1] == disasm_from(script@, (ip + l) as int).0[k]);
        }
        ip = ip + l;
    }
    (out, false)
}

} // verus!

//! Headless stage simulation: ties the whole gameplay loop together — the
//! `.STD` spawn timeline, the enemy script VM, the bullet system and the
//! player, plus collision and scoring. No rendering; this is the deterministic
//! game model that a renderer drives and draws.
//!
//! Collision is approximate (axis-aligned boxes): player shots damage enemies
//! (kill → score), and enemy bullets that reach the player count as hits.
//! Positions are subpixels (16/px); distances are compared exactly.

use vstd::prelude::*;
use crate::boss::{Boss, Orbit, BossEnv, BossKind, Midboss, BOSS_HIT, BOSS_DEFEAT_FRAMES, MIDBOSS1_HP, midboss_next, boss_damaged, defeat_tick,
    boss_frame_post, boss_ok, kind_ok, update_ok,
    fresh_boss, lemma_fresh_boss_ok, midboss_frame_ok, orbit_within};
use crate::bullet::{BulletPool, Bullet, pool_ok, target_ok, origin_ok, lcg_next, lcg_step, cleared, bullet_step};
use crate::effects::{EffectPool, effects_after};
use crate::enemy_vm::{Enemy, PoolState, pool_state, frame_result, step_ok, ctrl_ends, ctrl_next, spawned_enemy, frame_ends_within, frame_ends_by,
    walk_budget, step_checked, lemma_step_checked};
use crate::player::{Input, Player, PlayerShot, player_ok, vitals, vitals_step, volley, shots_add, first_free_shot,
    volley_shot, shot_moved, spec_shot_level, clamp, input_dx, input_dy, moved_pos, moved_shots, moved_vitals, moved_controls, death, Vitals};
use crate::stage::{Std, TimelineFrame, Spawn};

verus! {

pub const SUBPIXEL: i32 = 16;
/// Midboss-1 hitbox half-extent (24×16 px).
pub const MIDBOSS_HIT: i32 = 24 * SUBPIXEL;
/// Stage frame at which the midboss interlude starts.
pub const MIDBOSS_FRAME: u16 = 2400;
pub const PLAYFIELD_W: i32 = 384;
pub const PLAYFIELD_H: i32 = 368;
/// Random spawn coordinates fall within the playfield.
pub const SPAWN_RANGE_X: i32 = PLAYFIELD_W * SUBPIXEL;
pub const SPAWN_RANGE_Y: i32 = PLAYFIELD_H * SUBPIXEL;
/// ReC98 ENEMY_POS_RANDOM (999.0 px): a spawn coordinate of this value means
/// "pick a random position on that axis". Stored as a subpixel here.
pub const ENEMY_POS_RANDOM: i32 = 999 * SUBPIXEL;
/// Vertical scroll per frame (1 px).
pub const SCROLL_DY: i32 = 16;
/// Approximate hit half-extents.
pub const ENEMY_HIT: i32 = 16 * SUBPIXEL;
pub const BULLET_KILL: i32 = 6 * SUBPIXEL;
/// Reach of a boss satellite (orb or bit).
pub const ORBIT_HIT: i32 = 12 * SUBPIXEL;
/// Items within this distance of the player are collected.
pub const ITEM_REACH: i32 = 24 * SUBPIXEL;
/// Items falling below this line are lost.
pub const ITEM_FLOOR: i32 = 420 * SUBPIXEL;

/// A dropped item (power / point / …) falling for the player to collect.
#[derive(Debug, Clone, Copy)]
pub struct Item {
    pub x: i32,
    pub y: i32,
    pub vy: i32,
    pub kind: u8,
    pub active: bool,
}

/// High-level stage progression.
#[derive(Debug, Clone, Copy, PartialEq, Eq, Structural)]
pub enum Phase {
    /// Trash-wave timeline is running (a midboss interlude lives inside this).
    Trash,
    /// Timeline exhausted + field clear → the boss appears.
    Boss,
    /// Stage finished (boss defeated / nothing left).
    Cleared,
}

pub struct StageSim {
    pub std: Std,
    pub events: Vec<TimelineFrame>,
    /// Next timeline frame to run.
    pub ev_i: usize,
    pub frame: u16,
    pub enemies: Vec<Enemy>,
    pub bullets: BulletPool,
    pub player: Player,
    pub score: i64,
    pub enemies_spawned: u32,
    pub enemies_killed: u32,
    pub player_hits: u32,
    pub phase: Phase,
    pub boss: Option<Boss>,
    pub midboss: Option<Midboss>,
    pub items: Vec<Item>,
    /// Non-damaging boss telegraphs (gather/circle/spark markers).
    pub effects: EffectPool,
    /// Which boss spawns at the boss phase (`None` = no roster boss, e.g. Extra).
    pub boss_kind: Option<BossKind>,
    /// The midboss interlude is over.
    pub midboss_done: bool,
    /// Generator for random spawn positions.
    pub rng: u32,
}

// ---------------------------------------------------------------------------
// The model

/// `|a - b| < r`.
pub open spec fn near(a: int, b: int, r: int) -> bool {
    -r < a - b < r
}

/// The enemy script an enemy with this index runs (none past the end).
pub open spec fn script_of(std: Std, i: int) -> Seq<u8> {
    if 0 <= i < std.enemy_scripts@.len() { std.enemy_scripts@[i]@ } else { Seq::empty() }
}

/// A script whose first frame ends within a budget the fire counter has room for.
pub open spec fn first_frame_ends(s: Seq<u8>) -> bool {
    exists|n: nat| #[trigger] ctrl_ends(s, 0, 0u8, n) && n + 2 <= u32::MAX
}

/// Every enemy script fits the interpreter's index arithmetic and ends its
/// first frame.
pub open spec fn scripts_ok(std: Std) -> bool {
    forall|i: int| 0 <= i < std.enemy_scripts@.len() ==> {
        &&& (#[trigger] std.enemy_scripts@[i])@.len() + 16 <= usize::MAX
        &&& first_frame_ends(std.enemy_scripts@[i]@)
    }
}

/// How many spawns the timeline holds from frame record `i` on.
pub open spec fn spawn_total(evs: Seq<TimelineFrame>, i: int) -> int
    decreases evs.len() - i,
{
    if 0 <= i < evs.len() { evs[i].spawns@.len() + spawn_total(evs, i + 1) } else { 0 }
}

/// The first timeline record from `i` on that is not yet due at `frame`.
pub open spec fn due_end(evs: Seq<TimelineFrame>, i: int, frame: u16) -> int
    decreases evs.len() - i,
{
    if 0 <= i < evs.len() && evs[i].frame <= frame { due_end(evs, i + 1, frame) } else { i }
}

/// A spawn coordinate: `ENEMY_POS_RANDOM` draws one from the generator
/// (below `bound`), anything else is kept. The new generator state and the
/// coordinate.
pub open spec fn resolve(rng: u32, v: i32, bound: i32) -> (u32, i32) {
    if v == ENEMY_POS_RANDOM {
        let r = lcg_next(rng);
        (r, ((r >> 16u32) as int % bound as int) as i32)
    } else {
        (rng, v)
    }
}

/// The enemy a spawn record creates at (`x`, `y`).
pub open spec fn spawn_enemy(sp: Spawn, x: i32, y: i32) -> Enemy {
    Enemy { script_index: sp.script_index as usize, item: sp.arg, ..spawned_enemy(x, y) }
}

/// The enemies spawn records `j..` create, and the generator after them.
pub open spec fn spawn_list(sps: Seq<Spawn>, j: int, rng: u32) -> (Seq<Enemy>, u32)
    decreases sps.len() - j,
{
    if 0 <= j < sps.len() {
        let rx = resolve(rng, sps[j].x as i32, SPAWN_RANGE_X);
        let ry = resolve(rx.0, sps[j].y as i32, SPAWN_RANGE_Y);
        let rest = spawn_list(sps, j + 1, ry.0);
        (seq![spawn_enemy(sps[j], rx.1, ry.1)] + rest.0, rest.1)
    } else {
        (Seq::empty(), rng)
    }
}

/// The enemies timeline records `i..end` create, and the generator after them.
pub open spec fn timeline_spawns(evs: Seq<TimelineFrame>, i: int, end: int, rng: u32) -> (Seq<Enemy>, u32)
    decreases end - i,
{
    if 0 <= i < end && i < evs.len() {
        let a = spawn_list(evs[i].spawns@, 0, rng);
        let rest = timeline_spawns(evs, i + 1, end, a.1);
        (a.0 + rest.0, rest.1)
    } else {
        (Seq::empty(), rng)
    }
}

/// `v` as a 16-bit value, wrapping.
pub open spec fn wrap16(v: int) -> i16 {
    (if v > 32767 { v - 65536 } else if v < -32768 { v + 65536 } else { v }) as i16
}

/// An enemy after one frame under a bomb: damageable ones lose 4 HP and die
/// at 0.
pub open spec fn bombed(e: Enemy) -> Enemy {
    if e.can_be_damaged {
        let hp = wrap16(e.hp - 4);
        Enemy { hp, killed: e.killed || hp <= 0, ..e }
    } else {
        e
    }
}

/// A live enemy can run its frame of its script.
pub open spec fn enemy_ready(e: Enemy, std: Std) -> bool {
    !e.killed ==> step_ok(e, script_of(std, e.script_index as int))
}

/// A live enemy near the middle of the coordinate range.
pub open spec fn enemy_placed(e: Enemy) -> bool {
    !e.killed ==> -0x0790_0000 <= e.x <= 0x0790_0000 && -0x0790_0000 <= e.y <= 0x0790_0000
}

/// An item whose fall cannot overflow.
pub open spec fn item_ok(it: Item) -> bool {
    -0x4000_0000 <= it.y <= 0x4000_0000 && -0x1000_0000 <= it.vy <= 40
}

/// A boss that can take a bomb's damage and then run its frame.
pub open spec fn boss_ready(b: Boss) -> bool {
    if b.defeated {
        b.defeat_frame < u32::MAX
    } else {
        &&& boss_ok(b, 1)
        &&& kind_ok(b)
        &&& -0x0FF0_0000 + 2 <= b.damage_pending <= 0x0FF0_0000 - 2
        &&& -0x1000_0000 + 2 <= b.hp - b.damage_pending <= 0x1000_0000 - 2
        &&& -0x1000_0000 + 2 <= b.hp + b.damage_pending <= 0x1000_0000 - 2
    }
}

/// A boss that can run its frame and take the frame's shots.
pub open spec fn boss_live_ok(b: Boss) -> bool {
    if b.defeated { b.defeat_frame < u32::MAX } else { boss_ok(b, 1) && kind_ok(b) }
}

/// A midboss that can take damage and run its frame.
pub open spec fn midboss_ready(m: Midboss) -> bool {
    midboss_frame_ok(m) && (!m.defeated ==> m.hp >= -0x4000_0000)
}

/// Shots whose damage the HP counters can absorb.
pub open spec fn shot_damage_ok(ss: Seq<PlayerShot>) -> bool {
    forall|i: int| 0 <= i < ss.len() ==> 0 <= #[trigger] ss[i].damage <= 0x100
}

/// What `script_ready` checks: the script fits the interpreter's index
/// arithmetic and its first frame ends within the walk budget.
pub open spec fn script_checked(s: Seq<u8>) -> bool {
    s.len() + 16 <= usize::MAX && frame_ends_by(s, 0, 0u8, walk_budget(s.len() as int, u32::MAX - 2))
}

/// What `StageSim::ready` checks: `sim_ready`, with each script and live
/// enemy frame found to end by following its control flow within the walk
/// budget.
pub open spec fn sim_checked(s: StageSim) -> bool {
    &&& player_ok(s.player)
    &&& s.player.lives > i32::MIN + 1
    &&& origin_ok(s.player.x as int, s.player.y as int)
    &&& s.player.shots@.len() <= 0x1000
    &&& shot_damage_ok(s.player.shots@)
    &&& pool_ok(s.bullets.bullets@)
    &&& forall|i: int| 0 <= i < s.std.enemy_scripts@.len() ==> script_checked((#[trigger] s.std.enemy_scripts@[i])@)
    &&& forall|i: int| 0 <= i < s.enemies@.len() ==> (!(#[trigger] s.enemies@[i]).killed
        ==> step_checked(s.enemies@[i], script_of(s.std, s.enemies@[i].script_index as int)))
    &&& s.enemies@.len() <= 0x1000_0000
    &&& s.items@.len() <= 0x1000_0000
    &&& forall|i: int| 0 <= i < s.items@.len() ==> item_ok(#[trigger] s.items@[i])
    &&& s.ev_i <= s.events@.len()
    &&& s.enemies_spawned + spawn_total(s.events@, s.ev_i as int) <= u32::MAX
    &&& s.enemies_killed + s.enemies@.len() + 0x2000 <= u32::MAX
    &&& s.player_hits < u32::MAX
    &&& -0x4000_0000_0000_0000 <= s.score <= 0x4000_0000_0000_0000
    &&& s.boss is Some ==> boss_ready(s.boss.unwrap())
    &&& s.midboss is Some ==> midboss_ready(s.midboss.unwrap())
}

/// Spawns counted from an earlier frame record include those counted from a
/// later one.
pub proof fn lemma_spawn_total_mono(evs: Seq<TimelineFrame>, i: int, j: int)
    requires
        0 <= i <= j,
    ensures
        spawn_total(evs, i) >= spawn_total(evs, j) >= 0,
    decreases j - i + (evs.len() - i),
{
    if j < evs.len() {
        if i < j {
            lemma_spawn_total_mono(evs, i + 1, j);
        } else {
            lemma_spawn_total_mono(evs, i + 1, j + 1);
        }
    } else if i < evs.len() {
        lemma_spawn_total_mono(evs, i + 1, j);
    }
}

/// A sim whose checks pass can run its next frame.
pub proof fn lemma_checked_ready(s: StageSim)
    requires
        sim_checked(s),
    ensures
        sim_ready(s),
{
    assert forall|i: int| 0 <= i < s.std.enemy_scripts@.len() implies {
        &&& (#[trigger] s.std.enemy_scripts@[i])@.len() + 16 <= usize::MAX
        &&& first_frame_ends(s.std.enemy_scripts@[i]@)
    } by {
        let sc = s.std.enemy_scripts@[i]@;
        assert(script_checked(sc));
        let w = choose|w: nat| w <= walk_budget(sc.len() as int, u32::MAX - 2) && #[trigger] ctrl_ends(sc, 0, 0u8, w);
        assert(ctrl_ends(sc, 0, 0u8, w) && w + 2 <= u32::MAX);
    }
    assert forall|i: int| 0 <= i < s.enemies@.len() implies enemy_ready(#[trigger] s.enemies@[i], s.std) by {
        if !s.enemies@[i].killed {
            lemma_step_checked(s.enemies@[i], script_of(s.std, s.enemies@[i].script_index as int));
        }
    }
}

/// What a frame of `step` asks: sane player, pool, enemies, items, bosses and
/// stage data, and counters with room to count.
pub open spec fn sim_ready(s: StageSim) -> bool {
    &&& player_ok(s.player)
    &&& s.player.lives > i32::MIN + 1
    &&& origin_ok(s.player.x as int, s.player.y as int)
    &&& s.player.shots@.len() <= 0x1000
    &&& shot_damage_ok(s.player.shots@)
    &&& pool_ok(s.bullets.bullets@)
    &&& scripts_ok(s.std)
    &&& forall|i: int| 0 <= i < s.enemies@.len() ==> enemy_ready(#[trigger] s.enemies@[i], s.std)
    &&& s.enemies@.len() <= 0x1000_0000
    &&& s.items@.len() <= 0x1000_0000
    &&& forall|i: int| 0 <= i < s.items@.len() ==> item_ok(#[trigger] s.items@[i])
    &&& s.ev_i <= s.events@.len()
    &&& s.enemies_spawned + spawn_total(s.events@, s.ev_i as int) <= u32::MAX
    &&& s.enemies_killed + s.enemies@.len() + 0x2000 <= u32::MAX
    &&& s.player_hits < u32::MAX
    &&& -0x4000_0000_0000_0000 <= s.score <= 0x4000_0000_0000_0000
    &&& s.boss is Some ==> boss_ready(s.boss.unwrap())
    &&& s.midboss is Some ==> midboss_ready(s.midboss.unwrap())
}

/// What the frame's action asks, once the player has moved and the timeline
/// has run: the player where bullets can aim, a sane pool, live enemies that
/// can run their frame, bosses that can run theirs, and room in the counters.
pub open spec fn begin_ok(s: StageSim) -> bool {
    &&& target_ok((s.player.x, s.player.y))
    &&& origin_ok(s.player.x as int, s.player.y as int)
    &&& s.player.lives > i32::MIN
    &&& s.player.shots@.len() <= 0x2000
    &&& shot_damage_ok(s.player.shots@)
    &&& pool_ok(s.bullets.bullets@)
    &&& scripts_ok(s.std)
    &&& forall|i: int| 0 <= i < s.enemies@.len() ==> enemy_ready(#[trigger] s.enemies@[i], s.std)
    &&& s.items@.len() <= 0x1000_0000
    &&& forall|i: int| 0 <= i < s.items@.len() ==> item_ok(#[trigger] s.items@[i])
    &&& s.ev_i <= s.events@.len()
    &&& s.enemies_killed + 0x2000 <= u32::MAX
    &&& s.player_hits < u32::MAX
    &&& -0x4800_0000_0000_0000 <= s.score <= 0x4800_0000_0000_0000
    &&& s.boss is Some ==> boss_live_ok(s.boss.unwrap())
    &&& s.midboss is Some ==> midboss_ready(s.midboss.unwrap())
}

/// What the frame's end asks: the player where bullets can reach it, items
/// that can fall, and room in the counters.
pub open spec fn act_ok(s: StageSim) -> bool {
    &&& s.player.lives > i32::MIN
    &&& s.items@.len() <= 0x2000_0000
    &&& forall|i: int| 0 <= i < s.items@.len() ==> item_ok(#[trigger] s.items@[i])
    &&& s.ev_i <= s.events@.len()
    &&& s.player_hits < u32::MAX
    &&& -0x4900_0000_0000_0000 <= s.score <= 0x4900_0000_0000_0000
}

/// Two states share the stage data, the timeline position, the frame, the
/// phase and the spawn bookkeeping.
pub open spec fn same_course(a: StageSim, b: StageSim) -> bool {
    &&& b.std == a.std
    &&& b.events@ == a.events@
    &&& b.ev_i == a.ev_i
    &&& b.frame == a.frame
    &&& b.rng == a.rng
    &&& b.enemies_spawned == a.enemies_spawned
    &&& b.phase == a.phase
    &&& b.boss_kind == a.boss_kind
}

/// `s` is the sim `StageSim::new` builds for stage data `std`: the decoded
/// timeline, nothing on the field, the player at the start, every counter at
/// zero, in the trash phase.
pub open spec fn fresh_sim(s: StageSim, std: Std, shot_type: u8, boss_kind: Option<BossKind>) -> bool {
    &&& s.std == std
    &&& s.events@.len() == std.spec_timeline().len()
    &&& forall|k: int| 0 <= k < s.events@.len() ==> (#[trigger] s.events@[k]).frame == std.spec_timeline()[k].0
        && s.events@[k].spawns@ == std.spec_timeline()[k].1
    &&& s.ev_i == 0 && s.frame == 0
    &&& s.enemies@.len() == 0 && s.items@.len() == 0
    &&& s.bullets.bullets@.len() == 0 && s.effects.effects@.len() == 0
    &&& s.player.shot_type == shot_type && player_ok(s.player)
    &&& s.player.x == 3072 && s.player.y == 5120 && s.player.lives == 2 && s.player.bombs == 3
    &&& s.player.shots@.len() == 0
    &&& s.player.power == 0 && s.player.invuln == 120 && s.player.shot_timer == 0
    &&& !s.player.focused && s.player.facing == 0 && !s.player.just_died
    &&& !s.player.gameover && s.player.bombing == 0 && s.player.dying == 0
    &&& s.score == 0 && s.enemies_spawned == 0 && s.enemies_killed == 0 && s.player_hits == 0
    &&& s.phase == Phase::Trash
    &&& s.boss is None && s.midboss is None
    &&& s.boss_kind == boss_kind
    &&& !s.midboss_done
    &&& s.rng == 0x9e37_79b9
}

/// Whether the trash timeline runs this frame: in the trash phase, unless the
/// midboss is (or is just now coming) on screen.
pub open spec fn timeline_runs(s: StageSim) -> bool {
    &&& s.phase == Phase::Trash
    &&& s.midboss is None
    &&& (s.midboss_done || s.frame < MIDBOSS_FRAME)
}

/// A boss that has finished its defeat sequence.
pub open spec fn boss_over(b: Boss) -> bool {
    b.defeated && b.defeat_frame >= BOSS_DEFEAT_FRAMES
}

// ---------------------------------------------------------------------------
// Lemmas

proof fn lemma_spawn_total_nonneg(evs: Seq<TimelineFrame>, i: int)
    ensures
        spawn_total(evs, i) >= 0,
    decreases evs.len() - i,
{
    if 0 <= i < evs.len() {
        lemma_spawn_total_nonneg(evs, i + 1);
    }
}

proof fn lemma_due_end(evs: Seq<TimelineFrame>, i: int, frame: u16)
    requires
        0 <= i <= evs.len(),
    ensures
        i <= due_end(evs, i, frame) <= evs.len(),
        due_end(evs, i, frame) < evs.len() ==> evs[due_end(evs, i, frame)].frame > frame,
    decreases evs.len() - i,
{
    if i < evs.len() && evs[i].frame <= frame {
        lemma_due_end(evs, i + 1, frame);
    }
}

/// The empty script ends its first frame at once.
proof fn lemma_empty_script_ends()
    ensures
        first_frame_ends(Seq::<u8>::empty()),
{
    let s = Seq::<u8>::empty();
    assert(ctrl_next(s, 0, 0u8) is None);
    assert(ctrl_ends(s, 0, 0u8, 1));
}

/// A volley adds at most one shot per shot fired, each with the volley's damage.
proof fn lemma_volley_shots(ss: Seq<PlayerShot>, reimu: bool, x: int, y: int, n: int, k: nat)
    requires
        shot_damage_ok(ss),
    ensures
        volley(ss, reimu, x, y, n, k).len() <= ss.len() + k,
        shot_damage_ok(volley(ss, reimu, x, y, n, k)),
    decreases k,
{
    if k > 0 {
        lemma_volley_shots(ss, reimu, x, y, n, (k - 1) as nat);
        let prev = volley(ss, reimu, x, y, n, (k - 1) as nat);
        let s = volley_shot(reimu, x, y, n, k - 1);
        let next = shots_add(prev, s);
        crate::player::lemma_first_free_shot(prev, 0);
        assert(s.damage == 10);
        assert forall|i: int| 0 <= i < next.len() implies 0 <= #[trigger] next[i].damage <= 0x100 by {
            match first_free_shot(prev, 0) {
                Some(f) => {
                    if i != f {
                        assert(next[i] == prev[i]);
                    }
                },
                None => {
                    if i < prev.len() {
                        assert(next[i] == prev[i]);
                    }
                },
            }
        }
    }
}

/// A new stage can run its first frame once its enemy scripts fit and end
/// their first frames and its timeline's spawns fit the spawn counter.
pub proof fn lemma_fresh_sim_ready(s: StageSim, std: Std, shot_type: u8, boss_kind: Option<BossKind>)
    requires
        fresh_sim(s, std, shot_type, boss_kind),
        scripts_ok(std),
        spawn_total(s.events@, 0) <= u32::MAX,
    ensures
        sim_ready(s),
{
}

/// A boss as it enters the fight can take a bomb and run its first frame.
pub proof fn lemma_fresh_boss_ready(b: Boss, kind: BossKind)
    requires
        fresh_boss(b, kind),
    ensures
        boss_ready(b),
{
    lemma_fresh_boss_ok(b, kind);
}

// ---------------------------------------------------------------------------
// Frame pieces

fn near_exec(a: i32, b: i32, r: i32) -> (res: bool)
    requires
        r >= 0,
    ensures
        res == near(a as int, b as int, r as int),
{
    let d: i64 = a as i64 - b as i64;
    -(r as i64) < d && d < r as i64
}

/// Resolve a spawn coordinate, replacing `ENEMY_POS_RANDOM` with a random
/// position within `bound` subpixels.
fn resolve_pos(rng: &mut u32, v: i32, bound: i32) -> (r: i32)
    requires
        bound > 0,
    ensures
        (*final(rng), r) == resolve(*old(rng), v, bound),
        v == ENEMY_POS_RANDOM ==> 0 <= r < bound,
{
    if v == ENEMY_POS_RANDOM {
        *rng = lcg_step(*rng);
        let h: u32 = *rng >> 16u32;
        assert(h <= 0xffff) by (bit_vector)
            requires
                h == *rng >> 16u32,
        ;
        (h as i32) % bound
    } else {
        v
    }
}

/// The kills and points a bomb's damage scores among `es`: each damageable
/// enemy not yet killed whose HP the bomb brings to 0 or below.
pub open spec fn bomb_tally(es: Seq<Enemy>) -> (int, int)
    decreases es.len(),
{
    if es.len() == 0 {
        (0, 0)
    } else {
        let r = bomb_tally(es.drop_last());
        let e = es.last();
        if e.can_be_damaged && wrap16(e.hp - 4) <= 0 && !e.killed { (r.0 + 1, r.1 + e.score) } else { r }
    }
}

/// An item after a frame's fall: the pop slows, gravity caps at 40.
pub open spec fn item_fell(it: Item) -> Item {
    let vy: int = if it.vy + 1 < 40 { it.vy + 1 } else { 40 };
    Item { vy: vy as i32, y: (it.y + vy) as i32, ..it }
}

/// The items a frame of falling leaves, and the points collected: an item
/// that ends within reach of (`px`, `py`) is collected for 100 points, one
/// below the floor is lost, the other live ones keep falling.
pub open spec fn items_fallen(items: Seq<Item>, px: i32, py: i32) -> (Seq<Item>, int)
    decreases items.len(),
{
    if items.len() == 0 {
        (Seq::empty(), 0)
    } else {
        let r = items_fallen(items.drop_last(), px, py);
        let f = item_fell(items.last());
        if near(f.x as int, px as int, ITEM_REACH as int) && near(f.y as int, py as int, ITEM_REACH as int) {
            (r.0, r.1 + 100)
        } else if f.y > ITEM_FLOOR || !f.active {
            r
        } else {
            (r.0.push(f), r.1)
        }
    }
}

/// Damage every damageable enemy by a bomb's 4 HP, counting the kills.
fn bomb_enemies(enemies: &mut Vec<Enemy>, killed: &mut u32, score: &mut i64)
    requires
        *old(killed) + old(enemies)@.len() <= u32::MAX,
        -0x4000_0000_0000_0000 <= *old(score) <= 0x4000_0000_0000_0000,
        old(enemies)@.len() <= 0x1000_0000,
    ensures
        final(enemies)@ == old(enemies)@.map_values(|e: Enemy| bombed(e)),
        *old(killed) <= *final(killed) <= *old(killed) + old(enemies)@.len(),
        -0x4800_0000_0000_0000 <= *final(score) <= 0x4800_0000_0000_0000,
        *final(killed) == *old(killed) + bomb_tally(old(enemies)@).0,
        *final(score) == *old(score) + bomb_tally(old(enemies)@).1,
{
    let ghost orig = enemies@;
    let ghost k0 = *killed;
    let ghost s0 = *score;
    let n = enemies.len();
    let mut i: usize = 0;
    while i < n
        invariant
            n == orig.len(),
            n <= 0x1000_0000,
            enemies@.len() == n,
            i <= n,
            forall|j: int| 0 <= j < i ==> #[trigger] enemies@[j] == bombed(orig[j]),
            forall|j: int| i <= j < n ==> #[trigger] enemies@[j] == orig[j],
            k0 <= *killed <= k0 + i,
            k0 + n <= u32::MAX,
            -0x4000_0000_0000_0000 <= s0 <= 0x4000_0000_0000_0000,
            s0 - (*killed - k0) * 0x8000_0000 <= *score <= s0 + (*killed - k0) * 0x8000_0000,
            *killed == k0 + bomb_tally(orig.take(i as int)).0,
            *score == s0 + bomb_tally(orig.take(i as int)).1,
        decreases n - i,
    {
        assert(orig.take(i + 1).drop_last() =~= orig.take(i as int));
        let mut e = enemies[i];
        if e.can_be_damaged {
            e.hp = e.hp.wrapping_sub(4);
            if e.hp <= 0 && !e.killed {
                e.killed = true;
                *killed = *killed + 1;
                *score = *score + e.score as i64;
            }
        }
        assert(e == bombed(orig[i as int]));
        enemies.set(i, e);
        i = i + 1;
    }
    assert(enemies@ =~= orig.map_values(|e: Enemy| bombed(e)));
    assert(orig.take(n as int) =~= orig);
}

/// Spawn the enemies of one timeline record.
fn spawn_frame(sps: &Vec<Spawn>, rng: &mut u32, enemies: &mut Vec<Enemy>, spawned: &mut u32, Ghost(std): Ghost<Std>)
    requires
        *old(spawned) + sps@.len() <= u32::MAX,
        scripts_ok(std),
        forall|i: int| 0 <= i < old(enemies)@.len() ==> enemy_ready(#[trigger] old(enemies)@[i], std),
    ensures
        ({
            let r = spawn_list(sps@, 0, *old(rng));
            &&& final(enemies)@ == old(enemies)@ + r.0
            &&& *final(rng) == r.1
        }),
        *final(spawned) == *old(spawned) + sps@.len(),
        forall|i: int| 0 <= i < final(enemies)@.len() ==> enemy_ready(#[trigger] final(enemies)@[i], std),
{
    proof {
        lemma_empty_script_ends();
    }
    let ghost rng0 = *rng;
    let ghost before = enemies@;
    let ghost sp0 = *spawned;
    let m = sps.len();
    let mut j: usize = 0;
    while j < m
        invariant
            j <= m,
            m == sps@.len(),
            spawn_list(sps@, 0, rng0) == ({
                let r = spawn_list(sps@, j as int, *rng);
                (enemies@.skip(before.len() as int) + r.0, r.1)
            }),
            enemies@.take(before.len() as int) == before,
            before.len() <= enemies@.len(),
            sp0 + m <= u32::MAX,
            *spawned == sp0 + j,
            scripts_ok(std),
            first_frame_ends(Seq::<u8>::empty()),
            forall|i: int| 0 <= i < enemies@.len() ==> enemy_ready(#[trigger] enemies@[i], std),
        decreases m - j,
    {
        let sp = sps[j];
        let ghost r0 = *rng;
        let ex = resolve_pos(rng, sp.x as i32, SPAWN_RANGE_X);
        let ey = resolve_pos(rng, sp.y as i32, SPAWN_RANGE_Y);
        let mut e = Enemy::spawn(ex, ey);
        e.script_index = sp.script_index as usize;
        e.item = sp.arg;
        assert(e == spawn_enemy(sp, ex, ey));
        proof {
            let s = script_of(std, e.script_index as int);
            assert(first_frame_ends(s)) by {
                if 0 <= e.script_index < std.enemy_scripts@.len() {
                    assert(first_frame_ends(std.enemy_scripts@[e.script_index as int]@));
                }
            }
            let w = choose|n: nat| #[trigger] ctrl_ends(s, 0, 0u8, n) && n + 2 <= u32::MAX;
            assert(ctrl_ends(s, e.script_ip as int, e.loop_i, w));
            assert(step_ok(e, s));
        }
        let ghost prev = enemies@;
        enemies.push(e);
        proof {
            let rest = spawn_list(sps@, j + 1, *rng);
            assert(spawn_list(sps@, j as int, r0) == (seq![e] + rest.0, rest.1));
            assert(enemies@.skip(before.len() as int) =~= prev.skip(before.len() as int).push(e));
            assert(prev.skip(before.len() as int) + (seq![e] + rest.0)
                =~= prev.skip(before.len() as int).push(e) + rest.0);
            assert(enemies@.take(before.len() as int) =~= prev.take(before.len() as int));
            assert forall|i: int| 0 <= i < enemies@.len() implies enemy_ready(#[trigger] enemies@[i], std) by {
                if i < prev.len() {
                    assert(enemies@[i] == prev[i]);
                }
            }
        }
        *spawned = *spawned + 1;
        j = j + 1;
    }
    proof {
        let r = spawn_list(sps@, m as int, *rng);
        assert(r.0 =~= Seq::<Enemy>::empty());
        assert(enemies@ =~= before + enemies@.skip(before.len() as int));
    }
}

/// Run the timeline records due at `frame`, spawning their enemies.
fn spawn_due(events: &Vec<TimelineFrame>, ev_i: &mut usize, frame: u16, rng: &mut u32, enemies: &mut Vec<Enemy>,
    spawned: &mut u32, Ghost(std): Ghost<Std>)
    requires
        *old(ev_i) <= events@.len(),
        *old(spawned) + spawn_total(events@, *old(ev_i) as int) <= u32::MAX,
        scripts_ok(std),
        forall|i: int| 0 <= i < old(enemies)@.len() ==> enemy_ready(#[trigger] old(enemies)@[i], std),
    ensures
        *final(ev_i) == due_end(events@, *old(ev_i) as int, frame),
        ({
            let t = timeline_spawns(events@, *old(ev_i) as int, *final(ev_i) as int, *old(rng));
            &&& final(enemies)@ == old(enemies)@ + t.0
            &&& *final(rng) == t.1
        }),
        *final(spawned) == *old(spawned) + spawn_total(events@, *old(ev_i) as int) - spawn_total(events@, *final(ev_i) as int),
        forall|i: int| 0 <= i < final(enemies)@.len() ==> enemy_ready(#[trigger] final(enemies)@[i], std),
{
    proof {
        lemma_due_end(events@, *ev_i as int, frame);
    }
    let ghost i0 = *ev_i as int;
    let ghost rng0 = *rng;
    let ghost e0 = enemies@;
    let ghost sp0 = *spawned;
    let ghost end = due_end(events@, i0, frame);
    while *ev_i < events.len() && events[*ev_i].frame <= frame
        invariant
            i0 <= *ev_i <= end <= events@.len(),
            end == due_end(events@, i0, frame),
            due_end(events@, *ev_i as int, frame) == end,
            timeline_spawns(events@, i0, end, rng0) == ({
                let t = timeline_spawns(events@, *ev_i as int, end, *rng);
                (enemies@.skip(e0.len() as int) + t.0, t.1)
            }),
            enemies@.take(e0.len() as int) == e0,
            e0.len() <= enemies@.len(),
            sp0 + spawn_total(events@, i0) <= u32::MAX,
            *spawned == sp0 + spawn_total(events@, i0) - spawn_total(events@, *ev_i as int),
            scripts_ok(std),
            forall|i: int| 0 <= i < enemies@.len() ==> enemy_ready(#[trigger] enemies@[i], std),
        decreases events@.len() - *ev_i,
    {
        let k = *ev_i;
        let ghost rng_k = *rng;
        let ghost before = enemies@;
        proof {
            lemma_spawn_total_nonneg(events@, k + 1);
            lemma_due_end(events@, k + 1, frame);
        }
        spawn_frame(&events[k].spawns, rng, enemies, spawned, Ghost(std));
        proof {
            let sps = events@[k as int].spawns@;
            let tk1 = timeline_spawns(events@, k + 1, end, *rng);
            assert(timeline_spawns(events@, k as int, end, rng_k) == (spawn_list(sps, 0, rng_k).0 + tk1.0, tk1.1));
            assert(enemies@.skip(e0.len() as int) =~= before.skip(e0.len() as int) + spawn_list(sps, 0, rng_k).0);
            assert(enemies@.take(e0.len() as int) =~= before.take(e0.len() as int));
            assert(before.skip(e0.len() as int) + (spawn_list(sps, 0, rng_k).0 + tk1.0)
                =~= enemies@.skip(e0.len() as int) + tk1.0);
        }
        *ev_i = k + 1;
    }
    proof {
        let t = timeline_spawns(events@, *ev_i as int, end, *rng);
        assert(t.0 =~= Seq::<Enemy>::empty());
        assert(enemies@ =~= e0 + enemies@.skip(e0.len() as int));
    }
}

/// The enemies `es`, in order, each run for one frame of its script (a
/// killed one stays as it is), with the bullet pool passed from each to the
/// next.
pub open spec fn enemies_stepped(es: Seq<Enemy>, std: Std, player: (i32, i32), p: PoolState) -> (Seq<Enemy>, PoolState)
    decreases es.len(),
{
    if es.len() == 0 {
        (es, p)
    } else {
        let r = enemies_stepped(es.drop_last(), std, player, p);
        let e = es.last();
        if e.killed {
            (r.0.push(e), r.1)
        } else {
            let q = frame_result(e, script_of(std, e.script_index as int), SCROLL_DY, player, r.1);
            (r.0.push(q.0), q.1)
        }
    }
}

/// Run each live enemy's script for one frame (movement and firing):
/// `enemies_stepped`.
fn step_enemies(enemies: &mut Vec<Enemy>, std: &Std, player: (i32, i32), pool: &mut BulletPool)
    requires
        scripts_ok(*std),
        target_ok(player),
        forall|i: int| 0 <= i < old(enemies)@.len() ==> enemy_ready(#[trigger] old(enemies)@[i], *std),
    ensures
        (final(enemies)@, pool_state(*final(pool))) == enemies_stepped(old(enemies)@, *std, player, pool_state(*old(pool))),
        final(enemies)@.len() == old(enemies)@.len(),
        forall|i: int| 0 <= i < old(enemies)@.len() && (#[trigger] old(enemies)@[i]).killed
            ==> final(enemies)@[i] == old(enemies)@[i],
        forall|i: int| 0 <= i < final(enemies)@.len() ==> enemy_placed(#[trigger] final(enemies)@[i]),
        pool_ok(old(pool).bullets@) ==> pool_ok(final(pool).bullets@),
{
    let ghost orig = enemies@;
    let ghost ok0 = pool_ok(pool.bullets@);
    let ghost p0 = pool_state(*pool);
    let empty: Vec<u8> = Vec::new();
    let n = enemies.len();
    let mut i: usize = 0;
    proof {
        assert(orig.take(0) =~= Seq::<Enemy>::empty());
        assert(enemies@.take(0) =~= Seq::<Enemy>::empty());
    }
    while i < n
        invariant
            (enemies@.take(i as int), pool_state(*pool)) == enemies_stepped(orig.take(i as int), *std, player, p0),
            n == orig.len(),
            enemies@.len() == n,
            i <= n,
            scripts_ok(*std),
            target_ok(player),
            empty@.len() == 0,
            forall|j: int| 0 <= j < n ==> enemy_ready(#[trigger] orig[j], *std),
            forall|j: int| 0 <= j < i && (#[trigger] orig[j]).killed ==> enemies@[j] == orig[j],
            forall|j: int| 0 <= j < i ==> enemy_placed(#[trigger] enemies@[j]),
            forall|j: int| i <= j < n ==> #[trigger] enemies@[j] == orig[j],
            ok0 ==> pool_ok(pool.bullets@),
        decreases n - i,
    {
        let ghost before = enemies@;
        proof {
            assert(orig.take(i + 1).drop_last() =~= orig.take(i as int));
            assert(orig.take(i + 1).last() == orig[i as int]);
        }
        let mut e = enemies[i];
        if !e.killed {
            let idx = e.script_index;
            let script: &[u8] = if idx < std.enemy_scripts.len() {
                std.enemy_scripts[idx].as_slice()
            } else {
                empty.as_slice()
            };
            assert(script@ == script_of(*std, idx as int));
            assert(enemy_ready(orig[i as int], *std));
            e.step(script, SCROLL_DY, player, pool);
            enemies.set(i, e);
        }
        proof {
            assert(enemies@.take(i + 1) =~= before.take(i as int).push(enemies@[i as int]));
        }
        i = i + 1;
    }
    proof {
        assert(enemies@.take(n as int) =~= enemies@);
        assert(orig.take(n as int) =~= orig);
    }
}

/// Whether shot `s` can hit enemy `e`: a live damageable enemy within the
/// enemy hit box.
pub open spec fn shot_hits_enemy(s: PlayerShot, e: Enemy) -> bool {
    &&& !e.killed
    &&& e.can_be_damaged
    &&& near(s.x as int, e.x as int, ENEMY_HIT as int)
    &&& near(s.y as int, e.y as int, ENEMY_HIT as int)
}

/// The first enemy from index `j` on that shot `s` can hit (`es.len()` if
/// none can).
pub open spec fn first_hit(es: Seq<Enemy>, s: PlayerShot, j: int) -> int
    decreases es.len() - j,
{
    if 0 <= j < es.len() {
        if shot_hits_enemy(s, es[j]) { j } else { first_hit(es, s, j + 1) }
    } else {
        es.len() as int
    }
}

/// No enemy in `a..j` can be hit, so the search from `a` ends where the one
/// from `j` does.
proof fn lemma_first_hit(es: Seq<Enemy>, s: PlayerShot, a: int, j: int)
    requires
        0 <= a <= j <= es.len(),
        forall|q: int| a <= q < j ==> !shot_hits_enemy(s, #[trigger] es[q]),
    ensures
        first_hit(es, s, a) == first_hit(es, s, j),
    decreases j - a,
{
    if a < j {
        lemma_first_hit(es, s, a + 1, j);
    }
}

/// An enemy after a shot's `dmg`: its 16-bit HP drops and it dies at 0.
pub open spec fn enemy_struck(e: Enemy, dmg: int) -> Enemy {
    let hp = wrap16(e.hp - dmg);
    Enemy { hp, killed: e.killed || hp <= 0, ..e }
}

/// The item a killed enemy drops where it died (a point item unless its
/// spawn named one).
pub open spec fn drop_item(e: Enemy) -> Item {
    Item { x: e.x, y: e.y, vy: -8i32, kind: if e.item == 0xFF { 1u8 } else { e.item }, active: true }
}

/// Shots `ss`, in order, against the enemies `es`: each active shot is spent
/// on the first enemy it can hit, which takes its damage; a kill counts,
/// scores the enemy's points and drops its item. The result is the shots,
/// enemies, kill count, score and items after.
pub open spec fn enemy_hits(ss: Seq<PlayerShot>, es: Seq<Enemy>, killed: int, score: int, items: Seq<Item>)
    -> (Seq<PlayerShot>, Seq<Enemy>, int, int, Seq<Item>)
    decreases ss.len(),
{
    if ss.len() == 0 {
        (ss, es, killed, score, items)
    } else {
        let r = enemy_hits(ss.drop_last(), es, killed, score, items);
        let s = ss.last();
        let j = first_hit(r.1, s, 0);
        if !s.active || j >= r.1.len() {
            (r.0.push(s), r.1, r.2, r.3, r.4)
        } else {
            let e = enemy_struck(r.1[j], s.damage as int);
            if e.hp <= 0 {
                (r.0.push(spent(s)), r.1.update(j, e), r.2 + 1, r.3 + e.score, r.4.push(drop_item(e)))
            } else {
                (r.0.push(spent(s)), r.1.update(j, e), r.2, r.3, r.4)
            }
        }
    }
}

/// Which shots and enemies the hits leave does not depend on the running kill
/// count, score or item list, and the kills, points and drops they add are
/// added to those.
pub proof fn lemma_enemy_hits_enemies(ss: Seq<PlayerShot>, es: Seq<Enemy>, killed: int, score: int, items: Seq<Item>)
    ensures
        enemy_hits(ss, es, killed, score, items).1 == enemy_hits(ss, es, 0, 0, Seq::empty()).1,
        enemy_hits(ss, es, killed, score, items).0 == enemy_hits(ss, es, 0, 0, Seq::empty()).0,
        enemy_hits(ss, es, killed, score, items).2 == killed + enemy_hits(ss, es, 0, 0, Seq::empty()).2,
        enemy_hits(ss, es, killed, score, items).3 == score + enemy_hits(ss, es, 0, 0, Seq::empty()).3,
        enemy_hits(ss, es, killed, score, items).4 == items + enemy_hits(ss, es, 0, 0, Seq::empty()).4,
    decreases ss.len(),
{
    if ss.len() > 0 {
        lemma_enemy_hits_enemies(ss.drop_last(), es, killed, score, items);
        let r = enemy_hits(ss.drop_last(), es, killed, score, items);
        let z = enemy_hits(ss.drop_last(), es, 0, 0, Seq::empty());
        let s = ss.last();
        let j = first_hit(r.1, s, 0);
        if s.active && j < r.1.len() {
            let e = enemy_struck(r.1[j], s.damage as int);
            assert(r.4.push(drop_item(e)) =~= items + z.4.push(drop_item(e)));
        }
    } else {
        assert(items + Seq::<Item>::empty() =~= items);
    }
}

/// Whether the player is bombing once this frame's own update has run.
pub open spec fn bomb_frame(s: StageSim, input: Input) -> bool {
    vitals_step(vitals(s.player), input.bomb).bombing > 0
}

/// The enemies once a frame has begun: a bomb's damage to every one, then
/// the timeline's spawns when it runs.
pub open spec fn begin_enemies(s: StageSim, input: Input) -> Seq<Enemy> {
    let e0 = if bomb_frame(s, input) { s.enemies@.map_values(|e: Enemy| bombed(e)) } else { s.enemies@ };
    if timeline_runs(s) {
        e0 + timeline_spawns(s.events@, s.ev_i as int, due_end(s.events@, s.ev_i as int, s.frame), s.rng).0
    } else {
        e0
    }
}

/// The pool once a frame has begun: cleared while a bomb is active.
pub open spec fn begin_pool(s: StageSim, input: Input) -> PoolState {
    if bomb_frame(s, input) {
        PoolState { bullets: cleared(s.bullets.bullets@), rng: s.bullets.rng }
    } else {
        pool_state(s.bullets)
    }
}

/// The enemies a frame leaves before the dead are dropped: every live
/// enemy's script run against the moved player and the pool, then the
/// player's shots.
pub open spec fn frame_enemies(s: StageSim, input: Input) -> Seq<Enemy> {
    frame_hits(s, input).1
}

/// The player's shots against the enemies in a frame, counted from zero:
/// the shots, enemies, kills, points and dropped items they leave.
pub open spec fn frame_hits(s: StageSim, input: Input) -> (Seq<PlayerShot>, Seq<Enemy>, int, int, Seq<Item>) {
    let pos = moved_pos(s.player, input);
    let st = enemies_stepped(begin_enemies(s, input), s.std, (pos.0 as i32, pos.1 as i32), begin_pool(s, input));
    enemy_hits(moved_shots(s.player, input), st.0, 0, 0, Seq::empty())
}

/// The midboss after `Midboss::damage(dmg)`: no effect during its entrance
/// or once defeated; HP at or below 0 starts the defeat.
pub open spec fn midboss_damaged(m: Midboss, dmg: int) -> Midboss {
    if m.defeated || m.phase == 0 {
        m
    } else if m.hp - dmg <= 0 {
        Midboss { hp: (m.hp - dmg) as i32, defeated: true, defeat_frame: 0, ..m }
    } else {
        Midboss { hp: (m.hp - dmg) as i32, ..m }
    }
}

/// The midboss once a frame has begun: a bomb's damage, and in the trash
/// phase its entrance from `MIDBOSS_FRAME` until it has been beaten.
pub open spec fn begin_midboss(s: StageSim, input: Input) -> Option<Midboss> {
    let m0 = match s.midboss {
        Some(m) => Some(if bomb_frame(s, input) { midboss_damaged(m, 2) } else { m }),
        None => None,
    };
    if s.phase == Phase::Trash && !s.midboss_done && m0 is None && s.frame >= MIDBOSS_FRAME {
        Some(Midboss { x: 3072, y: -512i32, hp: MIDBOSS1_HP, phase: 0, phase_frame: 0, defeated: false, defeat_frame: 0, sweep: 1 })
    } else {
        m0
    }
}

/// The midboss after the frame's action with no boss on screen: its own
/// frame on pool `p`, then the shots `ss` left after the enemies.
pub open spec fn act_midboss(m: Option<Midboss>, p: PoolState, ss: Seq<PlayerShot>) -> Option<Midboss> {
    match m {
        Some(m) => {
            let n = midboss_next(m, p.bullets, p.rng).0;
            Some(if n.defeated { n } else { midboss_hits(ss, n).1 })
        },
        None => None,
    }
}

/// The pool after the midboss's frame (unchanged without a midboss).
pub open spec fn act_pool(m: Option<Midboss>, p: PoolState) -> PoolState {
    match m {
        Some(m) => {
            let r = midboss_next(m, p.bullets, p.rng);
            PoolState { bullets: r.1, rng: r.2 }
        },
        None => p,
    }
}

/// The player's shots `ss` after the midboss has taken its hits (unchanged
/// without a live midboss).
pub open spec fn act_shots(m: Option<Midboss>, p: PoolState, ss: Seq<PlayerShot>) -> Seq<PlayerShot> {
    match m {
        Some(m) => {
            let n = midboss_next(m, p.bullets, p.rng).0;
            if n.defeated { ss } else { midboss_hits(ss, n).0 }
        },
        None => ss,
    }
}

/// A midboss on the field whose defeat has run.
pub open spec fn midboss_gone(m: Option<Midboss>) -> bool {
    m matches Some(n) && n.defeated && n.defeat_frame >= BOSS_DEFEAT_FRAMES
}

/// The midboss at the frame's end: off the field once its defeat has run.
pub open spec fn end_midboss(m: Option<Midboss>) -> Option<Midboss> {
    if midboss_gone(m) { None } else { m }
}

/// The midboss after the action of a frame with no boss on screen.
pub open spec fn frame_midboss_act(s: StageSim, input: Input) -> Option<Midboss> {
    let pos = moved_pos(s.player, input);
    let st = enemies_stepped(begin_enemies(s, input), s.std, (pos.0 as i32, pos.1 as i32), begin_pool(s, input));
    act_midboss(begin_midboss(s, input), st.1, frame_hits(s, input).0)
}

/// The player's shots after a frame with no boss on screen: the volley of
/// the player's update, once the enemies and the midboss have taken their
/// hits.
pub open spec fn frame_shots(s: StageSim, input: Input) -> Seq<PlayerShot> {
    let pos = moved_pos(s.player, input);
    let st = enemies_stepped(begin_enemies(s, input), s.std, (pos.0 as i32, pos.1 as i32), begin_pool(s, input));
    act_shots(begin_midboss(s, input), st.1, frame_hits(s, input).0)
}

/// The midboss after a frame with no boss on screen.
pub open spec fn frame_midboss(s: StageSim, input: Input) -> Option<Midboss> {
    end_midboss(frame_midboss_act(s, input))
}

/// The boss once a frame has begun: a bomb's damage, queued.
pub open spec fn begin_boss(s: StageSim, input: Input) -> Option<Boss> {
    match s.boss {
        Some(b) => Some(if bomb_frame(s, input) { boss_damaged(b, 2) } else { b }),
        None => None,
    }
}

/// The boss's frame from `b0` to `b1`, moving the pool and effects from
/// `e0` to `e1`: `boss_frame_post`, or only the defeat count once defeated.
pub open spec fn boss_frame_done(b0: Boss, e0: BossEnv, b1: Boss, e1: BossEnv) -> bool {
    if b0.defeated { b1 == defeat_tick(b0) && e1 == e0 } else { boss_frame_post(b0, e0, b1, e1) }
}

/// The action of a boss-phase frame (no midboss) from enemies `es`, pool
/// `p`, the player at `pos` with shots `ss`, the boss `b0` and effects `fx`
/// at frame `frame`, leaving `s2`: every enemy's script; the boss's frame on
/// the pool the enemies leave; the bullets' motion and the effects' ageing;
/// the shots left after the enemies against the boss's body and satellites.
#[verifier::opaque]
pub open spec fn boss_act(es: Seq<Enemy>, std: Std, pos: (i32, i32), p: PoolState, ss: Seq<PlayerShot>, b0: Boss,
    fx: EffectPool, frame: u16, s2: StageSim) -> bool {
    let st = enemies_stepped(es, std, pos, p);
    let h0 = enemy_hits(ss, st.0, 0, 0, Seq::empty()).0;
    exists|b1: Boss, e0: BossEnv, e1: BossEnv| #[trigger] boss_frame_done(b0, e0, b1, e1) && {
        &&& pool_state(e0.pool) == st.1 && e0.fx == fx && e0.player == pos && e0.frame == frame
        &&& s2.effects.effects@ == effects_after(e1.fx.effects@)
        &&& s2.bullets.rng == e1.pool.rng
        &&& s2.bullets.bullets@ == e1.pool.bullets@.map_values(|b: Bullet| bullet_step(b, pos, frame))
        &&& if b1.defeated {
            s2.boss == Some(b1) && s2.player.shots@ == h0
        } else {
            let r1 = boss_body_hits(h0, b1);
            let r2 = orbits_hits(r1.0, b1.orbits@);
            &&& s2.boss matches Some(fb) && fb == (Boss { orbits: fb.orbits, ..r1.1 }) && fb.orbits@ == r2.1
            &&& s2.player.shots@ == r2.0
        }
    }
}

/// A frame of the boss phase (no midboss): `boss_act` from the frame's
/// beginning, then the frame's end: the player hit when vulnerable and
/// touched (the pool cleared then), the boss, shots and effects kept.
pub open spec fn boss_frame_step(s: StageSim, input: Input, s3: StageSim) -> bool {
    let pos = moved_pos(s.player, input);
    exists|s2: StageSim| #[trigger] boss_act(begin_enemies(s, input), s.std, (pos.0 as i32, pos.1 as i32),
        begin_pool(s, input), moved_shots(s.player, input), begin_boss(s, input).unwrap(), s.effects, s.frame, s2) && {
        let hit = vulnerable(moved_vitals(s.player, input)) && field_touches(s2, s2.player.x as int, s2.player.y as int);
        &&& s3.boss == s2.boss
        &&& s3.player.shots@ == s2.player.shots@
        &&& s3.effects == s2.effects
        &&& s3.player_hits == s.player_hits + (if hit { 1int } else { 0int })
        &&& s3.bullets.rng == s2.bullets.rng
        &&& s3.bullets.bullets@ == (if hit { cleared(s2.bullets.bullets@) } else { s2.bullets.bullets@ })
    }
}

/// The kills and points a frame's bomb scores (none without a bomb).
pub open spec fn frame_bomb(s: StageSim, input: Input) -> (int, int) {
    if bomb_frame(s, input) { bomb_tally(s.enemies@) } else { (0, 0) }
}

/// Whether the player can be hit: not invulnerable, bombing or dying, and
/// the game not over.
pub open spec fn vulnerable(v: Vitals) -> bool {
    !(v.invuln > 0 || v.bombing > 0 || v.dying > 0) && !v.gameover
}

/// Whether anything of the field touches the player at (`px`, `py`): a live
/// bullet, a live enemy that kills on touch, the boss or one of its
/// satellites, or the live midboss.
#[verifier::opaque]
pub open spec fn field_touches(s: StageSim, px: int, py: int) -> bool {
    ||| exists|i: int| 0 <= i < s.bullets.bullets@.len() && #[trigger] s.bullets.bullets@[i].active
        && near(s.bullets.bullets@[i].x as int, px, BULLET_KILL as int)
        && near(s.bullets.bullets@[i].y as int, py, BULLET_KILL as int)
    ||| exists|i: int| 0 <= i < s.enemies@.len() && !(#[trigger] s.enemies@[i]).killed && s.enemies@[i].kills_player
        && near(s.enemies@[i].x as int, px, ENEMY_HIT as int) && near(s.enemies@[i].y as int, py, ENEMY_HIT as int)
    ||| s.boss matches Some(b) && boss_touch(b, px, py)
    ||| s.midboss matches Some(m) && !m.defeated && near(m.x as int, px, MIDBOSS_HIT as int) && near(m.y as int, py, MIDBOSS_HIT as int)
}

/// In a frame with no boss on screen, the frame's end sees the field
/// `frame_struck` speaks of.
proof fn lemma_struck(s0: StageSim, input: Input, s2: StageSim)
    requires
        s2.bullets.bullets@ == frame_pool(s0, input).bullets,
        s2.enemies@ == frame_enemies(s0, input),
        vitals(s2.player) == moved_vitals(s0.player, input),
        s2.boss is None,
        s2.midboss == frame_midboss_act(s0, input),
    ensures
        (vulnerable(vitals(s2.player)) && field_touches(s2, s2.player.x as int, s2.player.y as int)) == frame_struck(s0, input),
{
    reveal(field_touches);
    reveal(frame_struck);
}

/// The kills, items and score a frame leaves `s3` with, from `s0`: the
/// bomb's and the shots' kills and points, the drops added to the items,
/// then the items' fall and pickups around the player where the frame ends.
#[verifier::opaque]
pub open spec fn frame_counts(s0: StageSim, input: Input, s3: StageSim) -> bool {
    let it = items_fallen(s0.items@ + frame_hits(s0, input).4, s3.player.x, s3.player.y);
    &&& s3.enemies_killed == s0.enemies_killed + frame_bomb(s0, input).0 + frame_hits(s0, input).2
    &&& s3.items@ == it.0
    &&& s3.score == s0.score + frame_bomb(s0, input).1 + frame_hits(s0, input).3 + it.1
}

/// The player is hit once in the frame exactly when `frame_struck`.
#[verifier::opaque]
pub open spec fn frame_hits_player(s0: StageSim, input: Input, s3: StageSim) -> bool {
    s3.player_hits == s0.player_hits + (if frame_struck(s0, input) { 1int } else { 0int })
}

/// The counts of a frame, put together: the bomb's and the shots' kills and
/// points, the drops, and the items' fall and pickups.
proof fn lemma_frame_counts(s0: StageSim, input: Input, s1: StageSim, s2: StageSim, s3: StageSim)
    requires
        s1.enemies_killed == s0.enemies_killed + frame_bomb(s0, input).0,
        s1.score == s0.score + frame_bomb(s0, input).1,
        s1.items@ == s0.items@,
        s1.std == s0.std,
        s1.enemies@ == begin_enemies(s0, input),
        pool_state(s1.bullets) == begin_pool(s0, input),
        (s1.player.x as int, s1.player.y as int) == moved_pos(s0.player, input),
        s1.player.shots@ == moved_shots(s0.player, input),
        ({
            let st = enemies_stepped(s1.enemies@, s1.std, (s1.player.x, s1.player.y), pool_state(s1.bullets));
            let h = enemy_hits(s1.player.shots@, st.0, s1.enemies_killed as int, s1.score as int, s1.items@);
            &&& s2.enemies_killed == h.2
            &&& s2.score == h.3
            &&& s2.items@ == h.4
        }),
        s3.enemies_killed == s2.enemies_killed,
        (s3.items@, s3.score - s2.score) == items_fallen(s2.items@, s3.player.x, s3.player.y),
    ensures
        frame_counts(s0, input, s3),
{
    reveal(frame_counts);
    let pos = moved_pos(s0.player, input);
    assert((s1.player.x, s1.player.y) == (pos.0 as i32, pos.1 as i32));
    let st = enemies_stepped(s1.enemies@, s1.std, (s1.player.x, s1.player.y), pool_state(s1.bullets));
    lemma_enemy_hits_enemies(s1.player.shots@, st.0, s1.enemies_killed as int, s1.score as int, s1.items@);
}

/// The hits of a frame with no boss on screen, put together.
proof fn lemma_frame_hits(s0: StageSim, input: Input, s1: StageSim, s2: StageSim, s3: StageSim)
    requires
        s0.phase != Phase::Boss,
        s0.boss is None,
        s1.boss is None,
        s2.boss is None,
        s2.midboss == frame_midboss_act(s0, input),
        s2.bullets.bullets@ == frame_pool(s0, input).bullets,
        s2.enemies@ == frame_enemies(s0, input),
        vitals(s2.player) == moved_vitals(s0.player, input),
        s2.player_hits == s0.player_hits,
        s3.player_hits == s2.player_hits + (if vulnerable(vitals(s2.player))
            && field_touches(s2, s2.player.x as int, s2.player.y as int) { 1int } else { 0int }),
    ensures
        frame_hits_player(s0, input, s3),
{
    reveal(frame_hits_player);
    lemma_struck(s0, input, s2);
}

/// Whether a frame with no boss on screen hits the player: vulnerable after
/// the player's update, and touched by a bullet of `frame_pool`, an enemy of
/// `frame_enemies` or the live midboss of `frame_midboss_act`.
#[verifier::opaque]
pub open spec fn frame_struck(s: StageSim, input: Input) -> bool {
    let v = moved_vitals(s.player, input);
    let bs = frame_pool(s, input).bullets;
    let es = frame_enemies(s, input);
    &&& vulnerable(v)
    &&& {
        ||| exists|i: int| 0 <= i < bs.len() && #[trigger] bs[i].active && near(bs[i].x as int, v.x as int, BULLET_KILL as int)
            && near(bs[i].y as int, v.y as int, BULLET_KILL as int)
        ||| exists|i: int| 0 <= i < es.len() && !(#[trigger] es[i]).killed && es[i].kills_player
            && near(es[i].x as int, v.x as int, ENEMY_HIT as int) && near(es[i].y as int, v.y as int, ENEMY_HIT as int)
        ||| frame_midboss_act(s, input) matches Some(m) && !m.defeated && near(m.x as int, v.x as int, MIDBOSS_HIT as int)
            && near(m.y as int, v.y as int, MIDBOSS_HIT as int)
    }
}

/// The pool a frame with no boss on screen leaves before the player is hit:
/// what the enemies and then the midboss fired into the pool, then every
/// bullet's motion step.
pub open spec fn frame_pool(s: StageSim, input: Input) -> PoolState {
    let pos = moved_pos(s.player, input);
    let p = (pos.0 as i32, pos.1 as i32);
    let st = enemies_stepped(begin_enemies(s, input), s.std, p, begin_pool(s, input));
    let q = act_pool(begin_midboss(s, input), st.1);
    PoolState { bullets: q.bullets.map_values(|b: Bullet| bullet_step(b, p, s.frame)), rng: q.rng }
}

/// Player shots against enemies (`enemy_hits`): a shot hits the first live
/// damageable enemy it overlaps, and a kill scores and drops an item.
fn shots_hit_enemies(shots: &mut Vec<PlayerShot>, enemies: &mut Vec<Enemy>, killed: &mut u32, score: &mut i64,
    items: &mut Vec<Item>)
    requires
        *old(killed) + old(shots)@.len() <= u32::MAX,
        old(shots)@.len() <= 0x2000,
        shot_damage_ok(old(shots)@),
        -0x4800_0000_0000_0000 <= *old(score) <= 0x4800_0000_0000_0000,
        forall|i: int| 0 <= i < old(enemies)@.len() ==> enemy_placed(#[trigger] old(enemies)@[i]),
    ensures
        (final(shots)@, final(enemies)@, *final(killed) as int, *final(score) as int, final(items)@)
            == enemy_hits(old(shots)@, old(enemies)@, *old(killed) as int, *old(score) as int, old(items)@),
        final(shots)@.len() == old(shots)@.len(),
        shot_damage_ok(final(shots)@),
        final(enemies)@.len() == old(enemies)@.len(),
        *old(killed) <= *final(killed) <= *old(killed) + old(shots)@.len(),
        -0x4900_0000_0000_0000 <= *final(score) <= 0x4900_0000_0000_0000,
        final(items)@.len() == old(items)@.len() + (*final(killed) - *old(killed)),
        forall|i: int| 0 <= i < old(items)@.len() ==> #[trigger] final(items)@[i] == old(items)@[i],
        forall|i: int| old(items)@.len() <= i < final(items)@.len() ==> item_ok(#[trigger] final(items)@[i]),
{
    let ghost k0 = *killed;
    let ghost s0 = *score;
    let ghost items0 = items@;
    let ghost ss0 = shots@;
    let ghost es0 = enemies@;
    let ns = shots.len();
    let ne = enemies.len();
    let mut i: usize = 0;
    proof {
        assert(ss0.take(0) =~= Seq::<PlayerShot>::empty());
    }
    while i < ns
        invariant
            ns == shots@.len(),
            ns == ss0.len(),
            ns <= 0x2000,
            ne == enemies@.len(),
            i <= ns,
            shot_damage_ok(shots@),
            shot_damage_ok(ss0),
            forall|j: int| 0 <= j < ne ==> enemy_placed(#[trigger] enemies@[j]),
            k0 <= *killed <= k0 + i,
            k0 + ns <= u32::MAX,
            -0x4800_0000_0000_0000 <= s0 <= 0x4800_0000_0000_0000,
            s0 - (*killed - k0) * 0x8000_0000 <= *score <= s0 + (*killed - k0) * 0x8000_0000,
            items@.len() == items0.len() + (*killed - k0),
            forall|j: int| 0 <= j < items0.len() ==> #[trigger] items@[j] == items0[j],
            forall|j: int| items0.len() <= j < items@.len() ==> item_ok(#[trigger] items@[j]),
            (shots@.take(i as int), enemies@, *killed as int, *score as int, items@)
                == enemy_hits(ss0.take(i as int), es0, k0 as int, s0 as int, items0),
            forall|j: int| i <= j < ns ==> #[trigger] shots@[j] == ss0[j],
        decreases ns - i,
    {
        let ghost before = shots@;
        let ghost es_i = enemies@;
        let ghost k_i = *killed;
        let ghost sc_i = *score;
        let ghost it_i = items@;
        proof {
            assert(ss0.take(i + 1).drop_last() =~= ss0.take(i as int));
            assert(ss0.take(i + 1).last() == ss0[i as int]);
        }
        let mut s = shots[i];
        let ghost sh = s;
        if s.active {
            let mut j: usize = 0;
            let mut hit = false;
            while j < ne && !hit
                invariant
                    ne == enemies@.len(),
                    ne == es_i.len(),
                    j <= ne,
                    i < ns,
                    ns == shots@.len(),
                    ns <= 0x2000,
                    shot_damage_ok(shots@),
                    shots@ == before,
                    sh == before[i as int],
                    sh.active,
                    s.damage == sh.damage,
                    0 <= s.damage <= 0x100,
                    forall|q: int| 0 <= q < ne ==> enemy_placed(#[trigger] enemies@[q]),
                    k0 <= *killed <= k0 + i + (if hit { 1int } else { 0int }),
                    s.active == !hit,
                    k0 + ns <= u32::MAX,
                    -0x4800_0000_0000_0000 <= s0 <= 0x4800_0000_0000_0000,
                    s0 - (*killed - k0) * 0x8000_0000 <= *score <= s0 + (*killed - k0) * 0x8000_0000,
                    items@.len() == items0.len() + (*killed - k0),
                    forall|q: int| 0 <= q < items0.len() ==> #[trigger] items@[q] == items0[q],
                    forall|q: int| items0.len() <= q < items@.len() ==> item_ok(#[trigger] items@[q]),
                    !hit ==> enemies@ == es_i && *killed == k_i && *score == sc_i && items@ == it_i && s == sh,
                    !hit ==> forall|q: int| 0 <= q < j ==> !shot_hits_enemy(sh, #[trigger] es_i[q]),
                    hit ==> ({
                        let jh = first_hit(es_i, sh, 0);
                        let e = enemy_struck(es_i[jh], sh.damage as int);
                        &&& 0 <= jh < ne
                        &&& s == spent(sh)
                        &&& enemies@ == es_i.update(jh, e)
                        &&& e.hp <= 0 ==> *killed == k_i + 1 && *score == sc_i + e.score && items@ == it_i.push(drop_item(e))
                        &&& e.hp > 0 ==> *killed == k_i && *score == sc_i && items@ == it_i
                    }),
                decreases ne - j,
            {
                let mut e = enemies[j];
                if !e.killed && e.can_be_damaged && near_exec(s.x, e.x, ENEMY_HIT) && near_exec(s.y, e.y, ENEMY_HIT) {
                    proof {
                        lemma_first_hit(es_i, sh, 0, j as int);
                    }
                    assert(enemy_placed(enemies@[j as int]));
                    e.hp = e.hp.wrapping_sub(s.damage as i16);
                    s.active = false;
                    if e.hp <= 0 {
                        e.killed = true;
                        *killed = *killed + 1;
                        *score = *score + e.score as i64;
                        // Drop an item (kind from the spawn; default to a point item).
                        let kind = if e.item == 0xFF { 1 } else { e.item };
                        let ghost before_items = items@;
                        items.push(Item { x: e.x, y: e.y, vy: -8, kind, active: true });
                        assert(forall|q: int| 0 <= q < before_items.len() ==> #[trigger] items@[q] == before_items[q]);
                    }
                    enemies.set(j, e);
                    hit = true;
                }
                j = j + 1;
            }
            proof {
                if !hit {
                    lemma_first_hit(es_i, sh, 0, ne as int);
                }
            }
            shots.set(i, s);
        }
        proof {
            assert(shots@.take(i + 1) =~= before.take(i as int).push(shots@[i as int]));
        }
        i = i + 1;
    }
    proof {
        assert(shots@.take(ns as int) =~= shots@);
        assert(ss0.take(ns as int) =~= ss0);
    }
}

/// The boss after `Boss::damage(dmg)`.
pub open spec fn boss_struck(b: Boss, dmg: int) -> Boss {
    if b.defeated { b } else { Boss { damage_pending: (b.damage_pending + dmg) as i32, ..b } }
}

/// Shots `ss`, in order, against the boss body: each active shot within the
/// boss's hit box is spent and queues its damage.
pub open spec fn boss_body_hits(ss: Seq<PlayerShot>, b: Boss) -> (Seq<PlayerShot>, Boss)
    decreases ss.len(),
{
    if ss.len() == 0 {
        (ss, b)
    } else {
        let r = boss_body_hits(ss.drop_last(), b);
        let s = ss.last();
        if s.active && near(s.x as int, r.1.x as int, BOSS_HIT as int) && near(s.y as int, r.1.y as int, BOSS_HIT as int) {
            (r.0.push(spent(s)), boss_struck(r.1, s.damage as int))
        } else {
            (r.0.push(s), r.1)
        }
    }
}

/// A satellite after taking `dmg`: it is destroyed once its HP reaches 0.
pub open spec fn orbit_struck(o: Orbit, dmg: int) -> Orbit {
    Orbit { hp: (o.hp - dmg) as i32, flag: if o.hp - dmg <= 0 { 0u8 } else { o.flag }, ..o }
}

/// Shots `ss`, in order, against one satellite: each active shot within its
/// hit box is spent and damages it.
pub open spec fn orbit_hits(ss: Seq<PlayerShot>, o: Orbit) -> (Seq<PlayerShot>, Orbit)
    decreases ss.len(),
{
    if ss.len() == 0 {
        (ss, o)
    } else {
        let r = orbit_hits(ss.drop_last(), o);
        let s = ss.last();
        if s.active && near(s.x as int, r.1.cx as int, ORBIT_HIT as int) && near(s.y as int, r.1.cy as int, ORBIT_HIT as int) {
            (r.0.push(spent(s)), orbit_struck(r.1, s.damage as int))
        } else {
            (r.0.push(s), r.1)
        }
    }
}

/// Shots `ss` against the satellites `os` in order: each live satellite with
/// HP (Marisa's bits) takes the shots the earlier ones left.
pub open spec fn orbits_hits(ss: Seq<PlayerShot>, os: Seq<Orbit>) -> (Seq<PlayerShot>, Seq<Orbit>)
    decreases os.len(),
{
    if os.len() == 0 {
        (ss, os)
    } else {
        let r = orbits_hits(ss, os.drop_last());
        let o = os.last();
        if 1 <= o.flag <= 3 && o.hp > 0 {
            let q = orbit_hits(r.0, o);
            (q.0, r.1.push(q.1))
        } else {
            (r.0, r.1.push(o))
        }
    }
}

/// Player shots against the boss body (`boss_body_hits`), then against its
/// destructible satellites (`orbits_hits`: Marisa's bits, hp > 0; Reimu's
/// orbs have hp 0 and are skipped).
fn shots_hit_boss(shots: &mut Vec<PlayerShot>, b: &mut Boss)
    requires
        !old(b).defeated,
        -0x1000_0000 <= old(b).damage_pending <= 0x1000_0000,
        forall|i: int| 0 <= i < old(b).orbits@.len() ==> -0x1000_0000 <= #[trigger] old(b).orbits@[i].hp <= 0x1000_0000,
        old(shots)@.len() <= 0x2000,
        shot_damage_ok(old(shots)@),
    ensures
        final(shots)@.len() == old(shots)@.len(),
        shot_damage_ok(final(shots)@),
        final(b).defeated == old(b).defeated,
        final(b).defeat_frame == old(b).defeat_frame,
        final(b).kind == old(b).kind,
        ({
            let r1 = boss_body_hits(old(shots)@, *old(b));
            let r2 = orbits_hits(r1.0, old(b).orbits@);
            &&& final(shots)@ == r2.0
            &&& *final(b) == (Boss { orbits: final(b).orbits, ..r1.1 })
            &&& final(b).orbits@ == r2.1
        }),
{
    let ghost ss0 = shots@;
    let ghost b0 = *b;
    let ns = shots.len();
    let mut i: usize = 0;
    proof {
        assert(ss0.take(0) =~= Seq::<PlayerShot>::empty());
    }
    while i < ns
        invariant
            ns == shots@.len(),
            ns == ss0.len(),
            ns <= 0x2000,
            i <= ns,
            shot_damage_ok(shots@),
            shot_damage_ok(ss0),
            !b.defeated,
            b.defeat_frame == b0.defeat_frame,
            b.kind == b0.kind,
            b.orbits@ == b0.orbits@,
            -0x1000_0000 - i * 0x100 <= b.damage_pending <= 0x1000_0000 + i * 0x100,
            (shots@.take(i as int), *b) == boss_body_hits(ss0.take(i as int), b0),
            forall|j: int| i <= j < ns ==> #[trigger] shots@[j] == ss0[j],
        decreases ns - i,
    {
        let ghost before = shots@;
        let mut s = shots[i];
        proof {
            assert(ss0.take(i + 1).drop_last() =~= ss0.take(i as int));
            assert(ss0.take(i + 1).last() == ss0[i as int]);
        }
        if s.active && near_exec(s.x, b.x, BOSS_HIT) && near_exec(s.y, b.y, BOSS_HIT) {
            b.damage(s.damage);
            s.active = false;
            shots.set(i, s);
        }
        proof {
            assert(shots@.take(i + 1) =~= before.take(i as int).push(shots@[i as int]));
        }
        i = i + 1;
    }
    proof {
        assert(shots@.take(ns as int) =~= shots@);
        assert(ss0.take(ns as int) =~= ss0);
    }
    let ghost r1 = boss_body_hits(ss0, b0);
    let ghost os0 = b0.orbits@;
    let no = b.orbits.len();
    let mut k: usize = 0;
    proof {
        assert(os0.take(0) =~= Seq::<Orbit>::empty());
    }
    while k < no
        invariant
            no == b.orbits@.len(),
            no == os0.len(),
            k <= no,
            ns == shots@.len(),
            ns <= 0x2000,
            shot_damage_ok(shots@),
            !b.defeated,
            b.defeat_frame == b0.defeat_frame,
            b.kind == b0.kind,
            *b == (Boss { orbits: b.orbits, ..r1.1 }),
            r1.1.orbits@ == os0,
            forall|q: int| 0 <= q < no ==> -0x1000_0000 <= #[trigger] os0[q].hp <= 0x1000_0000,
            forall|q: int| k <= q < no ==> #[trigger] b.orbits@[q] == os0[q],
            (shots@, b.orbits@.take(k as int)) == orbits_hits(r1.0, os0.take(k as int)),
        decreases no - k,
    {
        let ghost ob = b.orbits@;
        let mut o = b.orbits[k];
        proof {
            assert(os0.take(k + 1).drop_last() =~= os0.take(k as int));
            assert(os0.take(k + 1).last() == os0[k as int]);
        }
        if 1 <= o.flag && o.flag <= 3 && o.hp > 0 {
            let ghost sk = shots@;
            let ghost o0 = o;
            let mut i: usize = 0;
            proof {
                assert(sk.take(0) =~= Seq::<PlayerShot>::empty());
            }
            while i < ns
                invariant
                    ns == shots@.len(),
                    ns == sk.len(),
                    ns <= 0x2000,
                    i <= ns,
                    shot_damage_ok(shots@),
                    shot_damage_ok(sk),
                    -0x1000_0000 - i * 0x100 <= o.hp <= 0x1000_0000,
                    (shots@.take(i as int), o) == orbit_hits(sk.take(i as int), o0),
                    forall|j: int| i <= j < ns ==> #[trigger] shots@[j] == sk[j],
                decreases ns - i,
            {
                let ghost before = shots@;
                let mut s = shots[i];
                proof {
                    assert(sk.take(i + 1).drop_last() =~= sk.take(i as int));
                    assert(sk.take(i + 1).last() == sk[i as int]);
                }
                if s.active && near_exec(s.x, o.cx, ORBIT_HIT) && near_exec(s.y, o.cy, ORBIT_HIT) {
                    o.hp = o.hp - s.damage;
                    s.active = false;
                    if o.hp <= 0 {
                        o.flag = 0;
                    }
                    shots.set(i, s);
                }
                proof {
                    assert(shots@.take(i + 1) =~= before.take(i as int).push(shots@[i as int]));
                }
                i = i + 1;
            }
            proof {
                assert(shots@.take(ns as int) =~= shots@);
                assert(sk.take(ns as int) =~= sk);
            }
            b.orbits.set(k, o);
        }
        proof {
            assert(b.orbits@.take(k + 1) =~= ob.take(k as int).push(b.orbits@[k as int]));
        }
        k = k + 1;
    }
    proof {
        assert(b.orbits@.take(no as int) =~= b.orbits@);
        assert(os0.take(no as int) =~= os0);
    }
}

/// The midboss after `Midboss::damage(dmg)`.
pub open spec fn midboss_struck(m: Midboss, dmg: int) -> Midboss {
    if m.defeated || m.phase == 0 {
        m
    } else if m.hp - dmg <= 0 {
        Midboss { hp: (m.hp - dmg) as i32, defeated: true, defeat_frame: 0, ..m }
    } else {
        Midboss { hp: (m.hp - dmg) as i32, ..m }
    }
}

/// A shot spent on a hit.
pub open spec fn spent(s: PlayerShot) -> PlayerShot {
    PlayerShot { active: false, ..s }
}

/// Shots `ss`, in order, against the midboss `m`: each active shot within
/// the midboss's hit box is spent and deals its damage.
pub open spec fn midboss_hits(ss: Seq<PlayerShot>, m: Midboss) -> (Seq<PlayerShot>, Midboss)
    decreases ss.len(),
{
    if ss.len() == 0 {
        (ss, m)
    } else {
        let r = midboss_hits(ss.drop_last(), m);
        let s = ss.last();
        if s.active && near(s.x as int, r.1.x as int, MIDBOSS_HIT as int) && near(s.y as int, r.1.y as int, MIDBOSS_HIT as int) {
            (r.0.push(spent(s)), midboss_struck(r.1, s.damage as int))
        } else {
            (r.0.push(s), r.1)
        }
    }
}

/// Player shots against the midboss (`midboss_hits`); a defeated midboss
/// takes no shots.
fn shots_hit_midboss(shots: &mut Vec<PlayerShot>, m: &mut Midboss)
    requires
        !old(m).defeated ==> old(m).hp >= -0x4000_0000,
        old(shots)@.len() <= 0x2000,
        shot_damage_ok(old(shots)@),
    ensures
        final(shots)@.len() == old(shots)@.len(),
        final(m).x == old(m).x && final(m).y == old(m).y,
        old(m).defeated ==> *final(m) == *old(m) && final(shots)@ == old(shots)@,
        !old(m).defeated ==> (final(shots)@, *final(m)) == midboss_hits(old(shots)@, *old(m)),
{
    if m.defeated {
        return;
    }
    let ghost ss0 = shots@;
    let ghost m0 = *m;
    let ns = shots.len();
    let mut i: usize = 0;
    proof {
        assert(ss0.take(0) =~= Seq::<PlayerShot>::empty());
    }
    while i < ns
        invariant
            ns == shots@.len(),
            ns == ss0.len(),
            i <= ns,
            shot_damage_ok(shots@),
            shot_damage_ok(ss0),
            m.x == m0.x && m.y == m0.y,
            !m.defeated ==> m.hp >= -0x4000_0000,
            (shots@.take(i as int), *m) == midboss_hits(ss0.take(i as int), m0),
            forall|j: int| i <= j < ns ==> #[trigger] shots@[j] == ss0[j],
        decreases ns - i,
    {
        let ghost before = shots@;
        let mut s = shots[i];
        proof {
            assert(ss0.take(i + 1).drop_last() =~= ss0.take(i as int));
            assert(ss0.take(i + 1).last() == ss0[i as int]);
        }
        if s.active && near_exec(s.x, m.x, MIDBOSS_HIT) && near_exec(s.y, m.y, MIDBOSS_HIT) {
            m.damage(s.damage);
            s.active = false;
            shots.set(i, s);
        }
        proof {
            assert(shots@.take(i + 1) =~= before.take(i as int).push(shots@[i as int]));
        }
        i = i + 1;
    }
    proof {
        assert(shots@.take(ns as int) =~= shots@);
        assert(ss0.take(ns as int) =~= ss0);
    }
}

/// Does an active enemy bullet reach the player? The first one that does is
/// spent.
fn bullet_hits_player(pool: &mut BulletPool, px: i32, py: i32) -> (hit: bool)
    ensures
        final(pool).bullets@.len() == old(pool).bullets@.len(),
        final(pool).rng == old(pool).rng,
        hit == exists|i: int| 0 <= i < old(pool).bullets@.len() && #[trigger] old(pool).bullets@[i].active
            && near(old(pool).bullets@[i].x as int, px as int, BULLET_KILL as int)
            && near(old(pool).bullets@[i].y as int, py as int, BULLET_KILL as int),
        pool_ok(old(pool).bullets@) ==> pool_ok(final(pool).bullets@),
        !hit ==> final(pool).bullets@ == old(pool).bullets@,
        cleared(final(pool).bullets@) == cleared(old(pool).bullets@),
{
    let n = pool.bullets.len();
    let mut i: usize = 0;
    while i < n
        invariant
            n == pool.bullets@.len(),
            i <= n,
            pool.bullets@ == old(pool).bullets@,
            pool.rng == old(pool).rng,
            forall|j: int| 0 <= j < i ==> !(#[trigger] old(pool).bullets@[j].active
                && near(old(pool).bullets@[j].x as int, px as int, BULLET_KILL as int)
                && near(old(pool).bullets@[j].y as int, py as int, BULLET_KILL as int)),
        decreases n - i,
    {
        let mut b = pool.bullets[i];
        if b.active && near_exec(b.x, px, BULLET_KILL) && near_exec(b.y, py, BULLET_KILL) {
            b.active = false;
            let ghost bs = pool.bullets@;
            pool.bullets.set(i, b);
            assert(forall|j: int| 0 <= j < n && j != i ==> #[trigger] pool.bullets@[j] == bs[j]);
            assert(cleared(pool.bullets@) =~= cleared(bs));
            return true;
        }
        i = i + 1;
    }
    false
}

/// Does a live enemy's body touch the player?
fn enemy_touches(enemies: &Vec<Enemy>, px: i32, py: i32) -> (r: bool)
    ensures
        r == exists|i: int| 0 <= i < enemies@.len() && !(#[trigger] enemies@[i]).killed && enemies@[i].kills_player
            && near(enemies@[i].x as int, px as int, ENEMY_HIT as int)
            && near(enemies@[i].y as int, py as int, ENEMY_HIT as int),
{
    let n = enemies.len();
    let mut i: usize = 0;
    while i < n
        invariant
            n == enemies@.len(),
            i <= n,
            forall|j: int| 0 <= j < i ==> !(!(#[trigger] enemies@[j]).killed && enemies@[j].kills_player
                && near(enemies@[j].x as int, px as int, ENEMY_HIT as int)
                && near(enemies@[j].y as int, py as int, ENEMY_HIT as int)),
        decreases n - i,
    {
        let e = &enemies[i];
        if !e.killed && e.kills_player && near_exec(e.x, px, ENEMY_HIT) && near_exec(e.y, py, ENEMY_HIT) {
            return true;
        }
        i = i + 1;
    }
    false
}

/// Does the live boss, or a live satellite, touch the player at (`px`, `py`)?
pub open spec fn boss_touch(b: Boss, px: int, py: int) -> bool {
    (!b.defeated && near(b.x as int, px, BOSS_HIT as int) && near(b.y as int, py, BOSS_HIT as int))
        || exists|i: int| 0 <= i < b.orbits@.len() && 1 <= (#[trigger] b.orbits@[i]).flag <= 3
            && near(b.orbits@[i].cx as int, px, ORBIT_HIT as int)
            && near(b.orbits@[i].cy as int, py, ORBIT_HIT as int)
}

/// Does the boss, or one of its satellites (which are solid), touch the player?
fn boss_touches(b: &Boss, px: i32, py: i32) -> (r: bool)
    ensures
        r == boss_touch(*b, px as int, py as int),
{
    if !b.defeated && near_exec(b.x, px, BOSS_HIT) && near_exec(b.y, py, BOSS_HIT) {
        return true;
    }
    let n = b.orbits.len();
    let mut i: usize = 0;
    while i < n
        invariant
            n == b.orbits@.len(),
            i <= n,
            forall|j: int| 0 <= j < i ==> !(1 <= (#[trigger] b.orbits@[j]).flag <= 3
                && near(b.orbits@[j].cx as int, px as int, ORBIT_HIT as int)
                && near(b.orbits@[j].cy as int, py as int, ORBIT_HIT as int)),
        decreases n - i,
    {
        let o = b.orbits[i];
        if 1 <= o.flag && o.flag <= 3 && near_exec(o.cx, px, ORBIT_HIT) && near_exec(o.cy, py, ORBIT_HIT) {
            return true;
        }
        i = i + 1;
    }
    false
}

/// Items fall (initial upward pop, then gravity) and are collected near the
/// player or lost below the playfield; only those still falling are kept.
fn update_items(items: &mut Vec<Item>, px: i32, py: i32, score: &mut i64)
    requires
        forall|i: int| 0 <= i < old(items)@.len() ==> item_ok(#[trigger] old(items)@[i]),
        old(items)@.len() <= 0x4000_0000,
        -0x4900_0000_0000_0000 <= *old(score) <= 0x4900_0000_0000_0000,
    ensures
        forall|i: int| 0 <= i < final(items)@.len() ==> (#[trigger] final(items)@[i]).active,
        final(items)@.len() <= old(items)@.len(),
        *old(score) <= *final(score) <= *old(score) + 100 * old(items)@.len(),
        (final(items)@, *final(score) - *old(score)) == items_fallen(old(items)@, px, py),
{
    let ghost orig = items@;
    let mut kept: Vec<Item> = Vec::new();
    let n = items.len();
    let mut i: usize = 0;
    while i < n
        invariant
            n == orig.len(),
            n <= 0x4000_0000,
            items@ == orig,
            i <= n,
            forall|j: int| 0 <= j < n ==> item_ok(#[trigger] orig[j]),
            kept@.len() <= i,
            forall|j: int| 0 <= j < kept@.len() ==> (#[trigger] kept@[j]).active,
            -0x4900_0000_0000_0000 <= *old(score) <= 0x4900_0000_0000_0000,
            *old(score) <= *score <= *old(score) + 100 * i,
            (kept@, *score - *old(score)) == items_fallen(orig.take(i as int), px, py),
        decreases n - i,
    {
        assert(orig.take(i + 1).drop_last() =~= orig.take(i as int));
        let mut it = items[i];
        assert(item_ok(orig[i as int]));
        it.vy = if it.vy + 1 < 40 { it.vy + 1 } else { 40 };
        it.y = it.y + it.vy;
        if near_exec(it.x, px, ITEM_REACH) && near_exec(it.y, py, ITEM_REACH) {
            it.active = false;
            *score = *score + 100;
        } else if it.y > ITEM_FLOOR {
            it.active = false;
        }
        if it.active {
            kept.push(it);
        }
        i = i + 1;
    }
    assert(orig.take(n as int) =~= orig);
    *items = kept;
}

/// Drop dead enemies, keeping the order of the rest.
fn retain_alive(enemies: &mut Vec<Enemy>)
    ensures
        final(enemies)@ == old(enemies)@.filter(|e: Enemy| !e.killed),
        forall|i: int| 0 <= i < final(enemies)@.len() ==> !(#[trigger] final(enemies)@[i]).killed,
{
    let ghost orig = enemies@;
    let mut kept: Vec<Enemy> = Vec::new();
    let n = enemies.len();
    let mut i: usize = 0;
    proof {
        reveal(Seq::filter);
        assert(orig.take(0) =~= Seq::<Enemy>::empty());
    }
    while i < n
        invariant
            n == orig.len(),
            enemies@ == orig,
            i <= n,
            kept@ == orig.take(i as int).filter(|e: Enemy| !e.killed),
            forall|j: int| 0 <= j < kept@.len() ==> !(#[trigger] kept@[j]).killed,
        decreases n - i,
    {
        let e = enemies[i];
        proof {
            reveal(Seq::filter);
            assert(orig.take(i + 1).drop_last() =~= orig.take(i as int));
        }
        if !e.killed {
            kept.push(e);
        }
        i = i + 1;
    }
    assert(orig.take(n as int) =~= orig);
    *enemies = kept;
}

/// Run one boss frame with the pool and telegraph pool lent to it.
fn boss_frame(b: &mut Boss, bullets: &mut BulletPool, effects: &mut EffectPool, player: (i32, i32), frame: u16)
    requires
        update_ok(*old(b), BossEnv { pool: *old(bullets), fx: *old(effects), player, frame }),
    ensures
        final(b).kind == old(b).kind,
        old(b).defeated ==> *final(b) == (Boss { defeat_frame: (old(b).defeat_frame + 1) as u32, ..*old(b) }),
        !old(b).defeated ==> boss_ok(*final(b), 7),
        old(b).defeated ==> final(b).defeated,
        pool_ok(final(bullets).bullets@),
        boss_frame_done(*old(b), BossEnv { pool: *old(bullets), fx: *old(effects), player, frame }, *final(b),
            BossEnv { pool: *final(bullets), fx: *final(effects), player, frame }),
{
    let mut env = BossEnv { pool: BulletPool::new(), fx: EffectPool::new(), player, frame };
    std::mem::swap(&mut env.pool, bullets);
    std::mem::swap(&mut env.fx, effects);
    b.update(&mut env);
    std::mem::swap(&mut env.pool, bullets);
    std::mem::swap(&mut env.fx, effects);
}

/// Advance the player one frame, keeping what the rest of the frame needs of it.
fn update_player(player: &mut Player, input: &Input)
    requires
        player_ok(*old(player)),
        old(player).lives > i32::MIN + 1,
        origin_ok(old(player).x as int, old(player).y as int),
        old(player).shots@.len() <= 0x1000,
        shot_damage_ok(old(player).shots@),
    ensures
        target_ok((final(player).x, final(player).y)),
        origin_ok(final(player).x as int, final(player).y as int),
        final(player).lives > i32::MIN,
        final(player).shots@.len() <= 0x2000,
        shot_damage_ok(final(player).shots@),
        final(player).shot_type == old(player).shot_type,
        (final(player).x as int, final(player).y as int) == moved_pos(*old(player), *input),
        vitals(*final(player)) == moved_vitals(*old(player), *input),
        (final(player).focused, final(player).facing as int, final(player).shot_timer as int)
            == moved_controls(*old(player), *input),
        final(player).shots@ == moved_shots(*old(player), *input),
        ({
            let v = vitals_step(vitals(*old(player)), input.bomb);
            &&& final(player).lives == v.lives
            &&& final(player).invuln == v.invuln
            &&& final(player).bombing == v.bombing
            &&& final(player).dying == v.dying
            &&& final(player).gameover == v.gameover
        }),
{
    player.update(input);
    proof {
        let o = *old(player);
        let v = vitals_step(vitals(o), input.bomb);
        let nx = clamp(v.x + input_dx(*input) * crate::player::move_speed(*input), 128, 6016);
        let ny = clamp(v.y + input_dy(*input) * crate::player::move_speed(*input), 128, 5632);
        let n = 2 + spec_shot_level(v.power);
        lemma_volley_shots(o.shots@, o.shot_type < 2, nx, ny, n, n as nat);
        if !v.gameover {
            let fires = input.shoot && o.shot_timer == 0;
            let shots1 = if fires { volley(o.shots@, o.shot_type < 2, nx, ny, n, n as nat) } else { o.shots@ };
            assert forall|i: int| 0 <= i < player.shots@.len() implies 0 <= #[trigger] player.shots@[i].damage <= 0x100 by {
                assert(player.shots@[i] == shot_moved(shots1[i]));
                assert(0 <= shots1[i].damage <= 0x100);
            }
        }
    }
}

/// Whether a script fits the interpreter's index arithmetic and ends its
/// first frame (following the control flow at most once through each
/// position and loop counter).
fn script_ready(script: &[u8]) -> (r: bool)
    ensures
        r == script_checked(script@),
        r ==> script@.len() + 16 <= usize::MAX && first_frame_ends(script@),
{
    if script.len() > usize::MAX - 16 {
        return false;
    }
    let n = script.len() as u64;
    let room: u64 = (u32::MAX - 2) as u64;
    let budget: u64 = if n < 0x0100_0000 && n * 256 + 1 < room { n * 256 + 1 } else { room };
    let ends = frame_ends_within(script, 0, 0, budget);
    proof {
        if ends {
            let w = choose|w: nat| w <= budget && #[trigger] ctrl_ends(script@, 0, 0u8, w);
            assert(ctrl_ends(script@, 0, 0u8, w) && w + 2 <= u32::MAX);
        }
    }
    ends
}

/// The midboss of a frame with no boss on screen, put together from the
/// three parts of the frame.
proof fn lemma_frame_midboss(s0: StageSim, input: Input, s1: StageSim, s2: StageSim, s3: StageSim)
    requires
        s1.midboss == begin_midboss(s0, input),
        s1.std == s0.std,
        s1.phase == s0.phase,
        s1.phase != Phase::Boss,
        s1.boss is None,
        s1.enemies@ == begin_enemies(s0, input),
        pool_state(s1.bullets) == begin_pool(s0, input),
        (s1.player.x as int, s1.player.y as int) == moved_pos(s0.player, input),
        s1.player.shots@ == moved_shots(s0.player, input),
        ({
            let st = enemies_stepped(s1.enemies@, s1.std, (s1.player.x, s1.player.y), pool_state(s1.bullets));
            &&& s2.midboss == act_midboss(s1.midboss, st.1, enemy_hits(s1.player.shots@, st.0, 0, 0, Seq::empty()).0)
            &&& s2.player.shots@ == act_shots(s1.midboss, st.1, enemy_hits(s1.player.shots@, st.0, 0, 0, Seq::empty()).0)
        }),
        s3.midboss == end_midboss(s2.midboss),
        s3.player.shots@ == s2.player.shots@,
        s3.midboss_done == (s2.midboss_done || midboss_gone(s2.midboss)),
        s2.midboss_done == s0.midboss_done,
    ensures
        s3.midboss_done == (s0.midboss_done || midboss_gone(frame_midboss_act(s0, input))),
        s2.midboss == frame_midboss_act(s0, input),
        s3.midboss == frame_midboss(s0, input),
        s3.player.shots@ == frame_shots(s0, input),
{
    let pos = moved_pos(s0.player, input);
    assert((s1.player.x, s1.player.y) == (pos.0 as i32, pos.1 as i32));
}

/// A boss-phase frame, put together from the three parts of the frame.
proof fn lemma_boss_frame(s0: StageSim, input: Input, s1: StageSim, s2: StageSim, s3: StageSim)
    requires
        s0.phase == Phase::Boss,
        s0.boss is Some,
        s1.boss == begin_boss(s0, input),
        s1.std == s0.std,
        s1.effects == s0.effects,
        s1.frame == s0.frame,
        s1.enemies@ == begin_enemies(s0, input),
        pool_state(s1.bullets) == begin_pool(s0, input),
        (s1.player.x as int, s1.player.y as int) == moved_pos(s0.player, input),
        s1.player.shots@ == moved_shots(s0.player, input),
        boss_act(s1.enemies@, s1.std, (s1.player.x, s1.player.y), pool_state(s1.bullets), s1.player.shots@,
            s1.boss.unwrap(), s1.effects, s1.frame, s2),
        vitals(s2.player) == moved_vitals(s0.player, input),
        s2.player_hits == s0.player_hits,
        s3.boss == s2.boss,
        s3.player.shots@ == s2.player.shots@,
        s3.effects == s2.effects,
        s3.player_hits == s2.player_hits + (if vulnerable(vitals(s2.player))
            && field_touches(s2, s2.player.x as int, s2.player.y as int) { 1int } else { 0int }),
        s3.bullets.rng == s2.bullets.rng,
        s3.bullets.bullets@ == (if s3.player_hits == s2.player_hits { s2.bullets.bullets@ } else { cleared(s2.bullets.bullets@) }),
    ensures
        boss_frame_step(s0, input, s3),
{
    let pos = moved_pos(s0.player, input);
    assert((s1.player.x, s1.player.y) == (pos.0 as i32, pos.1 as i32));
    assert(boss_act(begin_enemies(s0, input), s0.std, (pos.0 as i32, pos.1 as i32), begin_pool(s0, input),
        moved_shots(s0.player, input), begin_boss(s0, input).unwrap(), s0.effects, s0.frame, s2));
}

impl StageSim {
    /// Build a sim for a stage. `boss_kind` is the end-of-stage boss
    /// ([`BossKind::for_stage`]); pass `None` for a stage with no roster boss.
    pub fn new(std: Std, shot_type: u8, boss_kind: Option<BossKind>) -> (r: Self)
        ensures
            fresh_sim(r, std, shot_type, boss_kind),
    {
        let events = std.timeline_events();
        StageSim {
            std,
            events,
            ev_i: 0,
            frame: 0,
            enemies: Vec::new(),
            bullets: BulletPool::new(),
            player: Player::new(shot_type),
            score: 0,
            enemies_spawned: 0,
            enemies_killed: 0,
            player_hits: 0,
            phase: Phase::Trash,
            boss: None,
            midboss: None,
            items: Vec::new(),
            effects: EffectPool::new(),
            boss_kind,
            midboss_done: false,
            rng: 0x9e37_79b9,
        }
    }

    /// The frame's start: the player, a bomb's screen clear and damage, and
    /// the trash timeline.
    fn frame_begin(&mut self, input: &Input)
        requires
            sim_ready(*old(self)),
        ensures
            begin_ok(*final(self)),
            final(self).std == old(self).std,
            final(self).events@ == old(self).events@,
            final(self).frame == old(self).frame,
            final(self).phase == old(self).phase,
            final(self).boss_kind == old(self).boss_kind,
            final(self).player_hits == old(self).player_hits,
            final(self).midboss_done == old(self).midboss_done,
            final(self).player.shot_type == old(self).player.shot_type,
            ({
                let v = vitals_step(vitals(old(self).player), input.bomb);
                &&& final(self).player.lives == v.lives
                &&& final(self).player.invuln == v.invuln
                &&& final(self).player.bombing == v.bombing
                &&& final(self).player.dying == v.dying
                &&& final(self).player.gameover == v.gameover
            }),
            old(self).enemies_killed <= final(self).enemies_killed,
            final(self).ev_i == (if timeline_runs(*old(self)) {
                due_end(old(self).events@, old(self).ev_i as int, old(self).frame)
            } else {
                old(self).ev_i as int
            }),
            final(self).rng == (if timeline_runs(*old(self)) {
                timeline_spawns(old(self).events@, old(self).ev_i as int, final(self).ev_i as int, old(self).rng).1
            } else {
                old(self).rng
            }),
            final(self).enemies_spawned == old(self).enemies_spawned + spawn_total(old(self).events@, old(self).ev_i as int)
                - spawn_total(old(self).events@, final(self).ev_i as int),
            final(self).enemies@ == begin_enemies(*old(self), *input),
            pool_state(final(self).bullets) == begin_pool(*old(self), *input),
            (final(self).player.x as int, final(self).player.y as int) == moved_pos(old(self).player, *input),
            vitals(final(self).player) == moved_vitals(old(self).player, *input),
            (final(self).player.focused, final(self).player.facing as int, final(self).player.shot_timer as int)
                == moved_controls(old(self).player, *input),
            final(self).player.shots@ == moved_shots(old(self).player, *input),
            final(self).midboss == begin_midboss(*old(self), *input),
            final(self).boss == begin_boss(*old(self), *input),
            (final(self).boss is None) == (old(self).boss is None),
            final(self).enemies_killed == old(self).enemies_killed + frame_bomb(*old(self), *input).0,
            final(self).score == old(self).score + frame_bomb(*old(self), *input).1,
            final(self).items@ == old(self).items@,
            final(self).effects == old(self).effects,
    {
        let ghost s0 = *self;
        update_player(&mut self.player, input);

        // Bomb: while active, keep the screen clear of enemy bullets and chip
        // away at everything on the field.
        if self.player.bombing() {
            self.bullets.clear_all();
            bomb_enemies(&mut self.enemies, &mut self.enemies_killed, &mut self.score);
            proof {
                assert forall|i: int| 0 <= i < self.enemies@.len() implies enemy_ready(#[trigger] self.enemies@[i], self.std) by {
                    let e = s0.enemies@[i];
                    assert(self.enemies@[i] == bombed(e));
                    assert(enemy_ready(e, s0.std));
                    if !bombed(e).killed {
                        let sc = script_of(s0.std, e.script_index as int);
                        let w = choose|n: nat| #[trigger] ctrl_ends(sc, e.script_ip as int, e.loop_i, n) && e.fire_count + n + 2 <= u32::MAX;
                        assert(ctrl_ends(sc, bombed(e).script_ip as int, bombed(e).loop_i, w));
                    }
                }
            }
            match self.boss.take() {
                Some(mut b) => {
                    b.damage(2);
                    self.boss = Some(b);
                },
                None => {},
            }
            match self.midboss.take() {
                Some(mut m) => {
                    m.damage(2);
                    self.midboss = Some(m);
                },
                None => {},
            }
        }
        proof {
            assert(self.boss is Some ==> boss_live_ok(self.boss.unwrap()));
            assert(self.midboss is Some ==> midboss_ready(self.midboss.unwrap()));
        }
        let ghost s1 = *self;

        // 1. Trash timeline (the midboss interrupts it mid-stage).
        if self.phase == Phase::Trash {
            if !self.midboss_done && self.midboss.is_none() && self.frame >= MIDBOSS_FRAME {
                self.midboss = Some(Midboss::new(192 * SUBPIXEL));
            }
            // The timeline pauses while the midboss is on screen.
            if self.midboss.is_none() {
                proof {
                    lemma_due_end(self.events@, self.ev_i as int, self.frame);
                }
                spawn_due(&self.events, &mut self.ev_i, self.frame, &mut self.rng, &mut self.enemies,
                    &mut self.enemies_spawned, Ghost(self.std));
            }
        }
        proof {
            assert(self.midboss is Some ==> midboss_ready(self.midboss.unwrap()));
        }
    }

    /// The frame's action: every enemy's script, the boss and midboss, bullet
    /// motion, and the player's shots.
    #[verifier::rlimit(60)]
    #[verifier::spinoff_prover]
    fn frame_act(&mut self)
        requires
            begin_ok(*old(self)),
        ensures
            act_ok(*final(self)),
            same_course(*old(self), *final(self)),
            vitals(final(self).player) == vitals(old(self).player),
            final(self).player.focused == old(self).player.focused && final(self).player.facing == old(self).player.facing
                && final(self).player.shot_timer == old(self).player.shot_timer,
            final(self).player_hits == old(self).player_hits,
            final(self).midboss_done == old(self).midboss_done,
            final(self).player.shot_type == old(self).player.shot_type,
            old(self).enemies_killed <= final(self).enemies_killed,
            ({
                let st = enemies_stepped(old(self).enemies@, old(self).std, (old(self).player.x, old(self).player.y),
                    pool_state(old(self).bullets));
                let h = enemy_hits(old(self).player.shots@, st.0, old(self).enemies_killed as int, old(self).score as int,
                    old(self).items@);
                &&& final(self).enemies@ == h.1
                &&& final(self).enemies_killed == h.2
                &&& final(self).score == h.3
                &&& final(self).items@ == h.4
                &&& old(self).boss is None && old(self).midboss is None ==> final(self).player.shots@ == h.0
            }),
            old(self).phase != Phase::Boss ==> final(self).effects.effects@ == effects_after(old(self).effects.effects@),
            (final(self).boss is None) == (old(self).boss is None),
            (final(self).midboss is None) == (old(self).midboss is None),
            old(self).phase == Phase::Boss && old(self).boss is Some && old(self).midboss is None ==> boss_act(
                old(self).enemies@, old(self).std, (old(self).player.x, old(self).player.y), pool_state(old(self).bullets),
                old(self).player.shots@, old(self).boss.unwrap(), old(self).effects, old(self).frame, *final(self)),
            old(self).phase != Phase::Boss && old(self).boss is None ==> ({
                let st = enemies_stepped(old(self).enemies@, old(self).std, (old(self).player.x, old(self).player.y),
                    pool_state(old(self).bullets));
                let h0 = enemy_hits(old(self).player.shots@, st.0, 0, 0, Seq::empty()).0;
                &&& final(self).midboss == act_midboss(old(self).midboss, st.1, h0)
                &&& final(self).player.shots@ == act_shots(old(self).midboss, st.1, h0)
            }),
            old(self).phase != Phase::Boss && old(self).boss is None ==> ({
                let pos = (old(self).player.x, old(self).player.y);
                let st = enemies_stepped(old(self).enemies@, old(self).std, pos, pool_state(old(self).bullets));
                let q = act_pool(old(self).midboss, st.1);
                &&& final(self).bullets.bullets@ == q.bullets.map_values(|b: Bullet| bullet_step(b, pos, old(self).frame))
                &&& final(self).bullets.rng == q.rng
            }),
    {

        // 2. Run each enemy's script (movement + firing).
        let player_pos = (self.player.x, self.player.y);
        step_enemies(&mut self.enemies, &self.std, player_pos, &mut self.bullets);

        // 2b. Boss (during the boss phase).
        let ghost e0 = BossEnv { pool: self.bullets, fx: self.effects, player: player_pos, frame: self.frame };
        let ghost b0 = self.boss;
        if self.phase == Phase::Boss {
            let frame = self.frame;
            match self.boss.take() {
                Some(mut b) => {
                    boss_frame(&mut b, &mut self.bullets, &mut self.effects, player_pos, frame);
                    self.boss = Some(b);
                },
                None => {},
            }
        }
        let ghost e1 = BossEnv { pool: self.bullets, fx: self.effects, player: player_pos, frame: self.frame };
        let ghost b1 = self.boss;
        // 2c. Midboss.
        let ghost p2 = pool_state(self.bullets);
        let ghost m2 = self.midboss;
        match self.midboss.take() {
            Some(mut m) => {
                m.update(&mut self.bullets);
                self.midboss = Some(m);
            },
            None => {},
        }
        let ghost m_after = self.midboss;
        assert(m2 is Some ==> m_after == Some(midboss_next(m2.unwrap(), p2.bullets, p2.rng).0));
        assert(pool_state(self.bullets) == act_pool(m2, p2));
        proof {
            assert(self.boss is Some && !self.boss.unwrap().defeated ==> boss_ok(self.boss.unwrap(), 7));
        }
        let ghost s3 = *self;

        // 3. Move bullets + age boss telegraphs.
        self.bullets.update(player_pos, self.frame);
        assert(self.bullets.bullets@ =~= s3.bullets.bullets@.map_values(|b: Bullet| bullet_step(b, player_pos, s3.frame)));
        self.effects.update();

        // 4. Player shots vs enemies, boss and midboss.
        shots_hit_enemies(&mut self.player.shots, &mut self.enemies, &mut self.enemies_killed, &mut self.score,
            &mut self.items);
        match self.boss.take() {
            Some(mut b) => {
                if !b.defeated {
                    proof {
                        assert forall|i: int| 0 <= i < b.orbits@.len() implies -0x1000_0000 <= #[trigger] b.orbits@[i].hp <= 0x1000_0000 by {
                            assert(orbit_within(b.orbits@[i], 7int * 0x0100_0000));
                        }
                    }
                    shots_hit_boss(&mut self.player.shots, &mut b);
                }
                self.boss = Some(b);
            },
            None => {},
        }
        match self.midboss.take() {
            Some(mut m) => {
                shots_hit_midboss(&mut self.player.shots, &mut m);
                self.midboss = Some(m);
            },
            None => {},
        }
        proof {
            let st = enemies_stepped(old(self).enemies@, old(self).std, (old(self).player.x, old(self).player.y),
                pool_state(old(self).bullets));
            if old(self).phase == Phase::Boss && old(self).boss is Some && old(self).midboss is None {
                lemma_enemy_hits_enemies(old(self).player.shots@, st.0, old(self).enemies_killed as int,
                    old(self).score as int, old(self).items@);
                assert(pool_state(e0.pool) == st.1);
                assert(boss_frame_done(b0.unwrap(), e0, b1.unwrap(), e1));
                reveal(boss_act);
                assert(boss_act(old(self).enemies@, old(self).std, (old(self).player.x, old(self).player.y),
                    pool_state(old(self).bullets), old(self).player.shots@, old(self).boss.unwrap(), old(self).effects,
                    old(self).frame, *self));
            }
            if old(self).phase != Phase::Boss && old(self).boss is None {
                lemma_enemy_hits_enemies(old(self).player.shots@, st.0, old(self).enemies_killed as int,
                    old(self).score as int, old(self).items@);
                assert(p2 == st.1);
                assert(self.midboss == act_midboss(old(self).midboss, st.1,
                    enemy_hits(old(self).player.shots@, st.0, 0, 0, Seq::empty()).0));
                assert(self.player.shots@ == act_shots(old(self).midboss, st.1,
                    enemy_hits(old(self).player.shots@, st.0, 0, 0, Seq::empty()).0));
            }
        }
    }

    /// The frame's end: bullets and bodies against the player, items, the
    /// dead, and stage progression.
    fn frame_end(&mut self)
        requires
            act_ok(*old(self)),
        ensures
            final(self).std == old(self).std,
            final(self).events@ == old(self).events@,
            final(self).ev_i == old(self).ev_i,
            final(self).rng == old(self).rng,
            final(self).enemies_spawned == old(self).enemies_spawned,
            final(self).boss_kind == old(self).boss_kind,
            final(self).enemies_killed == old(self).enemies_killed,
            final(self).enemies@ == old(self).enemies@.filter(|e: Enemy| !e.killed),
            final(self).frame == (if old(self).frame == u16::MAX { 0 } else { old(self).frame + 1 }),
            forall|i: int| 0 <= i < final(self).enemies@.len() ==> !(#[trigger] final(self).enemies@[i]).killed,
            forall|i: int| 0 <= i < final(self).items@.len() ==> (#[trigger] final(self).items@[i]).active,
            old(self).player_hits <= final(self).player_hits <= old(self).player_hits + 1,
            final(self).player_hits == old(self).player_hits + 1 ==> !(old(self).player.invuln > 0
                || old(self).player.bombing > 0 || old(self).player.dying > 0) && !old(self).player.gameover,
            final(self).player.lives == old(self).player.lives || final(self).player.lives == old(self).player.lives - 1,
            old(self).player.invuln > 0 || old(self).player.gameover ==> final(self).player.lives == old(self).player.lives,
            final(self).player_hits == old(self).player_hits ==> vitals(final(self).player) == vitals(old(self).player),
            final(self).player.focused == old(self).player.focused && final(self).player.facing == old(self).player.facing
                && final(self).player.shot_timer == old(self).player.shot_timer,
            final(self).player.shots@ == old(self).player.shots@,
            (final(self).items@, final(self).score - old(self).score)
                == items_fallen(old(self).items@, final(self).player.x, final(self).player.y),
            final(self).player_hits == old(self).player_hits + (if vulnerable(vitals(old(self).player))
                && field_touches(*old(self), old(self).player.x as int, old(self).player.y as int) { 1int } else { 0int }),
            final(self).effects == old(self).effects,
            final(self).bullets.rng == old(self).bullets.rng,
            final(self).bullets.bullets@ == (if final(self).player_hits == old(self).player_hits {
                old(self).bullets.bullets@
            } else {
                cleared(old(self).bullets.bullets@)
            }),
            final(self).player_hits == old(self).player_hits + 1 ==> vitals(final(self).player) == death(vitals(old(self).player)),
            old(self).midboss_done ==> final(self).midboss_done,
            final(self).midboss == end_midboss(old(self).midboss),
            final(self).midboss_done == (old(self).midboss_done || midboss_gone(old(self).midboss)),
            old(self).phase != Phase::Trash ==> final(self).boss == old(self).boss,
            final(self).player.shot_type == old(self).player.shot_type,
            old(self).phase == Phase::Cleared ==> final(self).phase == Phase::Cleared,
            final(self).phase == Phase::Trash ==> old(self).phase == Phase::Trash,
            final(self).phase == Phase::Boss ==> final(self).boss is Some && !boss_over(final(self).boss.unwrap()),
            old(self).phase == Phase::Trash && final(self).phase != Phase::Trash ==> {
                &&& final(self).midboss_done
                &&& final(self).ev_i >= final(self).events@.len()
                &&& final(self).enemies@.len() == 0
                &&& match old(self).boss_kind {
                    Some(k) => final(self).phase == Phase::Boss && final(self).boss is Some
                        && fresh_boss(final(self).boss.unwrap(), k),
                    None => final(self).phase == Phase::Cleared && final(self).boss is None,
                }
            },
            old(self).phase == Phase::Trash && final(self).midboss_done && final(self).ev_i >= final(self).events@.len()
                && final(self).enemies@.len() == 0 ==> final(self).phase != Phase::Trash,
            old(self).phase == Phase::Boss && final(self).phase == Phase::Cleared
                ==> final(self).boss is None || boss_over(final(self).boss.unwrap()),
    {
        proof {
            reveal(field_touches);
        }

        // 5. Enemy bullets / bodies vs player (only when vulnerable).
        if !self.player.invincible() && !self.player.gameover {
            let px = self.player.x;
            let py = self.player.y;
            let mut died = bullet_hits_player(&mut self.bullets, px, py);
            if !died {
                died = enemy_touches(&self.enemies, px, py);
            }
            if !died {
                match &self.boss {
                    Some(b) => {
                        died = boss_touches(b, px, py);
                    },
                    None => {},
                }
            }
            if !died {
                match &self.midboss {
                    Some(m) => {
                        if !m.defeated && near_exec(m.x, px, MIDBOSS_HIT) && near_exec(m.y, py, MIDBOSS_HIT) {
                            died = true;
                        }
                    },
                    None => {},
                }
            }
            if died {
                self.player_hits = self.player_hits + 1;
                if self.player.hit() {
                    // TH04 clears the screen of bullets when the player dies.
                    self.bullets.clear_all();
                }
            }
        }

        // 5b. Items fall and are collected.
        update_items(&mut self.items, self.player.x, self.player.y, &mut self.score);

        // 6. Drop dead enemies.
        retain_alive(&mut self.enemies);

        // Midboss defeated → resume the trash timeline.
        let midboss_over = match &self.midboss {
            Some(m) => m.done(),
            None => false,
        };
        if midboss_over {
            self.midboss = None;
            self.midboss_done = true;
        }

        // 7. Stage progression. After the midboss, once the trash timeline is
        //    exhausted and the field is clear, the boss appears; once defeated,
        //    the stage clears.
        if self.phase == Phase::Trash && self.midboss_done && self.ev_i >= self.events.len() && self.enemies.len() == 0 {
            self.phase = Phase::Boss;
            self.boss = match self.boss_kind {
                Some(k) => Some(Boss::from_kind(k)),
                None => None,
            };
        }
        if self.phase == Phase::Boss {
            let over = match &self.boss {
                Some(b) => b.done(),
                None => true,
            };
            if over {
                self.phase = Phase::Cleared;
            }
        }
        self.frame = self.frame.wrapping_add(1);
    }

    /// Advance the whole stage one frame: the player; a bomb's screen clear
    /// and damage; the trash timeline (paused while the midboss is on
    /// screen); every enemy's script; the boss and midboss; bullet motion;
    /// shots against enemies, boss and midboss; bullets and bodies against
    /// the player; items; and stage progression.
    #[verifier::rlimit(100)]
    #[verifier::spinoff_prover]
    pub fn step(&mut self, input: &Input)
        requires
            sim_ready(*old(self)),
        ensures
            final(self).frame == (if old(self).frame == u16::MAX { 0 } else { old(self).frame + 1 }),
            final(self).std == old(self).std,
            final(self).events@ == old(self).events@,
            final(self).boss_kind == old(self).boss_kind,
            final(self).ev_i == (if timeline_runs(*old(self)) {
                due_end(old(self).events@, old(self).ev_i as int, old(self).frame)
            } else {
                old(self).ev_i as int
            }),
            final(self).ev_i <= final(self).events@.len(),
            final(self).rng == (if timeline_runs(*old(self)) {
                timeline_spawns(old(self).events@, old(self).ev_i as int, final(self).ev_i as int, old(self).rng).1
            } else {
                old(self).rng
            }),
            final(self).enemies_spawned == old(self).enemies_spawned + spawn_total(old(self).events@, old(self).ev_i as int)
                - spawn_total(old(self).events@, final(self).ev_i as int),
            final(self).enemies@ == frame_enemies(*old(self), *input).filter(|e: Enemy| !e.killed),
            frame_counts(*old(self), *input, *final(self)),
            old(self).phase != Phase::Boss ==> final(self).effects.effects@ == effects_after(old(self).effects.effects@),
            old(self).phase != Phase::Boss && old(self).boss is None ==> frame_hits_player(*old(self), *input, *final(self)),
            old(self).phase != Phase::Boss && old(self).boss is None ==> ({
                let q = frame_pool(*old(self), *input);
                &&& final(self).bullets.rng == q.rng
                &&& final(self).bullets.bullets@ == (if final(self).player_hits == old(self).player_hits {
                    q.bullets
                } else {
                    cleared(q.bullets)
                })
            }),
            (final(self).player.focused, final(self).player.facing as int, final(self).player.shot_timer as int)
                == moved_controls(old(self).player, *input),
            vitals(final(self).player) == (if final(self).player_hits == old(self).player_hits {
                moved_vitals(old(self).player, *input)
            } else {
                death(moved_vitals(old(self).player, *input))
            }),
            forall|i: int| 0 <= i < final(self).enemies@.len() ==> !(#[trigger] final(self).enemies@[i]).killed,
            forall|i: int| 0 <= i < final(self).items@.len() ==> (#[trigger] final(self).items@[i]).active,
            old(self).enemies_killed <= final(self).enemies_killed,
            old(self).player_hits <= final(self).player_hits <= old(self).player_hits + 1,
            ({
                let v = vitals_step(vitals(old(self).player), input.bomb);
                &&& final(self).player_hits == old(self).player_hits + 1
                    ==> !(v.invuln > 0 || v.bombing > 0 || v.dying > 0) && !v.gameover
                &&& final(self).player.lives >= old(self).player.lives - 1
            }),
            old(self).midboss_done ==> final(self).midboss_done,
            old(self).phase != Phase::Boss && old(self).boss is None ==> final(self).midboss == frame_midboss(*old(self), *input),
            old(self).phase != Phase::Boss && old(self).boss is None ==> final(self).player.shots@ == frame_shots(*old(self), *input),
            old(self).phase == Phase::Boss && old(self).boss is Some && old(self).midboss is None
                ==> boss_frame_step(*old(self), *input, *final(self)),
            old(self).phase != Phase::Boss && old(self).boss is None ==> final(self).midboss_done
                == (old(self).midboss_done || midboss_gone(frame_midboss_act(*old(self), *input))),
            final(self).player.shot_type == old(self).player.shot_type,
            old(self).phase == Phase::Cleared ==> final(self).phase == Phase::Cleared,
            final(self).phase == Phase::Trash ==> old(self).phase == Phase::Trash,
            final(self).phase == Phase::Boss ==> final(self).boss is Some && !boss_over(final(self).boss.unwrap()),
            old(self).phase == Phase::Trash && final(self).phase != Phase::Trash ==> {
                &&& final(self).midboss_done
                &&& final(self).ev_i == final(self).events@.len()
                &&& final(self).enemies@.len() == 0
                &&& match old(self).boss_kind {
                    Some(k) => final(self).phase == Phase::Boss && final(self).boss is Some
                        && fresh_boss(final(self).boss.unwrap(), k),
                    None => final(self).phase == Phase::Cleared && final(self).boss is None,
                }
            },
            old(self).phase == Phase::Trash && final(self).midboss_done && final(self).ev_i >= final(self).events@.len()
                && final(self).enemies@.len() == 0 ==> final(self).phase != Phase::Trash,
            old(self).phase == Phase::Boss && final(self).phase == Phase::Cleared
                ==> final(self).boss is None || boss_over(final(self).boss.unwrap()),
    {
        let ghost s0 = *self;
        self.frame_begin(input);
        let ghost s1 = *self;
        self.frame_act();
        let ghost s2 = *self;
        proof {
            lemma_enemy_hits_enemies(s1.player.shots@, enemies_stepped(s1.enemies@, s1.std, (s1.player.x, s1.player.y),
                pool_state(s1.bullets)).0, s1.enemies_killed as int, s1.score as int, s1.items@);
            if s0.phase != Phase::Boss && s0.boss is None {
                assert(s2.bullets.bullets@ =~= frame_pool(s0, *input).bullets);
            }
        }
        self.frame_end();
        proof {
            lemma_frame_counts(s0, *input, s1, s2, *self);
            if s0.phase != Phase::Boss && s0.boss is None {
                lemma_frame_midboss(s0, *input, s1, s2, *self);
                lemma_frame_hits(s0, *input, s1, s2, *self);
            }
            if s0.phase == Phase::Boss && s0.boss is Some && s0.midboss is None {
                lemma_boss_frame(s0, *input, s1, s2, *self);
            }
        }
    }

    /// Whether `step` can run the next frame: every requirement of
    /// `sim_ready` checked, enemy scripts by following their control flow.
    pub fn ready(&self) -> (r: bool)
        ensures
            r == sim_checked(*self),
            r ==> sim_ready(*self),
    {
        let p = &self.player;
        if !p.frame_ready() || p.lives <= i32::MIN + 1 || p.shots.len() > 0x1000 {
            return false;
        }
        if p.x < -0x0800_0000 || p.x > 0x0800_0000 || p.y < -0x0800_0000 || p.y > 0x0800_0000 {
            return false;
        }
        let mut i: usize = 0;
        while i < p.shots.len()
            invariant
                *p == self.player,
                i <= p.shots@.len(),
                forall|j: int| 0 <= j < i ==> 0 <= #[trigger] p.shots@[j].damage <= 0x100,
            decreases p.shots@.len() - i,
        {
            if p.shots[i].damage < 0 || p.shots[i].damage > 0x100 {
                assert(!(0 <= self.player.shots@[i as int].damage <= 0x100));
                assert(!shot_damage_ok(self.player.shots@));
                return false;
            }
            i = i + 1;
        }
        if !self.bullets.pool_ready() {
            return false;
        }
        let scripts = &self.std.enemy_scripts;
        let mut i: usize = 0;
        while i < scripts.len()
            invariant
                scripts@ == self.std.enemy_scripts@,
                i <= scripts@.len(),
                forall|j: int| 0 <= j < i ==> {
                    &&& (#[trigger] scripts@[j])@.len() + 16 <= usize::MAX
                    &&& first_frame_ends(scripts@[j]@)
                    &&& script_checked(scripts@[j]@)
                },
            decreases scripts@.len() - i,
        {
            let sl = scripts[i].as_slice();
            assert(sl@ == scripts@[i as int]@);
            if !script_ready(sl) {
                assert(!script_checked(self.std.enemy_scripts@[i as int]@));
                return false;
            }
            i = i + 1;
        }
        assert(scripts_ok(self.std));
        if self.enemies.len() > 0x1000_0000 || self.items.len() > 0x1000_0000 {
            return false;
        }
        let empty: Vec<u8> = Vec::new();
        let mut i: usize = 0;
        while i < self.enemies.len()
            invariant
                i <= self.enemies@.len(),
                scripts_ok(self.std),
                empty@.len() == 0,
                forall|j: int| 0 <= j < i ==> enemy_ready(#[trigger] self.enemies@[j], self.std),
                forall|j: int| 0 <= j < i ==> (!(#[trigger] self.enemies@[j]).killed
                    ==> step_checked(self.enemies@[j], script_of(self.std, self.enemies@[j].script_index as int))),
            decreases self.enemies@.len() - i,
        {
            let e = &self.enemies[i];
            if !e.killed {
                let idx = e.script_index;
                let script: &[u8] = if idx < self.std.enemy_scripts.len() {
                    self.std.enemy_scripts[idx].as_slice()
                } else {
                    empty.as_slice()
                };
                assert(script@ == script_of(self.std, idx as int));
                if !e.can_step(script) {
                    assert(!step_checked(self.enemies@[i as int], script_of(self.std, self.enemies@[i as int].script_index as int)));
                    return false;
                }
            }
            i = i + 1;
        }
        let mut i: usize = 0;
        while i < self.items.len()
            invariant
                i <= self.items@.len(),
                forall|j: int| 0 <= j < i ==> item_ok(#[trigger] self.items@[j]),
            decreases self.items@.len() - i,
        {
            let it = self.items[i];
            if it.y < -0x4000_0000 || it.y > 0x4000_0000 || it.vy < -0x1000_0000 || it.vy > 40 {
                return false;
            }
            i = i + 1;
        }
        if self.ev_i > self.events.len() {
            return false;
        }
        let mut k = self.events.len();
        let mut total: u64 = 0;
        while k > self.ev_i
            invariant
                self.ev_i <= k <= self.events@.len(),
                total == spawn_total(self.events@, k as int),
                total <= u32::MAX,
            decreases k,
        {
            let c = self.events[k - 1].spawns.len() as u64;
            if c > u32::MAX as u64 - total {
                proof {
                    lemma_spawn_total_mono(self.events@, self.ev_i as int, k - 1);
                }
                return false;
            }
            total = total + c;
            k = k - 1;
        }
        if self.enemies_spawned as u64 + total > u32::MAX as u64 {
            return false;
        }
        if self.enemies_killed as u64 + self.enemies.len() as u64 + 0x2000 > u32::MAX as u64
            || self.player_hits == u32::MAX {
            return false;
        }
        if self.score < -0x4000_0000_0000_0000 || self.score > 0x4000_0000_0000_0000 {
            return false;
        }
        match &self.boss {
            Some(b) => {
                if !b.frame_ready() {
                    return false;
                }
                if !b.defeated {
                    let pend = b.damage_pending as i64;
                    let hp = b.hp as i64;
                    if !(-0x0FF0_0000 + 2 <= pend && pend <= 0x0FF0_0000 - 2 && -0x1000_0000 + 2 <= hp - pend
                        && hp - pend <= 0x1000_0000 - 2 && -0x1000_0000 + 2 <= hp + pend && hp + pend <= 0x1000_0000 - 2) {
                        return false;
                    }
                }
            },
            None => {},
        }
        match &self.midboss {
            Some(m) => {
                if !m.frame_ready() || (!m.defeated && m.hp < -0x4000_0000) {
                    return false;
                }
            },
            None => {},
        }
        true
    }

    /// Live enemies on the field.
    pub fn alive_enemies(&self) -> (r: usize)
        ensures
            r == self.enemies@.filter(|e: Enemy| !e.killed).len(),
    {
        let ghost es = self.enemies@;
        let n = self.enemies.len();
        let mut c: usize = 0;
        let mut i: usize = 0;
        proof {
            reveal(Seq::filter);
            assert(es.take(0) =~= Seq::<Enemy>::empty());
        }
        while i < n
            invariant
                n == es.len(),
                es == self.enemies@,
                i <= n,
                c == es.take(i as int).filter(|e: Enemy| !e.killed).len(),
                c <= i,
            decreases n - i,
        {
            proof {
                reveal(Seq::filter);
                assert(es.take(i + 1).drop_last() =~= es.take(i as int));
            }
            if !self.enemies[i].killed {
                c = c + 1;
            }
            i = i + 1;
        }
        assert(es.take(n as int) =~= es);
        c
    }

    /// True once the stage is cleared or the player is out of lives.
    pub fn finished(&self) -> (r: bool)
        ensures
            r == (self.phase == Phase::Cleared || self.player.gameover),
    {
        self.phase == Phase::Cleared || self.player.gameover
    }
}

} // verus!

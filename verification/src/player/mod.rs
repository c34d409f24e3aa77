//! TH04 player: movement (ReC98 `player_move` and
//! `player_pos_update_and_clamp`), a per-character forward shot that widens
//! with power, bombs, and the deathbomb window. Movement speed is a fixed
//! 4px aligned / 3px diagonal (TH04 has no focus slowdown). Position is
//! clamped to the playfield with the game's margins. Positions are
//! subpixels (16/px).

use vstd::prelude::*;
use crate::math::{vector2, spec_vector2, lemma_vector2_fits};

pub mod item;

verus! {

pub const SUBPIXEL: i32 = 16;
pub const PLAYFIELD_W: i32 = 384;
pub const PLAYFIELD_H: i32 = 368;
/// "Up" in the 256-direction system (0 = +x, 64 = +y/down, 192 = up).
pub const ANGLE_UP: u8 = 192;
/// Player shots deal 10.
pub const SHOT_DAMAGE: i32 = 10;
/// Bomb: invulnerable, clears bullets and damages everything for this long.
pub const BOMB_FRAMES: u32 = 180;
/// `TO_SP(4)` / `TO_SP(3)` (ReC98 th04/main/player/move.hpp).
pub const SPEED_ALIGNED: i32 = 64;
pub const SPEED_DIAGONAL: i32 = 48;
/// Clamp margins (ReC98 th04/main/player/pos.cpp).
pub const MARGIN_L: i32 = 8;
pub const MARGIN_T: i32 = 8;
pub const MARGIN_R: i32 = 8;
pub const MARGIN_B: i32 = 16;
/// Player shots travel 12px per frame.
pub const SHOT_SPEED: i32 = 192;
pub const SHOT_INTERVAL: u8 = 4;
pub const POWER_MAX: u8 = 128;
/// Power gained per small power item, and per big-power item.
pub const POWER_PER_ITEM: u8 = 1;
pub const BIGPOWER_PER_ITEM: u8 = 8;
/// Power lost on a miss: TH04 drops the shot a tier when you die.
pub const POWER_LOSS_ON_DEATH: u8 = 16;
/// Invulnerability granted on (re)spawn.
pub const RESPAWN_INVULN: u32 = 120;
/// Deathbomb window: bombing within this many frames of being hit cancels
/// the death.
pub const DEATHBOMB_FRAMES: u32 = 8;

/// Per-frame input (already debounced into held directions).
#[derive(Clone, Copy, Debug)]
pub struct Input {
    pub left: bool,
    pub right: bool,
    pub up: bool,
    pub down: bool,
    pub shoot: bool,
    pub focus: bool,
    pub bomb: bool,
}

impl Default for Input {
    fn default() -> (r: Input)
        ensures
            !r.left && !r.right && !r.up && !r.down && !r.shoot && !r.focus && !r.bomb,
    {
        Input { left: false, right: false, up: false, down: false, shoot: false, focus: false, bomb: false }
    }
}

#[derive(Debug, Clone, Copy)]
pub struct PlayerShot {
    pub x: i32,
    pub y: i32,
    pub vx: i32,
    pub vy: i32,
    pub damage: i32,
    pub active: bool,
}

pub struct Player {
    pub x: i32,
    pub y: i32,
    pub lives: i32,
    pub bombs: i32,
    pub power: u8,
    /// 0 = Reimu A, 1 = Reimu B, 2 = Marisa A, 3 = Marisa B.
    pub shot_type: u8,
    pub focused: bool,
    /// Horizontal lean for the banking sprite: -1 left, 0 neutral, +1 right.
    pub facing: i8,
    /// Frames of post-respawn invulnerability remaining.
    pub invuln: u32,
    pub gameover: bool,
    /// Frames of bomb remaining.
    pub bombing: u32,
    /// Deathbomb window: frames left to bomb-cancel an incoming death (0 = not
    /// dying). The hit is committed only when this runs out.
    pub dying: u32,
    /// Set for the one frame the player actually loses a life.
    pub just_died: bool,
    pub shot_timer: u8,
    pub shots: Vec<PlayerShot>,
}

/// Power needed for each shot level (ReC98 `_SHOT_LEVEL_TO_POWER`): the shot
/// level is how many of these thresholds the power has met.
pub open spec fn spec_shot_level(power: u8) -> int {
    (if power >= 6 { 1int } else { 0 }) + (if power >= 12 { 1int } else { 0 }) + (if power >= 16 { 1int } else { 0 })
        + (if power >= 24 { 1int } else { 0 }) + (if power >= 32 { 1int } else { 0 }) + (if power >= 48 { 1int } else { 0 })
        + (if power >= 72 { 1int } else { 0 }) + (if power >= 96 { 1int } else { 0 }) + (if power >= 128 { 1int } else { 0 })
}

/// Clamp `v` into `[lo, hi]`.
pub open spec fn clamp(v: int, lo: int, hi: int) -> int {
    if v < lo { lo } else if v > hi { hi } else { v }
}

/// The shots list after adding `s`: into the first free slot, else appended.
pub open spec fn first_free_shot(ss: Seq<PlayerShot>, from: int) -> Option<int>
    decreases ss.len() - from,
{
    if from < 0 || from >= ss.len() {
        None
    } else if !ss[from].active {
        Some(from)
    } else {
        first_free_shot(ss, from + 1)
    }
}

pub open spec fn shots_add(ss: Seq<PlayerShot>, s: PlayerShot) -> Seq<PlayerShot> {
    match first_free_shot(ss, 0) {
        Some(i) => ss.update(i, s),
        None => ss.push(s),
    }
}

/// Shot `i` of a volley of `n` fired from (`x`, `y`): Reimu fans them out
/// 3 angle units apart, Marisa packs parallel columns 2.5px apart.
pub open spec fn volley_shot(reimu: bool, x: int, y: int, n: int, i: int) -> PlayerShot {
    let off = 2 * i - (n - 1);
    if reimu {
        let v = spec_vector2(((192 + off * 3) % 256) as u8, 192);
        PlayerShot { x: x as i32, y: y as i32, vx: v.0 as i32, vy: v.1 as i32, damage: 10, active: true }
    } else {
        PlayerShot { x: (x + off * 40) as i32, y: y as i32, vx: 0, vy: -192i32, damage: 10, active: true }
    }
}

/// The shots after adding the first `k` shots of a volley.
pub open spec fn volley(ss: Seq<PlayerShot>, reimu: bool, x: int, y: int, n: int, k: nat) -> Seq<PlayerShot>
    decreases k,
{
    if k == 0 {
        ss
    } else {
        shots_add(volley(ss, reimu, x, y, n, (k - 1) as nat), volley_shot(reimu, x, y, n, k - 1))
    }
}

/// A shot after one frame of flight.
pub open spec fn shot_moved(s: PlayerShot) -> PlayerShot {
    if s.active {
        let y = s.y + s.vy;
        PlayerShot { x: (s.x + s.vx) as i32, y: y as i32, active: y >= -256, ..s }
    } else {
        s
    }
}

/// Positions and counters from which one frame cannot overflow.
pub open spec fn player_ok(p: Player) -> bool {
    &&& -0x1000_0000 <= p.x <= 0x1000_0000
    &&& -0x1000_0000 <= p.y <= 0x1000_0000
    &&& p.lives > i32::MIN
    &&& forall|i: int| 0 <= i < p.shots@.len() && (#[trigger] p.shots@[i]).active ==> {
        &&& -0x2000_0000 <= p.shots@[i].x <= 0x2000_0000
        &&& -0x2000_0000 <= p.shots@[i].y <= 0x2000_0000
        &&& -0x1000_0000 <= p.shots@[i].vx <= 0x1000_0000
        &&& -0x1000_0000 <= p.shots@[i].vy <= 0x1000_0000
    }
}

/// The life/bomb fields the player holds; the shot list is kept apart.
pub struct Vitals {
    pub x: i32,
    pub y: i32,
    pub lives: i32,
    pub bombs: i32,
    pub power: u8,
    pub invuln: u32,
    pub gameover: bool,
    pub bombing: u32,
    pub dying: u32,
    pub just_died: bool,
}

pub open spec fn vitals(p: Player) -> Vitals {
    Vitals {
        x: p.x,
        y: p.y,
        lives: p.lives,
        bombs: p.bombs,
        power: p.power,
        invuln: p.invuln,
        gameover: p.gameover,
        bombing: p.bombing,
        dying: p.dying,
        just_died: p.just_died,
    }
}

/// Committing a death: a life and a power tier lost, then respawn (or game over).
pub open spec fn death(v: Vitals) -> Vitals {
    let lives = v.lives - 1;
    let power = if v.power >= 16 { (v.power - 16) as u8 } else { 0u8 };
    if lives < 0 {
        Vitals { lives: lives as i32, power, just_died: true, dying: 0, gameover: true, ..v }
    } else {
        Vitals { lives: lives as i32, power, just_died: true, dying: 0, x: 3072, y: 5120, invuln: 120, ..v }
    }
}

/// The life/bomb part of a frame: invulnerability ticks down, then either the
/// deathbomb window is resolved, an active bomb ticks down, or a new bomb
/// starts.
pub open spec fn vitals_step(v: Vitals, bomb: bool) -> Vitals {
    let v1 = Vitals { just_died: false, invuln: if v.invuln > 0 { (v.invuln - 1) as u32 } else { 0 }, ..v };
    if v1.gameover {
        v1
    } else if v1.dying > 0 {
        if bomb && v1.bombs > 0 {
            Vitals { bombs: (v1.bombs - 1) as i32, bombing: 180, dying: 0, ..v1 }
        } else if v1.dying == 1 {
            death(Vitals { dying: 0, ..v1 })
        } else {
            Vitals { dying: (v1.dying - 1) as u32, ..v1 }
        }
    } else if v1.bombing > 0 {
        Vitals { bombing: (v1.bombing - 1) as u32, ..v1 }
    } else if bomb && v1.bombs > 0 {
        Vitals { bombs: (v1.bombs - 1) as i32, bombing: 180, ..v1 }
    } else {
        v1
    }
}

/// Horizontal and vertical input direction.
pub open spec fn input_dx(input: Input) -> int {
    (if input.right { 1int } else { 0 }) - (if input.left { 1int } else { 0 })
}

pub open spec fn input_dy(input: Input) -> int {
    (if input.down { 1int } else { 0 }) - (if input.up { 1int } else { 0 })
}

/// Velocity for the held directions: 3px per axis diagonally, 4px aligned.
pub open spec fn move_speed(input: Input) -> int {
    if input_dx(input) != 0 && input_dy(input) != 0 { 48 } else { 64 }
}

/// Where `update` leaves the player: the clamped move, or where it stands
/// once the game is over.
pub open spec fn moved_pos(o: Player, input: Input) -> (int, int) {
    let v = vitals_step(vitals(o), input.bomb);
    if v.gameover {
        (v.x as int, v.y as int)
    } else {
        (clamp(v.x + input_dx(input) * move_speed(input), 128, 6016),
            clamp(v.y + input_dy(input) * move_speed(input), 128, 5632))
    }
}

/// The life, bomb and position state `update` leaves: the life/bomb step,
/// then the move.
pub open spec fn moved_vitals(o: Player, input: Input) -> Vitals {
    let p = moved_pos(o, input);
    Vitals { x: p.0 as i32, y: p.1 as i32, ..vitals_step(vitals(o), input.bomb) }
}

/// The controls `update` leaves: focus, facing and shot timer, as the
/// input and the volley set them, or as they were once the game is over.
pub open spec fn moved_controls(o: Player, input: Input) -> (bool, int, int) {
    let v = vitals_step(vitals(o), input.bomb);
    if v.gameover {
        (o.focused, o.facing as int, o.shot_timer as int)
    } else {
        let timer1: int = if input.shoot && o.shot_timer == 0 { 4 } else { o.shot_timer as int };
        (input.focus, input_dx(input), if timer1 > 0 { timer1 - 1 } else { 0 })
    }
}

/// The shots `update` leaves: a volley fired from the new position when the
/// shot button is held and the timer allows, then every shot moved; kept as
/// they were once the game is over.
pub open spec fn moved_shots(o: Player, input: Input) -> Seq<PlayerShot> {
    let v = vitals_step(vitals(o), input.bomb);
    if v.gameover {
        o.shots@
    } else {
        let p = moved_pos(o, input);
        let n = 2 + spec_shot_level(v.power);
        let fires = input.shoot && o.shot_timer == 0;
        let shots1 = if fires { volley(o.shots@, o.shot_type < 2, p.0, p.1, n, n as nat) } else { o.shots@ };
        shots1.map_values(|s: PlayerShot| shot_moved(s))
    }
}

/// The deathbomb window: a bomb pressed while a death is pending (and a bomb
/// is left) cancels the death, keeping every life, and starts the bomb.
pub proof fn lemma_deathbomb_saves(v: Vitals)
    requires
        v.dying > 0,
        v.bombs > 0,
        !v.gameover,
    ensures
        vitals_step(v, true).lives == v.lives,
        vitals_step(v, true).bombs == v.bombs - 1,
        vitals_step(v, true).dying == 0,
        vitals_step(v, true).bombing == BOMB_FRAMES,
        !vitals_step(v, true).just_died,
{
}

/// A death left pending through its last window frame is committed: a life
/// and a power tier are lost.
pub proof fn lemma_missed_deathbomb_dies(v: Vitals, bomb: bool)
    requires
        v.dying == 1,
        !v.gameover,
        !(bomb && v.bombs > 0),
        v.lives > i32::MIN,
    ensures
        vitals_step(v, bomb).lives == v.lives - 1,
        vitals_step(v, bomb).just_died,
        vitals_step(v, bomb).dying == 0,
        vitals_step(v, bomb).power == if v.power >= POWER_LOSS_ON_DEATH { v.power - POWER_LOSS_ON_DEATH } else { 0 },
{
}

impl Player {
    /// Start at the bottom centre of the playfield with the chosen shot type.
    pub fn new(shot_type: u8) -> (r: Self)
        ensures
            r.x == 3072 && r.y == 5120,
            r.lives == 2 && r.bombs == 3 && r.power == 0,
            r.shot_type == shot_type,
            !r.focused && r.facing == 0,
            r.invuln == 120,
            !r.gameover && r.bombing == 0 && r.dying == 0 && !r.just_died,
            r.shot_timer == 0,
            r.shots@.len() == 0,
            player_ok(r),
    {
        Player {
            x: (PLAYFIELD_W / 2) * SUBPIXEL,
            y: (PLAYFIELD_H - 48) * SUBPIXEL,
            lives: 2,
            bombs: 3,
            power: 0,
            shot_type,
            focused: false,
            facing: 0,
            invuln: RESPAWN_INVULN,
            gameover: false,
            bombing: 0,
            dying: 0,
            just_died: false,
            shot_timer: 0,
            shots: Vec::new(),
        }
    }

    /// True while a bomb is active.
    pub fn bombing(&self) -> (r: bool)
        ensures
            r == (self.bombing > 0),
    {
        self.bombing > 0
    }

    fn start_pos() -> (r: (i32, i32))
        ensures
            r == (3072i32, 5120i32),
    {
        ((PLAYFIELD_W / 2) * SUBPIXEL, (PLAYFIELD_H - 48) * SUBPIXEL)
    }

    /// True while the player can't be hit (post-respawn, bombing, or already in
    /// the deathbomb window).
    pub fn invincible(&self) -> (r: bool)
        ensures
            r == (self.invuln > 0 || self.bombing > 0 || self.dying > 0),
    {
        self.invuln > 0 || self.bombing > 0 || self.dying > 0
    }

    /// A bullet or body reached the player: open the deathbomb window (the
    /// death is only committed when it expires, unless the player bombs first).
    pub fn begin_dying(&mut self)
        ensures
            ({
                let o = *old(self);
                let opens = !(o.invuln > 0 || o.bombing > 0 || o.dying > 0) && !o.gameover;
                &&& final(self).dying == if opens { 8 } else { o.dying }
                &&& vitals(*final(self)) == (Vitals { dying: final(self).dying, ..vitals(o) })
                &&& final(self).shots@ == o.shots@
                &&& final(self).shot_timer == o.shot_timer
                &&& final(self).shot_type == o.shot_type
                &&& final(self).focused == o.focused && final(self).facing == o.facing
            }),
    {
        if !self.invincible() && !self.gameover {
            self.dying = DEATHBOMB_FRAMES;
        }
    }

    /// Commit a death: lose a life and a power tier, respawn (or game over).
    fn do_death(&mut self)
        requires
            old(self).lives > i32::MIN,
        ensures
            vitals(*final(self)) == death(vitals(*old(self))),
            final(self).shots@ == old(self).shots@,
            final(self).shot_timer == old(self).shot_timer,
            final(self).shot_type == old(self).shot_type,
            final(self).focused == old(self).focused,
            final(self).facing == old(self).facing,
    {
        self.lives = self.lives - 1;
        self.power = self.power.saturating_sub(POWER_LOSS_ON_DEATH);
        self.just_died = true;
        self.dying = 0;
        if self.lives < 0 {
            self.gameover = true;
        } else {
            let (x, y) = Self::start_pos();
            self.x = x;
            self.y = y;
            self.invuln = RESPAWN_INVULN;
        }
    }

    /// Kill the player immediately (skipping the deathbomb window). Returns
    /// true if the death was applied.
    pub fn hit(&mut self) -> (r: bool)
        requires
            old(self).lives > i32::MIN,
        ensures
            r == !(old(self).invuln > 0 || old(self).bombing > 0 || old(self).gameover),
            r ==> vitals(*final(self)) == death(vitals(*old(self))),
            !r ==> vitals(*final(self)) == vitals(*old(self)),
            final(self).shots@ == old(self).shots@,
            final(self).shot_timer == old(self).shot_timer,
            final(self).shot_type == old(self).shot_type,
            final(self).focused == old(self).focused,
            final(self).facing == old(self).facing,
    {
        if self.invuln > 0 || self.bombing > 0 || self.gameover {
            return false;
        }
        self.do_death();
        true
    }

    /// Number of active shots.
    pub open spec fn spec_active_shots(ss: Seq<PlayerShot>) -> nat
        decreases ss.len(),
    {
        if ss.len() == 0 {
            0
        } else {
            Self::spec_active_shots(ss.drop_last()) + if ss.last().active { 1nat } else { 0nat }
        }
    }

    /// Whether `update` can run this player's next frame (`player_ok`).
    pub fn frame_ready(&self) -> (r: bool)
        ensures
            r == player_ok(*self),
    {
        if self.x < -0x1000_0000 || self.x > 0x1000_0000 || self.y < -0x1000_0000 || self.y > 0x1000_0000
            || self.lives == i32::MIN {
            return false;
        }
        let n = self.shots.len();
        let mut i: usize = 0;
        while i < n
            invariant
                n == self.shots@.len(),
                i <= n,
                -0x1000_0000 <= self.x <= 0x1000_0000,
                -0x1000_0000 <= self.y <= 0x1000_0000,
                self.lives > i32::MIN,
                forall|j: int| 0 <= j < i && (#[trigger] self.shots@[j]).active ==> {
                    &&& -0x2000_0000 <= self.shots@[j].x <= 0x2000_0000
                    &&& -0x2000_0000 <= self.shots@[j].y <= 0x2000_0000
                    &&& -0x1000_0000 <= self.shots@[j].vx <= 0x1000_0000
                    &&& -0x1000_0000 <= self.shots@[j].vy <= 0x1000_0000
                },
            decreases n - i,
        {
            let s = self.shots[i];
            if s.active && !(-0x2000_0000 <= s.x && s.x <= 0x2000_0000 && -0x2000_0000 <= s.y && s.y <= 0x2000_0000
                && -0x1000_0000 <= s.vx && s.vx <= 0x1000_0000 && -0x1000_0000 <= s.vy && s.vy <= 0x1000_0000) {
                assert(!player_ok(*self)) by {
                    assert(self.shots@[i as int] == s);
                }
                return false;
            }
            i = i + 1;
        }
        true
    }

    pub fn active_shots(&self) -> (r: usize)
        ensures
            r == Self::spec_active_shots(self.shots@),
    {
        let mut n: usize = 0;
        let mut i: usize = 0;
        while i < self.shots.len()
            invariant
                i <= self.shots@.len(),
                n == Self::spec_active_shots(self.shots@.take(i as int)),
                n <= i,
            decreases self.shots@.len() - i,
        {
            assert(self.shots@.take((i + 1) as int).drop_last() =~= self.shots@.take(i as int));
            if self.shots[i].active {
                n = n + 1;
            }
            i = i + 1;
        }
        assert(self.shots@.take(i as int) =~= self.shots@);
        n
    }

    /// Raise power by `amt` (collecting a power item), clamped to `POWER_MAX`.
    pub fn add_power(&mut self, amt: u8)
        ensures
            final(self).power == if old(self).power + amt > 128 { 128 } else { old(self).power + amt },
            vitals(*final(self)) == (Vitals { power: final(self).power, ..vitals(*old(self)) }),
            final(self).shots@ == old(self).shots@,
            final(self).shot_timer == old(self).shot_timer,
            final(self).shot_type == old(self).shot_type,
            final(self).focused == old(self).focused && final(self).facing == old(self).facing,
    {
        let p = self.power.saturating_add(amt);
        self.power = if p > POWER_MAX { POWER_MAX } else { p };
    }

    /// Current shot level (0..=9) from power, via the ReC98 thresholds.
    pub fn shot_level(&self) -> (r: i32)
        ensures
            r == spec_shot_level(self.power),
            0 <= r <= 9,
    {
        let t: [u8; 9] = [6, 12, 16, 24, 32, 48, 72, 96, 128];
        let mut n: i32 = 0;
        let mut i: usize = 0;
        while i < 9
            invariant
                i <= 9,
                0 <= n <= i,
                t@ == seq![6u8, 12u8, 16u8, 24u8, 32u8, 48u8, 72u8, 96u8, 128u8],
                n == (if i > 0 && self.power >= 6 { 1int } else { 0 }) + (if i > 1 && self.power >= 12 { 1int } else { 0 })
                    + (if i > 2 && self.power >= 16 { 1int } else { 0 }) + (if i > 3 && self.power >= 24 { 1int } else { 0 })
                    + (if i > 4 && self.power >= 32 { 1int } else { 0 }) + (if i > 5 && self.power >= 48 { 1int } else { 0 })
                    + (if i > 6 && self.power >= 72 { 1int } else { 0 }) + (if i > 7 && self.power >= 96 { 1int } else { 0 })
                    + (if i > 8 && self.power >= 128 { 1int } else { 0 }),
            decreases 9 - i,
        {
            if self.power >= t[i] {
                n = n + 1;
            }
            i = i + 1;
        }
        n
    }

    fn add_shot(&mut self, x: i32, y: i32, vx: i32, vy: i32, damage: i32)
        ensures
            final(self).shots@ == shots_add(old(self).shots@, PlayerShot { x, y, vx, vy, damage, active: true }),
            vitals(*final(self)) == vitals(*old(self)),
            final(self).shot_timer == old(self).shot_timer,
            final(self).shot_type == old(self).shot_type,
            final(self).focused == old(self).focused,
            final(self).facing == old(self).facing,
    {
        let s = PlayerShot { x, y, vx, vy, damage, active: true };
        let mut i: usize = 0;
        while i < self.shots.len()
            invariant
                s == (PlayerShot { x, y, vx, vy, damage, active: true }),
                i <= self.shots@.len(),
                self.shots@ == old(self).shots@,
                vitals(*self) == vitals(*old(self)),
                self.shot_timer == old(self).shot_timer,
                self.shot_type == old(self).shot_type,
                self.focused == old(self).focused,
                self.facing == old(self).facing,
                first_free_shot(old(self).shots@, 0) == first_free_shot(old(self).shots@, i as int),
            decreases self.shots@.len() - i,
        {
            if !self.shots[i].active {
                assert(first_free_shot(old(self).shots@, i as int) == Some(i as int));
                self.shots.set(i, s);
                return;
            }
            i = i + 1;
        }
        self.shots.push(s);
    }

    /// Per-character forward shot widening with power: Reimu (types 0/1)
    /// fires a spreading fan, Marisa (2/3) tightly packed parallel columns.
    /// Damage 10.
    fn fire(&mut self)
        requires
            -0x1000_0000 <= old(self).x <= 0x1000_0000,
        ensures
            final(self).shots@ == volley(old(self).shots@, old(self).shot_type < 2, old(self).x as int,
                old(self).y as int, 2 + spec_shot_level(old(self).power), (2 + spec_shot_level(old(self).power)) as nat),
            vitals(*final(self)) == vitals(*old(self)),
            final(self).shot_timer == old(self).shot_timer,
            final(self).shot_type == old(self).shot_type,
            final(self).focused == old(self).focused,
            final(self).facing == old(self).facing,
    {
        let level = self.shot_level();
        let n = 2 + level;
        let reimu = self.shot_type < 2;
        let mut i: i32 = 0;
        while i < n
            invariant
                0 <= i <= n,
                n == 2 + spec_shot_level(old(self).power),
                2 <= n <= 11,
                reimu == (old(self).shot_type < 2),
                self.shots@ == volley(old(self).shots@, reimu, old(self).x as int, old(self).y as int, n as int, i as nat),
                vitals(*self) == vitals(*old(self)),
                self.shot_timer == old(self).shot_timer,
                self.shot_type == old(self).shot_type,
                self.focused == old(self).focused,
                self.facing == old(self).facing,
                -0x1000_0000 <= self.x <= 0x1000_0000,
            decreases n - i,
        {
            let off = 2 * i - (n - 1);
            if reimu {
                let angle = ANGLE_UP.wrapping_add(to_angle_small(off * 3));
                proof {
                    lemma_vector2_fits(angle, 192);
                }
                let (vx, vy) = vector2(angle, SHOT_SPEED);
                self.add_shot(self.x, self.y, vx, vy, SHOT_DAMAGE);
            } else {
                let col = off * 5 * SUBPIXEL / 2;
                assert(col == off * 40);
                self.add_shot(self.x + col, self.y, 0, -SHOT_SPEED, SHOT_DAMAGE);
            }
            i = i + 1;
        }
    }

    /// Advance one frame: the bomb and deathbomb logic, movement with clamping,
    /// firing on cadence, and shot flight.
    pub fn update(&mut self, input: &Input)
        requires
            player_ok(*old(self)),
        ensures
            ({
                let o = *old(self);
                let v = vitals_step(vitals(o), input.bomb);
                let over = v.gameover;
                let nx = clamp(v.x + input_dx(*input) * move_speed(*input), 128, 6016);
                let ny = clamp(v.y + input_dy(*input) * move_speed(*input), 128, 5632);
                let fires = !over && input.shoot && o.shot_timer == 0;
                let n = 2 + spec_shot_level(v.power);
                        let shots1 = if fires { volley(o.shots@, o.shot_type < 2, nx, ny, n, n as nat) } else { o.shots@ };
                let timer1 = if fires { 4u8 } else { o.shot_timer };
                &&& over ==> vitals(*final(self)) == v && final(self).shots@ == o.shots@
                    && final(self).shot_timer == o.shot_timer && final(self).focused == o.focused
                    && final(self).facing == o.facing
                &&& !over ==> {
                    &&& vitals(*final(self)) == (Vitals { x: nx as i32, y: ny as i32, ..v })
                    &&& final(self).focused == input.focus
                    &&& final(self).facing == input_dx(*input)
                    &&& final(self).shot_timer == if timer1 > 0 { (timer1 - 1) as u8 } else { 0 }
                    &&& final(self).shots@ == shots1.map_values(|s: PlayerShot| shot_moved(s))
                }
                &&& final(self).shot_type == o.shot_type
                &&& !over ==> (final(self).x as int, final(self).y as int) == moved_pos(o, *input)
            }),
    {
        self.step_vitals(input.bomb);
        if self.gameover {
            return;
        }
        self.focused = input.focus;
        self.step_move(input);
        let ghost pre_fire = self.shots@;
        if input.shoot && self.shot_timer == 0 {
            self.fire();
            self.shot_timer = SHOT_INTERVAL;
        }
        if self.shot_timer > 0 {
            self.shot_timer = self.shot_timer - 1;
        }
        proof {
            lemma_volley_ok(pre_fire, self.shot_type < 2, self.x as int, self.y as int,
                2 + spec_shot_level(self.power), (2 + spec_shot_level(self.power)) as nat);
        }
        self.step_shots();
    }

    /// The life/bomb part of a frame.
    fn step_vitals(&mut self, bomb: bool)
        requires
            old(self).lives > i32::MIN,
        ensures
            vitals(*final(self)) == vitals_step(vitals(*old(self)), bomb),
            final(self).shots@ == old(self).shots@,
            final(self).shot_timer == old(self).shot_timer,
            final(self).shot_type == old(self).shot_type,
            final(self).focused == old(self).focused,
            final(self).facing == old(self).facing,
    {
        self.just_died = false;
        if self.invuln > 0 {
            self.invuln = self.invuln - 1;
        }
        if self.gameover {
            return;
        }
        if self.dying > 0 {
            if bomb && self.bombs > 0 {
                self.bombs = self.bombs - 1;
                self.bombing = BOMB_FRAMES;
                self.dying = 0;
            } else {
                self.dying = self.dying - 1;
                if self.dying == 0 {
                    self.do_death();
                }
            }
        } else if self.bombing > 0 {
            self.bombing = self.bombing - 1;
        } else if bomb && self.bombs > 0 {
            self.bombs = self.bombs - 1;
            self.bombing = BOMB_FRAMES;
        }
    }

    /// Move by the held directions and clamp to the playfield margins.
    fn step_move(&mut self, input: &Input)
        requires
            -0x1000_0000 <= old(self).x <= 0x1000_0000,
            -0x1000_0000 <= old(self).y <= 0x1000_0000,
        ensures
            final(self).x == clamp(old(self).x + input_dx(*input) * move_speed(*input), 128, 6016),
            final(self).y == clamp(old(self).y + input_dy(*input) * move_speed(*input), 128, 5632),
            final(self).facing == input_dx(*input),
            vitals(*final(self)) == (Vitals { x: final(self).x, y: final(self).y, ..vitals(*old(self)) }),
            final(self).shots@ == old(self).shots@,
            final(self).shot_timer == old(self).shot_timer,
            final(self).shot_type == old(self).shot_type,
            final(self).focused == old(self).focused,
    {
        let dx: i32 = (if input.right { 1 } else { 0 }) - (if input.left { 1 } else { 0 });
        let dy: i32 = (if input.down { 1 } else { 0 }) - (if input.up { 1 } else { 0 });
        self.facing = dx as i8;
        let sp = if dx != 0 && dy != 0 { SPEED_DIAGONAL } else { SPEED_ALIGNED };
        let vx = if dx > 0 { sp } else if dx < 0 { -sp } else { 0 };
        let vy = if dy > 0 { sp } else if dy < 0 { -sp } else { 0 };
        assert(vx == input_dx(*input) * move_speed(*input));
        assert(vy == input_dy(*input) * move_speed(*input));
        let nx = self.x + vx;
        self.x = if nx < MARGIN_L * SUBPIXEL {
            MARGIN_L * SUBPIXEL
        } else if nx > (PLAYFIELD_W - MARGIN_R) * SUBPIXEL {
            (PLAYFIELD_W - MARGIN_R) * SUBPIXEL
        } else {
            nx
        };
        let ny = self.y + vy;
        self.y = if ny < MARGIN_T * SUBPIXEL {
            MARGIN_T * SUBPIXEL
        } else if ny > (PLAYFIELD_H - MARGIN_B) * SUBPIXEL {
            (PLAYFIELD_H - MARGIN_B) * SUBPIXEL
        } else {
            ny
        };
    }

    /// Shot flight: active shots move, and leave once above the playfield.
    fn step_shots(&mut self)
        requires
            shots_ok(old(self).shots@),
        ensures
            final(self).shots@ == old(self).shots@.map_values(|s: PlayerShot| shot_moved(s)),
            vitals(*final(self)) == vitals(*old(self)),
            final(self).shot_timer == old(self).shot_timer,
            final(self).shot_type == old(self).shot_type,
            final(self).focused == old(self).focused,
            final(self).facing == old(self).facing,
    {
        let ghost shots1 = self.shots@;
        let ghost snap = *self;
        let n = self.shots.len();
        let mut i: usize = 0;
        while i < n
            invariant
                vitals(*self) == vitals(snap),
                self.focused == snap.focused,
                self.facing == snap.facing,
                self.shot_timer == snap.shot_timer,
                self.shot_type == snap.shot_type,
                i <= n,
                n == shots1.len(),
                self.shots@.len() == n,
                shots_ok(shots1),
                forall|j: int| i <= j < n ==> #[trigger] self.shots@[j] == shots1[j],
                forall|j: int| 0 <= j < i ==> #[trigger] self.shots@[j] == shot_moved(shots1[j]),
            decreases n - i,
        {
            let mut s = self.shots[i];
            if s.active {
                assert(shot_ok(shots1[i as int]));
                s.x = s.x + s.vx;
                s.y = s.y + s.vy;
                if s.y < -16 * SUBPIXEL {
                    s.active = false;
                }
            }
            self.shots.set(i, s);
            i = i + 1;
        }
        assert(self.shots@ =~= shots1.map_values(|s: PlayerShot| shot_moved(s)));
    }
}

/// A shot whose next flight step stays within machine integers.
pub open spec fn shot_ok(s: PlayerShot) -> bool {
    s.active ==> {
        &&& -0x2000_0000 <= s.x <= 0x2000_0000
        &&& -0x2000_0000 <= s.y <= 0x2000_0000
        &&& -0x1000_0000 <= s.vx <= 0x1000_0000
        &&& -0x1000_0000 <= s.vy <= 0x1000_0000
    }
}

pub open spec fn shots_ok(ss: Seq<PlayerShot>) -> bool {
    forall|i: int| 0 <= i < ss.len() ==> shot_ok(#[trigger] ss[i])
}

/// A volley fired from within the playfield keeps every shot in bounds.
pub proof fn lemma_volley_ok(ss: Seq<PlayerShot>, reimu: bool, x: int, y: int, n: int, k: nat)
    requires
        shots_ok(ss),
        -0x1000_0000 <= x <= 0x1000_0000,
        -0x1000_0000 <= y <= 0x1000_0000,
        2 <= n <= 11,
        k <= n,
    ensures
        shots_ok(volley(ss, reimu, x, y, n, k)),
    decreases k,
{
    if k > 0 {
        lemma_volley_ok(ss, reimu, x, y, n, (k - 1) as nat);
        let prev = volley(ss, reimu, x, y, n, (k - 1) as nat);
        let i = k - 1;
        let off = 2 * i - (n - 1);
        lemma_vector2_fits(((192 + off * 3) % 256) as u8, 192);
        let s = volley_shot(reimu, x, y, n, i);
        assert(shot_ok(s));
        lemma_first_free_shot(prev, 0);
    }
}

pub proof fn lemma_first_free_shot(ss: Seq<PlayerShot>, from: int)
    requires
        from >= 0,
    ensures
        first_free_shot(ss, from) matches Some(i) ==> from <= i < ss.len(),
    decreases ss.len() - from,
{
    if from < ss.len() && ss[from].active {
        lemma_first_free_shot(ss, from + 1);
    }
}

/// A small signed angle offset as an angle byte.
fn to_angle_small(v: i32) -> (r: u8)
    requires
        -256 < v < 256,
    ensures
        r == ((v + 256) % 256) as u8,
{
    if v < 0 { (v + 256) as u8 } else { v as u8 }
}

/// Holding up moves the player toward the top of the screen (smaller `y`),
/// down toward the bottom, left toward the left edge (smaller `x`) and right
/// toward the right edge, by 4px (3px per axis diagonally), kept within the
/// playfield margins (8px to 376px across, 8px to 352px down); an axis whose
/// two directions are both held, or neither, stays where it was.
pub proof fn law_player_moves(o: Player, input: Input)
    requires
        !vitals_step(vitals(o), input.bomb).gameover,
    ensures
        ({
            let v = vitals_step(vitals(o), input.bomb);
            let sp: int = if input.up != input.down && input.left != input.right { 48 } else { 64 };
            let p = moved_pos(o, input);
            let ny = if input.up && !input.down { v.y - sp } else if input.down && !input.up { v.y + sp } else { v.y as int };
            let nx = if input.left && !input.right { v.x - sp } else if input.right && !input.left { v.x + sp } else { v.x as int };
            &&& p.1 == (if ny < 128 { 128 } else if ny > 5632 { 5632 } else { ny })
            &&& p.0 == (if nx < 128 { 128 } else if nx > 6016 { 6016 } else { nx })
        }),
{
}

} // verus!

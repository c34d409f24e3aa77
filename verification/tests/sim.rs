use th04::bullet::{group, Bsm, Bullet, BulletTemplate, MoveFlag};
use th04::boss::{Boss, BossKind};
use th04::player::Input;
use th04::sim::{Item, Phase, StageSim};
use th04::stage::Std;

fn tiny_stage() -> Std {
    // 1 enemy script: stats(hp=1) then end; timeline: frame 0 spawns it.
    let enemy_script = vec![0x10u8, 0, 1, 0, 5, 0, 0x00]; // stats patnum0 hp1 score5; end
    let mut std = Std {
        map_section_order: vec![],
        scroll_speeds: vec![],
        enemy_scripts: vec![enemy_script],
        timeline: vec![],
    };
    // timeline: frame 1, count 1, spawn script#0 at (100,50) item 0
    let mut tl = Vec::new();
    tl.extend_from_slice(&1u16.to_le_bytes());
    tl.push(1);
    tl.extend_from_slice(&[0, 100, 0, 50, 0, 0, 0, 0]); // script0, x=100, y=50
    tl.extend_from_slice(&0u16.to_le_bytes());
    std.timeline = tl;
    std
}

#[test]
fn spawns_and_kills_enemy() {
    let mut sim = StageSim::new(tiny_stage(), 0, Some(BossKind::Orange));
    // place a player shot right on the enemy spawn and run a few frames
    let mut input = Input::default();
    input.shoot = true;
    for _ in 0..3 {
        sim.step(&input);
    }
    assert!(sim.enemies_spawned >= 1, "enemy should have spawned");
}

#[test]
fn boss_phase_spawns_the_selected_boss() {
    // Empty timeline → once the midboss interlude is done and the field is
    // clear, the boss phase spawns whatever kind the stage selected.
    let std = Std {
        map_section_order: vec![],
        scroll_speeds: vec![],
        enemy_scripts: vec![],
        timeline: vec![0, 0, 0], // frame 0 → end-of-timeline immediately
    };
    let mut sim = StageSim::new(std, 0, Some(BossKind::Elly));
    // Skip the midboss interlude (its activation frame is a placeholder).
    sim.midboss_done = true;
    sim.player.lives = 9; // survive long enough to reach the boss
    for _ in 0..16000 {
        let mut input = Input::default();
        input.shoot = true;
        sim.step(&input);
        if sim.phase == Phase::Boss {
            break;
        }
    }
    assert_eq!(sim.phase, Phase::Boss, "should reach the boss phase");
    assert!(sim.boss.is_some(), "the selected boss should spawn");
}

#[test]
fn extra_stage_has_no_roster_boss() {
    let std = Std {
        map_section_order: vec![],
        scroll_speeds: vec![],
        enemy_scripts: vec![],
        timeline: vec![0, 0, 0],
    };
    let mut sim = StageSim::new(std, 0, None);
    sim.midboss_done = true;
    for _ in 0..200 {
        sim.step(&Input::default());
        if sim.phase == Phase::Cleared {
            break;
        }
    }
    // No boss to fight → the stage clears straight through.
    assert!(sim.boss.is_none());
    assert_eq!(sim.phase, Phase::Cleared);
}

fn empty_stage() -> Std {
    Std { map_section_order: vec![], scroll_speeds: vec![], enemy_scripts: vec![], timeline: vec![0, 0, 0] }
}

#[test]
fn new_stage_is_ready_and_counts_its_spawns() {
    let mut sim = StageSim::new(tiny_stage(), 1, Some(BossKind::Kurumi));
    assert!(sim.ready());
    assert_eq!(sim.events.len(), 1);
    assert_eq!(sim.phase, Phase::Trash);
    sim.step(&Input::default()); // frame 0: nothing due yet
    assert_eq!(sim.ev_i, 0);
    assert_eq!(sim.enemies_spawned, 0);
    assert!(sim.ready());
    sim.step(&Input::default()); // frame 1: the one spawn record runs
    assert_eq!(sim.ev_i, 1);
    assert_eq!(sim.enemies_spawned, 1);
    assert_eq!(sim.frame, 2);
    // The spawned enemy's script ends it on its first frame.
    assert_eq!(sim.alive_enemies(), 0);
    assert!(sim.enemies.is_empty());
}

#[test]
fn midboss_pauses_the_timeline() {
    let mut sim = StageSim::new(tiny_stage(), 0, Some(BossKind::Orange));
    sim.frame = 2400;
    assert!(sim.ready());
    sim.step(&Input::default());
    assert!(sim.midboss.is_some(), "the midboss arrives on its frame");
    assert_eq!(sim.ev_i, 0, "no timeline record runs while it is on screen");
    assert_eq!(sim.enemies_spawned, 0);
}

#[test]
fn cleared_stays_cleared() {
    let mut sim = StageSim::new(empty_stage(), 0, None);
    sim.midboss_done = true;
    sim.step(&Input::default());
    assert_eq!(sim.phase, Phase::Cleared);
    assert!(sim.finished());
    for _ in 0..10 {
        assert!(sim.ready());
        sim.step(&Input::default());
        assert_eq!(sim.phase, Phase::Cleared);
    }
}

#[test]
fn a_script_that_never_ends_its_frame_is_not_ready() {
    // Two loops sharing the loop counter chase each other forever.
    let mut std = empty_stage();
    std.enemy_scripts = vec![vec![0x80, 0, 2, 0x80, 0, 1]];
    let sim = StageSim::new(std, 0, None);
    assert!(!sim.ready());
}

#[test]
fn a_frame_without_bosses_moves_every_bullet_by_its_velocity() {
    let std = Std { map_section_order: vec![], scroll_speeds: vec![], enemy_scripts: vec![], timeline: vec![0, 0, 0] };
    let mut sim = StageSim::new(std, 0, None);
    sim.midboss_done = true;
    sim.bullets.spawn(&BulletTemplate::shot(group::SINGLE, 1, 32, 64), 3072, 1000, (0, 0));
    let before: Vec<(i32, i32)> = sim.bullets.bullets.iter().filter(|b| b.active).map(|b| (b.x, b.y)).collect();
    assert_eq!(before.len(), 1);
    sim.step(&th04::player::Input::default());
    let after: Vec<(i32, i32, i32, i32)> =
        sim.bullets.bullets.iter().filter(|b| b.active).map(|b| (b.x, b.y, b.vx, b.vy)).collect();
    assert_eq!(after.len(), 1);
    let (x, y, vx, vy) = after[0];
    assert_eq!((x, y), (before[0].0 + vx, before[0].1 + vy));
    assert!(vy > 0);
    assert_eq!(sim.enemies.len(), 0);
}

fn empty_sim() -> StageSim {
    let std = Std { map_section_order: vec![], scroll_speeds: vec![], enemy_scripts: vec![], timeline: vec![0, 0, 0] };
    let mut sim = StageSim::new(std, 0, None);
    sim.midboss_done = true;
    sim
}

#[test]
fn a_bullet_on_a_vulnerable_player_is_one_hit() {
    let mut sim = empty_sim();
    sim.player.invuln = 0;
    sim.bullets.bullets.push(Bullet {
        x: 3072, y: 5120, vx: 0, vy: 0, angle: 0, patnum: 0, active: true, speed_cur: 0, speed_final: 0,
        move_flag: MoveFlag::Regular, special: Bsm::Straight, turns_done: 0, turns_max: 0, turn_arg: 0, speed_delta: 0,
        decel_time: 0, decel_delta: 0,
    });
    let hits = sim.player_hits;
    sim.step(&Input::default());
    assert_eq!(sim.player_hits, hits + 1);
    assert!(sim.bullets.bullets.iter().all(|b| !b.active));
}

#[test]
fn an_item_within_reach_scores_100() {
    let mut sim = empty_sim();
    sim.items.push(Item { x: 3072, y: 5100, vy: 0, kind: 0, active: true });
    let score = sim.score;
    sim.step(&Input::default());
    assert_eq!(sim.score, score + 100);
    assert_eq!(sim.items.len(), 0);
}

#[test]
fn the_midboss_enters_at_its_frame_and_descends() {
    let mut sim = empty_sim();
    sim.midboss_done = false;
    sim.frame = 2400;
    sim.step(&Input::default());
    let m = sim.midboss.expect("the midboss enters at frame 2400");
    assert_eq!(m.x, 3072);
    assert_eq!(m.y, -480);
    assert_eq!(m.phase, 0);
    assert_eq!(m.phase_frame, 1);
    assert!(!m.defeated);
}

#[test]
fn a_boss_phase_frame_runs_the_boss_and_its_queued_damage() {
    let mut sim = empty_sim();
    sim.phase = Phase::Boss;
    let mut b = Boss::orange();
    b.damage_pending = 50;
    sim.boss = Some(b);
    sim.step(&Input::default());
    let b = sim.boss.expect("the boss stays on the field");
    assert_eq!(b.phase_frame, 1);
    assert_eq!(b.hp, 3000);
    assert_eq!(b.damage_pending, 0);
}

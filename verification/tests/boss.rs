use th04::boss::{Boss, BossEnv, Midboss, MIDBOSS1_HP};
use th04::bullet::BulletPool;
use th04::effects::EffectPool;
use th04::simple_boss;

fn env(player: (i32, i32), frame: u16) -> BossEnv {
    BossEnv { pool: BulletPool::new(), fx: EffectPool::new(), player, frame }
}

#[test]
fn boss_midboss_entrance_then_defeat() {
    let mut m = simple_boss::Midboss::new(192 * 16);
    let mut pool = BulletPool::new();
    // Entrance: invulnerable.
    m.damage(100);
    assert_eq!(m.hp, simple_boss::MIDBOSS1_HP);
    for _ in 0..200 {
        m.update(&mut pool);
    }
    assert_eq!(m.phase, 1, "should reach the attack phase");
    assert!(pool.active_count() > 0, "should fire its sweep");
    m.hp = 1;
    m.damage(10);
    assert!(m.defeated);
}

#[test]
fn phases_then_defeat() {
    let mut b = simple_boss::Boss::new(40, 4); // 4 phases, 10 HP each
    let mut pool = BulletPool::new();
    for _ in 0..60 {
        b.damage(1);
        b.update((0, 0), &mut pool);
        if b.defeated {
            break;
        }
    }
    assert!(b.defeated, "boss should be defeated after enough damage");
    assert!(b.phase >= 3, "should have advanced through phases");
    for _ in 0..(simple_boss::BOSS_DEFEAT_FRAMES + 1) {
        b.update((0, 0), &mut pool);
    }
    assert!(b.done(), "defeat animation should finish");
}

#[test]
fn fires_bullets() {
    let mut b = simple_boss::Boss::new(1000, 4);
    let mut pool = BulletPool::new();
    for _ in 0..simple_boss::FIRE_INTERVAL {
        b.update((100, 100), &mut pool);
    }
    assert!(pool.active_count() > 0, "boss should fire a pattern");
}

#[test]
fn mod_midboss_entrance_then_defeat() {
    let mut m = Midboss::new(192 * 16);
    let mut pool = BulletPool::new();
    m.damage(100);
    assert_eq!(m.hp, MIDBOSS1_HP);
    for _ in 0..200 {
        m.update(&mut pool);
    }
    assert_eq!(m.phase, 1, "should reach the attack phase");
    assert!(pool.active_count() > 0, "should fire its sweep");
    m.hp = 1;
    m.damage(10);
    assert!(m.defeated);
}

#[test]
fn orange_runs_through_phases_and_dies() {
    let mut b = Boss::orange();
    let player = (192 * 16, 400 * 16);
    let mut e = env(player, 0);
    for _ in 0..352 {
        b.update(&mut e);
        e.frame = e.frame.wrapping_add(1);
    }
    assert!(b.phase >= 1, "should leave the intro charge");
    for _ in 0..6000 {
        if b.done() {
            break;
        }
        b.damage(40);
        b.update(&mut e);
        e.frame = e.frame.wrapping_add(1);
    }
    assert!(b.defeated, "boss should be defeated");
    assert!(b.done(), "defeat sequence should finish");
}

#[test]
fn orange_phase1_fires_three_rings() {
    let mut b = Boss::orange();
    let mut e = env((0, 0), 0);
    b.phase = 1;
    b.phase_frame = 31;
    b.update(&mut e);
    assert_eq!(e.pool.active_count(), 48);
    assert_eq!(b.phase, 2, "should enter the barrage phase");
}

fn run_until_dead(mut b: Boss, max: u32) -> Boss {
    let player = (192 * 16, 400 * 16);
    let mut e = env(player, 0);
    for _ in 0..max {
        if b.done() {
            break;
        }
        b.damage(40);
        b.update(&mut e);
        e.frame = e.frame.wrapping_add(1);
    }
    b
}

#[test]
fn elly_runs_through_tiers_and_dies() {
    let b = run_until_dead(Boss::elly(), 12000);
    assert!(b.defeated, "elly should be defeated");
    assert!(b.done(), "defeat sequence should finish");
}

#[test]
fn rivals_run_through_tiers_and_die() {
    for (name, b) in [("reimu", Boss::reimu()), ("marisa", Boss::marisa())] {
        let b = run_until_dead(b, 16000);
        assert!(b.defeated, "{name} should be defeated");
        assert!(b.done(), "{name} defeat sequence should finish");
    }
}

#[test]
fn yuuka_reaches_master_spark_and_dies() {
    let b = run_until_dead(Boss::yuuka(), 16000);
    assert!(b.defeated, "yuuka should be defeated");
    assert!(b.done(), "defeat sequence should finish");
}

#[test]
fn yuuka6_runs_through_all_phases_and_dies() {
    let b = run_until_dead(Boss::yuuka6(), 30000);
    assert!(b.defeated, "stage-6 yuuka should be defeated");
    assert!(b.done(), "defeat sequence should finish");
}

#[test]
fn kurumi_runs_through_phases_and_dies() {
    let mut b = Boss::kurumi();
    let player = (192 * 16, 400 * 16);
    let mut e = env(player, 0);
    // Survive the invincible intro, then pour in damage.
    for _ in 0..8000 {
        if b.done() {
            break;
        }
        b.damage(40);
        b.update(&mut e);
        e.frame = e.frame.wrapping_add(1);
    }
    assert!(b.defeated, "kurumi should be defeated");
    assert!(b.done(), "defeat sequence should finish");
}

#[test]
fn fresh_bosses_are_ready() {
    for b in [Boss::orange(), Boss::kurumi(), Boss::elly(), Boss::reimu(), Boss::marisa(), Boss::yuuka(), Boss::yuuka6()] {
        assert!(b.frame_ready());
        assert!(!b.defeated);
        assert_eq!(b.damage_pending, 0);
    }
    let mut b = Boss::elly();
    b.x = 0x0100_0001;
    assert!(!b.frame_ready());
}

#[test]
fn midboss_ready_and_damage_queue() {
    let m = Midboss::new(192 * 16);
    assert!(m.frame_ready());
    let mut b = Boss::orange();
    b.damage(3);
    b.damage(4);
    assert_eq!(b.damage_pending, 7);
}

#[test]
fn orange_wander_and_final_phases_end_at_their_thresholds() {
    let mut b = Boss::orange();
    b.phase = 3;
    b.phase_frame = 10;
    b.hp = 500;
    b.phase_end_hp = 450;
    b.damage(60);
    let mut e = env((0, 0), 0);
    b.update(&mut e);
    assert_eq!(b.phase, 4);
    assert_eq!(b.hp, 450);
    assert_eq!(b.phase_end_hp, 0);
    assert!(!b.defeated);
    b.damage(450);
    b.update(&mut e);
    assert_eq!(b.phase, 5);
    assert!(b.defeated);
    assert_eq!(b.defeat_frame, 0);
}

#[test]
fn elly_attack_moves_through_a_tier_then_falls_at_zero() {
    let mut b = Boss::elly();
    b.phase = 3;
    b.mode = 0;
    b.phase_frame = 1;
    b.hp = 4750;
    b.phase_end_hp = 0;
    b.sb = [0; 8];
    b.damage(100);
    let mut e = env((192 * 16, 400 * 16), 0);
    b.update(&mut e);
    assert_eq!(b.sb[0], 1);
    assert_eq!(b.mode, -1);
    assert_eq!(b.phase_frame, 0);
    assert_eq!(b.hp, 4650);
    assert!(!b.defeated);
    b.damage(4650);
    b.update(&mut e);
    assert_eq!(b.phase, 4);
    assert!(b.defeated);
}

#[test]
fn kurumi_decel_phase_ends_at_its_threshold() {
    let mut b = Boss::kurumi();
    b.phase = 3;
    b.mode = 0;
    b.phase_frame = 10;
    b.hp = 2100;
    b.phase_end_hp = 2050;
    b.damage(60);
    let mut e = env((192 * 16, 400 * 16), 1);
    b.update(&mut e);
    assert_eq!(b.phase, 4);
    assert_eq!(b.hp, 2050);
    assert_eq!(b.phase_end_hp, 550);
    assert!(!b.defeated);
}

#[test]
fn reimu_attack_phase_ends_at_its_threshold() {
    let mut b = Boss::reimu();
    b.phase = 2;
    b.mode = 0;
    b.phase_frame = 1;
    b.phase_state = 0;
    b.hp = 8000;
    b.phase_end_hp = 7900;
    b.damage(150);
    let mut e = env((192 * 16, 400 * 16), 1);
    b.update(&mut e);
    assert_eq!(b.phase, 3);
    assert_eq!(b.hp, 7900);
    assert_eq!(b.phase_end_hp, 6300);
    assert!(!b.defeated);
}

#[test]
fn marisa_leaves_the_fight_at_her_threshold() {
    let mut b = Boss::marisa();
    b.phase = 2;
    b.mode = 1;
    b.phase_frame = 1;
    b.hp = 100;
    b.phase_end_hp = 0;
    b.damage(600);
    let mut e = env((192 * 16, 400 * 16), 1);
    b.update(&mut e);
    assert_eq!(b.phase, 3);
    assert!(!b.defeated);
    assert_eq!(b.damage_pending, 0);
}

#[test]
fn marisa_and_reimu_fall_32_frames_after_leaving_the_fight() {
    let mut m = Boss::marisa();
    m.phase = 3;
    m.phase_frame = 31;
    let mut e = env((192 * 16, 400 * 16), 1);
    m.update(&mut e);
    assert!(m.defeated);
    assert_eq!(m.defeat_frame, 0);
    let mut r = Boss::reimu();
    r.phase = 12;
    r.phase_frame = 30;
    r.update(&mut e);
    assert!(!r.defeated);
    r.update(&mut e);
    assert!(r.defeated);
}

#[test]
fn orange_barrage_holds_until_its_threshold() {
    let mut b = Boss::orange();
    let mut e = env((0, 0), 0);
    for i in 0..385 {
        e.frame = i as u16;
        b.update(&mut e);
    }
    assert_eq!(b.phase, 2);
    assert!(!b.defeated);
    assert_eq!(b.hp, 3050);
    assert_eq!(b.phase_end_hp, 1950);
}

#[test]
fn damage_is_queued_and_a_defeated_boss_keeps_its_hp() {
    let mut b = Boss::orange();
    b.damage(500);
    assert_eq!(b.hp, 3050);
    assert_eq!(b.phase, 0);
    assert!(!b.defeated);
    assert_eq!(b.damage_pending, 500);

    let mut d = Boss::orange();
    d.defeated = true;
    d.hp = 0;
    d.damage(700);
    assert_eq!(d.damage_pending, 0);
    let mut e = env((0, 0), 0);
    for _ in 0..10 {
        d.update(&mut e);
    }
    assert_eq!(d.hp, 0);
    assert!(d.defeated);
    assert_eq!(d.defeat_frame, 10);
}

#[test]
fn kurumi_ray_attack_launches_one_ray_at_frame_64() {
    let mut b = Boss::kurumi();
    b.phase = 2;
    b.mode = 1;
    b.phase_frame = 64;
    b.hp = 3000;
    b.phase_end_hp = 0;
    let mut e = env((192 * 16, 360 * 16), 0);
    b.update(&mut e);
    assert_eq!(b.rays.iter().filter(|r| r.flag == 1).count(), 1);
    assert_eq!(b.rays.iter().filter(|r| r.flag != 0).count(), 1);
    assert_eq!(e.pool.active_count(), 0);
}

#[test]
fn reimu_stack_fan_fires_five_stacks_of_three() {
    let mut b = Boss::reimu();
    b.phase = 9;
    b.mode = 1;
    b.phase_frame = 48;
    b.hp = 500;
    b.phase_end_hp = 0;
    let mut e = env((192 * 16, 360 * 16), 0);
    b.update(&mut e);
    assert_eq!(e.pool.active_count(), 15);
    assert_eq!(b.mode, 1);
}

use th04::bullet::group;
use th04::bullet::{Bsm, BulletPool, BulletTemplate};

fn fast_ring(count: u8) -> BulletTemplate {
    // High speed avoids the decelerate ramp so spawn angles are testable.
    BulletTemplate { group: group::RING, count, speed: 64, ..Default::default() }
}

#[test]
fn ring_spawns_count_evenly() {
    let mut p = BulletPool::new();
    p.spawn(&fast_ring(8), 0, 0, (0, 0));
    assert_eq!(p.active_count(), 8);
    let angles: Vec<u8> = p.bullets.iter().map(|b| b.angle).collect();
    assert_eq!(angles, [0, 32, 64, 96, 128, 160, 192, 224]);
}

#[test]
fn aimed_single_points_at_player() {
    let mut p = BulletPool::new();
    let t = BulletTemplate { group: group::SINGLE_AIMED, count: 1, speed: 64, ..Default::default() };
    p.spawn(&t, 0, 0, (0, 1000));
    assert_eq!(p.bullets[0].angle, 64);
}

#[test]
fn spread_is_centered() {
    let mut p = BulletPool::new();
    let t = BulletTemplate { group: group::SPREAD, count: 4, speed: 64, delta: 12, ..Default::default() };
    p.spawn(&t, 0, 0, (0, 0));
    let a: Vec<i32> = p.bullets.iter().map(|b| b.angle as i8 as i32).collect();
    assert_eq!(a, [-18, -6, 6, 18]);
}

#[test]
fn slow_bullet_decelerates_from_base() {
    let mut p = BulletPool::new();
    // Speed 2px (32 subpx) < threshold → starts near 4.5px then ramps down.
    let t = BulletTemplate { group: group::SINGLE, count: 1, speed: 32, angle: 0, ..Default::default() };
    p.spawn(&t, 0, 0, (0, 0));
    let start_vx = p.bullets[0].vx;
    assert!(start_vx > 32, "should start faster than its final 2px speed");
    for _ in 0..40 {
        p.update((0, 0), 0);
    }
    // After the ramp, velocity settles to the final 2px speed.
    assert_eq!(p.bullets[0].vx, 32);
}

#[test]
fn speedup_accelerates() {
    let mut p = BulletPool::new();
    let t = BulletTemplate {
        group: group::SINGLE,
        count: 1,
        speed: 64,
        angle: 0,
        special: Bsm::Speedup,
        speed_delta: 4,
        ..Default::default()
    };
    p.spawn(&t, 0, 0, (0, 0));
    let v0 = p.bullets[0].vx;
    p.update((0, 0), 0);
    p.update((0, 0), 0);
    assert!(p.bullets[0].vx > v0, "speedup should accelerate");
}

#[test]
fn pool_ready_checks_every_bullet() {
    let mut p = BulletPool::new();
    assert!(p.pool_ready());
    p.spawn(&fast_ring(4), 0, 0, (0, 0));
    assert!(p.pool_ready());
    p.bullets[2].x = 0x1000_0001;
    assert!(!p.pool_ready());
    p.bullets[2].active = false;
    assert!(p.pool_ready());
}

use th04::enemy::{op_len, op_name};
use th04::bullet::BulletPool;
use th04::enemy_vm::Enemy;

#[test]
fn moves_straight_down() {
    let script = [0x01u8, 64, 32, 10, 0x00]; // move(down, 32, 10); end
    let mut e = Enemy::spawn(0, 0);
    let mut pool = BulletPool::new();
    for _ in 0..5 {
        e.step(&script, 0, (0, 0), &mut pool);
    }
    assert!(e.y > 0);
    assert_eq!(e.vx, 0);
    assert!(!e.killed);
}

#[test]
fn fire_then_end_spawns_bullet() {
    // bt_set ring of 4 ; fire ; end
    let mut script = vec![0x21u8, 1, 0, 0, 0, 0, 0x26, 0, 32, 0, 4];
    script.push(0x20); // fire
    script.push(0x00); // end
    let mut e = Enemy::spawn(0, 0);
    let mut pool = BulletPool::new();
    e.step(&script, 0, (0, 0), &mut pool);
    assert_eq!(e.fire_count, 1);
    assert_eq!(pool.active_count(), 4); // ring of 4
    assert!(e.killed);
}

#[test]
fn can_step_follows_the_control_flow() {
    let e = Enemy::spawn(0, 0);
    assert!(e.can_step(&[0x01, 64, 32, 10, 0x00]));
    assert!(e.can_step(&[]));
    // A loop that runs out, then the end.
    assert!(e.can_step(&[0x80, 0, 255, 0x00]));
    // Two loops sharing the counter never leave the frame.
    assert!(!e.can_step(&[0x80, 0, 2, 0x80, 0, 1]));
    let mut far = Enemy::spawn(0, 0);
    far.x = 0x0700_0001;
    assert!(!far.can_step(&[0x00]));
}

#[test]
fn killed_enemy_is_left_alone() {
    let mut e = Enemy::spawn(16, 32);
    e.killed = true;
    let mut pool = BulletPool::new();
    e.step(&[0x20, 0x00], 0, (0, 0), &mut pool);
    assert_eq!((e.x, e.y, e.fire_count, e.script_ip), (16, 32, 0, 0));
    assert_eq!(pool.active_count(), 0);
}

#[test]
fn op_name_is_unknown_exactly_where_op_len_is() {
    for op in 0u8..=255 {
        assert_eq!(op_len(op).is_none(), op_name(op) == "?", "opcode {:#04x}", op);
    }
    assert_eq!(op_name(0x0F), "?");
    assert_eq!(op_name(0x8F), "tile_set");
}

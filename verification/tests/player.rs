use th04::player::{
    Input, Player, DEATHBOMB_FRAMES, MARGIN_R, PLAYFIELD_W, POWER_LOSS_ON_DEATH, POWER_MAX, SPEED_DIAGONAL, SUBPIXEL,
};

#[test]
fn clamps_to_right_edge() {
    let mut p = Player::new(0);
    let mut input = Input::default();
    input.right = true;
    for _ in 0..300 {
        p.update(&input);
    }
    assert_eq!(p.x, (PLAYFIELD_W - MARGIN_R) * SUBPIXEL);
}

#[test]
fn shooting_spawns_upward_shots() {
    let mut p = Player::new(0);
    let mut input = Input::default();
    input.shoot = true;
    p.update(&input);
    assert_eq!(p.active_shots(), 2);
    assert!(p.shots.iter().all(|s| s.vy < 0)); // travelling up
}

#[test]
fn bomb_consumes_and_protects() {
    let mut p = Player::new(0);
    let bombs = p.bombs;
    let mut input = Input::default();
    input.bomb = true;
    p.update(&input);
    assert_eq!(p.bombs, bombs - 1);
    assert!(p.bombing());
    assert!(p.invincible());
}

#[test]
fn marisa_fires_concentrated_columns() {
    let mut p = Player::new(2); // Marisa
    let mut input = Input::default();
    input.shoot = true;
    p.update(&input);
    // all shots travel straight up (no x velocity)
    assert!(p.active_shots() >= 2);
    assert!(p.shots.iter().filter(|s| s.active).all(|s| s.vx == 0 && s.vy < 0));
}

#[test]
fn power_raises_shot_count_and_death_drops_it() {
    let mut p = Player::new(0);
    let mut input = Input::default();
    input.shoot = true;
    p.update(&input);
    let base = p.active_shots();
    // Power up to the top tier → more shots.
    p.add_power(POWER_MAX);
    assert_eq!(p.power, POWER_MAX);
    assert_eq!(p.shot_level(), 9); // full power = max level (ReC98 table)
    for s in p.shots.iter_mut() {
        s.active = false;
    }
    p.shot_timer = 0;
    p.update(&input);
    assert!(p.active_shots() > base, "more shots at full power");
    // A miss drops power a tier.
    p.invuln = 0;
    let pw = p.power;
    p.hit();
    assert_eq!(p.power, pw - POWER_LOSS_ON_DEATH);
}

#[test]
fn deathbomb_within_window_saves_the_life() {
    let mut p = Player::new(0);
    p.invuln = 0; // make hittable
    let lives = p.lives;
    p.begin_dying();
    assert!(p.dying > 0);
    let mut input = Input::default();
    input.bomb = true;
    p.update(&input);
    assert_eq!(p.lives, lives, "deathbomb keeps the life");
    assert!(p.bombing());
    assert_eq!(p.dying, 0);
    assert!(!p.just_died);
    assert_eq!(p.bombs, 2);
}

#[test]
fn missed_deathbomb_commits_the_death() {
    let mut p = Player::new(0);
    p.invuln = 0;
    let lives = p.lives;
    p.begin_dying();
    let input = Input::default(); // never bomb
    for _ in 0..DEATHBOMB_FRAMES {
        p.update(&input);
    }
    assert_eq!(p.lives, lives - 1, "death commits when the window expires");
    assert!(p.just_died);
}

#[test]
fn diagonal_is_slower_per_axis() {
    let mut p = Player::new(0);
    let start = p.x;
    let mut input = Input::default();
    input.right = true;
    input.up = true; // diagonal
    p.update(&input);
    assert_eq!(p.x - start, SPEED_DIAGONAL);
}

#[test]
fn new_player_is_ready() {
    let mut p = Player::new(1);
    assert!(p.frame_ready());
    p.lives = i32::MIN;
    assert!(!p.frame_ready());
}

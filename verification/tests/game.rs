use th04::audio::{boss_track, stage_track, TITLE_TRACK};
use th04::boss::BossKind;
use th04::game::{boss_for, bullet_cel, gameft_cel, item_cel, player_char, stage_index, SHOT_CEL};

#[test]
fn track_names_from_std() {
    assert_eq!(stage_track("ST00.STD"), "st00.wav");
    assert_eq!(boss_track("ST00.STD"), "st00b.wav");
    assert_eq!(stage_track("ST05.STD"), "st05.wav");
    assert_eq!(boss_track("ST05.STD"), "st05b.wav");
}

#[test]
fn stage_index_reads_the_first_digit_run() {
    assert_eq!(stage_index("ST00.STD"), 0);
    assert_eq!(stage_index("ST05.STD"), 5);
    assert_eq!(stage_index("st12x34.std"), 12);
    assert_eq!(stage_index("ステージ3"), 3);
}

#[test]
fn stage_index_defaults_to_zero() {
    assert_eq!(stage_index(""), 0);
    assert_eq!(stage_index("TITLE.STD"), 0);
    // Too many digits for a usize.
    assert_eq!(stage_index("ST99999999999999999999999.STD"), 0);
}

#[test]
fn boss_for_follows_the_stage_and_character() {
    assert_eq!(boss_for("ST00.STD", 0), Some(BossKind::Orange));
    assert_eq!(boss_for("ST02.STD", 1), Some(BossKind::Elly));
    // The rival stage: Reimu's player meets Marisa and the other way round.
    assert_eq!(boss_for("ST03.STD", 0), Some(BossKind::Marisa));
    assert_eq!(boss_for("ST03.STD", 2), Some(BossKind::Reimu));
    assert_eq!(boss_for("ST05.STD", 3), Some(BossKind::Yuuka6));
    assert_eq!(boss_for("ST06.STD", 0), None);
}

#[test]
fn track_names_lowercase_only_the_name() {
    assert_eq!(stage_track("st01.std"), "st01.wav");
    assert_eq!(boss_track("St01.Std"), "st01b.wav");
    // No `.std` suffix: only lowercased.
    assert_eq!(stage_track("EXTRA"), "extra");
    assert_eq!(TITLE_TRACK, "title.wav");
}

#[test]
fn hud_font_cels() {
    assert_eq!(gameft_cel('0'), Some(160));
    assert_eq!(gameft_cel('9'), Some(169));
    assert_eq!(gameft_cel('A'), Some(170));
    assert_eq!(gameft_cel('v'), Some(191));
    assert_eq!(gameft_cel('W'), Some(192));
    assert_eq!(gameft_cel('z'), Some(195));
    assert_eq!(gameft_cel(' '), None);
    assert_eq!(gameft_cel('é'), None);
}

#[test]
fn sprite_cels() {
    assert_eq!(bullet_cel(1), 10);
    assert_eq!(bullet_cel(3), 29);
    assert_eq!(bullet_cel(9), 24);
    assert_eq!(bullet_cel(200), 33);
    assert_eq!(item_cel(0), 16);
    assert_eq!(item_cel(6), 22);
    assert_eq!(item_cel(7), 17);
    assert_eq!(SHOT_CEL, 9);
    assert_eq!(player_char(1), 0);
    assert_eq!(player_char(2), 1);
}

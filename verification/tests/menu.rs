use th04::menu::{main_entry, rank_name, MenuAction, MenuKeys, MenuState, Screen};

fn keys(up: bool, down: bool, confirm: bool, back: bool) -> MenuKeys {
    MenuKeys { up, down, confirm, back }
}

const NONE: MenuKeys = MenuKeys { up: false, down: false, confirm: false, back: false };
const Z: MenuKeys = MenuKeys { up: false, down: false, confirm: true, back: false };
const X: MenuKeys = MenuKeys { up: false, down: false, confirm: false, back: true };
const DOWN: MenuKeys = MenuKeys { up: false, down: true, confirm: false, back: false };

#[test]
fn menu_walks_to_a_run() {
    let mut m = MenuState::new();
    assert_eq!(m.screen, Screen::Title);
    assert_eq!(m.update(Z), MenuAction::Stay);
    assert_eq!(m.screen, Screen::Main(0));
    assert_eq!(m.update(Z), MenuAction::Stay);
    assert_eq!(m.screen, Screen::Char(0));
    m.update(DOWN);
    assert_eq!(m.screen, Screen::Char(1));
    m.update(DOWN); // already at the last character
    assert_eq!(m.screen, Screen::Char(1));
    m.update(Z); // Marisa
    assert_eq!(m.screen, Screen::Shot(0));
    m.update(DOWN);
    m.update(Z); // type B
    assert_eq!(m.screen, Screen::Rank(1)); // Normal preselected
    assert_eq!(m.update(Z), MenuAction::StartRun(3));
    assert_eq!(m.screen, Screen::Playing);
    assert_eq!((m.character, m.shot, m.rank), (1, 1, 1));
    assert_eq!(m.update(NONE), MenuAction::StepRun);
    m.finish_run(true);
    assert_eq!(m.screen, Screen::Result(true, 0));
    assert_eq!(m.blink, 9);
}

#[test]
fn menu_back_and_quit() {
    let mut m = MenuState::new();
    assert_eq!(m.update(X), MenuAction::Quit);
    m.update(Z);
    for _ in 0..10 {
        m.update(DOWN);
    }
    assert_eq!(m.screen, Screen::Main(5));
    assert_eq!(main_entry(5), ("QUIT", true));
    assert_eq!(m.update(Z), MenuAction::Quit);
    m.update(keys(true, false, false, false));
    assert_eq!(m.screen, Screen::Main(4));
    assert_eq!(m.update(Z), MenuAction::Stay); // disabled entry
    assert_eq!(m.screen, Screen::Main(4));
    m.update(X);
    assert_eq!(m.screen, Screen::Title);
    // Backing out of a run returns to the title.
    m.screen = Screen::Playing;
    m.update(X);
    assert_eq!(m.screen, Screen::Title);
    assert_eq!(rank_name(3), "LUNATIC");
}

#[test]
fn result_splash_times_out() {
    let mut m = MenuState::new();
    m.screen = Screen::Playing;
    m.finish_run(false);
    for _ in 0..240 {
        m.update(NONE);
        assert!(matches!(m.screen, Screen::Result(false, _)));
    }
    m.update(NONE);
    assert_eq!(m.screen, Screen::Title);
}

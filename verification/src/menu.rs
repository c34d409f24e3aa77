//! Title screen + menu state machine: the decisions the front end takes each
//! frame from the held keys. Flow:
//!
//! ```text
//! Title ──Z──▶ Main ──START──▶ Character ──▶ Shot ──▶ Rank ──▶ Playing
//!                │                                                  │
//!                └──QUIT──▶ exit                  clear / game over ─┘
//!                                                       │
//!                                                       ▼
//!                                                     Title
//! ```
//!
//! The caller draws the screen the state names and carries out the action a
//! frame returns (quit, start a run, step the running stage).

use vstd::prelude::*;

verus! {

/// Entries of the main menu; only START and QUIT are wired.
pub const MAIN_ENTRIES: usize = 6;
/// Characters, shot types and difficulty ranks on offer.
pub const CHARACTERS: usize = 2;
pub const SHOTS: usize = 2;
pub const RANKS: usize = 4;
/// Frames the post-stage splash stays up.
pub const RESULT_FRAMES: u32 = 240;

#[derive(Debug, Clone, Copy, PartialEq, Eq, Structural)]
pub enum Screen {
    Title,
    /// A selection screen and its cursor.
    Main(usize),
    Char(usize),
    Shot(usize),
    Rank(usize),
    Playing,
    /// Post-stage splash: whether the stage was cleared, and the frames shown.
    Result(bool, u32),
}

/// What the caller does after a frame.
#[derive(Debug, Clone, Copy, PartialEq, Eq, Structural)]
pub enum MenuAction {
    Stay,
    Quit,
    /// Start a run with this shot type (character * 2 + shot).
    StartRun(u8),
    /// Step the running stage one frame.
    StepRun,
}

/// The keys a menu frame reads: up (or left), down (or right), confirm and back.
#[derive(Debug, Clone, Copy)]
pub struct MenuKeys {
    pub up: bool,
    pub down: bool,
    pub confirm: bool,
    pub back: bool,
}

pub struct MenuState {
    pub screen: Screen,
    /// Selection carried across the character → shot → rank screens.
    pub character: usize,
    pub shot: usize,
    pub rank: usize,
    /// Frame counter for blinking prompts.
    pub blink: u32,
}

/// A cursor over `n` entries after the held keys: up first, then down.
pub open spec fn cursor_moved(c: usize, n: usize, k: MenuKeys) -> usize {
    let c1 = if k.up && c > 0 { (c - 1) as usize } else { c };
    if k.down && c1 + 1 < n { (c1 + 1) as usize } else { c1 }
}

/// Selections and cursors within their lists, and a splash still showing.
pub open spec fn menu_ok(m: MenuState) -> bool {
    &&& m.character < CHARACTERS && m.shot < SHOTS && m.rank < RANKS
    &&& match m.screen {
        Screen::Main(c) => c < MAIN_ENTRIES,
        Screen::Char(c) => c < CHARACTERS,
        Screen::Shot(c) => c < SHOTS,
        Screen::Rank(c) => c < RANKS,
        Screen::Result(_, t) => t <= RESULT_FRAMES,
        _ => true,
    }
}

/// One menu frame: the new state and the action.
pub open spec fn menu_next(m: MenuState, k: MenuKeys) -> (MenuState, MenuAction) {
    let m0 = MenuState { blink: if m.blink == u32::MAX { 0 } else { (m.blink + 1) as u32 }, ..m };
    match m.screen {
        Screen::Title => if k.confirm {
            (MenuState { screen: Screen::Main(0), ..m0 }, MenuAction::Stay)
        } else if k.back {
            (m0, MenuAction::Quit)
        } else {
            (m0, MenuAction::Stay)
        },
        Screen::Main(c) => {
            let cur = cursor_moved(c, MAIN_ENTRIES, k);
            let m1 = MenuState { screen: Screen::Main(cur), ..m0 };
            if k.confirm {
                if cur == 0 {
                    (MenuState { screen: Screen::Char(m.character), ..m1 }, MenuAction::Stay)
                } else if cur == 5 {
                    (m1, MenuAction::Quit)
                } else {
                    (m1, MenuAction::Stay)
                }
            } else if k.back {
                (MenuState { screen: Screen::Title, ..m1 }, MenuAction::Stay)
            } else {
                (m1, MenuAction::Stay)
            }
        },
        Screen::Char(c) => {
            let cur = cursor_moved(c, CHARACTERS, k);
            let m1 = MenuState { screen: Screen::Char(cur), ..m0 };
            if k.confirm {
                (MenuState { character: cur, screen: Screen::Shot(m.shot), ..m1 }, MenuAction::Stay)
            } else if k.back {
                (MenuState { screen: Screen::Main(0), ..m1 }, MenuAction::Stay)
            } else {
                (m1, MenuAction::Stay)
            }
        },
        Screen::Shot(c) => {
            let cur = cursor_moved(c, SHOTS, k);
            let m1 = MenuState { screen: Screen::Shot(cur), ..m0 };
            if k.confirm {
                (MenuState { shot: cur, screen: Screen::Rank(m.rank), ..m1 }, MenuAction::Stay)
            } else if k.back {
                (MenuState { screen: Screen::Char(m.character), ..m1 }, MenuAction::Stay)
            } else {
                (m1, MenuAction::Stay)
            }
        },
        Screen::Rank(c) => {
            let cur = cursor_moved(c, RANKS, k);
            let m1 = MenuState { screen: Screen::Rank(cur), ..m0 };
            if k.confirm {
                (MenuState { rank: cur, screen: Screen::Playing, ..m1 },
                    MenuAction::StartRun((m.character * 2 + m.shot) as u8))
            } else if k.back {
                (MenuState { screen: Screen::Shot(m.shot), ..m1 }, MenuAction::Stay)
            } else {
                (m1, MenuAction::Stay)
            }
        },
        Screen::Playing => if k.back {
            (MenuState { screen: Screen::Title, ..m0 }, MenuAction::Stay)
        } else {
            (m0, MenuAction::StepRun)
        },
        Screen::Result(cleared, t) => {
            let t1 = (t + 1) as u32;
            if k.confirm || k.back || t1 > RESULT_FRAMES {
                (MenuState { screen: Screen::Title, ..m0 }, MenuAction::Stay)
            } else {
                (MenuState { screen: Screen::Result(cleared, t1), ..m0 }, MenuAction::Stay)
            }
        },
    }
}

/// Label and whether it is wired, for main-menu entry `i`.
pub fn main_entry(i: usize) -> (r: (&'static str, bool))
    ensures
        r.1 == (i == 0 || i == 5),
{
    match i {
        0 => ("START", true),
        1 => ("EXTRA START", false),
        2 => ("PRACTICE START", false),
        3 => ("MUSIC ROOM", false),
        4 => ("OPTION", false),
        5 => ("QUIT", true),
        _ => ("", false),
    }
}

/// Label of character `i`, shot type `i` and rank `i`.
pub fn character_name(i: usize) -> (r: &'static str)
    ensures
        r@ == if i == 0 { "REIMU HAKUREI"@ } else { "MARISA KIRISAME"@ },
{
    if i == 0 { "REIMU HAKUREI" } else { "MARISA KIRISAME" }
}

pub fn shot_name(i: usize) -> (r: &'static str)
    ensures
        r@ == if i == 0 { "TYPE A"@ } else { "TYPE B"@ },
{
    if i == 0 { "TYPE A" } else { "TYPE B" }
}

pub fn rank_name(i: usize) -> (r: &'static str)
    ensures
        r@ == if i == 0 { "EASY"@ } else if i == 1 { "NORMAL"@ } else if i == 2 { "HARD"@ } else { "LUNATIC"@ },
{
    match i {
        0 => "EASY",
        1 => "NORMAL",
        2 => "HARD",
        _ => "LUNATIC",
    }
}

impl MenuState {
    /// The title screen, Reimu / type A / Normal preselected.
    pub fn new() -> (r: Self)
        ensures
            r.screen == Screen::Title,
            r.character == 0 && r.shot == 0 && r.rank == 1 && r.blink == 0,
            menu_ok(r),
    {
        MenuState { screen: Screen::Title, character: 0, shot: 0, rank: 1, blink: 0 }
    }

    /// The shot type of the current selection (0/1 = Reimu A/B, 2/3 = Marisa A/B).
    pub fn shot_type(&self) -> (r: u8)
        requires
            menu_ok(*self),
        ensures
            r == self.character * 2 + self.shot,
    {
        (self.character as u8) * 2 + self.shot as u8
    }

    /// Advance one frame on the held keys; returns what the caller must do.
    pub fn update(&mut self, k: MenuKeys) -> (r: MenuAction)
        requires
            menu_ok(*old(self)),
        ensures
            (*final(self), r) == menu_next(*old(self), k),
            menu_ok(*final(self)),
    {
        self.blink = self.blink.wrapping_add(1);
        match self.screen {
            Screen::Title => {
                if k.confirm {
                    self.screen = Screen::Main(0);
                    MenuAction::Stay
                } else if k.back {
                    MenuAction::Quit
                } else {
                    MenuAction::Stay
                }
            },
            Screen::Main(c) => {
                let cur = move_cursor(c, MAIN_ENTRIES, k);
                self.screen = Screen::Main(cur);
                if k.confirm {
                    if cur == 0 {
                        self.screen = Screen::Char(self.character);
                        MenuAction::Stay
                    } else if cur == 5 {
                        MenuAction::Quit
                    } else {
                        // A disabled entry does nothing.
                        MenuAction::Stay
                    }
                } else {
                    if k.back {
                        self.screen = Screen::Title;
                    }
                    MenuAction::Stay
                }
            },
            Screen::Char(c) => {
                let cur = move_cursor(c, CHARACTERS, k);
                self.screen = Screen::Char(cur);
                if k.confirm {
                    self.character = cur;
                    self.screen = Screen::Shot(self.shot);
                } else if k.back {
                    self.screen = Screen::Main(0);
                }
                MenuAction::Stay
            },
            Screen::Shot(c) => {
                let cur = move_cursor(c, SHOTS, k);
                self.screen = Screen::Shot(cur);
                if k.confirm {
                    self.shot = cur;
                    self.screen = Screen::Rank(self.rank);
                } else if k.back {
                    self.screen = Screen::Char(self.character);
                }
                MenuAction::Stay
            },
            Screen::Rank(c) => {
                let cur = move_cursor(c, RANKS, k);
                self.screen = Screen::Rank(cur);
                if k.confirm {
                    self.rank = cur;
                    let st = self.shot_type();
                    self.screen = Screen::Playing;
                    MenuAction::StartRun(st)
                } else {
                    if k.back {
                        self.screen = Screen::Shot(self.shot);
                    }
                    MenuAction::Stay
                }
            },
            Screen::Playing => {
                if k.back {
                    // Abandon the run.
                    self.screen = Screen::Title;
                    MenuAction::Stay
                } else {
                    MenuAction::StepRun
                }
            },
            Screen::Result(cleared, t) => {
                let t1 = t + 1;
                if k.confirm || k.back || t1 > RESULT_FRAMES {
                    self.screen = Screen::Title;
                } else {
                    self.screen = Screen::Result(cleared, t1);
                }
                MenuAction::Stay
            },
        }
    }

    /// The running stage has finished: show the splash (cleared, or game over).
    pub fn finish_run(&mut self, cleared: bool)
        requires
            old(self).screen == Screen::Playing,
            menu_ok(*old(self)),
        ensures
            *final(self) == (MenuState { screen: Screen::Result(cleared, 0), ..*old(self) }),
            menu_ok(*final(self)),
    {
        self.screen = Screen::Result(cleared, 0);
    }
}

fn move_cursor(c: usize, n: usize, k: MenuKeys) -> (r: usize)
    requires
        c < n,
    ensures
        r == cursor_moved(c, n, k),
        r < n,
{
    let c1 = if k.up && c > 0 { c - 1 } else { c };
    if k.down && c1 + 1 < n { c1 + 1 } else { c1 }
}

} // verus!

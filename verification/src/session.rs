//! The state of the main loop and how it answers the keyboard and the clock.
use vstd::prelude::*;
use crate::clock::{intro_elapsed, Clock};

verus! {

/// Columns of a new game's field.
pub const GRID_WIDTH: u32 = 8;

/// Rows of a new game's field.
pub const GRID_HEIGHT: u32 = 17;

/// The drop interval, in milliseconds, of the field that exists before the
/// first game is started.
pub const FIRST_DIFF: u32 = 750;

/// The screens of the program.
#[derive(Clone, Copy, Debug, PartialEq, Eq, Structural)]
pub enum Screen {
    Intro,
    Start,
    Game,
    GameOver,
    Options,
    Credits,
}

/// What the keyboard and the window tell the main loop.
#[derive(Clone, Copy, Debug, PartialEq, Eq, Structural)]
pub enum Event {
    /// The window was closed or Escape was pressed.
    Escape,
    Up,
    Down,
    Left,
    Right,
    /// The A key.
    A,
    /// The S key.
    S,
    /// Return; `name_entered` says whether a name has been typed for the
    /// high-score table.
    Return { name_entered: bool },
    Backspace,
    /// Text was typed.
    Text,
}

/// What the main loop is to do after an event.
#[derive(Clone, Copy, Debug, PartialEq, Eq, Structural)]
pub enum Command {
    Nothing,
    /// Leave the main loop.
    Quit,
    /// Print "Exiting..." and end the program.
    Exit,
    /// Replace the field by a new `GRID_WIDTH` x `GRID_HEIGHT` one, reset the
    /// game, and set its drop interval to `diff` where there is one.
    NewGame { diff: Option<u32> },
    SwapPieceColors,
    ShiftLeft,
    ShiftRight,
    MoveDown,
    MoveLeft,
    MoveRight,
    /// Switch the window to or from full screen.
    Fullscreen { on: bool },
    /// Add the typed name with `score` to the high-score table, sort and save
    /// it, and clear the typed name.
    SubmitScore { score: u32 },
    /// Delete the last typed character of the name.
    DeleteChar,
    /// Add the typed text to the name.
    TypeText,
}

/// What the main loop is to do with the field in a frame.
#[derive(Clone, Copy, Debug, PartialEq, Eq, Structural)]
pub enum Tick {
    Idle,
    /// Process the field's blocks, after moving the piece down if `drop_first`.
    RunBlocks { drop_first: bool },
}

/// The state of the main loop as a mathematical value.
pub struct SessionView {
    pub screen: Screen,
    /// The selected entry of the start menu: play, options, credits, exit.
    pub cursor: int,
    /// The selected line of the options screen: difficulty, full screen, clears.
    pub option: int,
    /// 0 easy, 1 normal, 2 hard.
    pub difficulty: int,
    /// 0 windowed, 1 full screen.
    pub fullscreen: int,
    /// Line clears until the game speeds up.
    pub clears: int,
    /// The score of the game that ended, 0 once it is entered or when none is pending.
    pub final_score: u32,
}

impl SessionView {
    /// The menus' selections and settings are within their ranges.
    pub open spec fn wf(self) -> bool {
        &&& 0 <= self.cursor <= 3
        &&& 0 <= self.option <= 2
        &&& 0 <= self.difficulty <= 2
        &&& 0 <= self.fullscreen <= 1
        &&& 1 <= self.clears <= 10
    }
}

/// The state at start-up.
pub open spec fn initial() -> SessionView {
    SessionView {
        screen: Screen::Intro,
        cursor: 0,
        option: 0,
        difficulty: 0,
        fullscreen: 0,
        clears: 5,
        final_score: 0,
    }
}

/// The drop interval, in milliseconds, of each difficulty.
pub open spec fn diff_for(difficulty: int) -> Option<u32> {
    if difficulty == 0 {
        Some(1250)
    } else if difficulty == 1 {
        Some(1000)
    } else if difficulty == 2 {
        Some(750)
    } else {
        None
    }
}

pub open spec fn to_screen(v: SessionView, s: Screen) -> SessionView {
    SessionView { screen: s, ..v }
}

/// The answer to the arrow keys and A/S.
pub open spec fn step_arrows(v: SessionView, e: Event) -> (SessionView, Command) {
    match e {
        Event::Up => match v.screen {
            Screen::Start => (
                if v.cursor > 0 { SessionView { cursor: v.cursor - 1, ..v } } else { v },
                Command::Nothing,
            ),
            Screen::Options => (
                if v.option > 0 { SessionView { option: v.option - 1, ..v } } else { v },
                Command::Nothing,
            ),
            Screen::Game => (v, Command::SwapPieceColors),
            _ => (v, Command::Nothing),
        },
        Event::Down => match v.screen {
            Screen::Start => (
                if v.cursor < 3 { SessionView { cursor: v.cursor + 1, ..v } } else { v },
                Command::Nothing,
            ),
            Screen::Options => (
                if v.option < 2 { SessionView { option: v.option + 1, ..v } } else { v },
                Command::Nothing,
            ),
            Screen::Game => (v, Command::MoveDown),
            _ => (v, Command::Nothing),
        },
        Event::Left => match v.screen {
            Screen::Options => if v.option == 0 {
                (
                    if v.difficulty > 0 { SessionView { difficulty: v.difficulty - 1, ..v } } else { v },
                    Command::Nothing,
                )
            } else if v.option == 1 {
                if v.fullscreen > 0 {
                    (SessionView { fullscreen: v.fullscreen - 1, ..v }, Command::Fullscreen { on: false })
                } else {
                    (v, Command::Nothing)
                }
            } else if v.option == 2 {
                (
                    if v.clears > 1 { SessionView { clears: v.clears - 1, ..v } } else { v },
                    Command::Nothing,
                )
            } else {
                (v, Command::Nothing)
            },
            Screen::Game => (v, Command::MoveLeft),
            _ => (v, Command::Nothing),
        },
        Event::Right => match v.screen {
            Screen::Options => if v.option == 0 {
                (
                    if v.difficulty < 2 { SessionView { difficulty: v.difficulty + 1, ..v } } else { v },
                    Command::Nothing,
                )
            } else if v.option == 1 {
                if v.fullscreen < 1 {
                    (SessionView { fullscreen: v.fullscreen + 1, ..v }, Command::Fullscreen { on: true })
                } else {
                    (v, Command::Nothing)
                }
            } else if v.option == 2 {
                (
                    if v.clears < 10 { SessionView { clears: v.clears + 1, ..v } } else { v },
                    Command::Nothing,
                )
            } else {
                (v, Command::Nothing)
            },
            Screen::Game => (v, Command::MoveRight),
            _ => (v, Command::Nothing),
        },
        Event::A => (v, if v.screen == Screen::Game { Command::ShiftLeft } else { Command::Nothing }),
        Event::S => (v, if v.screen == Screen::Game { Command::ShiftRight } else { Command::Nothing }),
        _ => (v, Command::Nothing),
    }
}

/// The answer to Return.
pub open spec fn step_return(v: SessionView, name_entered: bool) -> (SessionView, Command) {
    match v.screen {
        Screen::Start => if v.cursor == 0 {
            (to_screen(v, Screen::Game), Command::NewGame { diff: diff_for(v.difficulty) })
        } else if v.cursor == 1 {
            (to_screen(v, Screen::Options), Command::Nothing)
        } else if v.cursor == 2 {
            (to_screen(v, Screen::Credits), Command::Nothing)
        } else if v.cursor == 3 {
            (v, Command::Exit)
        } else {
            (v, Command::Nothing)
        },
        Screen::Intro => (to_screen(v, Screen::Start), Command::Nothing),
        Screen::GameOver => if name_entered {
            (SessionView { final_score: 0, ..v }, Command::SubmitScore { score: v.final_score })
        } else {
            (v, Command::Nothing)
        },
        _ => (v, Command::Nothing),
    }
}

/// The state and command after event `e`.
pub open spec fn step(v: SessionView, e: Event) -> (SessionView, Command) {
    match e {
        Event::Escape => if v.screen == Screen::Start {
            (v, Command::Quit)
        } else {
            (to_screen(v, Screen::Start), Command::Nothing)
        },
        Event::Return { name_entered } => step_return(v, name_entered),
        Event::Backspace => (
            v,
            if v.screen == Screen::GameOver { Command::DeleteChar } else { Command::Nothing },
        ),
        Event::Text => (
            v,
            if v.screen == Screen::GameOver && v.final_score > 0 {
                Command::TypeText
            } else {
                Command::Nothing
            },
        ),
        _ => step_arrows(v, e),
    }
}

/// The state, clock and field command of a frame, after the clock has taken
/// the frame's time; `diff` is the field's drop interval in milliseconds.
pub open spec fn frame_step(v: SessionView, c: Clock, diff: u32) -> (SessionView, Clock, Tick) {
    match v.screen {
        Screen::Intro => (
            if intro_elapsed(c) { to_screen(v, Screen::Start) } else { v },
            c,
            Tick::Idle,
        ),
        Screen::Game => if c.tick_count > diff {
            (v, Clock { tick_count: 0, ..c }, Tick::RunBlocks { drop_first: true })
        } else {
            (v, c, Tick::RunBlocks { drop_first: false })
        },
        _ => (v, c, Tick::Idle),
    }
}

/// The state once the field's blocks were processed in a game frame.
pub open spec fn after_blocks(v: SessionView, game_over: bool, score: u32) -> SessionView {
    if v.screen == Screen::Game && game_over {
        SessionView { screen: Screen::GameOver, final_score: score, ..v }
    } else {
        v
    }
}

/// The state of the main loop.
pub struct Session {
    screen: Screen,
    cursor: i32,
    option: usize,
    difficulty: i32,
    fullscreen: i32,
    clears: i32,
    final_score: u32,
}

impl View for Session {
    type V = SessionView;

    closed spec fn view(&self) -> SessionView {
        SessionView {
            screen: self.screen,
            cursor: self.cursor as int,
            option: self.option as int,
            difficulty: self.difficulty as int,
            fullscreen: self.fullscreen as int,
            clears: self.clears as int,
            final_score: self.final_score,
        }
    }
}

impl Session {
    #[verifier::type_invariant]
    closed spec fn inv(self) -> bool {
        self@.wf()
    }

    /// The state at start-up: the intro, with the first entries selected,
    /// the easy difficulty, a window, and five clears until the game speeds up.
    pub fn new() -> (s: Session)
        ensures
            s@ == initial(),
    {
        Session {
            screen: Screen::Intro,
            cursor: 0,
            option: 0,
            difficulty: 0,
            fullscreen: 0,
            clears: 5,
            final_score: 0,
        }
    }

    /// The screen shown.
    pub fn screen(&self) -> (r: Screen)
        ensures
            r == self@.screen,
            self@.wf(),
    {
        proof { use_type_invariant(self); }
        self.screen
    }

    /// The selected entry of the start menu.
    pub fn cursor(&self) -> (r: i32)
        ensures
            r == self@.cursor,
            self@.wf(),
    {
        proof { use_type_invariant(self); }
        self.cursor
    }

    /// The selected line of the options screen.
    pub fn option(&self) -> (r: usize)
        ensures
            r == self@.option,
            self@.wf(),
    {
        proof { use_type_invariant(self); }
        self.option
    }

    /// The difficulty: 0 easy, 1 normal, 2 hard.
    pub fn difficulty(&self) -> (r: i32)
        ensures
            r == self@.difficulty,
            self@.wf(),
    {
        proof { use_type_invariant(self); }
        self.difficulty
    }

    /// 1 when the window is to be full screen, else 0.
    pub fn fullscreen(&self) -> (r: i32)
        ensures
            r == self@.fullscreen,
            self@.wf(),
    {
        proof { use_type_invariant(self); }
        self.fullscreen
    }

    /// The line clears until the game speeds up, handed to the field every frame.
    pub fn clears(&self) -> (r: i32)
        ensures
            r == self@.clears,
            self@.wf(),
    {
        proof { use_type_invariant(self); }
        self.clears
    }

    /// The score of the game that ended and is not entered yet, else 0.
    pub fn final_score(&self) -> (r: u32)
        ensures
            r == self@.final_score,
            self@.wf(),
    {
        proof { use_type_invariant(self); }
        self.final_score
    }
}

impl Session {
    /// Answers event `e`: moves between screens and menu entries, changes the
    /// settings, and says what the main loop is to do with the field, the
    /// window and the high-score table.
    pub fn handle(&mut self, e: Event) -> (c: Command)
        ensures
            (final(self)@, c) == step(old(self)@, e),
    {
        proof {
            use_type_invariant(&*self);
            lemma_step_keeps_ranges(self@, e);
        }
        let mut screen = self.screen;
        let mut cursor = self.cursor;
        let mut option = self.option;
        let mut difficulty = self.difficulty;
        let mut fullscreen = self.fullscreen;
        let mut clears = self.clears;
        let mut final_score = self.final_score;
        let mut c = Command::Nothing;
        match e {
            Event::Escape => {
                match screen {
                    Screen::Start => {
                        c = Command::Quit;
                    },
                    _ => {
                        screen = Screen::Start;
                    },
                }
            },
            Event::Up => {
                match screen {
                    Screen::Start => {
                        if cursor > 0 {
                            cursor -= 1;
                        }
                    },
                    Screen::Options => {
                        if option > 0 {
                            option -= 1;
                        }
                    },
                    Screen::Game => {
                        c = Command::SwapPieceColors;
                    },
                    _ => {},
                }
            },
            Event::A => {
                if screen == Screen::Game {
                    c = Command::ShiftLeft;
                }
            },
            Event::S => {
                if screen == Screen::Game {
                    c = Command::ShiftRight;
                }
            },
            Event::Down => {
                match screen {
                    Screen::Start => {
                        if cursor < 3 {
                            cursor += 1;
                        }
                    },
                    Screen::Options => {
                        if option < 2 {
                            option += 1;
                        }
                    },
                    Screen::Game => {
                        c = Command::MoveDown;
                    },
                    _ => {},
                }
            },
            Event::Left => {
                match screen {
                    Screen::Options => {
                        if option == 0 {
                            if difficulty > 0 {
                                difficulty -= 1;
                            }
                        } else if option == 1 {
                            if fullscreen > 0 {
                                fullscreen -= 1;
                                c = Command::Fullscreen { on: false };
                            }
                        } else if option == 2 {
                            if clears > 1 {
                                clears -= 1;
                            }
                        }
                    },
                    Screen::Game => {
                        c = Command::MoveLeft;
                    },
                    _ => {},
                }
            },
            Event::Right => {
                match screen {
                    Screen::Options => {
                        if option == 0 {
                            if difficulty < 2 {
                                difficulty += 1;
                            }
                        } else if option == 1 {
                            if fullscreen < 1 {
                                fullscreen += 1;
                                c = Command::Fullscreen { on: true };
                            }
                        } else if option == 2 {
                            if clears < 10 {
                                clears += 1;
                            }
                        }
                    },
                    Screen::Game => {
                        c = Command::MoveRight;
                    },
                    _ => {},
                }
            },
            Event::Return { name_entered } => {
                match screen {
                    Screen::Start => {
                        if cursor == 0 {
                            screen = Screen::Game;
                            let diff = if difficulty == 0 {
                                Some(1250)
                            } else if difficulty == 1 {
                                Some(1000)
                            } else if difficulty == 2 {
                                Some(750)
                            } else {
                                None
                            };
                            c = Command::NewGame { diff };
                        } else if cursor == 1 {
                            screen = Screen::Options;
                        } else if cursor == 2 {
                            screen = Screen::Credits;
                        } else if cursor == 3 {
                            c = Command::Exit;
                        }
                    },
                    Screen::Intro => {
                        screen = Screen::Start;
                    },
                    Screen::GameOver => {
                        if name_entered {
                            c = Command::SubmitScore { score: final_score };
                            final_score = 0;
                        }
                    },
                    _ => {},
                }
            },
            Event::Backspace => {
                if screen == Screen::GameOver {
                    c = Command::DeleteChar;
                }
            },
            Event::Text => {
                if screen == Screen::GameOver && final_score > 0 {
                    c = Command::TypeText;
                }
            },
        }
        *self = Session { screen, cursor, option, difficulty, fullscreen, clears, final_score };
        c
    }

    /// The decisions of a frame, once `clock` has taken the frame's time:
    /// the intro gives way to the start menu after three seconds, and in a
    /// game the piece falls when more than `diff` milliseconds were counted
    /// (and the count starts again), before the field's blocks are processed.
    pub fn frame(&mut self, clock: &mut Clock, diff: u32) -> (t: Tick)
        ensures
            (final(self)@, *final(clock), t) == frame_step(old(self)@, *old(clock), diff),
    {
        proof { use_type_invariant(&*self); }
        match self.screen {
            Screen::Intro => {
                if clock.intro_elapsed() {
                    *self = Session { screen: Screen::Start, ..*self };
                }
                Tick::Idle
            },
            Screen::Game => {
                if clock.tick_count > diff as u64 {
                    clock.tick_count = 0;
                    Tick::RunBlocks { drop_first: true }
                } else {
                    Tick::RunBlocks { drop_first: false }
                }
            },
            _ => Tick::Idle,
        }
    }

    /// Takes the outcome of processing the field's blocks: when the game is
    /// over, its score becomes the final score and the game over screen is shown.
    pub fn blocks_done(&mut self, game_over: bool, score: u32)
        ensures
            final(self)@ == after_blocks(old(self)@, game_over, score),
    {
        proof { use_type_invariant(&*self); }
        if self.screen == Screen::Game && game_over {
            *self = Session { screen: Screen::GameOver, final_score: score, ..*self };
        }
    }
}

/// Every event keeps the menus' selections and the settings within their
/// ranges.
pub proof fn lemma_step_keeps_ranges(v: SessionView, e: Event)
    requires
        v.wf(),
    ensures
        step(v, e).0.wf(),
{
}

/// A frame keeps the menus' selections and the settings within their ranges,
/// and so does the end of a game.
pub proof fn lemma_frame_keeps_ranges(v: SessionView, c: Clock, diff: u32, game_over: bool, score: u32)
    requires
        v.wf(),
    ensures
        frame_step(v, c, diff).0.wf(),
        after_blocks(v, game_over, score).wf(),
{
}

/// Escape (or closing the window) leaves the program from the start menu and
/// returns to the start menu from every other screen, changing nothing else.
pub proof fn lemma_escape(v: SessionView)
    ensures
        v.screen == Screen::Start ==> step(v, Event::Escape) == (v, Command::Quit),
        v.screen != Screen::Start ==> step(v, Event::Escape) == (
            SessionView { screen: Screen::Start, ..v },
            Command::Nothing,
        ),
{
}

/// Only Escape and Return change the screen shown.
pub proof fn lemma_only_escape_and_return_change_screen(v: SessionView, e: Event)
    requires
        e != Event::Escape,
        !(e is Return),
    ensures
        step(v, e).0.screen == v.screen,
{
}

/// On the start menu and the options screen, Up takes back a move of the
/// cursor by Down, and Down takes back a move by Up.
pub proof fn lemma_cursor_round_trip(v: SessionView)
    requires
        v.wf(),
        v.screen == Screen::Start || v.screen == Screen::Options,
    ensures
        step(v, Event::Down).0 != v ==> step(step(v, Event::Down).0, Event::Up).0 == v,
        step(v, Event::Up).0 != v ==> step(step(v, Event::Up).0, Event::Down).0 == v,
{
}

/// On the options screen, Left takes back a change of a setting by Right,
/// and Right takes back a change by Left.
pub proof fn lemma_setting_round_trip(v: SessionView)
    requires
        v.wf(),
        v.screen == Screen::Options,
    ensures
        step(v, Event::Right).0 != v ==> step(step(v, Event::Right).0, Event::Left).0 == v,
        step(v, Event::Left).0 != v ==> step(step(v, Event::Left).0, Event::Right).0 == v,
{
}

/// The window is switched to or from full screen exactly when the full
/// screen setting changes, and to the setting's new value.
pub proof fn lemma_fullscreen_follows_setting(v: SessionView, e: Event)
    requires
        v.wf(),
    ensures
        ({
            let (w, c) = step(v, e);
            &&& (c is Fullscreen) <==> w.fullscreen != v.fullscreen
            &&& c is Fullscreen ==> (c->on <==> w.fullscreen == 1)
        }),
{
}

/// While a game runs, the keys act on the field only: the state stays as it
/// is, and each of the arrow keys and A and S gives its own command.
pub proof fn lemma_game_keys(v: SessionView)
    requires
        v.screen == Screen::Game,
    ensures
        step(v, Event::Up) == (v, Command::SwapPieceColors),
        step(v, Event::Down) == (v, Command::MoveDown),
        step(v, Event::Left) == (v, Command::MoveLeft),
        step(v, Event::Right) == (v, Command::MoveRight),
        step(v, Event::A) == (v, Command::ShiftLeft),
        step(v, Event::S) == (v, Command::ShiftRight),
{
}

/// A name can be typed only on the game over screen, while a score is
/// waiting to be entered.
pub proof fn lemma_typing_needs_pending_score(v: SessionView)
    ensures
        step(v, Event::Text).1 == Command::TypeText <==> (v.screen == Screen::GameOver
            && v.final_score > 0),
        step(v, Event::Text).0 == v,
{
}

/// The score entered in the high-score table is the score that the game
/// ended with; after it is entered none is pending.
pub proof fn lemma_entered_score_is_final_score(v: SessionView, score: u32)
    requires
        v.screen == Screen::Game,
    ensures
        ({
            let over = after_blocks(v, true, score);
            &&& over.screen == Screen::GameOver
            &&& step(over, Event::Return { name_entered: true }) == (
                SessionView { final_score: 0, ..over },
                Command::SubmitScore { score },
            )
        }),
{
}

/// A harder difficulty makes pieces fall faster: the drop interval shrinks
/// from easy to normal to hard, and every difficulty in range has one.
pub proof fn lemma_harder_is_faster(d: int)
    requires
        0 <= d < 2,
    ensures
        diff_for(d) is Some,
        diff_for(d + 1) is Some,
        diff_for(d + 1)->0 < diff_for(d)->0,
{
}

/// In a game the piece falls exactly when more than `diff` milliseconds were
/// counted, and then the count starts again from zero.
pub proof fn lemma_drop_timing(v: SessionView, c: Clock, diff: u32)
    requires
        v.screen == Screen::Game,
    ensures
        ({
            let (w, d, t) = frame_step(v, c, diff);
            &&& w == v
            &&& t == Tick::RunBlocks { drop_first: c.tick_count > diff }
            &&& d.tick_count == if c.tick_count > diff { 0 } else { c.tick_count }
        }),
{
}

/// The intro is shown until more than three seconds have passed since the
/// start time and then gives way to the start menu; the clock is left as it is.
pub proof fn lemma_intro_timing(v: SessionView, c: Clock, diff: u32)
    requires
        v.screen == Screen::Intro,
    ensures
        ({
            let (w, d, t) = frame_step(v, c, diff);
            &&& w == SessionView { screen: if intro_elapsed(c) { Screen::Start } else { Screen::Intro }, ..v }
            &&& d == c
            &&& t == Tick::Idle
        }),
{
}

/// The session starts on the intro, with the first entries selected, the
/// easy difficulty, a window, five clears until the game speeds up, and no
/// score pending.
pub proof fn lemma_initial_state()
    ensures
        initial().screen == Screen::Intro,
        initial().cursor == 0,
        initial().option == 0,
        initial().difficulty == 0,
        initial().fullscreen == 0,
        initial().clears == 5,
        initial().final_score == 0,
        initial().wf(),
{
}

/// The drop intervals of the difficulties: easy 1250 ms, normal 1000 ms,
/// hard 750 ms.
pub proof fn lemma_difficulty_intervals()
    ensures
        diff_for(0) == Some(1250u32),
        diff_for(1) == Some(1000u32),
        diff_for(2) == Some(750u32),
{
}

/// What Return does on each screen. On the start menu the selected entry
/// starts a game with the chosen difficulty's drop interval, opens the
/// options or the credits, or ends the program; the intro gives way to the
/// start menu; on the game over screen a typed name enters the pending score.
/// During a game, on the options and on the credits, Return changes nothing.
pub proof fn lemma_return(v: SessionView, name_entered: bool)
    requires
        v.wf(),
    ensures
        ({
            let (w, c) = step(v, Event::Return { name_entered });
            &&& (v.screen == Screen::Game || v.screen == Screen::Options || v.screen == Screen::Credits)
                ==> w == v && c == Command::Nothing
            &&& v.screen == Screen::Intro ==> w == SessionView { screen: Screen::Start, ..v }
                && c == Command::Nothing
            &&& (v.screen == Screen::Start && v.cursor == 0) ==> w == SessionView { screen: Screen::Game, ..v }
                && c == Command::NewGame {
                diff: Some(if v.difficulty == 0 { 1250u32 } else if v.difficulty == 1 { 1000u32 } else { 750u32 }),
            }
            &&& (v.screen == Screen::Start && v.cursor == 1) ==> w == SessionView { screen: Screen::Options, ..v }
                && c == Command::Nothing
            &&& (v.screen == Screen::Start && v.cursor == 2) ==> w == SessionView { screen: Screen::Credits, ..v }
                && c == Command::Nothing
            &&& (v.screen == Screen::Start && v.cursor == 3) ==> w == v && c == Command::Exit
            &&& (v.screen == Screen::GameOver && name_entered) ==> w == SessionView { final_score: 0, ..v }
                && c == Command::SubmitScore { score: v.final_score }
            &&& (v.screen == Screen::GameOver && !name_entered) ==> w == v && c == Command::Nothing
        }),
{
}

/// On the start menu Up and Down move the cursor one entry, stopping at the
/// first and the last of the four entries; nothing else changes.
pub proof fn lemma_start_menu_keys(v: SessionView)
    requires
        v.wf(),
        v.screen == Screen::Start,
    ensures
        step(v, Event::Down) == (
            SessionView { cursor: if v.cursor < 3 { v.cursor + 1 } else { 3 }, ..v },
            Command::Nothing,
        ),
        step(v, Event::Up) == (
            SessionView { cursor: if v.cursor > 0 { v.cursor - 1 } else { 0 }, ..v },
            Command::Nothing,
        ),
        step(v, Event::Left) == (v, Command::Nothing),
        step(v, Event::Right) == (v, Command::Nothing),
{
}

/// On the options screen Up and Down move between the three lines, and Left
/// and Right change the setting of the selected line by one within its range:
/// difficulty 0 to 2, full screen 0 to 1 (switching the window along), clears
/// 1 to 10. Nothing else changes.
pub proof fn lemma_options_keys(v: SessionView)
    requires
        v.wf(),
        v.screen == Screen::Options,
    ensures
        step(v, Event::Down) == (
            SessionView { option: if v.option < 2 { v.option + 1 } else { 2 }, ..v },
            Command::Nothing,
        ),
        step(v, Event::Up) == (
            SessionView { option: if v.option > 0 { v.option - 1 } else { 0 }, ..v },
            Command::Nothing,
        ),
        v.option == 0 ==> step(v, Event::Right) == (
            SessionView { difficulty: if v.difficulty < 2 { v.difficulty + 1 } else { 2 }, ..v },
            Command::Nothing,
        ),
        v.option == 0 ==> step(v, Event::Left) == (
            SessionView { difficulty: if v.difficulty > 0 { v.difficulty - 1 } else { 0 }, ..v },
            Command::Nothing,
        ),
        v.option == 1 ==> step(v, Event::Right) == if v.fullscreen == 0 {
            (SessionView { fullscreen: 1, ..v }, Command::Fullscreen { on: true })
        } else {
            (v, Command::Nothing)
        },
        v.option == 1 ==> step(v, Event::Left) == if v.fullscreen == 1 {
            (SessionView { fullscreen: 0, ..v }, Command::Fullscreen { on: false })
        } else {
            (v, Command::Nothing)
        },
        v.option == 2 ==> step(v, Event::Right) == (
            SessionView { clears: if v.clears < 10 { v.clears + 1 } else { 10 }, ..v },
            Command::Nothing,
        ),
        v.option == 2 ==> step(v, Event::Left) == (
            SessionView { clears: if v.clears > 1 { v.clears - 1 } else { 1 }, ..v },
            Command::Nothing,
        ),
        step(v, Event::A) == (v, Command::Nothing),
        step(v, Event::S) == (v, Command::Nothing),
{
}

/// On the intro, the credits and the game over screen the arrow keys and A
/// and S do nothing.
pub proof fn lemma_still_screens_ignore_arrows(v: SessionView, e: Event)
    requires
        v.screen == Screen::Intro || v.screen == Screen::Credits || v.screen == Screen::GameOver,
        e == Event::Up || e == Event::Down || e == Event::Left || e == Event::Right || e == Event::A
            || e == Event::S,
    ensures
        step(v, e) == (v, Command::Nothing),
{
}

/// Backspace deletes a typed character on the game over screen only, and
/// changes no state.
pub proof fn lemma_backspace(v: SessionView)
    ensures
        step(v, Event::Backspace) == (
            v,
            if v.screen == Screen::GameOver { Command::DeleteChar } else { Command::Nothing },
        ),
{
}

/// A frame changes the state only on the intro, changes the clock only
/// during a game, and acts on the field only during a game.
pub proof fn lemma_frame_changes_little(v: SessionView, c: Clock, diff: u32)
    ensures
        ({
            let (w, d, t) = frame_step(v, c, diff);
            &&& v.screen != Screen::Intro ==> w == v
            &&& v.screen == Screen::Intro ==> (w.screen == Screen::Start || w == v)
            &&& v.screen == Screen::Intro ==> w == SessionView { screen: w.screen, ..v }
            &&& v.screen != Screen::Game ==> d == c && t == Tick::Idle
        }),
{
}

/// The intro gives way to the start menu at the first frame that counts at
/// least four whole seconds past the start time.
pub proof fn lemma_intro_leaves_after_four_counted_seconds(v: SessionView, c: Clock, diff: u32)
    requires
        v.screen == Screen::Intro,
    ensures
        frame_step(v, c, diff).0.screen == (if c.tick_count >= (c.start_time + 4) * 1000 {
            Screen::Start
        } else {
            Screen::Intro
        }),
{
}

/// The end of a game, and only of a running one, shows the game over screen
/// with its score pending; a game that goes on, or any other screen, is left
/// as it is.
pub proof fn lemma_end_of_game(v: SessionView, game_over: bool, score: u32)
    ensures
        (v.screen == Screen::Game && game_over) ==> after_blocks(v, game_over, score)
            == (SessionView { screen: Screen::GameOver, final_score: score, ..v }),
        !(v.screen == Screen::Game && game_over) ==> after_blocks(v, game_over, score) == v,
{
}

} // verus!

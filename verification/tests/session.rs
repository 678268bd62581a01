use masterpiece::clock::Clock;
use masterpiece::session::{Command, Event, Screen, Session, Tick};

fn at_start() -> Session {
    let mut s = Session::new();
    assert_eq!(s.handle(Event::Return { name_entered: false }), Command::Nothing);
    assert_eq!(s.screen(), Screen::Start);
    s
}

fn at_options() -> Session {
    let mut s = at_start();
    s.handle(Event::Down);
    assert_eq!(s.handle(Event::Return { name_entered: false }), Command::Nothing);
    assert_eq!(s.screen(), Screen::Options);
    s
}

fn in_game() -> Session {
    let mut s = at_start();
    s.handle(Event::Return { name_entered: false });
    assert_eq!(s.screen(), Screen::Game);
    s
}

#[test]
fn starts_on_intro_with_default_settings() {
    let s = Session::new();
    assert_eq!(s.screen(), Screen::Intro);
    assert_eq!(s.cursor(), 0);
    assert_eq!(s.option(), 0);
    assert_eq!(s.difficulty(), 0);
    assert_eq!(s.fullscreen(), 0);
    assert_eq!(s.clears(), 5);
    assert_eq!(s.final_score(), 0);
}

#[test]
fn escape_quits_from_start_and_returns_otherwise() {
    let mut s = at_start();
    assert_eq!(s.handle(Event::Escape), Command::Quit);
    assert_eq!(s.screen(), Screen::Start);
    let mut s = Session::new();
    assert_eq!(s.handle(Event::Escape), Command::Nothing);
    assert_eq!(s.screen(), Screen::Start);
    let mut s = at_options();
    assert_eq!(s.handle(Event::Escape), Command::Nothing);
    assert_eq!(s.screen(), Screen::Start);
    let mut s = in_game();
    assert_eq!(s.handle(Event::Escape), Command::Nothing);
    assert_eq!(s.screen(), Screen::Start);
}

#[test]
fn start_cursor_stays_in_menu() {
    let mut s = at_start();
    s.handle(Event::Up);
    assert_eq!(s.cursor(), 0);
    for _ in 0..5 {
        s.handle(Event::Down);
    }
    assert_eq!(s.cursor(), 3);
    s.handle(Event::Up);
    assert_eq!(s.cursor(), 2);
    s.handle(Event::Down);
    assert_eq!(s.cursor(), 3);
}

#[test]
fn start_menu_entries() {
    let mut s = at_start();
    s.handle(Event::Down);
    s.handle(Event::Return { name_entered: false });
    assert_eq!(s.screen(), Screen::Options);
    let mut s = at_start();
    s.handle(Event::Down);
    s.handle(Event::Down);
    s.handle(Event::Return { name_entered: false });
    assert_eq!(s.screen(), Screen::Credits);
    let mut s = at_start();
    s.handle(Event::Down);
    s.handle(Event::Down);
    s.handle(Event::Down);
    assert_eq!(s.handle(Event::Return { name_entered: false }), Command::Exit);
    assert_eq!(s.screen(), Screen::Start);
}

#[test]
fn new_game_takes_the_difficulty_interval() {
    let mut s = at_start();
    assert_eq!(s.handle(Event::Return { name_entered: false }), Command::NewGame { diff: Some(1250) });
    let mut s = at_options();
    s.handle(Event::Up);
    s.handle(Event::Right);
    assert_eq!(s.difficulty(), 1);
    s.handle(Event::Escape);
    assert_eq!(s.cursor(), 1);
    s.handle(Event::Up);
    assert_eq!(s.handle(Event::Return { name_entered: false }), Command::NewGame { diff: Some(1000) });
    let mut s = at_options();
    s.handle(Event::Up);
    s.handle(Event::Right);
    s.handle(Event::Right);
    s.handle(Event::Right);
    assert_eq!(s.difficulty(), 2);
    s.handle(Event::Escape);
    s.handle(Event::Up);
    assert_eq!(s.handle(Event::Return { name_entered: false }), Command::NewGame { diff: Some(750) });
}

#[test]
fn options_settings_stay_in_range() {
    let mut s = at_options();
    assert_eq!(s.option(), 0);
    s.handle(Event::Up);
    assert_eq!(s.option(), 0);
    s.handle(Event::Left);
    assert_eq!(s.difficulty(), 0);
    s.handle(Event::Down);
    s.handle(Event::Down);
    s.handle(Event::Down);
    assert_eq!(s.option(), 2);
    for _ in 0..12 {
        s.handle(Event::Right);
    }
    assert_eq!(s.clears(), 10);
    for _ in 0..12 {
        s.handle(Event::Left);
    }
    assert_eq!(s.clears(), 1);
}

#[test]
fn fullscreen_command_follows_setting() {
    let mut s = at_options();
    s.handle(Event::Down);
    assert_eq!(s.option(), 1);
    assert_eq!(s.handle(Event::Left), Command::Nothing);
    assert_eq!(s.handle(Event::Right), Command::Fullscreen { on: true });
    assert_eq!(s.fullscreen(), 1);
    assert_eq!(s.handle(Event::Right), Command::Nothing);
    assert_eq!(s.handle(Event::Left), Command::Fullscreen { on: false });
    assert_eq!(s.fullscreen(), 0);
}

#[test]
fn left_undoes_right_on_options() {
    let mut s = at_options();
    s.handle(Event::Down);
    s.handle(Event::Down);
    let before = s.clears();
    s.handle(Event::Right);
    assert_eq!(s.clears(), before + 1);
    s.handle(Event::Left);
    assert_eq!(s.clears(), before);
}

#[test]
fn game_keys_act_on_the_field() {
    let mut s = in_game();
    assert_eq!(s.handle(Event::Up), Command::SwapPieceColors);
    assert_eq!(s.handle(Event::Down), Command::MoveDown);
    assert_eq!(s.handle(Event::Left), Command::MoveLeft);
    assert_eq!(s.handle(Event::Right), Command::MoveRight);
    assert_eq!(s.handle(Event::A), Command::ShiftLeft);
    assert_eq!(s.handle(Event::S), Command::ShiftRight);
    assert_eq!(s.screen(), Screen::Game);
    let mut s = at_start();
    assert_eq!(s.handle(Event::A), Command::Nothing);
    assert_eq!(s.handle(Event::S), Command::Nothing);
}

#[test]
fn intro_lasts_more_than_three_seconds() {
    let mut s = Session::new();
    let mut c = Clock::new();
    c.advance(10_000);
    assert_eq!(c.start_time, 10);
    assert_eq!(s.frame(&mut c, 750), Tick::Idle);
    assert_eq!(s.screen(), Screen::Intro);
    c.advance(13_999);
    s.frame(&mut c, 750);
    assert_eq!(s.screen(), Screen::Intro);
    c.advance(14_000);
    s.frame(&mut c, 750);
    assert_eq!(s.screen(), Screen::Start);
}

#[test]
fn piece_falls_after_the_interval() {
    let mut s = in_game();
    let mut c = Clock { prev_tick: 1000, tick_count: 0, start_time: 1 };
    c.advance(1750);
    assert_eq!(s.frame(&mut c, 750), Tick::RunBlocks { drop_first: false });
    assert_eq!(c.tick_count, 750);
    c.advance(1751);
    assert_eq!(s.frame(&mut c, 750), Tick::RunBlocks { drop_first: true });
    assert_eq!(c.tick_count, 0);
}

#[test]
fn game_over_score_is_entered() {
    let mut s = in_game();
    s.blocks_done(false, 40);
    assert_eq!(s.screen(), Screen::Game);
    s.blocks_done(true, 120);
    assert_eq!(s.screen(), Screen::GameOver);
    assert_eq!(s.final_score(), 120);
    assert_eq!(s.handle(Event::Text), Command::TypeText);
    assert_eq!(s.handle(Event::Backspace), Command::DeleteChar);
    assert_eq!(s.handle(Event::Return { name_entered: false }), Command::Nothing);
    assert_eq!(s.handle(Event::Return { name_entered: true }), Command::SubmitScore { score: 120 });
    assert_eq!(s.final_score(), 0);
    assert_eq!(s.handle(Event::Text), Command::Nothing);
    assert_eq!(s.screen(), Screen::GameOver);
}

#[test]
fn typing_outside_game_over_is_ignored() {
    let mut s = at_start();
    assert_eq!(s.handle(Event::Text), Command::Nothing);
    assert_eq!(s.handle(Event::Backspace), Command::Nothing);
}

#[test]
fn blocks_done_outside_a_game_changes_nothing() {
    let mut s = at_start();
    s.blocks_done(true, 99);
    assert_eq!(s.screen(), Screen::Start);
    assert_eq!(s.final_score(), 0);
}

use masterpiece::board::{GridView, Piece};
use masterpiece::draw::{DrawOp, Font, Rect, Rgb};
use masterpiece::screens::{draw_credits, draw_game, draw_game_over, draw_intro, draw_options, draw_start, GameView};
use masterpiece::session::{Event, Session};

const WHITE: Rgb = Rgb { r: 255, g: 255, b: 255 };
const RED: Rgb = Rgb { r: 255, g: 0, b: 0 };
const BLUE: Rgb = Rgb { r: 0, g: 0, b: 255 };
const GREEN: Rgb = Rgb { r: 0, g: 255, b: 0 };
const BLACK: Rgb = Rgb { r: 0, g: 0, b: 0 };
const PANEL: Rect = Rect { x: 35, y: 82, w: 586, h: 370 };

fn text(font: Font, x: i32, y: i32, color: Rgb, s: &str) -> DrawOp {
    DrawOp::Text { font, x, y, color, text: s.to_string() }
}

fn game_view() -> GameView {
    GameView {
        score: 350,
        lines: 12,
        grid: GridView { width: 1, height: 1, points: vec![vec![0]] },
        block: [Piece { x: 0, y: 0, color: 1 }; 3],
        next_piece: [Piece { x: 0, y: 0, color: 6 }, Piece { x: 0, y: 1, color: 7 }, Piece { x: 0, y: 2, color: 8 }],
    }
}

#[test]
fn intro_screen() {
    assert_eq!(draw_intro(), vec![DrawOp::Clear, DrawOp::Image { index: 0, dest: None }]);
}

#[test]
fn start_cursor_positions() {
    for (cursor, y) in [(0, 170), (1, 240), (2, 310), (3, 380), (7, 0)] {
        let ops = draw_start(cursor);
        assert_eq!(ops[2], DrawOp::Image { index: 3, dest: Some(Rect { x: 250, y, w: 64, h: 64 }) });
    }
}

#[test]
fn options_screen_shows_settings() {
    let mut s = Session::new();
    s.handle(Event::Escape);
    s.handle(Event::Down);
    s.handle(Event::Return { name_entered: false });
    s.handle(Event::Right);
    s.handle(Event::Down);
    s.handle(Event::Right);
    s.handle(Event::Down);
    let ops = draw_options(&s);
    assert_eq!(
        ops,
        vec![
            DrawOp::Clear,
            DrawOp::Image { index: 1, dest: None },
            DrawOp::Fill { rect: PANEL, color: BLACK },
            text(Font::Large, 50, 95, WHITE, "[ Press Escape to Return ]"),
            text(Font::Small, 75, 150, BLUE, "Difficulty: Normal"),
            text(Font::Small, 55, 200, RED, "=)>"),
            text(Font::Small, 75, 175, BLUE, "Fullscreen: True"),
            text(Font::Small, 75, 200, BLUE, "Clears until increase: 5"),
        ]
    );
}

#[test]
fn credits_screen() {
    let ops = draw_credits();
    assert_eq!(ops.len(), 8);
    assert_eq!(ops[3], text(Font::Large, 175, 100, WHITE, "MasterPiece - [ Rust Edition ]"));
    assert_eq!(ops[4], text(Font::Large, 75, 150, Rgb { r: 255, g: 255, b: 0 }, "Programmed by Jared Bruni"));
    assert_eq!(ops[7], DrawOp::Image { index: 4, dest: Some(Rect { x: 340, y: 180, w: 240, h: 240 }) });
}

#[test]
fn game_over_with_pending_score() {
    let ops = draw_game_over(120, "Ann", &vec![("Bob".to_string(), 7)]);
    assert_eq!(
        ops[4..].to_vec(),
        vec![
            text(Font::Small, 75, 150, GREEN, "Final Score: 120"),
            text(Font::Small, 75, 200, WHITE, "Enter your name: "),
            text(Font::Small, 75, 225, WHITE, "Ann"),
        ]
    );
    assert_eq!(ops[3], text(Font::Large, 100, 100, WHITE, "MasterPiece - [ Game Over Escape to Return ]"));
}

#[test]
fn game_over_shows_high_scores() {
    let scores = vec![("Ann".to_string(), 900), ("Bob".to_string(), 40)];
    let ops = draw_game_over(0, "", &scores);
    assert_eq!(
        ops[4..].to_vec(),
        vec![text(Font::Small, 175, 150, RED, "Ann: 900"), text(Font::Small, 175, 170, RED, "Bob: 40")]
    );
}

#[test]
fn game_frame() {
    let ops = draw_game(&game_view());
    assert_eq!(ops.len(), 4 + 1 + 3 + 3);
    assert_eq!(ops[1], DrawOp::Image { index: 2, dest: None });
    assert_eq!(ops[2], text(Font::Small, 200, 60, WHITE, "Score: 350"));
    assert_eq!(ops[3], text(Font::Small, 310, 60, RED, "Tabs: 12"));
    assert_eq!(ops[4], DrawOp::Fill { rect: Rect { x: 186, y: 96, w: 31, h: 15 }, color: BLACK });
    assert_eq!(ops[8], DrawOp::Block { index: 6, dest: Rect { x: 510, y: 200, w: 32, h: 16 } });
    assert_eq!(ops[9], DrawOp::Block { index: 7, dest: Rect { x: 510, y: 216, w: 32, h: 16 } });
    assert_eq!(ops[10], DrawOp::Block { index: 8, dest: Rect { x: 510, y: 232, w: 32, h: 16 } });
}

#[test]
fn render_follows_the_screen() {
    let mut s = Session::new();
    let g = game_view();
    let none: Vec<(String, u32)> = vec![];
    assert_eq!(s.render(&g, "", &none), draw_intro());
    s.handle(Event::Escape);
    assert_eq!(s.render(&g, "", &none), draw_start(0));
    s.handle(Event::Return { name_entered: false });
    let ops = s.render(&g, "", &none);
    assert_eq!(ops[2], text(Font::Small, 200, 60, WHITE, "Score: 350"));
}

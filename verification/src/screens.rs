//! What each screen draws on the 640x480 target texture.
use vstd::prelude::*;
use vstd::string::*;
use crate::board::{draw_grid, grid_ops, shades_cover, shades_in_range, GridView, Piece};
use crate::draw::{black, blue, emit, green, rect, red, views, white, yellow, DrawOp, Font, OpView, Rect, Rgb};
use crate::session::{Screen, Session, SessionView};
use crate::text::{decimal, labelled, push_decimal};

verus! {

/// What a game frame shows of the game.
pub struct GameView {
    pub score: u32,
    pub lines: u32,
    pub grid: GridView,
    /// The falling piece.
    pub block: [Piece; 3],
    /// The piece that comes next.
    pub next_piece: [Piece; 3],
}

impl GameView {
    /// The field is well formed and every block can be drawn.
    pub open spec fn wf(&self) -> bool {
        &&& self.grid.wf()
        &&& self.block[0].fits()
        &&& self.block[1].fits()
        &&& self.block[2].fits()
        &&& self.next_piece[0].color >= 0
        &&& self.next_piece[1].color >= 0
        &&& self.next_piece[2].color >= 0
    }
}

pub open spec fn text_op(font: Font, x: int, y: int, color: Rgb, text: Seq<char>) -> OpView {
    OpView::Text { font, x: x as i32, y: y as i32, color, text }
}

/// The black panel behind the text of the menus.
pub open spec fn panel() -> Rect {
    rect(35, 82, 586, 370)
}

pub open spec fn intro_ops() -> Seq<OpView> {
    seq![OpView::Clear, OpView::Image { index: 0, dest: None }]
}

/// The height at which the start menu's cursor stands beside entry `cursor`.
pub open spec fn cursor_y(cursor: int) -> int {
    if cursor == 0 {
        170
    } else if cursor == 1 {
        240
    } else if cursor == 2 {
        310
    } else if cursor == 3 {
        380
    } else {
        0
    }
}

pub open spec fn start_ops(cursor: int) -> Seq<OpView> {
    seq![
        OpView::Clear,
        OpView::Image { index: 1, dest: None },
        OpView::Image { index: 3, dest: Some(rect(250, cursor_y(cursor), 64, 64)) },
    ]
}

pub open spec fn difficulty_label(difficulty: int) -> Seq<char> {
    if difficulty == 0 {
        "Difficulty: Easy"@
    } else if difficulty == 1 {
        "Difficulty: Normal"@
    } else {
        "Difficulty: Hard"@
    }
}

pub open spec fn fullscreen_label(fullscreen: int) -> Seq<char> {
    if fullscreen == 0 {
        "Fullscreen: False"@
    } else {
        "Fullscreen: True"@
    }
}

pub open spec fn options_ops(v: SessionView) -> Seq<OpView> {
    seq![
        OpView::Clear,
        OpView::Image { index: 1, dest: None },
        OpView::Fill { rect: panel(), color: black() },
        text_op(Font::Large, 50, 95, white(), "[ Press Escape to Return ]"@),
        text_op(Font::Small, 75, 150, blue(), difficulty_label(v.difficulty)),
        text_op(Font::Small, 55, 150 + 25 * v.option, red(), "=)>"@),
        text_op(Font::Small, 75, 175, blue(), fullscreen_label(v.fullscreen)),
        text_op(Font::Small, 75, 200, blue(), "Clears until increase: "@ + decimal(v.clears as nat)),
    ]
}

pub open spec fn credits_ops() -> Seq<OpView> {
    seq![
        OpView::Clear,
        OpView::Image { index: 1, dest: None },
        OpView::Fill { rect: panel(), color: black() },
        text_op(Font::Large, 175, 100, white(), "MasterPiece - [ Rust Edition ]"@),
        text_op(Font::Large, 75, 150, yellow(), "Programmed by Jared Bruni"@),
        text_op(Font::Large, 75, 175, green(), "LostSideDead Software"@),
        text_op(Font::Large, 75, 200, red(), "Open Source, Open Mind"@),
        OpView::Image { index: 4, dest: Some(rect(340, 180, 240, 240)) },
    ]
}

/// The line of the high-score table for entry `i`, name `name` and score `score`.
pub open spec fn score_line(i: int, name: Seq<char>, score: u32) -> OpView {
    text_op(Font::Small, 175, 150 + 20 * i, red(), name + ": "@ + decimal(score as nat))
}

/// The high-score table, one line per entry from the top.
pub open spec fn score_lines(scores: Seq<(Seq<char>, u32)>) -> Seq<OpView> {
    Seq::new(scores.len(), |i: int| score_line(i, scores[i].0, scores[i].1))
}

/// The entries of a high-score table as names and scores.
pub open spec fn score_views(scores: Seq<(String, u32)>) -> Seq<(Seq<char>, u32)> {
    scores.map_values(|e: (String, u32)| (e.0@, e.1))
}

/// The game over screen: with a score to enter, the score and a prompt; the
/// name typed so far, if any; with no score to enter, the high-score table.
pub open spec fn game_over_ops(final_score: u32, name: Seq<char>, scores: Seq<(Seq<char>, u32)>) -> Seq<OpView> {
    seq![
        OpView::Clear,
        OpView::Image { index: 1, dest: None },
        OpView::Fill { rect: panel(), color: black() },
        text_op(Font::Large, 100, 100, white(), "MasterPiece - [ Game Over Escape to Return ]"@),
    ] + (if final_score > 0 {
        seq![
            text_op(Font::Small, 75, 150, green(), "Final Score: "@ + decimal(final_score as nat)),
            text_op(Font::Small, 75, 200, white(), "Enter your name: "@),
        ]
    } else {
        Seq::empty()
    }) + (if name.len() > 0 {
        seq![text_op(Font::Small, 75, 225, white(), name)]
    } else {
        Seq::empty()
    }) + (if final_score == 0 {
        score_lines(scores)
    } else {
        Seq::empty()
    })
}

/// The block of the next piece's block `p`, `k` rows below the top of the preview.
pub open spec fn preview_op(p: Piece, k: int) -> OpView {
    OpView::Block { index: p.color as usize, dest: rect(510, 200 + 16 * k, 32, 16) }
}

/// A game frame: the background, the score and the cleared lines, the field
/// drawn as `field`, and the next piece.
pub open spec fn game_ops(score: u32, lines: u32, field: Seq<OpView>, next: [Piece; 3]) -> Seq<OpView> {
    seq![
        OpView::Clear,
        OpView::Image { index: 2, dest: None },
        text_op(Font::Small, 200, 60, white(), "Score: "@ + decimal(score as nat)),
        text_op(Font::Small, 310, 60, red(), "Tabs: "@ + decimal(lines as nat)),
    ] + field + seq![preview_op(next[0], 0), preview_op(next[1], 1), preview_op(next[2], 2)]
}

/// The intro shows image 0 (the intro picture) over the whole target.
pub proof fn lemma_intro_screen()
    ensures
        intro_ops() == seq![OpView::Clear, OpView::Image { index: 0, dest: None }],
{
}

/// The start menu shows image 1 (the menu picture, not the intro's image 0)
/// over the whole target and image 3, the 64x64 cursor, at x 250 beside the
/// selected entry: 170 pixels down for the first and 70 more for each next one.
pub proof fn lemma_start_screen(cursor: int)
    requires
        0 <= cursor <= 3,
    ensures
        start_ops(cursor) == seq![
            OpView::Clear,
            OpView::Image { index: 1, dest: None },
            OpView::Image {
                index: 3,
                dest: Some(Rect { x: 250, y: (170 + 70 * cursor) as i32, w: 64, h: 64 }),
            },
        ],
        start_ops(cursor)[1] != intro_ops()[1],
{
}

/// The options screen: the menu picture, a black panel, the title, then in
/// blue the difficulty by name (easy for the 1250 ms interval, normal for
/// 1000 ms, hard for 750 ms), in red the cursor 25 pixels lower per line, in
/// blue the window mode and the clears until the game speeds up.
pub proof fn lemma_options_screen(v: SessionView)
    requires
        v.wf(),
    ensures
        options_ops(v) == seq![
            OpView::Clear,
            OpView::Image { index: 1, dest: None },
            OpView::Fill { rect: Rect { x: 35, y: 82, w: 586, h: 370 }, color: Rgb { r: 0, g: 0, b: 0 } },
            OpView::Text {
                font: Font::Large,
                x: 50,
                y: 95,
                color: Rgb { r: 255, g: 255, b: 255 },
                text: "[ Press Escape to Return ]"@,
            },
            OpView::Text {
                font: Font::Small,
                x: 75,
                y: 150,
                color: Rgb { r: 0, g: 0, b: 255 },
                text: if v.difficulty == 0 {
                    "Difficulty: Easy"@
                } else if v.difficulty == 1 {
                    "Difficulty: Normal"@
                } else {
                    "Difficulty: Hard"@
                },
            },
            OpView::Text {
                font: Font::Small,
                x: 55,
                y: (150 + 25 * v.option) as i32,
                color: Rgb { r: 255, g: 0, b: 0 },
                text: "=)>"@,
            },
            OpView::Text {
                font: Font::Small,
                x: 75,
                y: 175,
                color: Rgb { r: 0, g: 0, b: 255 },
                text: if v.fullscreen == 0 { "Fullscreen: False"@ } else { "Fullscreen: True"@ },
            },
            OpView::Text {
                font: Font::Small,
                x: 75,
                y: 200,
                color: Rgb { r: 0, g: 0, b: 255 },
                text: "Clears until increase: "@ + decimal(v.clears as nat),
            },
        ],
        crate::session::diff_for(v.difficulty) == Some(1250u32) ==> options_ops(v)[4]->text
            == "Difficulty: Easy"@,
        crate::session::diff_for(v.difficulty) == Some(1000u32) ==> options_ops(v)[4]->text
            == "Difficulty: Normal"@,
        crate::session::diff_for(v.difficulty) == Some(750u32) ==> options_ops(v)[4]->text
            == "Difficulty: Hard"@,
{
}

/// The credits: the menu picture, a black panel, four lines of large text,
/// and image 4, the logo, as a 240x240 square at (340, 180).
pub proof fn lemma_credits_screen()
    ensures
        credits_ops() == seq![
            OpView::Clear,
            OpView::Image { index: 1, dest: None },
            OpView::Fill { rect: Rect { x: 35, y: 82, w: 586, h: 370 }, color: Rgb { r: 0, g: 0, b: 0 } },
            OpView::Text {
                font: Font::Large,
                x: 175,
                y: 100,
                color: Rgb { r: 255, g: 255, b: 255 },
                text: "MasterPiece - [ Rust Edition ]"@,
            },
            OpView::Text {
                font: Font::Large,
                x: 75,
                y: 150,
                color: Rgb { r: 255, g: 255, b: 0 },
                text: "Programmed by Jared Bruni"@,
            },
            OpView::Text {
                font: Font::Large,
                x: 75,
                y: 175,
                color: Rgb { r: 0, g: 255, b: 0 },
                text: "LostSideDead Software"@,
            },
            OpView::Text {
                font: Font::Large,
                x: 75,
                y: 200,
                color: Rgb { r: 255, g: 0, b: 0 },
                text: "Open Source, Open Mind"@,
            },
            OpView::Image { index: 4, dest: Some(Rect { x: 340, y: 180, w: 240, h: 240 }) },
        ],
{
}

/// The game over screen: the menu picture, a black panel and the title; with
/// a score pending, the score in green and a prompt; the typed name if there
/// is one; with no score pending, the high-score table in red, one entry per
/// 20 pixels from 150 down, each as its name, ": " and its score.
pub proof fn lemma_game_over_screen(final_score: u32, name: Seq<char>, scores: Seq<(Seq<char>, u32)>)
    ensures
        ({
            let ops = game_over_ops(final_score, name, scores);
            let head = seq![
                OpView::Clear,
                OpView::Image { index: 1, dest: None },
                OpView::Fill { rect: Rect { x: 35, y: 82, w: 586, h: 370 }, color: Rgb { r: 0, g: 0, b: 0 } },
                OpView::Text {
                    font: Font::Large,
                    x: 100,
                    y: 100,
                    color: Rgb { r: 255, g: 255, b: 255 },
                    text: "MasterPiece - [ Game Over Escape to Return ]"@,
                },
            ];
            let pending = seq![
                OpView::Text {
                    font: Font::Small,
                    x: 75,
                    y: 150,
                    color: Rgb { r: 0, g: 255, b: 0 },
                    text: "Final Score: "@ + decimal(final_score as nat),
                },
                OpView::Text {
                    font: Font::Small,
                    x: 75,
                    y: 200,
                    color: Rgb { r: 255, g: 255, b: 255 },
                    text: "Enter your name: "@,
                },
            ];
            let typed = seq![
                OpView::Text { font: Font::Small, x: 75, y: 225, color: Rgb { r: 255, g: 255, b: 255 }, text: name },
            ];
            let table = Seq::new(
                scores.len(),
                |i: int|
                    OpView::Text {
                        font: Font::Small,
                        x: 175,
                        y: (150 + 20 * i) as i32,
                        color: Rgb { r: 255, g: 0, b: 0 },
                        text: scores[i].0 + ": "@ + decimal(scores[i].1 as nat),
                    },
            );
            &&& (final_score > 0 && name.len() > 0) ==> ops == head + pending + typed
            &&& (final_score > 0 && name.len() == 0) ==> ops == head + pending
            &&& (final_score == 0 && name.len() > 0) ==> ops == head + typed + table
            &&& (final_score == 0 && name.len() == 0) ==> ops == head + table
        }),
{
    let table = Seq::new(
        scores.len(),
        |i: int|
            OpView::Text {
                font: Font::Small,
                x: 175,
                y: (150 + 20 * i) as i32,
                color: Rgb { r: 255, g: 0, b: 0 },
                text: scores[i].0 + ": "@ + decimal(scores[i].1 as nat),
            },
    );
    assert(score_lines(scores) =~= table);
}

/// A game frame: the game background (image 2), the score in white at
/// (200, 60) and the cleared lines in red at (310, 60), the field, and the
/// next piece's three blocks as a column of 32x16 blocks from (510, 200).
pub proof fn lemma_game_screen(score: u32, lines: u32, field: Seq<OpView>, next: [Piece; 3])
    ensures
        game_ops(score, lines, field, next) == seq![
            OpView::Clear,
            OpView::Image { index: 2, dest: None },
            OpView::Text {
                font: Font::Small,
                x: 200,
                y: 60,
                color: Rgb { r: 255, g: 255, b: 255 },
                text: "Score: "@ + decimal(score as nat),
            },
            OpView::Text {
                font: Font::Small,
                x: 310,
                y: 60,
                color: Rgb { r: 255, g: 0, b: 0 },
                text: "Tabs: "@ + decimal(lines as nat),
            },
        ] + field + seq![
            OpView::Block { index: next[0].color as usize, dest: Rect { x: 510, y: 200, w: 32, h: 16 } },
            OpView::Block { index: next[1].color as usize, dest: Rect { x: 510, y: 216, w: 32, h: 16 } },
            OpView::Block { index: next[2].color as usize, dest: Rect { x: 510, y: 232, w: 32, h: 16 } },
        ],
{
}

fn text_line(font: Font, x: i32, y: i32, color: Rgb, s: &str) -> (op: DrawOp)
    ensures
        op@ == text_op(font, x as int, y as int, color, s@),
{
    DrawOp::Text { font, x, y, color, text: String::from_str(s) }
}

fn fill_panel() -> (op: DrawOp)
    ensures
        op@ == (OpView::Fill { rect: panel(), color: black() }),
{
    DrawOp::Fill { rect: Rect { x: 35, y: 82, w: 586, h: 370 }, color: Rgb { r: 0, g: 0, b: 0 } }
}

/// The intro: its picture over the whole target.
pub fn draw_intro() -> (ops: Vec<DrawOp>)
    ensures
        views(ops@) == intro_ops(),
{
    let mut ops: Vec<DrawOp> = Vec::new();
    emit(&mut ops, DrawOp::Clear);
    emit(&mut ops, DrawOp::Image { index: 0, dest: None });
    assert(views(ops@) =~= intro_ops());
    ops
}

/// The start menu: its picture, and the cursor beside entry `cursor`.
pub fn draw_start(cursor: i32) -> (ops: Vec<DrawOp>)
    ensures
        views(ops@) == start_ops(cursor as int),
{
    let mut ops: Vec<DrawOp> = Vec::new();
    emit(&mut ops, DrawOp::Clear);
    emit(&mut ops, DrawOp::Image { index: 1, dest: None });
    let y: i32 = if cursor == 0 {
        170
    } else if cursor == 1 {
        170 + 70
    } else if cursor == 2 {
        170 + 70 * 2
    } else if cursor == 3 {
        170 + 70 * 3
    } else {
        0
    };
    emit(&mut ops, DrawOp::Image { index: 3, dest: Some(Rect { x: 250, y, w: 64, h: 64 }) });
    assert(views(ops@) =~= start_ops(cursor as int));
    ops
}

/// The options screen for the settings of `session`: the selected
/// difficulty, the window mode, the clears until the game speeds up, and the
/// cursor beside the selected line.
pub fn draw_options(session: &Session) -> (ops: Vec<DrawOp>)
    ensures
        views(ops@) == options_ops(session@),
{
    let difficulty = session.difficulty();
    let fullscreen = session.fullscreen();
    let clears = session.clears();
    let option = session.option();
    let mut ops: Vec<DrawOp> = Vec::new();
    emit(&mut ops, DrawOp::Clear);
    emit(&mut ops, DrawOp::Image { index: 1, dest: None });
    emit(&mut ops, fill_panel());
    emit(&mut ops, text_line(Font::Large, 50, 95, Rgb { r: 255, g: 255, b: 255 }, "[ Press Escape to Return ]"));
    let blue_ink = Rgb { r: 0, g: 0, b: 255 };
    let label = if difficulty == 0 {
        "Difficulty: Easy"
    } else if difficulty == 1 {
        "Difficulty: Normal"
    } else {
        "Difficulty: Hard"
    };
    emit(&mut ops, text_line(Font::Small, 75, 150, blue_ink, label));
    let cursor_y: i32 = 150 + option as i32 * 25;
    emit(&mut ops, text_line(Font::Small, 55, cursor_y, Rgb { r: 255, g: 0, b: 0 }, "=)>"));
    let label = if fullscreen == 0 {
        "Fullscreen: False"
    } else {
        "Fullscreen: True"
    };
    emit(&mut ops, text_line(Font::Small, 75, 150 + 25, blue_ink, label));
    let clears_text = labelled("Clears until increase: ", clears as u32);
    emit(&mut ops, DrawOp::Text { font: Font::Small, x: 75, y: 150 + 25 * 2, color: blue_ink, text: clears_text });
    assert(views(ops@) =~= options_ops(session@));
    ops
}

/// The credits.
pub fn draw_credits() -> (ops: Vec<DrawOp>)
    ensures
        views(ops@) == credits_ops(),
{
    let mut ops: Vec<DrawOp> = Vec::new();
    emit(&mut ops, DrawOp::Clear);
    emit(&mut ops, DrawOp::Image { index: 1, dest: None });
    emit(&mut ops, fill_panel());
    emit(&mut ops, text_line(Font::Large, 175, 100, Rgb { r: 255, g: 255, b: 255 }, "MasterPiece - [ Rust Edition ]"));
    emit(&mut ops, text_line(Font::Large, 75, 150, Rgb { r: 255, g: 255, b: 0 }, "Programmed by Jared Bruni"));
    emit(&mut ops, text_line(Font::Large, 75, 175, Rgb { r: 0, g: 255, b: 0 }, "LostSideDead Software"));
    emit(&mut ops, text_line(Font::Large, 75, 200, Rgb { r: 255, g: 0, b: 0 }, "Open Source, Open Mind"));
    emit(&mut ops, DrawOp::Image { index: 4, dest: Some(Rect { x: 640 - 300, y: 480 - 300, w: 240, h: 240 }) });
    assert(views(ops@) =~= credits_ops());
    ops
}

/// The game over screen for final score `final_score`, the typed `name` and
/// the high-score table `scores`.
pub fn draw_game_over(final_score: u32, name: &str, scores: &Vec<(String, u32)>) -> (ops: Vec<DrawOp>)
    requires
        150 + 20 * scores@.len() <= i32::MAX,
    ensures
        views(ops@) == game_over_ops(final_score, name@, score_views(scores@)),
{
    let mut ops: Vec<DrawOp> = Vec::new();
    emit(&mut ops, DrawOp::Clear);
    emit(&mut ops, DrawOp::Image { index: 1, dest: None });
    emit(&mut ops, fill_panel());
    emit(&mut ops, text_line(Font::Large, 100, 100, Rgb { r: 255, g: 255, b: 255 }, "MasterPiece - [ Game Over Escape to Return ]"));
    if final_score > 0 {
        let score_text = labelled("Final Score: ", final_score);
        emit(&mut ops, DrawOp::Text { font: Font::Small, x: 75, y: 150, color: Rgb { r: 0, g: 255, b: 0 }, text: score_text });
    }
    if final_score > 0 {
        emit(&mut ops, text_line(Font::Small, 75, 200, Rgb { r: 255, g: 255, b: 255 }, "Enter your name: "));
    }
    if !name.is_empty() {
        emit(&mut ops, text_line(Font::Small, 75, 225, Rgb { r: 255, g: 255, b: 255 }, name));
    }
    let ghost with_name = views(ops@);
    let ghost sv = score_views(scores@);
    if final_score == 0 {
        let mut i: usize = 0;
        let mut y: i32 = 150;
        while i < scores.len()
            invariant
                150 + 20 * scores@.len() <= i32::MAX,
                sv == score_views(scores@),
                i <= scores@.len(),
                y == 150 + 20 * i,
                views(ops@) == with_name + score_lines(sv.take(i as int)),
            decreases scores@.len() - i,
        {
            let mut line = scores[i].0.clone();
            line.append(": ");
            push_decimal(&mut line, scores[i].1);
            emit(&mut ops, DrawOp::Text { font: Font::Small, x: 175, y, color: Rgb { r: 255, g: 0, b: 0 }, text: line });
            assert(score_lines(sv.take(i + 1)) =~= score_lines(sv.take(i as int)).push(
                score_line(i as int, sv[i as int].0, sv[i as int].1),
            ));
            y = y + 20;
            i = i + 1;
        }
        assert(sv.take(i as int) =~= sv);
    }
    assert(views(ops@) =~= game_over_ops(final_score, name@, sv));
    ops
}

/// A game frame: the background, the score and the cleared lines, the field
/// with the falling piece, and the next piece in the preview.
pub fn draw_game(game: &GameView) -> (ops: Vec<DrawOp>)
    requires
        game.wf(),
    ensures
        exists|shades: Seq<Seq<Rgb>>|
            {
                &&& shades_cover(shades, game.grid.cells())
                &&& shades_in_range(shades)
                &&& views(ops@) == game_ops(
                    game.score,
                    game.lines,
                    grid_ops(game.grid.cells(), shades, game.block),
                    game.next_piece,
                )
            },
{
    let mut ops: Vec<DrawOp> = Vec::new();
    emit(&mut ops, DrawOp::Clear);
    emit(&mut ops, DrawOp::Image { index: 2, dest: None });
    let score_text = labelled("Score: ", game.score);
    emit(&mut ops, DrawOp::Text { font: Font::Small, x: 200, y: 60, color: Rgb { r: 255, g: 255, b: 255 }, text: score_text });
    let lines_text = labelled("Tabs: ", game.lines);
    emit(&mut ops, DrawOp::Text { font: Font::Small, x: 310, y: 60, color: Rgb { r: 255, g: 0, b: 0 }, text: lines_text });
    let ghost head = views(ops@);
    let mut field = draw_grid(&game.grid, &game.block);
    let ghost field_view = views(field@);
    let ghost before = ops@;
    let ghost added = field@;
    ops.append(&mut field);
    assert(views(ops@) =~= head + field_view) by {
        assert(ops@ == before + added);
        assert(views(before) == head);
    }
    let next = &game.next_piece;
    emit(&mut ops, DrawOp::Block { index: next[0].color as usize, dest: Rect { x: 510, y: 200, w: 32, h: 16 } });
    emit(&mut ops, DrawOp::Block { index: next[1].color as usize, dest: Rect { x: 510, y: 200 + 16, w: 32, h: 16 } });
    emit(&mut ops, DrawOp::Block { index: next[2].color as usize, dest: Rect { x: 510, y: 200 + 32, w: 32, h: 16 } });
    assert(views(ops@) =~= game_ops(game.score, game.lines, field_view, game.next_piece));
    ops
}

impl Session {
    /// Draws the screen shown: the intro, the start menu, the options, the
    /// credits, the game over screen (with `name` as the name typed so far and
    /// `scores` as the high-score table), or a frame of `game`.
    pub fn render(&self, game: &GameView, name: &str, scores: &Vec<(String, u32)>) -> (ops: Vec<DrawOp>)
        requires
            self@.screen == Screen::Game ==> game.wf(),
            150 + 20 * scores@.len() <= i32::MAX,
        ensures
            self@.screen == Screen::Intro ==> views(ops@) == intro_ops(),
            self@.screen == Screen::Start ==> views(ops@) == start_ops(self@.cursor),
            self@.screen == Screen::Options ==> views(ops@) == options_ops(self@),
            self@.screen == Screen::Credits ==> views(ops@) == credits_ops(),
            self@.screen == Screen::GameOver ==> views(ops@) == game_over_ops(
                self@.final_score,
                name@,
                score_views(scores@),
            ),
            self@.screen == Screen::Game ==> exists|shades: Seq<Seq<Rgb>>|
                {
                    &&& shades_cover(shades, game.grid.cells())
                    &&& shades_in_range(shades)
                    &&& views(ops@) == game_ops(
                        game.score,
                        game.lines,
                        grid_ops(game.grid.cells(), shades, game.block),
                        game.next_piece,
                    )
                },
    {
        match self.screen() {
            Screen::Intro => draw_intro(),
            Screen::Start => draw_start(self.cursor()),
            Screen::Options => draw_options(self),
            Screen::Credits => draw_credits(),
            Screen::GameOver => draw_game_over(self.final_score(), name, scores),
            Screen::Game => draw_game(game),
        }
    }
}

} // verus!

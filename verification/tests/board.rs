use masterpiece::board::{draw_cell, draw_grid, draw_piece, GridView, Piece};
use masterpiece::draw::{DrawOp, Rect, Rgb};

fn black() -> Rgb {
    Rgb { r: 0, g: 0, b: 0 }
}

#[test]
fn filled_cell_uses_its_block() {
    let op = draw_cell(2, 3, 5, black());
    assert_eq!(op, DrawOp::Block { index: 5, dest: Rect { x: 2 * 32 + 185, y: 3 * 16 + 95, w: 32, h: 16 } });
}

#[test]
fn empty_cell_is_a_black_inset_square() {
    let op = draw_cell(0, 0, 0, Rgb { r: 9, g: 9, b: 9 });
    assert_eq!(op, DrawOp::Fill { rect: Rect { x: 186, y: 96, w: 31, h: 15 }, color: black() });
}

#[test]
fn flashing_cell_takes_the_shade() {
    let shade = Rgb { r: 1, g: 2, b: 3 };
    let op = draw_cell(7, 16, -1, shade);
    assert_eq!(op, DrawOp::Fill { rect: Rect { x: 7 * 32 + 185, y: 16 * 16 + 95, w: 32, h: 16 }, color: shade });
}

#[test]
fn piece_block() {
    let op = draw_piece(Piece { x: 3, y: 0, color: 4 });
    assert_eq!(op, DrawOp::Block { index: 4, dest: Rect { x: 281, y: 95, w: 32, h: 16 } });
}

#[test]
fn grid_draws_each_cell_once_then_the_piece() {
    let grid = GridView { width: 2, height: 3, points: vec![vec![0, 1, -1], vec![2, 0, -3]] };
    let block = [Piece { x: 0, y: 0, color: 3 }, Piece { x: 0, y: 1, color: 4 }, Piece { x: 0, y: 2, color: 5 }];
    let ops = draw_grid(&grid, &block);
    assert_eq!(ops.len(), 2 * 3 + 3);
    assert_eq!(ops[0], DrawOp::Fill { rect: Rect { x: 186, y: 96, w: 31, h: 15 }, color: black() });
    assert_eq!(ops[1], DrawOp::Block { index: 1, dest: Rect { x: 185, y: 111, w: 32, h: 16 } });
    match &ops[2] {
        DrawOp::Fill { rect, color } => {
            assert_eq!(*rect, Rect { x: 185, y: 127, w: 32, h: 16 });
            assert!(color.r < 255 && color.g < 255 && color.b < 255);
        }
        other => panic!("unexpected {:?}", other),
    }
    assert_eq!(ops[3], DrawOp::Block { index: 2, dest: Rect { x: 217, y: 95, w: 32, h: 16 } });
    assert_eq!(ops[4], DrawOp::Fill { rect: Rect { x: 218, y: 112, w: 31, h: 15 }, color: black() });
    assert!(matches!(ops[5], DrawOp::Fill { rect: Rect { x: 217, y: 127, w: 32, h: 16 }, .. }));
    assert_eq!(ops[6], DrawOp::Block { index: 3, dest: Rect { x: 185, y: 95, w: 32, h: 16 } });
    assert_eq!(ops[7], DrawOp::Block { index: 4, dest: Rect { x: 185, y: 111, w: 32, h: 16 } });
    assert_eq!(ops[8], DrawOp::Block { index: 5, dest: Rect { x: 185, y: 127, w: 32, h: 16 } });
}

#[test]
fn flashing_shades_stay_below_full_intensity() {
    let grid = GridView { width: 8, height: 17, points: vec![vec![-1; 17]; 8] };
    let block = [Piece { x: 0, y: 0, color: 1 }; 3];
    for _ in 0..20 {
        let ops = draw_grid(&grid, &block);
        assert_eq!(ops.len(), 8 * 17 + 3);
        for op in &ops[..8 * 17] {
            match op {
                DrawOp::Fill { color, .. } => assert!(color.r < 255 && color.g < 255 && color.b < 255),
                other => panic!("unexpected {:?}", other),
            }
        }
    }
}

#[test]
fn empty_grid_draws_only_the_piece() {
    let grid = GridView { width: 0, height: 17, points: vec![] };
    let block = [Piece { x: 1, y: 1, color: 2 }; 3];
    let ops = draw_grid(&grid, &block);
    assert_eq!(ops.len(), 3);
}

//! The playing field drawn as 32x16 pixel cells below and to the right of
//! the point (185, 95) of the target texture.
use vstd::prelude::*;
use crate::draw::{black, emit, rect, views, DrawOp, OpView, Rect, Rgb};
use crate::shade::random_channel;

verus! {

/// Left edge of the field on the target texture.
pub const OFFSET_X: i32 = 185;

/// Top edge of the field on the target texture.
pub const OFFSET_Y: i32 = 95;

/// A block of the falling piece: its cell and its colour (a block texture index).
#[derive(Clone, Copy, Debug, PartialEq, Eq, Structural)]
pub struct Piece {
    pub x: i32,
    pub y: i32,
    pub color: i32,
}

/// The colours of the field's cells, `points[x][y]` for column `x` and row `y`:
/// 0 an empty cell, a positive number the block texture of a filled cell,
/// a negative number a cell that flashes while its line clears.
pub struct GridView {
    pub width: usize,
    pub height: usize,
    pub points: Vec<Vec<i32>>,
}

impl GridView {
    /// Every column holds `height` cells, and every cell's rectangle lies
    /// within the range of `i32` coordinates.
    pub open spec fn wf(&self) -> bool {
        &&& self.points@.len() == self.width
        &&& forall|x: int| 0 <= x < self.width ==> (#[trigger] self.points@[x])@.len() == self.height
        &&& self.width * 32 + OFFSET_X <= i32::MAX
        &&& self.height * 16 + OFFSET_Y <= i32::MAX
    }

    /// The cells as a sequence of columns.
    pub open spec fn cells(&self) -> Seq<Seq<i32>> {
        self.points@.map_values(|c: Vec<i32>| c@)
    }
}

impl Piece {
    /// The piece's rectangle lies within the range of `i32` coordinates and its
    /// colour names a texture.
    pub open spec fn fits(&self) -> bool {
        &&& i32::MIN <= self.x * 32 && self.x * 32 + OFFSET_X <= i32::MAX
        &&& i32::MIN <= self.y * 16 && self.y * 16 + OFFSET_Y <= i32::MAX
        &&& self.color >= 0
    }
}

/// The rectangle of cell (`x`, `y`).
pub open spec fn cell_rect(x: int, y: int) -> Rect {
    rect(x * 32 + OFFSET_X, y * 16 + OFFSET_Y, 32, 16)
}

/// The inside of cell (`x`, `y`), one pixel in from its top and left edges.
pub open spec fn inner_rect(x: int, y: int) -> Rect {
    rect(x * 32 + 1 + OFFSET_X, y * 16 + OFFSET_Y + 1, 31, 15)
}

/// How cell (`x`, `y`) of colour `color` is drawn; `shade` is the colour a
/// flashing cell takes in this frame.
pub open spec fn cell_op(x: int, y: int, color: i32, shade: Rgb) -> OpView {
    if color >= 1 {
        OpView::Block { index: color as usize, dest: cell_rect(x, y) }
    } else if color < 0 {
        OpView::Fill { rect: cell_rect(x, y), color: shade }
    } else {
        OpView::Fill { rect: inner_rect(x, y), color: black() }
    }
}

/// Column `x`, top to bottom.
pub open spec fn column_ops(x: int, column: Seq<i32>, shades: Seq<Rgb>) -> Seq<OpView> {
    Seq::new(column.len(), |y: int| cell_op(x, y, column[y], shades[y]))
}

/// The field, column by column from the left.
pub open spec fn field_ops(cells: Seq<Seq<i32>>, shades: Seq<Seq<Rgb>>) -> Seq<OpView>
    decreases cells.len(),
{
    if cells.len() == 0 {
        Seq::empty()
    } else {
        let last = cells.len() - 1;
        field_ops(cells.drop_last(), shades) + column_ops(last, cells[last], shades[last])
    }
}

/// How a block of the falling piece is drawn.
pub open spec fn piece_op(p: Piece) -> OpView {
    OpView::Block { index: p.color as usize, dest: cell_rect(p.x as int, p.y as int) }
}

/// The field and then the three blocks of the falling piece.
pub open spec fn grid_ops(cells: Seq<Seq<i32>>, shades: Seq<Seq<Rgb>>, block: [Piece; 3]) -> Seq<OpView> {
    field_ops(cells, shades) + seq![piece_op(block[0]), piece_op(block[1]), piece_op(block[2])]
}

/// Every channel of every shade is below 255, as the random draw gives them.
pub open spec fn shades_in_range(shades: Seq<Seq<Rgb>>) -> bool {
    forall|x: int, y: int|
        0 <= x < shades.len() && 0 <= y < shades[x].len() ==> {
            let c = #[trigger] shades[x][y];
            c.r < 255 && c.g < 255 && c.b < 255
        }
}

/// The shades cover the grid: one per cell.
pub open spec fn shades_cover(shades: Seq<Seq<Rgb>>, cells: Seq<Seq<i32>>) -> bool {
    &&& shades.len() == cells.len()
    &&& forall|x: int| 0 <= x < cells.len() ==> (#[trigger] shades[x]).len() == cells[x].len()
}

fn exec_cell_rect(x: i32, y: i32) -> (r: Rect)
    requires
        i32::MIN <= x * 32,
        x * 32 + OFFSET_X <= i32::MAX,
        i32::MIN <= y * 16,
        y * 16 + OFFSET_Y <= i32::MAX,
    ensures
        r == cell_rect(x as int, y as int),
{
    Rect { x: x * 32 + OFFSET_X, y: y * 16 + OFFSET_Y, w: 32, h: 16 }
}

/// The operation that draws cell (`x`, `y`) of colour `color`, a flashing
/// cell in `shade`.
pub fn draw_cell(x: usize, y: usize, color: i32, shade: Rgb) -> (op: DrawOp)
    requires
        x * 32 + OFFSET_X <= i32::MAX,
        y * 16 + OFFSET_Y + 1 <= i32::MAX,
    ensures
        op@ == cell_op(x as int, y as int, color, shade),
{
    let xi = x as i32;
    let yi = y as i32;
    if color >= 1 {
        DrawOp::Block { index: color as usize, dest: exec_cell_rect(xi, yi) }
    } else if color < 0 {
        DrawOp::Fill { rect: exec_cell_rect(xi, yi), color: shade }
    } else {
        DrawOp::Fill {
            rect: Rect { x: xi * 32 + 1 + OFFSET_X, y: yi * 16 + OFFSET_Y + 1, w: 31, h: 15 },
            color: Rgb { r: 0, g: 0, b: 0 },
        }
    }
}

/// The operation that draws a block of the falling piece.
pub fn draw_piece(p: Piece) -> (op: DrawOp)
    requires
        p.fits(),
    ensures
        op@ == piece_op(p),
{
    DrawOp::Block { index: p.color as usize, dest: exec_cell_rect(p.x, p.y) }
}

proof fn lemma_field_ops_step(cells: Seq<Seq<i32>>, shades: Seq<Seq<Rgb>>, x: int)
    requires
        0 <= x < cells.len(),
    ensures
        field_ops(cells.take(x + 1), shades) == field_ops(cells.take(x), shades) + column_ops(
            x,
            cells[x],
            shades[x],
        ),
{
    assert(cells.take(x + 1).drop_last() =~= cells.take(x));
    assert(cells.take(x + 1)[x] == cells[x]);
}

/// The field and the falling piece, with `shades[x][y]` as the colour of a
/// flashing cell (`x`, `y`).
pub fn draw_grid_shaded(grid: &GridView, shades: &Vec<Vec<Rgb>>, block: &[Piece; 3]) -> (ops: Vec<DrawOp>)
    requires
        grid.wf(),
        shades_cover(shades@.map_values(|c: Vec<Rgb>| c@), grid.cells()),
        block[0].fits(),
        block[1].fits(),
        block[2].fits(),
    ensures
        views(ops@) == grid_ops(grid.cells(), shades@.map_values(|c: Vec<Rgb>| c@), *block),
{
    let ghost cells = grid.cells();
    let ghost sh = shades@.map_values(|c: Vec<Rgb>| c@);
    let mut ops: Vec<DrawOp> = Vec::new();
    let mut x: usize = 0;
    assert(cells.take(0) =~= Seq::<Seq<i32>>::empty());
    while x < grid.width
        invariant
            grid.wf(),
            cells == grid.cells(),
            sh == shades@.map_values(|c: Vec<Rgb>| c@),
            shades_cover(sh, cells),
            x <= grid.width,
            views(ops@) == field_ops(cells.take(x as int), sh),
        decreases grid.width - x,
    {
        let column = &grid.points[x];
        let column_shades = &shades[x];
        assert(column@ == cells[x as int]);
        assert(column_shades@ == sh[x as int]);
        let ghost before = views(ops@);
        let mut y: usize = 0;
        while y < grid.height
            invariant
                grid.wf(),
                x < grid.width,
                column@ == cells[x as int],
                column_shades@ == sh[x as int],
                column@.len() == grid.height,
                column_shades@.len() == grid.height,
                y <= grid.height,
                views(ops@) == before + column_ops(
                    x as int,
                    cells[x as int].take(y as int),
                    sh[x as int],
                ),
            decreases grid.height - y,
        {
            let op = draw_cell(x, y, column[y], column_shades[y]);
            emit(&mut ops, op);
            assert(column_ops(x as int, cells[x as int].take(y + 1), sh[x as int]) =~= column_ops(
                x as int,
                cells[x as int].take(y as int),
                sh[x as int],
            ).push(cell_op(x as int, y as int, column@[y as int], column_shades@[y as int])));
            y += 1;
        }
        assert(cells[x as int].take(y as int) =~= cells[x as int]);
        proof { lemma_field_ops_step(cells, sh, x as int); }
        x += 1;
    }
    assert(cells.take(x as int) =~= cells);
    emit(&mut ops, draw_piece(block[0]));
    emit(&mut ops, draw_piece(block[1]));
    emit(&mut ops, draw_piece(block[2]));
    ops
}

/// The shades of one frame: a random colour for every flashing cell, black
/// for the others.
fn draw_shades(grid: &GridView) -> (shades: Vec<Vec<Rgb>>)
    requires
        grid.wf(),
    ensures
        shades_cover(shades@.map_values(|c: Vec<Rgb>| c@), grid.cells()),
        shades_in_range(shades@.map_values(|c: Vec<Rgb>| c@)),
{
    let mut shades: Vec<Vec<Rgb>> = Vec::new();
    let mut x: usize = 0;
    while x < grid.width
        invariant
            grid.wf(),
            x <= grid.width,
            shades@.len() == x,
            forall|i: int| 0 <= i < x ==> (#[trigger] shades@[i])@.len() == grid.height,
            forall|i: int, j: int|
                0 <= i < x && 0 <= j < grid.height ==> {
                    let c = #[trigger] shades@[i]@[j];
                    c.r < 255 && c.g < 255 && c.b < 255
                },
        decreases grid.width - x,
    {
        let column = &grid.points[x];
        let mut column_shades: Vec<Rgb> = Vec::new();
        let mut y: usize = 0;
        while y < grid.height
            invariant
                grid.wf(),
                x < grid.width,
                column@ == grid.points@[x as int]@,
                column@.len() == grid.height,
                y <= grid.height,
                column_shades@.len() == y,
                forall|j: int|
                    0 <= j < y ==> {
                        let c = #[trigger] column_shades@[j];
                        c.r < 255 && c.g < 255 && c.b < 255
                    },
            decreases grid.height - y,
        {
            if column[y] < 0 {
                let r = random_channel();
                let g = random_channel();
                let b = random_channel();
                column_shades.push(Rgb { r, g, b });
            } else {
                column_shades.push(Rgb { r: 0, g: 0, b: 0 });
            }
            y += 1;
        }
        shades.push(column_shades);
        x += 1;
    }
    let ghost sh = shades@.map_values(|c: Vec<Rgb>| c@);
    assert(shades_cover(sh, grid.cells()));
    assert forall|i: int, j: int| 0 <= i < sh.len() && 0 <= j < sh[i].len() implies {
        let c = #[trigger] sh[i][j];
        c.r < 255 && c.g < 255 && c.b < 255
    } by {
        assert(sh[i] == shades@[i]@);
    }
    shades
}

/// Draws the field and the falling piece: every cell in turn, column by column
/// from the left and each column from the top, then the piece's three blocks.
/// A filled cell is drawn with its block texture, an empty one as a black
/// square one pixel in from its top left corner, and a flashing cell as a
/// rectangle of a random colour whose channels are below 255.
pub fn draw_grid(grid: &GridView, block: &[Piece; 3]) -> (ops: Vec<DrawOp>)
    requires
        grid.wf(),
        block[0].fits(),
        block[1].fits(),
        block[2].fits(),
    ensures
        exists|shades: Seq<Seq<Rgb>>|
            {
                &&& shades_cover(shades, grid.cells())
                &&& shades_in_range(shades)
                &&& views(ops@) == grid_ops(grid.cells(), shades, *block)
            },
{
    let shades = draw_shades(grid);
    draw_grid_shaded(grid, &shades, block)
}

/// Whether two rectangles share a pixel.
pub open spec fn overlap(a: Rect, b: Rect) -> bool {
    &&& a.x < b.x + b.w && b.x < a.x + a.w
    &&& a.y < b.y + b.h && b.y < a.y + a.h
}

/// The rectangles of two different cells share no pixel, and the square
/// drawn for an empty cell lies inside the cell.
pub proof fn lemma_cells_apart(x1: int, y1: int, x2: int, y2: int, width: int, height: int)
    requires
        0 <= x1 < width,
        0 <= x2 < width,
        0 <= y1 < height,
        0 <= y2 < height,
        width * 32 + OFFSET_X <= i32::MAX,
        height * 16 + OFFSET_Y <= i32::MAX,
    ensures
        (x1 != x2 || y1 != y2) ==> !overlap(cell_rect(x1, y1), cell_rect(x2, y2)),
        cell_rect(x1, y1).x < inner_rect(x1, y1).x,
        cell_rect(x1, y1).y < inner_rect(x1, y1).y,
        inner_rect(x1, y1).x + inner_rect(x1, y1).w == cell_rect(x1, y1).x + cell_rect(x1, y1).w,
        inner_rect(x1, y1).y + inner_rect(x1, y1).h == cell_rect(x1, y1).y + cell_rect(x1, y1).h,
{
}

/// The position of cell (`x`, `y`) in the drawing of a field of columns of
/// `height` cells.
pub open spec fn cell_index(x: int, y: int, height: int) -> int {
    x * height + y
}

proof fn lemma_index_bounds(x: int, y: int, w: int, h: int)
    requires
        0 <= x < w,
        0 <= y < h,
    ensures
        0 <= cell_index(x, y, h) < w * h,
        cell_index(x, y, h) < x * h + h,
        x * h <= cell_index(x, y, h),
        (x + 1) * h == x * h + h,
        x * h + h <= w * h,
{
    assert(0 <= x * h) by (nonlinear_arith)
        requires
            0 <= x,
            0 <= h,
    ;
    assert((x + 1) * h == x * h + h) by (nonlinear_arith);
    assert((x + 1) * h <= w * h) by (nonlinear_arith)
        requires
            x + 1 <= w,
            0 <= h,
    ;
}

/// Every cell is drawn exactly once: a field of `width` columns of `height`
/// cells takes `width * height` operations, the one for cell (`x`, `y`) at
/// position `x * height + y`.
pub proof fn lemma_each_cell_drawn_once(cells: Seq<Seq<i32>>, shades: Seq<Seq<Rgb>>, height: int)
    requires
        0 <= height,
        forall|x: int| 0 <= x < cells.len() ==> (#[trigger] cells[x]).len() == height,
    ensures
        field_ops(cells, shades).len() == cells.len() * height,
        forall|x: int, y: int| #[trigger] cell_index(x, y, height) == x * height + y,
        forall|x: int, y: int|
            0 <= x < cells.len() && 0 <= y < height ==> field_ops(cells, shades)[#[trigger] cell_index(x, y, height)]
                == cell_op(x, y, cells[x][y], shades[x][y]),
    decreases cells.len(),
{
    if cells.len() == 0 {
        assert(cells.len() * height == 0);
    } else {
        let w = cells.len() - 1;
        let init = cells.drop_last();
        assert forall|x: int| 0 <= x < init.len() implies (#[trigger] init[x]).len() == height by {
            assert(init[x] == cells[x]);
        }
        lemma_each_cell_drawn_once(init, shades, height);
        let prefix = field_ops(init, shades);
        let col = column_ops(w, cells[w], shades[w]);
        assert(field_ops(cells, shades) == prefix + col);
        assert((w + 1) * height == w * height + height) by (nonlinear_arith);
        assert forall|x: int, y: int|
            0 <= x < cells.len() && 0 <= y < height implies field_ops(cells, shades)[#[trigger] cell_index(x, y, height)]
                == cell_op(x, y, cells[x][y], shades[x][y]) by {
            lemma_index_bounds(x, y, cells.len() as int, height);
            if x < w {
                lemma_index_bounds(x, y, w, height);
                assert(init[x] == cells[x]);
            } else {
                assert(cell_index(x, y, height) - w * height == y);
            }
        }
    }
}

/// How one cell is drawn: a filled cell (colour 1 or more) as its block
/// texture over the 32x16 cell whose top left corner is 32 pixels per column
/// right of x 185 and 16 pixels per row below y 95; a flashing cell (negative
/// colour) as that rectangle filled with the frame's shade; an empty cell as a
/// black 31x15 square one pixel right of and below that corner.
pub proof fn lemma_cell_drawing(x: int, y: int, color: i32, shade: Rgb)
    ensures
        color >= 1 ==> cell_op(x, y, color, shade) == (OpView::Block {
            index: color as usize,
            dest: Rect { x: (185 + 32 * x) as i32, y: (95 + 16 * y) as i32, w: 32, h: 16 },
        }),
        color < 0 ==> cell_op(x, y, color, shade) == (OpView::Fill {
            rect: Rect { x: (185 + 32 * x) as i32, y: (95 + 16 * y) as i32, w: 32, h: 16 },
            color: shade,
        }),
        color == 0 ==> cell_op(x, y, color, shade) == (OpView::Fill {
            rect: Rect { x: (186 + 32 * x) as i32, y: (96 + 16 * y) as i32, w: 31, h: 15 },
            color: Rgb { r: 0, g: 0, b: 0 },
        }),
{
}

/// A block of the falling piece is drawn with the texture of its colour over
/// the 32x16 rectangle of its cell.
pub proof fn lemma_piece_drawing(p: Piece)
    ensures
        piece_op(p) == (OpView::Block {
            index: p.color as usize,
            dest: Rect { x: (185 + 32 * p.x) as i32, y: (95 + 16 * p.y) as i32, w: 32, h: 16 },
        }),
{
}

/// The field comes first and the falling piece's three blocks last, in order.
pub proof fn lemma_piece_after_field(cells: Seq<Seq<i32>>, shades: Seq<Seq<Rgb>>, block: [Piece; 3])
    ensures
        ({
            let ops = grid_ops(cells, shades, block);
            let n = field_ops(cells, shades).len() as int;
            &&& ops.len() == n + 3
            &&& ops.take(n) == field_ops(cells, shades)
            &&& ops[n] == piece_op(block[0])
            &&& ops[n + 1] == piece_op(block[1])
            &&& ops[n + 2] == piece_op(block[2])
        }),
{
    let ops = grid_ops(cells, shades, block);
    let n = field_ops(cells, shades).len() as int;
    assert(ops.take(n) =~= field_ops(cells, shades));
}

/// The shade of a flashing cell never reaches full intensity: every channel
/// is at most 254.
pub proof fn lemma_shades_below_full(shades: Seq<Seq<Rgb>>, x: int, y: int)
    requires
        shades_in_range(shades),
        0 <= x < shades.len(),
        0 <= y < shades[x].len(),
    ensures
        shades[x][y].r <= 254,
        shades[x][y].g <= 254,
        shades[x][y].b <= 254,
{
    let c = shades[x][y];
}

} // verus!

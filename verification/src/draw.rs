//! Drawing operations: what a frame asks the canvas to do, in order.
use vstd::prelude::*;

verus! {

/// A rectangle on the 640x480 target texture.
#[derive(Clone, Copy, Debug, PartialEq, Eq, Structural)]
pub struct Rect {
    pub x: i32,
    pub y: i32,
    pub w: u32,
    pub h: u32,
}

/// A colour given by its red, green and blue channels.
#[derive(Clone, Copy, Debug, PartialEq, Eq, Structural)]
pub struct Rgb {
    pub r: u8,
    pub g: u8,
    pub b: u8,
}

/// The two font sizes the screens use: 18 and 12 points.
#[derive(Clone, Copy, Debug, PartialEq, Eq, Structural)]
pub enum Font {
    Large,
    Small,
}

/// One step of drawing a frame.
#[allow(inconsistent_fields)]
#[derive(Clone, Debug, PartialEq, Eq)]
pub enum DrawOp {
    /// Clear the target with the current draw colour.
    Clear,
    /// Copy background image `index` to `dest`, or over the whole target.
    Image { index: usize, dest: Option<Rect> },
    /// Copy block texture `index` to `dest`.
    Block { index: usize, dest: Rect },
    /// Fill `rect` with `color` (which becomes the draw colour).
    Fill { rect: Rect, color: Rgb },
    /// Render `text` in `font` and `color` with its top left corner at (`x`, `y`).
    Text { font: Font, x: i32, y: i32, color: Rgb, text: String },
}

/// A drawing operation as a mathematical value: the text is a sequence of characters.
#[allow(inconsistent_fields)]
pub enum OpView {
    Clear,
    Image { index: usize, dest: Option<Rect> },
    Block { index: usize, dest: Rect },
    Fill { rect: Rect, color: Rgb },
    Text { font: Font, x: i32, y: i32, color: Rgb, text: Seq<char> },
}

impl View for DrawOp {
    type V = OpView;

    open spec fn view(&self) -> OpView {
        match self {
            DrawOp::Clear => OpView::Clear,
            DrawOp::Image { index, dest } => OpView::Image { index: *index, dest: *dest },
            DrawOp::Block { index, dest } => OpView::Block { index: *index, dest: *dest },
            DrawOp::Fill { rect, color } => OpView::Fill { rect: *rect, color: *color },
            DrawOp::Text { font, x, y, color, text } => OpView::Text {
                font: *font,
                x: *x,
                y: *y,
                color: *color,
                text: text@,
            },
        }
    }
}

/// The views of a list of operations.
pub open spec fn views(ops: Seq<DrawOp>) -> Seq<OpView> {
    ops.map_values(|o: DrawOp| o@)
}

pub open spec fn rect(x: int, y: int, w: int, h: int) -> Rect {
    Rect { x: x as i32, y: y as i32, w: w as u32, h: h as u32 }
}

pub open spec fn rgb(r: int, g: int, b: int) -> Rgb {
    Rgb { r: r as u8, g: g as u8, b: b as u8 }
}

pub open spec fn black() -> Rgb {
    rgb(0, 0, 0)
}

pub open spec fn white() -> Rgb {
    rgb(255, 255, 255)
}

pub open spec fn red() -> Rgb {
    rgb(255, 0, 0)
}

pub open spec fn green() -> Rgb {
    rgb(0, 255, 0)
}

pub open spec fn blue() -> Rgb {
    rgb(0, 0, 255)
}

pub open spec fn yellow() -> Rgb {
    rgb(255, 255, 0)
}

/// Pushing an operation appends its view.
pub proof fn lemma_views_push(ops: Seq<DrawOp>, o: DrawOp)
    ensures
        views(ops.push(o)) == views(ops).push(o@),
{
    assert(views(ops.push(o)) =~= views(ops).push(o@));
}

/// Appends `o` to `ops`.
pub fn emit(ops: &mut Vec<DrawOp>, o: DrawOp)
    ensures
        views(final(ops)@) == views(old(ops)@).push(o@),
{
    proof { lemma_views_push(ops@, o); }
    ops.push(o);
}

} // verus!

//! The workflow graph drawn in characters: node boxes with their name and
//! type, and connection lines between them, on a grid of cells that clips
//! whatever falls outside it.
use vstd::prelude::*;
use vstd::utf8::{encode_utf8, is_char_boundary};

use crate::domain::workflow::{is_trigger_node_type, is_trigger_type, short_type, WorkflowDetail, WorkflowNode};
use crate::figures::{clipped, truncate};
use crate::text::{chars_of, copy_str};

verus! {

/// How a node is set off in the graph.
#[derive(Debug, Clone, Copy, PartialEq, Eq, Structural)]
pub enum NodeLook {
    Selected,
    Disabled,
    Trigger,
    Plain,
}

/// How a cell is drawn.
#[derive(Debug, Clone, Copy, PartialEq, Eq, Structural)]
pub enum Ink {
    Blank,
    /// A connection line.
    Line,
    /// An arrow head.
    Arrow,
    /// A node's frame.
    Border(NodeLook),
    /// A node's name.
    Name(NodeLook),
    /// A node's short type.
    TypeText,
}

/// A node's box on the grid: its top-left corner, width and height.
#[derive(Debug, Clone, Copy, PartialEq, Eq, Structural)]
pub struct NodeBox {
    pub x: i32,
    pub y: i32,
    pub w: i32,
    pub h: i32,
}

/// The grid the graph is drawn on: `height` rows of `width` cells.
#[derive(Debug)]
pub struct Canvas {
    width: i32,
    height: i32,
    cells: Vec<Vec<(char, Ink)>>,
}

/// The abstract grid: its size and its rows of cells.
pub struct CanvasView {
    pub width: int,
    pub height: int,
    pub rows: Seq<Seq<(char, Ink)>>,
}

impl View for Canvas {
    type V = CanvasView;

    closed spec fn view(&self) -> CanvasView {
        CanvasView {
            width: self.width as int,
            height: self.height as int,
            rows: self.cells@.map_values(|r: Vec<(char, Ink)>| r@),
        }
    }
}

/// The grid has `height` rows of `width` cells.
pub open spec fn well_formed(c: CanvasView) -> bool {
    &&& 0 <= c.width
    &&& 0 <= c.height
    &&& c.rows.len() == c.height
    &&& forall|y: int| 0 <= y < c.height ==> (#[trigger] c.rows[y]).len() == c.width
}

/// One cell to paint: where, with which character and ink.
pub struct Stroke {
    pub x: int,
    pub y: int,
    pub ch: char,
    pub ink: Ink,
}

/// A stroke of one cell.
pub open spec fn stroke(x: int, y: int, ch: char, ink: Ink) -> Stroke {
    Stroke { x, y, ch, ink }
}

/// The grid after painting one cell; cells outside it are dropped.
pub open spec fn painted(c: CanvasView, s: Stroke) -> CanvasView {
    if 0 <= s.x < c.width && 0 <= s.y < c.height {
        CanvasView { rows: c.rows.update(s.y, c.rows[s.y].update(s.x, (s.ch, s.ink))), ..c }
    } else {
        c
    }
}

/// The grid after painting cells in order.
pub open spec fn paint_all(c: CanvasView, strokes: Seq<Stroke>) -> CanvasView
    decreases strokes.len(),
{
    if strokes.len() == 0 {
        c
    } else {
        painted(paint_all(c, strokes.drop_last()), strokes.last())
    }
}

/// A horizontal run of one character from `x0` to `x1` inclusive.
pub open spec fn row_run(x0: int, x1: int, y: int, ch: char, ink: Ink) -> Seq<Stroke> {
    Seq::new(
        if x1 >= x0 {
            (x1 - x0 + 1) as nat
        } else {
            0
        },
        |i: int| Stroke { x: x0 + i, y, ch, ink },
    )
}

/// A vertical run of one character from `y0` to `y1` inclusive.
pub open spec fn column_run(x: int, y0: int, y1: int, ch: char, ink: Ink) -> Seq<Stroke> {
    Seq::new(
        if y1 >= y0 {
            (y1 - y0 + 1) as nat
        } else {
            0
        },
        |i: int| Stroke { x, y: y0 + i, ch, ink },
    )
}

/// One stroke.
pub open spec fn dot(x: int, y: int, ch: char, ink: Ink) -> Seq<Stroke> {
    seq![Stroke { x, y, ch, ink }]
}

/// Integer division rounding toward zero.
pub open spec fn half_toward_zero(a: int) -> int {
    if a >= 0 {
        a / 2
    } else {
        -((-a) / 2)
    }
}

/// The cells of a connection from the right edge of `src` to the left edge
/// of `tgt`: a line right to the middle, down or up, then right to an
/// arrow head; a lone left arrow when the target is not to the right.
pub open spec fn connection_strokes(src: NodeBox, tgt: NodeBox) -> Seq<Stroke> {
    let sx = src.x + src.w;
    let sy = src.y + half_toward_zero(src.h as int);
    let tx = tgt.x - 1;
    let ty = tgt.y + half_toward_zero(tgt.h as int);
    if sx >= tx {
        dot(tx, ty, '◀', Ink::Arrow)
    } else {
        let mid = half_toward_zero(sx + tx);
        let first = row_run(sx, mid, sy, '─', Ink::Line);
        let turn = if sy == ty {
            Seq::empty()
        } else if sy < ty {
            column_run(mid, sy, ty, '│', Ink::Line) + dot(mid, sy, '┐', Ink::Line) + dot(mid, ty, '└', Ink::Line)
        } else {
            column_run(mid, ty, sy, '│', Ink::Line) + dot(mid, sy, '┘', Ink::Line) + dot(mid, ty, '┌', Ink::Line)
        };
        first + turn + row_run(mid, tx - 1, ty, '─', Ink::Line) + dot(tx, ty, '▶', Ink::Arrow)
    }
}

/// Coordinates small enough that drawing never overflows.
pub open spec fn box_in_range(b: NodeBox) -> bool {
    -0x1000_0000 <= b.x <= 0x1000_0000 && -0x1000_0000 <= b.y <= 0x1000_0000 && 0 <= b.w <= 0x1000_0000
        && 0 <= b.h <= 0x1000_0000
}

/// The character at column `i` of a frame edge `w` cells wide: the left
/// corner first, the right corner last, a rule between.
pub open spec fn edge_char(i: int, w: int, left: char, right: char) -> char {
    if i == 0 {
        left
    } else if i == w - 1 {
        right
    } else {
        '─'
    }
}

/// A frame edge `w` cells wide starting at `x`.
pub open spec fn edge_run(x: int, y: int, w: int, left: char, right: char, ink: Ink) -> Seq<Stroke> {
    Seq::new(
        if w > 0 {
            w as nat
        } else {
            0
        },
        |i: int| Stroke { x: x + i, y, ch: edge_char(i, w, left, right), ink },
    )
}

/// A text written rightwards from `x`, one character per cell.
pub open spec fn text_run(x: int, y: int, text: Seq<char>, ink: Ink) -> Seq<Stroke> {
    text.map(|i: int, c: char| stroke(x + i, y, c, ink))
}

/// How a node's frame is set off: selection first, then a disabled node,
/// then a trigger.
pub open spec fn border_look(selected: bool, disabled: bool, trigger: bool) -> NodeLook {
    if selected {
        NodeLook::Selected
    } else if disabled {
        NodeLook::Disabled
    } else if trigger {
        NodeLook::Trigger
    } else {
        NodeLook::Plain
    }
}

/// How a node's name is set off: a trigger's name looks like any other.
pub open spec fn name_look(selected: bool, disabled: bool) -> NodeLook {
    if selected {
        NodeLook::Selected
    } else if disabled {
        NodeLook::Disabled
    } else {
        NodeLook::Plain
    }
}

/// A text as it fits a box `w` cells wide: at most `w - 3` bytes, cut with
/// an ellipsis when longer.
pub open spec fn label(s: Seq<char>, w: int) -> Seq<char> {
    if w >= 3 && encode_utf8(s).len() > w - 3 {
        clipped(
            s,
            if w >= 4 {
                w - 4
            } else {
                0
            },
        )
    } else {
        s
    }
}

/// The text can be cut where `label` cuts it.
pub open spec fn label_cuttable(s: Seq<char>, w: int) -> bool {
    w >= 3 && encode_utf8(s).len() > w - 3 ==> is_char_boundary(
        encode_utf8(s),
        if w >= 4 {
            w - 4
        } else {
            0
        },
    )
}

/// The cells of a node's box: top edge, the name line, the type line and the
/// bottom edge, each text line between two bars.
pub open spec fn node_box_strokes(
    b: NodeBox,
    name: Seq<char>,
    node_type: Seq<char>,
    selected: bool,
    disabled: bool,
) -> Seq<Stroke> {
    let (x, y, w) = (b.x as int, b.y as int, b.w as int);
    let frame = Ink::Border(border_look(selected, disabled, is_trigger_type(node_type)));
    let name_ink = Ink::Name(name_look(selected, disabled));
    edge_run(x, y, w, '┌', '┐', frame) + dot(x, y + 1, '│', frame) + text_run(
        x + 1,
        y + 1,
        label(name, w),
        name_ink,
    ) + dot(x + w - 1, y + 1, '│', frame) + dot(x, y + 2, '│', frame) + text_run(
        x + 1,
        y + 2,
        label(short_type(node_type), w),
        Ink::TypeText,
    ) + dot(x + w - 1, y + 2, '│', frame) + edge_run(x, y + 3, w, '└', '┘', frame)
}

proof fn lemma_paint_append(c: CanvasView, a: Seq<Stroke>, b: Seq<Stroke>)
    ensures
        paint_all(c, a + b) == paint_all(paint_all(c, a), b),
    decreases b.len(),
{
    if b.len() == 0 {
        assert(a + b =~= a);
    } else {
        lemma_paint_append(c, a, b.drop_last());
        assert((a + b).drop_last() =~= a + b.drop_last());
        assert((a + b).last() == b.last());
    }
}

proof fn lemma_paint_push(c: CanvasView, strokes: Seq<Stroke>, s: Stroke)
    ensures
        paint_all(c, strokes.push(s)) == painted(paint_all(c, strokes), s),
{
    assert(strokes.push(s).drop_last() =~= strokes);
    assert(strokes.push(s).last() == s);
}

proof fn lemma_paint_empty(c: CanvasView)
    ensures
        paint_all(c, Seq::<Stroke>::empty()) == c,
{
}

proof fn lemma_paint_off_grid(c: CanvasView, strokes: Seq<Stroke>)
    requires
        forall|i: int| 0 <= i < strokes.len() ==> (#[trigger] strokes[i]).x >= c.width,
    ensures
        paint_all(c, strokes) == c,
    decreases strokes.len(),
{
    if strokes.len() > 0 {
        lemma_paint_off_grid(c, strokes.drop_last());
        assert(strokes[strokes.len() - 1] == strokes.last());
    }
}

proof fn lemma_painted_well_formed(c: CanvasView, s: Stroke)
    requires
        well_formed(c),
    ensures
        well_formed(painted(c, s)),
        painted(c, s).width == c.width,
        painted(c, s).height == c.height,
{
    let p = painted(c, s);
    assert forall|y: int| 0 <= y < p.height implies (#[trigger] p.rows[y]).len() == p.width by {
        if 0 <= s.x < c.width && 0 <= s.y < c.height && y == s.y {
        } else {
            assert(p.rows[y] == c.rows[y]);
        }
    }
}

proof fn lemma_paint_all_well_formed(c: CanvasView, strokes: Seq<Stroke>)
    requires
        well_formed(c),
    ensures
        well_formed(paint_all(c, strokes)),
        paint_all(c, strokes).width == c.width,
        paint_all(c, strokes).height == c.height,
    decreases strokes.len(),
{
    if strokes.len() > 0 {
        lemma_paint_all_well_formed(c, strokes.drop_last());
        lemma_painted_well_formed(paint_all(c, strokes.drop_last()), strokes.last());
    }
}

impl Canvas {
    /// A blank grid of `height` rows of `width` cells.
    pub fn new(width: i32, height: i32) -> (r: Self)
        requires
            0 <= width,
            0 <= height,
        ensures
            well_formed(r@),
            r@.width == width,
            r@.height == height,
            forall|y: int, x: int|
                0 <= y < height && 0 <= x < width ==> #[trigger] r@.rows[y][x] == (' ', Ink::Blank),
    {
        let mut cells: Vec<Vec<(char, Ink)>> = Vec::new();
        let mut y: i32 = 0;
        while y < height
            invariant
                0 <= width,
                0 <= y <= height,
                cells@.len() == y,
                forall|j: int| 0 <= j < y ==> (#[trigger] cells@[j])@.len() == width,
                forall|j: int, x: int| 0 <= j < y && 0 <= x < width ==> #[trigger] cells@[j]@[x] == (' ', Ink::Blank),
            decreases height - y,
        {
            let mut row: Vec<(char, Ink)> = Vec::new();
            let mut x: i32 = 0;
            while x < width
                invariant
                    0 <= width,
                    0 <= x <= width,
                    row@.len() == x,
                    forall|k: int| 0 <= k < x ==> #[trigger] row@[k] == (' ', Ink::Blank),
                decreases width - x,
            {
                row.push((' ', Ink::Blank));
                x = x + 1;
            }
            cells.push(row);
            y = y + 1;
        }
        Canvas { width, height, cells }
    }

    /// The rows of cells.
    pub fn rows(&self) -> (r: &Vec<Vec<(char, Ink)>>)
        ensures
            r@.map_values(|row: Vec<(char, Ink)>| row@) == self@.rows,
    {
        &self.cells
    }

    /// Paints one cell when it lies on the grid.
    pub fn put(&mut self, x: i32, y: i32, ch: char, ink: Ink)
        requires
            well_formed(old(self)@),
        ensures
            final(self)@ == painted(old(self)@, Stroke { x: x as int, y: y as int, ch, ink }),
            well_formed(final(self)@),
    {
        proof {
            lemma_painted_well_formed(self@, Stroke { x: x as int, y: y as int, ch, ink });
        }
        if x >= 0 && y >= 0 && x < self.width && y < self.height {
            let ghost before = self@;
            let yy = y as usize;
            let xx = x as usize;
            assert(self.cells@[yy as int]@.len() == self.width) by {
                assert(self@.rows[yy as int] == self.cells@[yy as int]@);
            }
            self.cells[yy].set(xx, (ch, ink));
            proof {
                assert(self@.rows =~= before.rows.update(y as int, before.rows[y as int].update(x as int, (ch, ink))));
            }
        }
    }

    /// Paints a horizontal run from `x0` to `x1` inclusive.
    fn run_right(&mut self, x0: i32, x1: i32, y: i32, ch: char, ink: Ink)
        requires
            well_formed(old(self)@),
            x1 < i32::MAX,
        ensures
            final(self)@ == paint_all(old(self)@, row_run(x0 as int, x1 as int, y as int, ch, ink)),
            well_formed(final(self)@),
    {
        let ghost start = self@;
        let ghost run = row_run(x0 as int, x1 as int, y as int, ch, ink);
        if x0 > x1 {
            proof {
                assert(run =~= Seq::<Stroke>::empty());
            }
            return;
        }
        let mut x: i32 = x0;
        proof {
            assert(run.take(0) =~= Seq::<Stroke>::empty());
        }
        while x <= x1
            invariant
                x0 <= x <= x1 + 1,
                x1 < i32::MAX,
                run == row_run(x0 as int, x1 as int, y as int, ch, ink),
                well_formed(self@),
                self@ == paint_all(start, run.take(x - x0)),
            decreases x1 + 1 - x,
        {
            self.put(x, y, ch, ink);
            proof {
                let st = Stroke { x: x as int, y: y as int, ch, ink };
                assert(run.take(x - x0 + 1) =~= run.take(x - x0).push(st));
                lemma_paint_push(start, run.take(x - x0), st);
            }
            x = x + 1;
        }
        proof {
            assert(run.take(x - x0) =~= run);
        }
    }

    /// Paints a vertical run from `y0` to `y1` inclusive.
    fn run_down(&mut self, x: i32, y0: i32, y1: i32, ch: char, ink: Ink)
        requires
            well_formed(old(self)@),
            y1 < i32::MAX,
        ensures
            final(self)@ == paint_all(old(self)@, column_run(x as int, y0 as int, y1 as int, ch, ink)),
            well_formed(final(self)@),
    {
        let ghost start = self@;
        let ghost run = column_run(x as int, y0 as int, y1 as int, ch, ink);
        if y0 > y1 {
            proof {
                assert(run =~= Seq::<Stroke>::empty());
            }
            return;
        }
        let mut y: i32 = y0;
        proof {
            assert(run.take(0) =~= Seq::<Stroke>::empty());
        }
        while y <= y1
            invariant
                y0 <= y <= y1 + 1,
                y1 < i32::MAX,
                run == column_run(x as int, y0 as int, y1 as int, ch, ink),
                well_formed(self@),
                self@ == paint_all(start, run.take(y - y0)),
            decreases y1 + 1 - y,
        {
            self.put(x, y, ch, ink);
            proof {
                let st = Stroke { x: x as int, y: y as int, ch, ink };
                assert(run.take(y - y0 + 1) =~= run.take(y - y0).push(st));
                lemma_paint_push(start, run.take(y - y0), st);
            }
            y = y + 1;
        }
        proof {
            assert(run.take(y - y0) =~= run);
        }
    }

    /// Paints one cell, as a one-stroke sequence.
    fn dot_at(&mut self, x: i32, y: i32, ch: char, ink: Ink)
        requires
            well_formed(old(self)@),
        ensures
            final(self)@ == paint_all(old(self)@, dot(x as int, y as int, ch, ink)),
            well_formed(final(self)@),
    {
        let ghost start = self@;
        self.put(x, y, ch, ink);
        proof {
            let st = Stroke { x: x as int, y: y as int, ch, ink };
            assert(dot(x as int, y as int, ch, ink) =~= Seq::<Stroke>::empty().push(st));
            lemma_paint_push(start, Seq::<Stroke>::empty(), st);
            lemma_paint_empty(start);
        }
    }

    /// Draws a connection line between two node boxes.
    pub fn draw_connection(&mut self, src: &NodeBox, tgt: &NodeBox)
        requires
            well_formed(old(self)@),
            box_in_range(*src),
            box_in_range(*tgt),
        ensures
            final(self)@ == paint_all(old(self)@, connection_strokes(*src, *tgt)),
            well_formed(final(self)@),
    {
        let ghost c0 = self@;
        let sx = src.x + src.w;
        let sy = src.y + src.h / 2;
        let tx = tgt.x - 1;
        let ty = tgt.y + tgt.h / 2;
        proof {
            assert(src.h / 2 == half_toward_zero(src.h as int));
            assert(tgt.h / 2 == half_toward_zero(tgt.h as int));
        }
        if sx >= tx {
            self.dot_at(tx, ty, '◀', Ink::Arrow);
            return;
        }
        let mid_x = (sx + tx) / 2;
        proof {
            assert(mid_x == half_toward_zero(sx + tx));
        }
        let ghost first = row_run(sx as int, mid_x as int, sy as int, '─', Ink::Line);
        self.run_right(sx, mid_x, sy, '─', Ink::Line);
        let ghost c1 = self@;
        let ghost turn: Seq<Stroke> = if sy == ty {
            Seq::empty()
        } else if sy < ty {
            column_run(mid_x as int, sy as int, ty as int, '│', Ink::Line) + dot(mid_x as int, sy as int, '┐', Ink::Line) + dot(mid_x as int, ty as int, '└', Ink::Line)
        } else {
            column_run(mid_x as int, ty as int, sy as int, '│', Ink::Line) + dot(mid_x as int, sy as int, '┘', Ink::Line) + dot(mid_x as int, ty as int, '┌', Ink::Line)
        };
        if sy != ty {
            if sy < ty {
                self.run_down(mid_x, sy, ty, '│', Ink::Line);
                let ghost a = self@;
                self.dot_at(mid_x, sy, '┐', Ink::Line);
                let ghost b = self@;
                self.dot_at(mid_x, ty, '└', Ink::Line);
                proof {
                    let r = column_run(mid_x as int, sy as int, ty as int, '│', Ink::Line);
                    let d1 = dot(mid_x as int, sy as int, '┐', Ink::Line);
                    let d2 = dot(mid_x as int, ty as int, '└', Ink::Line);
                    lemma_paint_append(c1, r, d1);
                    lemma_paint_append(c1, r + d1, d2);
                }
            } else {
                self.run_down(mid_x, ty, sy, '│', Ink::Line);
                self.dot_at(mid_x, sy, '┘', Ink::Line);
                self.dot_at(mid_x, ty, '┌', Ink::Line);
                proof {
                    let r = column_run(mid_x as int, ty as int, sy as int, '│', Ink::Line);
                    let d1 = dot(mid_x as int, sy as int, '┘', Ink::Line);
                    let d2 = dot(mid_x as int, ty as int, '┌', Ink::Line);
                    lemma_paint_append(c1, r, d1);
                    lemma_paint_append(c1, r + d1, d2);
                }
            }
        } else {
            proof {
                assert(paint_all(c1, turn) == c1);
            }
        }
        let ghost c2 = self@;
        self.run_right(mid_x, tx - 1, ty, '─', Ink::Line);
        let ghost c3 = self@;
        self.dot_at(tx, ty, '▶', Ink::Arrow);
        proof {
            let last_run = row_run(mid_x as int, (tx - 1) as int, ty as int, '─', Ink::Line);
            let arrow = dot(tx as int, ty as int, '▶', Ink::Arrow);
            lemma_paint_append(c0, first, turn);
            lemma_paint_append(c0, first + turn, last_run);
            lemma_paint_append(c0, first + turn + last_run, arrow);
            assert(connection_strokes(*src, *tgt) == first + turn + last_run + arrow);
        }
    }
    /// Paints a frame edge `w` cells wide from `x`.
    fn edge_at(&mut self, x: i32, y: i32, w: i32, left: char, right: char, ink: Ink)
        requires
            well_formed(old(self)@),
            -0x2000_0000 <= x <= 0x2000_0000,
            w <= 0x2000_0000,
        ensures
            final(self)@ == paint_all(old(self)@, edge_run(x as int, y as int, w as int, left, right, ink)),
            well_formed(final(self)@),
    {
        let ghost start = self@;
        let ghost run = edge_run(x as int, y as int, w as int, left, right, ink);
        let mut dx: i32 = 0;
        proof {
            assert(run.take(0) =~= Seq::<Stroke>::empty());
        }
        while dx < w
            invariant
                0 <= dx,
                w <= 0 ==> dx == 0,
                w > 0 ==> dx <= w,
                -0x2000_0000 <= x <= 0x2000_0000,
                w <= 0x2000_0000,
                run == edge_run(x as int, y as int, w as int, left, right, ink),
                well_formed(self@),
                self@ == paint_all(start, run.take(dx as int)),
            decreases w - dx,
        {
            let ch = if dx == 0 {
                left
            } else if dx == w - 1 {
                right
            } else {
                '─'
            };
            self.put(x + dx, y, ch, ink);
            proof {
                assert(run[dx as int] == Stroke { x: (x + dx) as int, y: y as int, ch, ink });
                assert(run.take(dx + 1) =~= run.take(dx as int).push(run[dx as int]));
                lemma_paint_push(start, run.take(dx as int), run[dx as int]);
            }
            dx = dx + 1;
        }
        proof {
            assert(run.take(dx as int) =~= run);
        }
    }

    /// Writes a text rightwards from `x`, one character per cell.
    fn text_at(&mut self, x: i32, y: i32, text: &Vec<char>, ink: Ink)
        requires
            well_formed(old(self)@),
            -0x2000_0000 <= x,
        ensures
            final(self)@ == paint_all(old(self)@, text_run(x as int, y as int, text@, ink)),
            well_formed(final(self)@),
    {
        let ghost start = self@;
        let ghost run = text_run(x as int, y as int, text@, ink);
        let mut i: usize = 0;
        let mut col: i32 = x;
        proof {
            assert(run.take(0) =~= Seq::<Stroke>::empty());
        }
        while i < text.len() && col < self.width
            invariant
                0 <= i <= text.len(),
                col == x + i,
                self@.width == start.width,
                self.width == self@.width,
                run == text_run(x as int, y as int, text@, ink),
                well_formed(self@),
                self@ == paint_all(start, run.take(i as int)),
            decreases text.len() - i,
        {
            self.put(col, y, text[i], ink);
            proof {
                assert(run[i as int] == Stroke { x: col as int, y: y as int, ch: text@[i as int], ink });
                assert(run.take(i + 1) =~= run.take(i as int).push(run[i as int]));
                lemma_paint_push(start, run.take(i as int), run[i as int]);
            }
            i = i + 1;
            col = col + 1;
        }
        proof {
            let rest = run.skip(i as int);
            assert(run.len() == text@.len());
            assert(run =~= run.take(i as int) + rest);
            lemma_paint_append(start, run.take(i as int), rest);
            if i < text.len() {
                assert forall|k: int| 0 <= k < rest.len() implies (#[trigger] rest[k]).x >= self@.width by {
                    assert(rest[k] == run[i + k]);
                }
            }
            lemma_paint_off_grid(self@, rest);
        }
    }

    /// Draws a node's box: its frame, its name and its short type, set off
    /// by whether it is selected, disabled or a trigger.
    pub fn draw_node_box(&mut self, nb: &NodeBox, node: &WorkflowNode, selected: bool)
        requires
            well_formed(old(self)@),
            box_in_range(*nb),
            label_cuttable(node.name@, nb.w as int),
            label_cuttable(short_type(node.node_type@), nb.w as int),
        ensures
            final(self)@ == paint_all(
                old(self)@,
                node_box_strokes(*nb, node.name@, node.node_type@, selected, node.disabled),
            ),
            well_formed(final(self)@),
    {
        let trigger = is_trigger_node_type(&node.node_type);
        let frame = Ink::Border(
            if selected {
                NodeLook::Selected
            } else if node.disabled {
                NodeLook::Disabled
            } else if trigger {
                NodeLook::Trigger
            } else {
                NodeLook::Plain
            },
        );
        let name_ink = Ink::Name(
            if selected {
                NodeLook::Selected
            } else if node.disabled {
                NodeLook::Disabled
            } else {
                NodeLook::Plain
            },
        );
        let short = WorkflowDetail::short_node_type(&node.node_type);
        let name_text = fit(&node.name, nb.w);
        let type_text = fit(&short, nb.w);
        let name_chars = chars_of(&name_text);
        let type_chars = chars_of(&type_text);
        let (x, y, w) = (nb.x, nb.y, nb.w);
        let ghost c0 = self@;
        let ghost p1 = edge_run(x as int, y as int, w as int, '┌', '┐', frame);
        let ghost p2 = dot(x as int, y + 1, '│', frame);
        let ghost p3 = text_run(x + 1, y + 1, name_chars@, name_ink);
        let ghost p4 = dot(x + w - 1, y + 1, '│', frame);
        let ghost p5 = dot(x as int, y + 2, '│', frame);
        let ghost p6 = text_run(x + 1, y + 2, type_chars@, Ink::TypeText);
        let ghost p7 = dot(x + w - 1, y + 2, '│', frame);
        let ghost p8 = edge_run(x as int, y + 3, w as int, '└', '┘', frame);
        self.edge_at(x, y, w, '┌', '┐', frame);
        self.dot_at(x, y + 1, '│', frame);
        self.text_at(x + 1, y + 1, &name_chars, name_ink);
        self.dot_at(x + w - 1, y + 1, '│', frame);
        self.dot_at(x, y + 2, '│', frame);
        self.text_at(x + 1, y + 2, &type_chars, Ink::TypeText);
        self.dot_at(x + w - 1, y + 2, '│', frame);
        self.edge_at(x, y + 3, w, '└', '┘', frame);
        proof {
            lemma_paint_append(c0, p1, p2);
            lemma_paint_append(c0, p1 + p2, p3);
            lemma_paint_append(c0, p1 + p2 + p3, p4);
            lemma_paint_append(c0, p1 + p2 + p3 + p4, p5);
            lemma_paint_append(c0, p1 + p2 + p3 + p4 + p5, p6);
            lemma_paint_append(c0, p1 + p2 + p3 + p4 + p5 + p6, p7);
            lemma_paint_append(c0, p1 + p2 + p3 + p4 + p5 + p6 + p7, p8);
            assert(node_box_strokes(*nb, node.name@, node.node_type@, selected, node.disabled)
                == p1 + p2 + p3 + p4 + p5 + p6 + p7 + p8);
        }
    }
}

/// A text cut to fit a box `w` cells wide.
fn fit(s: &str, w: i32) -> (r: String)
    requires
        label_cuttable(s@, w as int),
    ensures
        r@ == label(s@, w as int),
{
    if w >= 3 {
        truncate(s, (w - 3) as usize)
    } else {
        copy_str(s)
    }
}

} // verus!

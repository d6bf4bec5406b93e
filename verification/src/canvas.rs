use crate::entities::Location;
use vstd::prelude::*;

verus! {

/// The colours an entity or an overlay can be drawn in.
#[derive(Clone, Copy, Debug, PartialEq, Eq, Structural)]
pub enum Color {
    Black,
    Red,
    Green,
    Yellow,
    Blue,
    Magenta,
    Cyan,
    White,
}

/// How a character is drawn: either colour may be left to the terminal.
#[derive(Clone, Copy, Debug, PartialEq, Eq, Structural)]
pub struct Style {
    pub foreground: Option<Color>,
    pub background: Option<Color>,
}

impl Style {
    /// The terminal's own colours.
    pub fn plain() -> (s: Self)
        ensures
            s == (Style { foreground: None, background: None }),
    {
        Style { foreground: None, background: None }
    }

    /// `color` on the terminal's own background.
    pub fn colored(color: Color) -> (s: Self)
        ensures
            s == (Style { foreground: Some(color), background: None }),
    {
        Style { foreground: Some(color), background: None }
    }

    /// `foreground` on `background`.
    pub fn on(foreground: Color, background: Color) -> (s: Self)
        ensures
            s == (Style { foreground: Some(foreground), background: Some(background) }),
    {
        Style { foreground: Some(foreground), background: Some(background) }
    }
}

/// One character cell of the canvas.
#[derive(Clone, Copy, Debug, PartialEq, Eq, Structural)]
pub struct Cell {
    pub symbol: char,
    pub style: Style,
}

/// An empty cell.
pub open spec fn blank() -> Cell {
    Cell { symbol: ' ', style: Style { foreground: None, background: None } }
}

/// What a canvas holds: `cells` has `maxl` lines of `maxc` cells, line after
/// line.
pub struct CanvasView {
    pub maxc: u16,
    pub maxl: u16,
    pub cells: Seq<Cell>,
}

impl CanvasView {
    pub open spec fn contains(self, at: Location) -> bool {
        at.c < self.maxc && at.l < self.maxl
    }

    pub open spec fn index_of(self, at: Location) -> int {
        at.l * self.maxc + at.c
    }

    /// The cell at `at`, which must lie on the canvas.
    pub open spec fn cell_at(self, at: Location) -> Cell {
        self.cells[self.index_of(at)]
    }

    /// The canvas after `cell` was put at `at`. Off the canvas nothing is
    /// drawn.
    pub open spec fn painted(self, at: Location, cell: Cell) -> CanvasView {
        if self.contains(at) {
            CanvasView { cells: self.cells.update(self.index_of(at), cell), ..self }
        } else {
            self
        }
    }
}

/// A rectangular character buffer that drawable things paint on.
pub struct Canvas {
    maxc: u16,
    maxl: u16,
    cells: Vec<Cell>,
}

impl View for Canvas {
    type V = CanvasView;

    closed spec fn view(&self) -> CanvasView {
        CanvasView { maxc: self.maxc, maxl: self.maxl, cells: self.cells@ }
    }
}

/// Every cell of a canvas has its own place in the buffer.
pub proof fn index_in_range(maxc: u16, maxl: u16, at: Location)
    requires
        at.c < maxc,
        at.l < maxl,
    ensures
        0 <= at.l * maxc + at.c < maxc * maxl,
        maxc * maxl <= 0xfffe_0001,
{
    assert(at.l * maxc + at.c < maxc * maxl) by (nonlinear_arith)
        requires
            0 <= at.c < maxc,
            0 <= at.l < maxl,
    ;
    assert(maxc * maxl <= 0xffff * 0xffff) by (nonlinear_arith)
        requires
            0 <= maxc <= 0xffff,
            0 <= maxl <= 0xffff,
    ;
}

impl Canvas {
    /// The buffer has one cell for each place.
    #[verifier::type_invariant]
    spec fn holds_every_cell(self) -> bool {
        self.cells@.len() == self.maxc * self.maxl
    }

    /// A blank canvas of `maxc` columns and `maxl` lines.
    pub fn new(maxc: u16, maxl: u16) -> (canvas: Self)
        ensures
            canvas@.cells.len() == maxc * maxl,
            canvas@.maxc == maxc,
            canvas@.maxl == maxl,
            forall|i: int| 0 <= i < maxc * maxl ==> canvas@.cells[i] == blank(),
    {
        assert(maxc * maxl <= 0xffff * 0xffff) by (nonlinear_arith)
            requires
                0 <= maxc <= 0xffff,
                0 <= maxl <= 0xffff,
        ;
        let size: usize = maxc as usize * maxl as usize;
        let empty = Cell { symbol: ' ', style: Style { foreground: None, background: None } };
        let cells: Vec<Cell> = vec![empty; size];
        Canvas { maxc, maxl, cells }
    }

    pub fn max_c(&self) -> (maxc: u16)
        ensures
            maxc == self@.maxc,
    {
        self.maxc
    }

    pub fn max_l(&self) -> (maxl: u16)
        ensures
            maxl == self@.maxl,
    {
        self.maxl
    }

    /// The cell at `at`, or `None` off the canvas.
    pub fn get(&self, at: Location) -> (cell: Option<Cell>)
        ensures
            cell == if self@.contains(at) {
                Some(self@.cell_at(at))
            } else {
                None
            },
    {
        proof {
            use_type_invariant(self);
        }
        if at.c < self.maxc && at.l < self.maxl {
            proof {
                index_in_range(self.maxc, self.maxl, at);
            }
            let index: usize = at.l as usize * self.maxc as usize + at.c as usize;
            Some(self.cells[index])
        } else {
            None
        }
    }

    /// Draws `symbol` at `at` in `style`, or in the terminal's own colours
    /// where `style` is `None`. Off the canvas nothing is drawn.
    pub fn draw_styled_char(&mut self, at: Location, symbol: char, style: Option<Style>)
        ensures
            final(self)@ == old(self)@.painted(at, Cell { symbol, style: style_or_plain(style) }),
    {
        proof {
            use_type_invariant(&*self);
        }
        if at.c < self.maxc && at.l < self.maxl {
            proof {
                index_in_range(self.maxc, self.maxl, at);
            }
            let index: usize = at.l as usize * self.maxc as usize + at.c as usize;
            let style = match style {
                Some(s) => s,
                None => Style { foreground: None, background: None },
            };
            self.cells[index] = Cell { symbol, style };
        }
    }

    /// Draws `symbol` at `at` in the terminal's own colours.
    pub fn draw_char(&mut self, at: Location, symbol: char)
        ensures
            final(self)@ == old(self)@.painted(at, Cell { symbol, style: style_or_plain(None) }),
    {
        self.draw_styled_char(at, symbol, None);
    }

    /// Blanks every cell.
    pub fn clear(&mut self)
        ensures
            final(self)@.maxc == old(self)@.maxc,
            final(self)@.maxl == old(self)@.maxl,
            final(self)@.cells.len() == old(self)@.cells.len(),
            forall|i: int| 0 <= i < final(self)@.cells.len() ==> final(self)@.cells[i] == blank(),
    {
        proof {
            use_type_invariant(&*self);
        }
        let size: usize = self.cells.len();
        let mut i: usize = 0;
        while i < size
            invariant
                size == self.cells.len(),
                size == self.maxc * self.maxl,
                size == old(self).cells.len(),
                i <= size,
                self.maxc == old(self).maxc,
                self.maxl == old(self).maxl,
                forall|j: int| 0 <= j < i ==> self.cells@[j] == blank(),
            decreases size - i,
        {
            self.cells[i] = Cell {
                symbol: ' ',
                style: Style { foreground: None, background: None },
            };
            i += 1;
        }
    }
}

/// The style a character is drawn in when `style` is asked for.
pub open spec fn style_or_plain(style: Option<Style>) -> Style {
    match style {
        Some(s) => s,
        None => Style { foreground: None, background: None },
    }
}

} // verus!

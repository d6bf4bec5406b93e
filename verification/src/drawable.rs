use crate::canvas::{Canvas, CanvasView, Cell, Color, Style};
use crate::entities::{Bullet, Enemy, EntityStatus, Fuel, Location, Player};
use vstd::prelude::*;

verus! {

/// Something that can paint itself on a canvas.
pub trait Drawable {
    /// The canvas as it looks once `self` has been drawn on `canvas`.
    spec fn drawn(&self, canvas: CanvasView) -> CanvasView;

    fn draw(&self, sc: &mut Canvas)
        ensures
            final(sc)@ == self.drawn(old(sc)@),
    ;
}

/// One styled character at one place.
#[derive(Clone, Copy, Debug, PartialEq, Eq, Structural)]
pub struct Stroke {
    pub location: Location,
    pub symbol: char,
    pub style: Style,
}

impl Stroke {
    pub open spec fn cell(self) -> Cell {
        Cell { symbol: self.symbol, style: self.style }
    }
}

/// The canvas after `strokes` were drawn on it, first to last: a later stroke
/// covers an earlier one at the same place.
pub open spec fn replayed(strokes: Seq<Stroke>, canvas: CanvasView) -> CanvasView
    decreases strokes.len(),
{
    if strokes.len() == 0 {
        canvas
    } else {
        replayed(strokes.drop_last(), canvas).painted(
            strokes.last().location,
            strokes.last().cell(),
        )
    }
}

/// A free-form drawing: a list of strokes that are replayed on the canvas.
pub struct CustomDrawing {
    drawer: Vec<Stroke>,
}

impl View for CustomDrawing {
    type V = Seq<Stroke>;

    closed spec fn view(&self) -> Seq<Stroke> {
        self.drawer@
    }
}

impl CustomDrawing {
    /// A drawing that replays the strokes of `drawer`.
    pub fn new(drawer: Vec<Stroke>) -> (drawing: Self)
        ensures
            drawing@ == drawer@,
    {
        CustomDrawing { drawer }
    }

    /// The strokes of the drawing, in the order in which they are drawn.
    pub fn strokes(&self) -> (strokes: &Vec<Stroke>)
        ensures
            strokes@ == self@,
    {
        &self.drawer
    }
}

impl Drawable for CustomDrawing {
    open spec fn drawn(&self, canvas: CanvasView) -> CanvasView {
        replayed(self@, canvas)
    }

    fn draw(&self, sc: &mut Canvas) {
        let count: usize = self.drawer.len();
        let mut i: usize = 0;
        while i < count
            invariant
                count == self.drawer@.len(),
                i <= count,
                sc@ == replayed(self.drawer@.take(i as int), old(sc)@),
            decreases count - i,
        {
            let stroke = self.drawer[i];
            assert(self.drawer@.take(i + 1).drop_last() == self.drawer@.take(i as int));
            sc.draw_styled_char(stroke.location, stroke.symbol, Some(stroke.style));
            i += 1;
        }
        assert(self.drawer@.take(count as int) == self.drawer@);
    }
}

/// The cell that stands for an enemy, if it is shown at all: a red `E` while
/// alive, an `X` as a wreck.
pub open spec fn enemy_cell(status: EntityStatus) -> Option<Cell> {
    match status {
        EntityStatus::Alive => Some(
            Cell { symbol: 'E', style: Style { foreground: Some(Color::Red), background: None } },
        ),
        EntityStatus::DeadBody => Some(
            Cell { symbol: 'X', style: Style { foreground: None, background: None } },
        ),
        EntityStatus::Dead => None,
    }
}

/// The cell that stands for a fuel pickup, if it is shown at all: a green `F`
/// while alive, a yellow `$` once taken or shot.
pub open spec fn fuel_cell(status: EntityStatus) -> Option<Cell> {
    match status {
        EntityStatus::Alive => Some(
            Cell { symbol: 'F', style: Style { foreground: Some(Color::Green), background: None } },
        ),
        EntityStatus::DeadBody => Some(
            Cell {
                symbol: '$',
                style: Style { foreground: Some(Color::Yellow), background: None },
            },
        ),
        EntityStatus::Dead => None,
    }
}

impl Drawable for Enemy {
    open spec fn drawn(&self, canvas: CanvasView) -> CanvasView {
        match enemy_cell(self.status) {
            Some(cell) => canvas.painted(self.location, cell),
            None => canvas,
        }
    }

    fn draw(&self, sc: &mut Canvas) {
        match self.status {
            EntityStatus::Alive => {
                sc.draw_styled_char(self.location, 'E', Some(Style::colored(Color::Red)));
            },
            EntityStatus::DeadBody => {
                sc.draw_char(self.location, 'X');
            },
            EntityStatus::Dead => {},
        }
    }
}

impl Drawable for Fuel {
    open spec fn drawn(&self, canvas: CanvasView) -> CanvasView {
        match fuel_cell(self.status) {
            Some(cell) => canvas.painted(self.location, cell),
            None => canvas,
        }
    }

    fn draw(&self, sc: &mut Canvas) {
        match self.status {
            EntityStatus::Alive => {
                sc.draw_styled_char(self.location, 'F', Some(Style::colored(Color::Green)));
            },
            EntityStatus::DeadBody => {
                sc.draw_styled_char(self.location, '$', Some(Style::colored(Color::Yellow)));
            },
            EntityStatus::Dead => {},
        }
    }
}

impl Drawable for Bullet {
    /// A bullet is a `|` with a `^` on the line above, where there is one.
    open spec fn drawn(&self, canvas: CanvasView) -> CanvasView {
        let shaft = canvas.painted(
            self.location,
            Cell { symbol: '|', style: Style { foreground: None, background: None } },
        );
        if self.location.l >= 1 {
            shaft.painted(
                Location { c: self.location.c, l: (self.location.l - 1) as u16 },
                Cell { symbol: '^', style: Style { foreground: None, background: None } },
            )
        } else {
            shaft
        }
    }

    fn draw(&self, sc: &mut Canvas) {
        sc.draw_styled_char(self.location, '|', None);
        if self.location.l >= 1 {
            sc.draw_char(Location { c: self.location.c, l: self.location.l - 1 }, '^');
        }
    }
}

impl Drawable for Player {
    /// The player is a blue `P`.
    open spec fn drawn(&self, canvas: CanvasView) -> CanvasView {
        canvas.painted(
            self.location,
            Cell { symbol: 'P', style: Style { foreground: Some(Color::Blue), background: None } },
        )
    }

    fn draw(&self, sc: &mut Canvas) {
        sc.draw_styled_char(self.location, 'P', Some(Style::colored(Color::Blue)));
    }
}

} // verus!

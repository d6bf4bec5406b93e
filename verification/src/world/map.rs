use crate::restorable::Restorable;
use crate::sources::random_in;
use rand::rngs::ThreadRng;
use vstd::prelude::*;

verus! {

/// The passable part of one line of the river: the columns from `start` up
/// to, but not including, `end`.
#[derive(Clone, Copy, Debug, PartialEq, Eq, Structural)]
pub struct Passage {
    pub start: u16,
    pub end: u16,
}

impl Passage {
    pub open spec fn spec_contains(&self, column: u16) -> bool {
        self.start <= column < self.end
    }

    /// `column` is water on this line.
    #[verifier::when_used_as_spec(spec_contains)]
    pub fn contains(&self, column: u16) -> (inside: bool)
        ensures
            inside == self.spec_contains(column),
    {
        self.start <= column && column < self.end
    }

    pub open spec fn spec_is_empty(&self) -> bool {
        self.start >= self.end
    }

    /// No column of this line is water.
    #[verifier::when_used_as_spec(spec_is_empty)]
    pub fn is_empty(&self) -> (empty: bool)
        ensures
            empty == self.spec_is_empty(),
    {
        self.start >= self.end
    }

    pub open spec fn spec_width(&self) -> u16 {
        if self.start <= self.end {
            (self.end - self.start) as u16
        } else {
            0
        }
    }

    /// The number of passable columns.
    #[verifier::when_used_as_spec(spec_width)]
    pub fn width(&self) -> (width: u16)
        ensures
            width == self.spec_width(),
    {
        if self.start <= self.end {
            self.end - self.start
        } else {
            0
        }
    }

    pub open spec fn spec_center(&self) -> u16 {
        (self.start + self.spec_width() / 2) as u16
    }

    /// The column in the middle of the passage.
    #[verifier::when_used_as_spec(spec_center)]
    pub fn center(&self) -> (center: u16)
        ensures
            center == self.spec_center(),
    {
        self.start + self.width() / 2
    }
}

/// A passage of `width` columns around `center`, cut off at the banks `0` and
/// `maxc`.
pub open spec fn centered(width: u16, center: u16, maxc: u16) -> Passage {
    let left: int = if center >= width / 2 {
        center - width / 2
    } else {
        0
    };
    let start: int = if left <= maxc {
        left
    } else {
        maxc as int
    };
    let end: int = if start + width <= maxc {
        start + width
    } else {
        maxc as int
    };
    Passage { start: start as u16, end: end as u16 }
}

/// Exec twin of [`centered`].
pub fn passage_around(width: u16, center: u16, maxc: u16) -> (passage: Passage)
    ensures
        passage == centered(width, center, maxc),
        passage.start <= passage.end <= maxc,
{
    let left: u16 = if center >= width / 2 {
        center - width / 2
    } else {
        0
    };
    let start: u16 = if left <= maxc {
        left
    } else {
        maxc
    };
    let end: u16 = if maxc - start >= width {
        start + width
    } else {
        maxc
    };
    Passage { start, end }
}

/// How the next line of the river is shaped.
#[derive(Clone, Copy, Debug, PartialEq, Eq, Structural)]
pub enum RiverMode {
    /// Width and centre wander from line to line: the width stays between
    /// `min_width` and `max_width` and changes by at most `max_width_diff`,
    /// the centre moves by at most `max_center_diff`.
    Random { min_width: u16, max_width: u16, max_center_diff: u16, max_width_diff: u16 },
    /// Every new line has the same width around the same centre.
    ConstWidthAndCenter { width: u16, center_c: u16 },
}

/// `value`, brought into `low..=high`; where `high < low`, `low` wins.
pub open spec fn clamped(value: int, low: u16, high: u16) -> u16 {
    if value <= low || high <= low {
        low
    } else if value >= high {
        high
    } else {
        value as u16
    }
}

/// The least and the greatest width that may follow a line of width
/// `previous`.
pub open spec fn width_window(
    previous: u16,
    min_width: u16,
    max_width: u16,
    max_width_diff: u16,
) -> (u16, u16) {
    (
        clamped(previous - max_width_diff, min_width, max_width),
        clamped(previous + max_width_diff, min_width, max_width),
    )
}

/// The leftmost centre around which a passage of `width` columns lies on
/// the field.
pub open spec fn leftmost_center(width: u16) -> u16 {
    width / 2
}

/// The rightmost centre around which a passage of `width` columns lies on a
/// field of `maxc` columns; where the field is too narrow for the passage,
/// the leftmost one.
pub open spec fn rightmost_center(width: u16, maxc: u16) -> u16 {
    if maxc >= width {
        (maxc - width + width / 2) as u16
    } else {
        width / 2
    }
}

/// The leftmost and the rightmost centre that may follow a line centred at
/// `previous` when the new line is `width` columns wide: at most
/// `max_center_diff` away, and such that the new line lies on the field.
pub open spec fn center_window(
    previous: u16,
    max_center_diff: u16,
    width: u16,
    maxc: u16,
) -> (u16, u16) {
    (
        clamped(previous - max_center_diff, leftmost_center(width), rightmost_center(width, maxc)),
        clamped(previous + max_center_diff, leftmost_center(width), rightmost_center(width, maxc)),
    )
}

/// A passage around a centre between the leftmost and the rightmost one
/// lies on the field in its full width.
pub proof fn centered_passage_keeps_its_width(width: u16, center: u16, maxc: u16)
    requires
        width <= maxc,
        leftmost_center(width) <= center <= rightmost_center(width, maxc),
    ensures
        centered(width, center, maxc).spec_width() == width,
        centered(width, center, maxc).start == center - width / 2,
        centered(width, center, maxc).end <= maxc,
{
}

/// `row` may follow `previous` as the leading line of a river in `mode`.
pub open spec fn may_follow(mode: RiverMode, previous: Passage, row: Passage, maxc: u16) -> bool {
    match mode {
        RiverMode::ConstWidthAndCenter { width, center_c } => row == centered(
            width,
            center_c,
            maxc,
        ),
        RiverMode::Random { min_width, max_width, max_center_diff, max_width_diff } => {
            let widths = width_window(previous.spec_width(), min_width, max_width, max_width_diff);
            exists|width: u16, center: u16|
                {
                    let centers = center_window(
                        previous.spec_center(),
                        max_center_diff,
                        width,
                        maxc,
                    );
                    &&& widths.0 <= width <= widths.1
                    &&& centers.0 <= center <= centers.1
                    &&& row == #[trigger] centered(width, center, maxc)
                }
        },
    }
}

/// What a river holds: the passable part of each line, line `0` being the
/// leading one at the top, and the shape mode with its baseline.
pub struct RiverView {
    pub maxc: u16,
    pub maxl: u16,
    pub rows: Seq<Passage>,
    pub mode: Restorable<RiverMode>,
}

impl RiverView {
    /// The passable columns of `line`; off the map nothing is passable.
    pub open spec fn borders(self, line: int) -> Passage {
        if 0 <= line < self.rows.len() {
            self.rows[line]
        } else {
            Passage { start: 0, end: 0 }
        }
    }

    /// The map after it scrolled by one line, with `row` as the new leading
    /// line: every line moves down by one and the last one leaves.
    pub open spec fn scrolled(self, row: Passage) -> RiverView {
        if self.rows.len() == 0 {
            self
        } else {
            RiverView { rows: seq![row] + self.rows.drop_last(), ..self }
        }
    }

    /// The line that the next leading line is shaped after.
    pub open spec fn leading(self) -> Passage {
        self.borders(0)
    }
}

/// A river that runs straight down the middle, `max_width` wide, and will
/// wander within the given limits.
pub open spec fn straight_river(
    maxc: u16,
    maxl: u16,
    min_width: u16,
    max_width: u16,
    max_center_diff: u16,
    max_width_diff: u16,
) -> RiverView {
    RiverView {
        maxc,
        maxl,
        rows: Seq::new(maxl as nat, |line: int| centered(max_width, maxc / 2, maxc)),
        mode: Restorable {
            baseline: RiverMode::Random { min_width, max_width, max_center_diff, max_width_diff },
            value: RiverMode::Random { min_width, max_width, max_center_diff, max_width_diff },
        },
    }
}

/// The river: one passage for each line of the playing field.
pub struct River {
    maxc: u16,
    maxl: u16,
    rows: Vec<Passage>,
    mode: Restorable<RiverMode>,
}

impl View for River {
    type V = RiverView;

    closed spec fn view(&self) -> RiverView {
        RiverView { maxc: self.maxc, maxl: self.maxl, rows: self.rows@, mode: self.mode }
    }
}

/// `value`, brought into `low..=high`: exec twin of [`clamped`].
fn clamp_to(value: u32, low: u16, high: u16) -> (r: u16)
    ensures
        r == clamped(value as int, low, high),
{
    if value <= low as u32 || high <= low {
        low
    } else if value >= high as u32 {
        high
    } else {
        value as u16
    }
}

/// A draw with `rng` from `low` up to [`greatest_draw`]: `low` itself where nothing lies above it.
fn draw_between(rng: &mut ThreadRng, low: u16, high: u16) -> (draw: u16)
    ensures
        low <= draw <= greatest_draw(low, high),
{
    if low >= high {
        low
    } else if high < u16::MAX {
        random_in(rng, low, high + 1)
    } else {
        random_in(rng, low, high)
    }
}

/// The greatest number that a draw between `low` and `high` can give: `high`
/// where it lies above `low`, but for the greatest `u16` of all, which stays
/// out of reach; else `low`, the only number left.
pub open spec fn greatest_draw(low: u16, high: u16) -> u16 {
    if low >= high {
        low
    } else if high < u16::MAX {
        high
    } else {
        (high - 1) as u16
    }
}

impl River {
    /// There is one passage for each line.
    #[verifier::type_invariant]
    spec fn holds_every_line(self) -> bool {
        self.rows@.len() == self.maxl
    }

    /// A river of `maxl` lines, each `max_width` wide around the middle of
    /// the `maxc` columns, that wanders within the given limits.
    pub fn new(
        maxc: u16,
        maxl: u16,
        min_width: u16,
        max_width: u16,
        max_center_diff: u16,
        max_width_diff: u16,
    ) -> (map: Self)
        ensures
            map@ == straight_river(
                maxc,
                maxl,
                min_width,
                max_width,
                max_center_diff,
                max_width_diff,
            ),
    {
        let row = passage_around(max_width, maxc / 2, maxc);
        let rows: Vec<Passage> = vec![row; maxl as usize];
        let mode = Restorable::new(
            RiverMode::Random { min_width, max_width, max_center_diff, max_width_diff },
        );
        let map = River { maxc, maxl, rows, mode };
        assert(map@.rows == straight_river(
            maxc,
            maxl,
            min_width,
            max_width,
            max_center_diff,
            max_width_diff,
        ).rows);
        map
    }

    pub fn max_c(&self) -> (maxc: u16)
        ensures
            maxc == self@.maxc,
    {
        self.maxc
    }

    pub fn max_l(&self) -> (maxl: u16)
        ensures
            maxl == self@.maxl,
    {
        self.maxl
    }

    /// The shape mode in force.
    pub fn river_mode(&self) -> (mode: RiverMode)
        ensures
            mode == self@.mode.value,
    {
        self.mode.value
    }

    /// The passable columns of `line`; off the map nothing is passable.
    pub fn river_borders_index(&self, line: usize) -> (borders: Passage)
        ensures
            borders == self@.borders(line as int),
    {
        if line < self.rows.len() {
            self.rows[line]
        } else {
            Passage { start: 0, end: 0 }
        }
    }

    /// Shapes the lines to come by `mode`, until the mode is restored.
    pub fn change_river_mode(&mut self, mode: RiverMode)
        ensures
            final(self)@ == (RiverView {
                mode: Restorable { baseline: old(self)@.mode.baseline, value: mode },
                ..old(self)@
            }),
    {
        proof {
            use_type_invariant(&*self);
        }
        self.mode = Restorable { baseline: self.mode.baseline, value: mode };
    }

    /// Goes back to the shape mode that the map was made with.
    pub fn restore_river_mode(&mut self)
        ensures
            final(self)@ == (RiverView {
                mode: Restorable {
                    baseline: old(self)@.mode.baseline,
                    value: old(self)@.mode.baseline,
                },
                ..old(self)@
            }),
    {
        proof {
            use_type_invariant(&*self);
        }
        self.mode = Restorable { baseline: self.mode.baseline, value: self.mode.baseline };
    }

    /// Scrolls by one line and takes `row` as the new leading line.
    pub fn scroll_to(&mut self, row: Passage)
        ensures
            final(self)@ == old(self)@.scrolled(row),
    {
        proof {
            use_type_invariant(&*self);
        }
        let count: usize = self.rows.len();
        if count > 0 {
            let mut rows: Vec<Passage> = Vec::new();
            rows.push(row);
            let mut line: usize = 0;
            while line + 1 < count
                invariant
                    count == self.rows@.len(),
                    line + 1 <= count,
                    rows@ == seq![row] + self.rows@.take(line as int),
                decreases count - line,
            {
                rows.push(self.rows[line]);
                assert(self.rows@.take(line + 1) == self.rows@.take(line as int).push(
                    self.rows@[line as int],
                ));
                line += 1;
            }
            assert(self.rows@.take(count - 1) == self.rows@.drop_last());
            self.rows = rows;
        }
    }

    /// The leading line that follows the present one when `width` and
    /// `center` were drawn for it; in the constant mode the draws do not
    /// count.
    pub fn shape_next(&self, width: u16, center: u16) -> (row: Passage)
        ensures
            row == match self@.mode.value {
                RiverMode::ConstWidthAndCenter { width: w, center_c } => centered(
                    w,
                    center_c,
                    self@.maxc,
                ),
                RiverMode::Random { .. } => centered(width, center, self@.maxc),
            },
            row.start <= row.end <= self@.maxc,
    {
        match self.mode.value {
            RiverMode::ConstWidthAndCenter { width: w, center_c } => passage_around(
                w,
                center_c,
                self.maxc,
            ),
            RiverMode::Random { .. } => passage_around(width, center, self.maxc),
        }
    }

    /// Scrolls by one line. The new leading line is shaped by the mode in
    /// force: in the wandering mode its width and centre are drawn with
    /// `rng` from what may follow the present leading line.
    pub fn update(&mut self, rng: &mut ThreadRng)
        ensures
            exists|row: Passage|
                {
                    &&& may_follow(
                        old(self)@.mode.value,
                        old(self)@.leading(),
                        row,
                        old(self)@.maxc,
                    )
                    &&& row.start <= row.end <= old(self)@.maxc
                    &&& final(self)@ == #[trigger] old(self)@.scrolled(row)
                },
    {
        let previous = self.river_borders_index(0);
        let row = match self.mode.value {
            RiverMode::ConstWidthAndCenter { .. } => self.shape_next(0, 0),
            RiverMode::Random { min_width, max_width, max_center_diff, max_width_diff } => {
                let w: u32 = previous.width() as u32;
                let c: u32 = previous.center() as u32;
                let w_low: u16 = clamp_to(
                    if w >= max_width_diff as u32 {
                        w - max_width_diff as u32
                    } else {
                        0
                    },
                    min_width,
                    max_width,
                );
                let w_high: u16 = clamp_to(w + max_width_diff as u32, min_width, max_width);
                let width: u16 = draw_between(rng, w_low, w_high);
                let leftmost: u16 = width / 2;
                let rightmost: u16 = if self.maxc >= width {
                    self.maxc - width + width / 2
                } else {
                    width / 2
                };
                let c_low: u16 = clamp_to(
                    if c >= max_center_diff as u32 {
                        c - max_center_diff as u32
                    } else {
                        0
                    },
                    leftmost,
                    rightmost,
                );
                let c_high: u16 = clamp_to(c + max_center_diff as u32, leftmost, rightmost);
                let center: u16 = draw_between(rng, c_low, c_high);
                self.shape_next(width, center)
            },
        };
        self.scroll_to(row);
        assert(final(self)@ == old(self)@.scrolled(row));
    }
}

} // verus!

//! The game state: rectangles, the two circles, the obstacle and the round.

use vstd::prelude::*;
use crate::display::{V_WIDTH, WIDTH};

verus! {

/// Largest x coordinate a circle's rectangle may take.
pub const ARENA_MAX_X: i32 = 268;

/// Largest y coordinate a circle's rectangle may take.
pub const ARENA_MAX_Y: i32 = 189;

/// Side of a circle's rectangle: the circle's diameter.
pub const CIRCLE_SIZE: i32 = 51;

/// Smallest squared distance allowed between the two circles.
pub const MIN_SEPARATION_SQ: i32 = 2500;

/// Number of ticks after which a fresh obstacle appears.
pub const CYCLE_TICKS: i32 = 240;

/// Distance in the scan-out buffer from a rectangle's corner to the pixel
/// the circle is drawn around: 24 rows down and 24 columns right.
pub const CENTER_OFFSET: i32 = 16152;

/// Scan-out offset of the last row an obstacle is drawn on.
pub const LAST_ROW_OFFSET: usize = 160608;

/// First hue of the first circle's colour ring.
pub const HUE_BASE_1: u16 = 2000;

/// First hue of the second circle's colour ring.
pub const HUE_BASE_2: u16 = 12000;

/// Distance from a ring's first hue to its last one.
pub const HUE_SPAN: u16 = 4288;

/// Distance between the hues of two neighbouring outline pixels, and
/// between a circle's hues on two ticks that follow each other.
pub const HUE_STEP: u16 = 32;

/// Distance from a circle's hue to the hue past its last outline pixel:
/// one step per outline pixel.
pub const OUTLINE_HUES: u16 = 4352;

/// The square of an integer.
#[verifier::opaque]
pub open spec fn sq(v: int) -> int {
    v * v
}

/// Squared distance between two points of the plane.
pub open spec fn dist_sq(x1: int, y1: int, x2: int, y2: int) -> int {
    sq(x1 - x2) + sq(y1 - y2)
}

/// Squares a value small enough for the square to fit in an `i32`.
pub(crate) fn square(v: i32) -> (s: i32)
    requires
        -1000 <= v <= 1000,
    ensures
        s == sq(v as int),
        0 <= s <= 1_000_000,
{
    reveal(sq);
    assert(0 <= v * v <= 1_000_000) by (nonlinear_arith)
        requires
            -1000 <= v <= 1000,
    ;
    v * v
}

/// An axis-aligned rectangle in display pixels.
#[derive(Copy, Clone, Debug, PartialEq, Eq, Structural)]
pub struct Rectangle {
    pub dx: i32,
    pub dy: i32,
    pub width: i32,
    pub height: i32,
}

impl Rectangle {
    /// The rectangle's corner lies inside the arena.
    pub open spec fn in_arena(&self) -> bool {
        0 <= self.dx <= ARENA_MAX_X && 0 <= self.dy <= ARENA_MAX_Y
    }

    /// Squared distance between the corners of two rectangles, which for two
    /// circles is the squared distance between their centres.
    pub open spec fn separation_sq(&self, other: &Rectangle) -> int {
        dist_sq(self.dx as int, self.dy as int, other.dx as int, other.dy as int)
    }

    /// The two rectangles are at least the minimum separation apart.
    pub open spec fn apart_from(&self, other: &Rectangle) -> bool {
        self.separation_sq(other) >= MIN_SEPARATION_SQ
    }

    /// Computes `separation_sq` for two rectangles inside the arena.
    pub fn squared_separation(&self, other: &Rectangle) -> (d: i32)
        requires
            self.in_arena(),
            other.in_arena(),
        ensures
            d == self.separation_sq(other),
            0 <= d <= 2_000_000,
    {
        square(self.dx - other.dx) + square(self.dy - other.dy)
    }

    /// Tells whether the corner lies inside the arena.
    pub fn is_in_arena(&self) -> (b: bool)
        ensures
            b == self.in_arena(),
    {
        0 <= self.dx && self.dx <= ARENA_MAX_X && 0 <= self.dy && self.dy <= ARENA_MAX_Y
    }
}

/// One of the two player-controlled circles.
#[derive(Copy, Clone, Debug, PartialEq, Eq, Structural)]
pub struct Circle {
    /// Bounding rectangle; `dx`, `dy` are the circle's position.
    pub rect: Rectangle,
    /// Offset in the scan-out buffer of the pixel the outline is drawn around.
    pub center: i32,
    /// Hue of the first outline pixel.
    pub color: u16,
}

impl Circle {
    /// The scan-out offset that belongs to the position `(x, y)`.
    pub open spec fn scan_index(x: int, y: int) -> int {
        y * V_WIDTH + x + CENTER_OFFSET
    }

    /// The circle lies in the arena, has the fixed size, its cached scan-out
    /// offset matches its position, and its hue leaves room for the hues of
    /// all outline pixels.
    pub open spec fn wf(&self) -> bool {
        &&& self.rect.in_arena()
        &&& self.rect.width == CIRCLE_SIZE
        &&& self.rect.height == CIRCLE_SIZE
        &&& self.center == Self::scan_index(self.rect.dx as int, self.rect.dy as int)
        &&& self.color + OUTLINE_HUES <= u16::MAX
    }

    /// A circle at `(x, y)` with the given hue.
    pub fn new(x: i32, y: i32, color: u16) -> (c: Circle)
        requires
            0 <= x <= ARENA_MAX_X,
            0 <= y <= ARENA_MAX_Y,
            color + OUTLINE_HUES <= u16::MAX,
        ensures
            c.wf(),
            c.rect.dx == x,
            c.rect.dy == y,
            c.color == color,
    {
        Circle {
            rect: Rectangle { dx: x, dy: y, width: CIRCLE_SIZE, height: CIRCLE_SIZE },
            center: y * 672 + x + CENTER_OFFSET,
            color,
        }
    }

    /// Tells whether the circle is well formed.
    pub fn is_well_formed(&self) -> (b: bool)
        ensures
            b == self.wf(),
    {
        self.rect.is_in_arena() && self.rect.width == CIRCLE_SIZE && self.rect.height
            == CIRCLE_SIZE && self.center == self.rect.dy * 672 + self.rect.dx + CENTER_OFFSET
            && self.color <= u16::MAX - OUTLINE_HUES
    }
}

/// Column `col` is one of the passable columns of the gap `(start, end)`.
///
/// A gap opens at `start`; `end` lies one column past its far post, so the
/// passable run is `start .. end - 1`.
pub open spec fn gap_covers(gap: (i32, i32), col: int) -> bool {
    gap.0 <= col < gap.1 - 1
}

/// The gap `(start, end)` lies on the panel and has at least one column.
pub open spec fn gap_on_panel(gap: (i32, i32)) -> bool {
    0 <= gap.0 && gap.0 + 1 < gap.1 && gap.1 <= WIDTH
}

/// Tells whether a gap lies on the panel and has at least one column.
fn gap_is_on_panel(gap: (i32, i32)) -> (b: bool)
    ensures
        b == gap_on_panel(gap),
{
    0 <= gap.0 && gap.0 <= 318 && gap.0 + 1 < gap.1 && gap.1 <= 320
}

/// Tells whether a gap covers a column.
fn gap_covers_column(gap: (i32, i32), col: usize) -> (b: bool)
    requires
        gap_on_panel(gap),
        col < WIDTH,
    ensures
        b == gap_covers(gap, col as int),
{
    gap.0 <= col as i32 && (col as i32) < gap.1 - 1
}

/// The obstacle: a bar across the panel, open at one or two gaps.
#[derive(Copy, Clone, Debug, PartialEq, Eq)]
pub struct Obstacle {
    pub rect: Rectangle,
    /// One flag per column; `false` marks a column of a gap.
    pub obstacle: [bool; WIDTH],
    /// Offset in the scan-out buffer of the row the bar is drawn on.
    pub pos: usize,
    /// First gap as `(start, end)`.
    pub gap1: (i32, i32),
    /// Second gap, if the obstacle has two.
    pub gap2: Option<(i32, i32)>,
}

impl Obstacle {
    /// Both gaps lie on the panel, the first wholly left of the second.
    pub open spec fn gaps_on_panel(&self) -> bool {
        &&& gap_on_panel(self.gap1)
        &&& match self.gap2 {
            Some(gap) => gap_on_panel(gap) && self.gap1.1 <= gap.0,
            None => true,
        }
    }

    /// Column `col` is passable: it belongs to one of the gaps.
    pub open spec fn passable(&self, col: int) -> bool {
        gap_covers(self.gap1, col) || match self.gap2 {
            Some(gap) => gap_covers(gap, col),
            None => false,
        }
    }

    /// The bar stands at the start of a row of the scan-out buffer.
    pub open spec fn row_aligned(&self) -> bool {
        self.pos % V_WIDTH == 0 && self.pos <= LAST_ROW_OFFSET
    }

    /// The gaps lie on the panel and do not overlap, the column flags are
    /// `false` exactly on the gaps' columns, and the bar stands on a row of
    /// the scan-out buffer.
    pub open spec fn wf(&self) -> bool {
        &&& self.gaps_on_panel()
        &&& forall|col: int|
            0 <= col < WIDTH ==> #[trigger] self.obstacle@[col] == !self.passable(col)
        &&& self.row_aligned()
        &&& self.rect.dx == 0
        &&& 0 <= self.rect.dy < CYCLE_TICKS
        &&& self.rect.width == 320
        &&& self.rect.height == 5
    }

    /// Tells whether both gaps lie on the panel, the first wholly left of
    /// the second.
    pub fn has_gaps_on_panel(&self) -> (b: bool)
        ensures
            b == self.gaps_on_panel(),
    {
        gap_is_on_panel(self.gap1) && match self.gap2 {
            Some(gap) => gap_is_on_panel(gap) && self.gap1.1 <= gap.0,
            None => true,
        }
    }

    /// Tells whether the column `col` is passable.
    pub fn is_passable(&self, col: usize) -> (b: bool)
        requires
            self.gaps_on_panel(),
            col < WIDTH,
        ensures
            b == self.passable(col as int),
    {
        gap_covers_column(self.gap1, col) || match self.gap2 {
            Some(gap) => gap_covers_column(gap, col),
            None => false,
        }
    }

    /// Tells whether the obstacle is well formed.
    pub fn is_well_formed(&self) -> (b: bool)
        ensures
            b == self.wf(),
    {
        if !self.has_gaps_on_panel() {
            return false;
        }
        if !(self.pos % V_WIDTH == 0 && self.pos <= LAST_ROW_OFFSET && self.rect.dx == 0 && 0
            <= self.rect.dy && self.rect.dy < CYCLE_TICKS && self.rect.width == 320
            && self.rect.height == 5) {
            return false;
        }
        let mut col: usize = 0;
        while col < WIDTH
            invariant
                self.gaps_on_panel(),
                col <= WIDTH,
                forall|k: int| 0 <= k < col ==> #[trigger] self.obstacle@[k] == !self.passable(k),
            decreases WIDTH - col,
        {
            if self.obstacle[col] == self.is_passable(col) {
                return false;
            }
            col += 1;
        }
        true
    }
}

/// A hue lies on the ring that starts at `base`.
pub open spec fn in_hue_ring(color: u16, base: u16) -> bool {
    base <= color <= base + HUE_SPAN
}

/// Everything that belongs to one round.
#[derive(Copy, Clone, Debug, PartialEq, Eq)]
pub struct GameEnv {
    pub circle1: Circle,
    pub circle2: Circle,
    pub obstacle: Obstacle,
    pub score: u32,
    pub max_score: u32,
    /// Ticks since the obstacle appeared, which is also the row its gaps are
    /// aligned to.
    pub frame: i32,
}

impl GameEnv {
    /// The row the obstacle's rectangle stands on at the tick `frame`: three
    /// rows behind the tick, never above the panel.
    pub open spec fn bar_row(frame: int) -> int {
        if frame > 3 {
            frame - 3
        } else {
            0
        }
    }

    /// The state is one that play can reach: both circles and the obstacle
    /// are well formed, the circles keep the minimum separation, the tick
    /// lies within the cycle, the obstacle's row follows the tick (in a
    /// round's first cycle it is the row of the tick, later the row before),
    /// the score never exceeds the best score, and each circle's hue lies on
    /// its ring.
    pub open spec fn wf(&self) -> bool {
        &&& self.circle1.wf()
        &&& self.circle2.wf()
        &&& self.obstacle.wf()
        &&& self.circle1.rect.apart_from(&self.circle2.rect)
        &&& 0 <= self.frame < CYCLE_TICKS
        &&& (self.obstacle.pos == V_WIDTH * self.frame || self.obstacle.pos + V_WIDTH == V_WIDTH
            * self.frame)
        &&& self.obstacle.rect.dy == Self::bar_row(self.frame as int)
        &&& self.score <= self.max_score
        &&& in_hue_ring(self.circle1.color, HUE_BASE_1)
        &&& in_hue_ring(self.circle2.color, HUE_BASE_2)
    }

    /// Tells whether the state is well formed.
    pub fn is_well_formed(&self) -> (b: bool)
        ensures
            b == self.wf(),
    {
        if !(self.circle1.is_well_formed() && self.circle2.is_well_formed()
            && self.obstacle.is_well_formed()) {
            return false;
        }
        if self.circle1.rect.squared_separation(&self.circle2.rect) < MIN_SEPARATION_SQ {
            return false;
        }
        if !(0 <= self.frame && self.frame < CYCLE_TICKS) {
            return false;
        }
        let row: usize = self.frame as usize;
        let bar_row: i32 = if self.frame > 3 {
            self.frame - 3
        } else {
            0
        };
        (self.obstacle.pos == V_WIDTH * row || self.obstacle.pos + V_WIDTH == V_WIDTH * row)
            && self.obstacle.rect.dy == bar_row && self.score <= self.max_score && HUE_BASE_1
            <= self.circle1.color && self.circle1.color <= HUE_BASE_1 + HUE_SPAN && HUE_BASE_2
            <= self.circle2.color && self.circle2.color <= HUE_BASE_2 + HUE_SPAN
    }
}

} // verus!

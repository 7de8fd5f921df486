//! Laying out a fresh obstacle from random draws.

use rand::rngs::StdRng;
use vstd::prelude::*;
use crate::display::WIDTH;
use crate::random::{uniform_bool, uniform_int};
use crate::world::{Obstacle, Rectangle};

verus! {

/// Width of each gap of an obstacle with two gaps.
pub const NARROW_GAP: i32 = 70;

/// Width of the gap of an obstacle with one gap.
pub const WIDE_GAP: i32 = 90;

/// Number of columns a gap of a two-gap obstacle may start at.
pub const NARROW_BAND: i32 = 90;

/// Number of columns the gap of a one-gap obstacle may start at.
pub const WIDE_BAND: i32 = 230;

/// Distance from the first gap's band to the second gap's band.
pub const SECOND_BAND_OFFSET: i32 = 160;

/// Width of the gaps of an obstacle with or without a second gap.
pub open spec fn gap_width(two_gaps: bool) -> int {
    if two_gaps {
        NARROW_GAP as int
    } else {
        WIDE_GAP as int
    }
}

/// Number of columns a gap may start at, counted from the start of its band.
pub open spec fn gap_band(two_gaps: bool) -> int {
    if two_gaps {
        NARROW_BAND as int
    } else {
        WIDE_BAND as int
    }
}

/// The draws are ones that can be laid out: each start lies in its band.
/// The second draw does not count when there is one gap only.
pub open spec fn draws_in_band(two_gaps: bool, first: i32, second: i32) -> bool {
    &&& 0 <= first < gap_band(two_gaps)
    &&& two_gaps ==> 0 <= second < gap_band(two_gaps)
}

impl Obstacle {
    /// `self` is the fresh obstacle that the three draws determine.
    ///
    /// The first gap starts at `first`. With `two_gaps` a second gap starts
    /// at `second` columns into the second band. A gap ends one column past
    /// its width, the column flags are `false` exactly on the gaps' columns,
    /// and the bar stands at the top of the panel.
    pub open spec fn laid_out(&self, two_gaps: bool, first: i32, second: i32) -> bool {
        &&& self.rect == Rectangle { dx: 0, dy: 0, width: 320, height: 5 }
        &&& self.pos == 0
        &&& self.gap1.0 == first
        &&& self.gap1.1 == first + gap_width(two_gaps) + 1
        &&& two_gaps ==> self.gap2 == Some(
            (
                (SECOND_BAND_OFFSET + second) as i32,
                (SECOND_BAND_OFFSET + second + gap_width(two_gaps) + 1) as i32,
            ),
        )
        &&& !two_gaps ==> self.gap2.is_none()
        &&& forall|col: int| 0 <= col < WIDTH ==> #[trigger] self.obstacle@[col] == !self.passable(col)
    }

    /// `self` is a fresh obstacle: the one that some draws from the bands
    /// determine, namely the draws that its own gaps start at.
    pub open spec fn fresh(&self) -> bool {
        match self.gap2 {
            Some(gap) => {
                &&& draws_in_band(true, self.gap1.0, (gap.0 - SECOND_BAND_OFFSET) as i32)
                &&& self.laid_out(true, self.gap1.0, (gap.0 - SECOND_BAND_OFFSET) as i32)
            },
            None => {
                &&& draws_in_band(false, self.gap1.0, 0)
                &&& self.laid_out(false, self.gap1.0, 0)
            },
        }
    }
}

/// Every fresh obstacle is well formed: its gaps lie on the panel, the
/// first wholly left of the second, and its column flags are `false`
/// exactly on the gaps' columns.
pub proof fn lemma_fresh_well_formed(obstacle: Obstacle)
    requires
        obstacle.fresh(),
    ensures
        obstacle.wf(),
        obstacle.gaps_on_panel(),
        forall|col: int|
            0 <= col < WIDTH ==> (#[trigger] obstacle.obstacle@[col] == false <==> obstacle.passable(
                col,
            )),
{
}

/// Marks the `width` columns from `start` on as passable.
fn open_columns(mask: &mut [bool; WIDTH], start: i32, width: i32)
    requires
        0 <= start,
        0 <= width,
        start + width <= WIDTH,
    ensures
        forall|col: int|
            0 <= col < WIDTH ==> #[trigger] final(mask)@[col] == (old(mask)@[col] && !(start <= col
                < start + width)),
{
    let first: usize = start as usize;
    let count: usize = width as usize;
    let mut j: usize = 0;
    while j < count
        invariant
            j <= count,
            first == start,
            count == width,
            first + count <= WIDTH,
            forall|col: int|
                0 <= col < WIDTH ==> #[trigger] mask@[col] == (old(mask)@[col] && !(first <= col
                    < first + j)),
        decreases count - j,
    {
        mask[first + j] = false;
        j += 1;
    }
}

/// Lays out the fresh obstacle that three draws determine: whether there
/// are two gaps, where the first gap starts, and how far into the second
/// band the second gap starts.
pub fn layout_obstacle(two_gaps: bool, first: i32, second: i32) -> (obstacle: Obstacle)
    requires
        draws_in_band(two_gaps, first, second),
    ensures
        obstacle.laid_out(two_gaps, first, second),
        obstacle.fresh(),
        obstacle.wf(),
{
    let gap_size: i32 = if two_gaps {
        NARROW_GAP
    } else {
        WIDE_GAP
    };
    let mut obstacle = Obstacle {
        rect: Rectangle { dx: 0, dy: 0, width: 320, height: 5 },
        obstacle: [true;WIDTH],
        pos: 0,
        gap1: (first, first + gap_size + 1),
        gap2: None,
    };
    if two_gaps {
        let gap2_start: i32 = SECOND_BAND_OFFSET + second;
        obstacle.gap2 = Some((gap2_start, gap2_start + gap_size + 1));
    }
    open_columns(&mut obstacle.obstacle, first, gap_size);
    match obstacle.gap2 {
        Some((start, _)) => {
            open_columns(&mut obstacle.obstacle, start, gap_size);
        },
        None => {},
    }
    obstacle
}

/// Draws a fresh obstacle from `rng`: one boolean decides between one gap
/// and two, then one integer per gap picks the gap's start within its band.
pub fn generate_obstacle(rng: &mut StdRng) -> (obstacle: Obstacle)
    ensures
        obstacle.fresh(),
        obstacle.wf(),
{
    let two_gaps: bool = uniform_bool(rng);
    let gap_area: i32 = if two_gaps {
        NARROW_BAND
    } else {
        WIDE_BAND
    };
    let first: i32 = uniform_int(rng, 0, gap_area);
    let second: i32 = if two_gaps {
        uniform_int(rng, 0, gap_area)
    } else {
        0
    };
    layout_obstacle(two_gaps, first, second)
}

/// A fresh layout is a function of the draws: two obstacles laid out from
/// the same three draws have the same gaps and the same column flags, and
/// are equal.
pub proof fn lemma_layout_deterministic(
    a: Obstacle,
    b: Obstacle,
    two_gaps: bool,
    first: i32,
    second: i32,
)
    requires
        a.laid_out(two_gaps, first, second),
        b.laid_out(two_gaps, first, second),
    ensures
        a.gap1 == b.gap1,
        a.gap2 == b.gap2,
        a.obstacle@ == b.obstacle@,
        a == b,
{
    // Equal gaps make the same columns passable, hence equal flags.
    assert(a.obstacle =~= b.obstacle);
}

} // verus!

//! Contact between the two circles, and between a circle and the obstacle.

use vstd::prelude::*;
use crate::world::{
    dist_sq, gap_on_panel, sq, square, GameEnv, Obstacle, Rectangle, CYCLE_TICKS, MIN_SEPARATION_SQ,
};

verus! {

/// `r` with its x coordinate replaced.
pub open spec fn with_x(r: Rectangle, x: i32) -> Rectangle {
    Rectangle { dx: x, dy: r.dy, width: r.width, height: r.height }
}

/// `r` with its y coordinate replaced.
pub open spec fn with_y(r: Rectangle, y: i32) -> Rectangle {
    Rectangle { dx: r.dx, dy: y, width: r.width, height: r.height }
}

/// `now` was reached from `before` by moving at most one pixel on each axis.
pub open spec fn one_step(before: Rectangle, now: Rectangle) -> bool {
    &&& -1 <= now.dx - before.dx <= 1
    &&& -1 <= now.dy - before.dy <= 1
    &&& now.width == before.width
    &&& now.height == before.height
}

/// Weighs one corrective move: while the pair `(r1, r2)` is too close, the
/// candidate pair `(c1, c2)` replaces it if it lies strictly farther apart.
pub open spec fn keep_farther(r1: Rectangle, r2: Rectangle, c1: Rectangle, c2: Rectangle) -> (
    Rectangle,
    Rectangle,
) {
    if !r1.apart_from(&r2) && c1.separation_sq(&c2) > r1.separation_sq(&r2) {
        (c1, c2)
    } else {
        (r1, r2)
    }
}

/// The positions that collision resolution leaves the circles at.
///
/// `r1`, `r2` are the rectangles after the move and `o1`, `o2` those before
/// it. Four corrective moves are weighed in a fixed order, each against the
/// outcome of the ones before: undo the first circle's x move, its y move,
/// the second circle's x move, its y move.
pub open spec fn resolved(r1: Rectangle, r2: Rectangle, o1: Rectangle, o2: Rectangle) -> (
    Rectangle,
    Rectangle,
) {
    let a = keep_farther(r1, r2, with_x(r1, o1.dx), r2);
    let b = keep_farther(a.0, a.1, with_y(a.0, o1.dy), a.1);
    let c = keep_farther(b.0, b.1, b.0, with_x(b.1, o2.dx));
    keep_farther(c.0, c.1, c.0, with_y(c.1, o2.dy))
}

/// How the square of `v` relates to the squares of its neighbours.
proof fn lemma_square_neighbors(v: int)
    ensures
        sq(v + 1) == sq(v) + 2 * v + 1,
        sq(v - 1) == sq(v) - 2 * v + 1,
        sq(v + 2) == sq(v) + 4 * v + 4,
        sq(v - 2) == sq(v) - 4 * v + 4,
{
    reveal(sq);
    assert((v + 1) * (v + 1) == v * v + 2 * v + 1) by (nonlinear_arith);
    assert((v - 1) * (v - 1) == v * v - 2 * v + 1) by (nonlinear_arith);
    assert((v + 2) * (v + 2) == v * v + 4 * v + 4) by (nonlinear_arith);
    assert((v - 2) * (v - 2) == v * v - 4 * v + 4) by (nonlinear_arith);
}

/// One axis of collision resolution, seen alone.
///
/// `p` and `q` are the two circles' coordinates after the move, `op` and `oq`
/// those before it. The first circle's move is undone if that widens the
/// gap, then the second circle's. The gap that is left is at least as wide
/// as the gap before the move.
proof fn lemma_axis_never_narrows(p: int, q: int, op: int, oq: int)
    requires
        -1 <= p - op <= 1,
        -1 <= q - oq <= 1,
    ensures
        ({
            let p2 = if sq(op - q) > sq(p - q) { op } else { p };
            let q2 = if sq(p2 - oq) > sq(p2 - q) { oq } else { q };
            sq(p2 - q2) >= sq(op - oq)
        }),
{
    // Undoing a move changes the gap by at most one pixel, so the squares
    // to weigh are those of the neighbours of the gap at hand.
    lemma_square_neighbors(p - q);
    let p2 = if sq(op - q) > sq(p - q) { op } else { p };
    lemma_square_neighbors(p2 - q);
}

/// Collision resolution always restores the minimum separation.
///
/// If the circles were far enough apart before the move and each moved at
/// most one pixel per axis, then the resolved positions are again at least
/// the minimum separation apart, and each lies one step from where its
/// circle stood before the move.
pub proof fn lemma_resolution_separates(
    r1: Rectangle,
    r2: Rectangle,
    o1: Rectangle,
    o2: Rectangle,
)
    requires
        one_step(o1, r1),
        one_step(o2, r2),
        o1.apart_from(&o2),
    ensures
        resolved(r1, r2, o1, o2).0.apart_from(&resolved(r1, r2, o1, o2).1),
        one_step(o1, resolved(r1, r2, o1, o2).0),
        one_step(o2, resolved(r1, r2, o1, o2).1),
{
    let a = keep_farther(r1, r2, with_x(r1, o1.dx), r2);
    let b = keep_farther(a.0, a.1, with_y(a.0, o1.dy), a.1);
    let c = keep_farther(b.0, b.1, b.0, with_x(b.1, o2.dx));
    let d = keep_farther(c.0, c.1, c.0, with_y(c.1, o2.dy));
    if !d.0.apart_from(&d.1) {
        // No stage reached the minimum separation, so every corrective move
        // was weighed on its own axis alone, and neither axis ends up
        // narrower than it was before the move.
        lemma_axis_never_narrows(r1.dx as int, r2.dx as int, o1.dx as int, o2.dx as int);
        lemma_axis_never_narrows(r1.dy as int, r2.dy as int, o1.dy as int, o2.dy as int);
        assert(sq(d.0.dx - d.1.dx) >= sq(o1.dx - o2.dx));
        assert(sq(d.0.dy - d.1.dy) >= sq(o1.dy - o2.dy));
    }
}

/// Squared distance between two points whose coordinates lie in the arena.
fn point_dist_sq(x1: i32, y1: i32, x2: i32, y2: i32) -> (d: i32)
    requires
        -400 <= x1 <= 400,
        -400 <= y1 <= 400,
        -400 <= x2 <= 400,
        -400 <= y2 <= 400,
    ensures
        d == dist_sq(x1 as int, y1 as int, x2 as int, y2 as int),
        0 <= d <= 2_000_000,
{
    square(x1 - x2) + square(y1 - y2)
}

/// Pushes the two circles apart again after a move.
///
/// `old_rect1` and `old_rect2` are the circles' rectangles before the move.
/// While the circles are closer than the minimum separation, the moves are
/// undone one axis at a time, in the order first circle x, first circle y,
/// second circle x, second circle y, each only if undoing it brings the
/// circles strictly farther apart. A circle's scan-out offset follows every
/// coordinate that is put back.
pub fn detect_circle_collision(env: &mut GameEnv, old_rect1: Rectangle, old_rect2: Rectangle)
    requires
        old(env).circle1.wf(),
        old(env).circle2.wf(),
        old_rect1.in_arena(),
        old_rect2.in_arena(),
        one_step(old_rect1, old(env).circle1.rect),
        one_step(old_rect2, old(env).circle2.rect),
        old_rect1.apart_from(&old_rect2),
    ensures
        (final(env).circle1.rect, final(env).circle2.rect) == resolved(
            old(env).circle1.rect,
            old(env).circle2.rect,
            old_rect1,
            old_rect2,
        ),
        final(env).circle1.rect.apart_from(&final(env).circle2.rect),
        final(env).circle1.wf(),
        final(env).circle2.wf(),
        one_step(old_rect1, final(env).circle1.rect),
        one_step(old_rect2, final(env).circle2.rect),
        final(env).circle1.color == old(env).circle1.color,
        final(env).circle2.color == old(env).circle2.color,
        final(env).obstacle == old(env).obstacle,
        final(env).score == old(env).score,
        final(env).max_score == old(env).max_score,
        final(env).frame == old(env).frame,
{
    proof {
        lemma_resolution_separates(
            env.circle1.rect,
            env.circle2.rect,
            old_rect1,
            old_rect2,
        );
    }
    let mut diff: i32 = env.circle1.rect.squared_separation(&env.circle2.rect);

    if diff < MIN_SEPARATION_SQ {
        let diff2: i32 = point_dist_sq(
            old_rect1.dx,
            env.circle1.rect.dy,
            env.circle2.rect.dx,
            env.circle2.rect.dy,
        );
        if diff2 > diff {
            env.circle1.center += old_rect1.dx - env.circle1.rect.dx;
            env.circle1.rect.dx = old_rect1.dx;
            diff = diff2;
        }
    }
    if diff < MIN_SEPARATION_SQ {
        let diff2: i32 = point_dist_sq(
            env.circle1.rect.dx,
            old_rect1.dy,
            env.circle2.rect.dx,
            env.circle2.rect.dy,
        );
        if diff2 > diff {
            env.circle1.center += if old_rect1.dy - env.circle1.rect.dy == 1 {
                672
            } else {
                -672
            };
            env.circle1.rect.dy = old_rect1.dy;
            diff = diff2;
        }
    }
    if diff < MIN_SEPARATION_SQ {
        let diff2: i32 = point_dist_sq(
            env.circle1.rect.dx,
            env.circle1.rect.dy,
            old_rect2.dx,
            env.circle2.rect.dy,
        );
        if diff2 > diff {
            env.circle2.center += old_rect2.dx - env.circle2.rect.dx;
            env.circle2.rect.dx = old_rect2.dx;
            diff = diff2;
        }
    }
    if diff < MIN_SEPARATION_SQ {
        let diff2: i32 = point_dist_sq(
            env.circle1.rect.dx,
            env.circle1.rect.dy,
            env.circle2.rect.dx,
            old_rect2.dy,
        );
        if diff2 > diff {
            env.circle2.center += if old_rect2.dy - env.circle2.rect.dy == 1 {
                672
            } else {
                -672
            };
            env.circle2.rect.dy = old_rect2.dy;
        }
    }
}

/// Squared reach of a circle's collider around its centre.
pub const COLLIDER_RADIUS_SQ: i32 = 625;

/// The column `cx` lies strictly between the posts of `gap`.
pub open spec fn between_posts(gap: (i32, i32), cx: int) -> bool {
    gap.0 < cx < gap.1
}

/// A collider centred at `(cx, cy)` touches one of the two posts of `gap`,
/// which stand on the row `row`.
pub open spec fn clips_post(gap: (i32, i32), cx: int, cy: int, row: int) -> bool {
    ||| dist_sq(cx, cy, gap.0 as int, row) < COLLIDER_RADIUS_SQ
    ||| dist_sq(cx, cy, gap.1 as int, row) < COLLIDER_RADIUS_SQ
}

/// The circle with rectangle `rect` is in lethal contact with `obstacle`
/// while the obstacle is aligned to the row `row`.
///
/// Nothing happens unless the row crosses the circle. If it does, a circle
/// whose centre column lies strictly between the posts of a gap is safe
/// unless its collider touches one of that gap's posts; the first gap is
/// looked at before the second. A centre outside every gap is lethal.
pub open spec fn lethal_contact(obstacle: Obstacle, row: int, rect: Rectangle) -> bool {
    let cx = rect.dx + 25;
    let cy = rect.dy + 25;
    rect.dy <= row <= rect.dy + 50 && if between_posts(obstacle.gap1, cx) {
        clips_post(obstacle.gap1, cx, cy, row)
    } else {
        match obstacle.gap2 {
            Some(gap) => !between_posts(gap, cx) || clips_post(gap, cx, cy, row),
            None => true,
        }
    }
}

/// Tells whether a collider centred at `(cx, cy)` touches a post of `gap`.
fn touches_post(gap: (i32, i32), cx: i32, cy: i32, row: i32) -> (hit: bool)
    requires
        gap_on_panel(gap),
        0 <= cx <= 400,
        0 <= cy <= 400,
        0 <= row <= 400,
    ensures
        hit == clips_post(gap, cx as int, cy as int, row as int),
{
    point_dist_sq(cx, cy, gap.0, row) < COLLIDER_RADIUS_SQ || point_dist_sq(cx, cy, gap.1, row)
        < COLLIDER_RADIUS_SQ
}

/// Tells whether the circle with rectangle `rect` is in lethal contact with
/// the obstacle on this tick.
pub fn detect_collission(env: &GameEnv, rect: Rectangle) -> (hit: bool)
    requires
        rect.in_arena(),
        env.obstacle.gaps_on_panel(),
        0 <= env.frame < CYCLE_TICKS,
    ensures
        hit == lethal_contact(env.obstacle, env.frame as int, rect),
{
    let dx: i32 = rect.dx;
    let dy: i32 = rect.dy;
    let obs = &env.obstacle;

    if dy <= env.frame && dy + 50 >= env.frame {
        if dx + 25 > obs.gap1.0 && dx + 25 < obs.gap1.1 {
            return touches_post(obs.gap1, dx + 25, dy + 25, env.frame);
        }
        return match obs.gap2 {
            Some(gap) => {
                if dx + 25 > gap.0 && dx + 25 < gap.1 {
                    touches_post(gap, dx + 25, dy + 25, env.frame)
                } else {
                    true
                }
            },
            None => true,
        };
    }
    false
}

} // verus!

//! The rules of one round: starting it, moving the circles, advancing the
//! obstacle, and the tick that puts them in order.

use rand::rngs::StdRng;
use vstd::prelude::*;
use crate::collision::{
    detect_circle_collision, detect_collission, lemma_resolution_separates, lethal_contact,
    one_step, resolved,
};
use crate::display::{
    circle_erased, circle_painted, clear, clear_circle, draw_circle, draw_number, draw_obstacle,
    number_painted, obstacle_painted, FrameBuffer, FRAME_PIXELS, MAX_SCORE_COLOR, MAX_SCORE_POS, SCORE_COLOR,
    SCORE_POS,
};
use crate::obstacle::generate_obstacle;
use crate::world::{
    in_hue_ring, sq, Circle, GameEnv, Obstacle, Rectangle, ARENA_MAX_X, ARENA_MAX_Y, CIRCLE_SIZE,
    CYCLE_TICKS, HUE_BASE_1, HUE_BASE_2, HUE_STEP, OUTLINE_HUES,
};

verus! {

/// Button bit that moves the first circle left.
pub const LEFT_1: u32 = 0x01;

/// Button bit that moves the first circle up.
pub const UP_1: u32 = 0x02;

/// Button bit that moves the first circle right.
pub const RIGHT_1: u32 = 0x04;

/// Button bit that moves the first circle down.
pub const DOWN_1: u32 = 0x08;

/// Button bit that moves the second circle left.
pub const LEFT_2: u32 = 0x10;

/// Button bit that moves the second circle up.
pub const UP_2: u32 = 0x20;

/// Button bit that moves the second circle right.
pub const RIGHT_2: u32 = 0x40;

/// Button bit that moves the second circle down.
pub const DOWN_2: u32 = 0x80;

/// The button with bit `mask` is held down: buttons are active low, so its
/// bit is clear.
pub open spec fn pressed(buttons: u32, mask: u32) -> bool {
    buttons & mask == 0
}

/// Where one coordinate goes in one tick: one pixel down if `dec` is held
/// and the coordinate is above zero, then one pixel up if `inc` is held and
/// the coordinate is below `max`.
pub open spec fn moved_coord(v: int, dec: bool, inc: bool, max: int) -> int {
    let lowered = if dec && v > 0 {
        v - 1
    } else {
        v
    };
    if inc && lowered < max {
        lowered + 1
    } else {
        lowered
    }
}

/// The circle at the position `(x, y)`, with the scan-out offset that
/// belongs to that position.
pub open spec fn placed(circle: Circle, x: int, y: int) -> Circle {
    Circle {
        rect: Rectangle {
            dx: x as i32,
            dy: y as i32,
            width: circle.rect.width,
            height: circle.rect.height,
        },
        center: Circle::scan_index(x, y) as i32,
        color: circle.color,
    }
}

/// The circle after one tick of its four buttons, given as masks.
pub open spec fn moved(circle: Circle, buttons: u32, left: u32, up: u32, right: u32, down: u32) -> Circle {
    placed(
        circle,
        moved_coord(
            circle.rect.dx as int,
            pressed(buttons, left),
            pressed(buttons, right),
            ARENA_MAX_X as int,
        ),
        moved_coord(
            circle.rect.dy as int,
            pressed(buttons, up),
            pressed(buttons, down),
            ARENA_MAX_Y as int,
        ),
    )
}

/// The first circle after one tick of the buttons.
pub open spec fn moved_first(circle: Circle, buttons: u32) -> Circle {
    moved(circle, buttons, LEFT_1, UP_1, RIGHT_1, DOWN_1)
}

/// The second circle after one tick of the buttons.
pub open spec fn moved_second(circle: Circle, buttons: u32) -> Circle {
    moved(circle, buttons, LEFT_2, UP_2, RIGHT_2, DOWN_2)
}

/// Moves one circle by its four buttons, given as masks.
fn move_circle(circle: &mut Circle, buttons: u32, left: u32, up: u32, right: u32, down: u32)
    requires
        old(circle).wf(),
    ensures
        *final(circle) == moved(*old(circle), buttons, left, up, right, down),
        final(circle).wf(),
        one_step(old(circle).rect, final(circle).rect),
{
    if buttons & left == 0 && circle.rect.dx > 0 {
        circle.center -= 1;
        circle.rect.dx -= 1;
    }
    if buttons & up == 0 && circle.rect.dy > 0 {
        circle.center -= 672;
        circle.rect.dy -= 1;
    }
    if buttons & right == 0 && circle.rect.dx < ARENA_MAX_X {
        circle.center += 1;
        circle.rect.dx += 1;
    }
    if buttons & down == 0 && circle.rect.dy < ARENA_MAX_Y {
        circle.center += 672;
        circle.rect.dy += 1;
    }
}

/// Moves both circles by one tick of the buttons.
///
/// Bits 0 to 3 move the first circle left, up, right and down; bits 4 to 7
/// do the same for the second circle. A clear bit asks for the move. Each
/// move is one pixel and stops at the arena's bounds.
pub fn apply_buttons(env: &mut GameEnv, buttons: u32)
    requires
        old(env).circle1.wf(),
        old(env).circle2.wf(),
    ensures
        final(env).circle1 == moved_first(old(env).circle1, buttons),
        final(env).circle2 == moved_second(old(env).circle2, buttons),
        final(env).circle1.wf(),
        final(env).circle2.wf(),
        one_step(old(env).circle1.rect, final(env).circle1.rect),
        one_step(old(env).circle2.rect, final(env).circle2.rect),
        final(env).obstacle == old(env).obstacle,
        final(env).score == old(env).score,
        final(env).max_score == old(env).max_score,
        final(env).frame == old(env).frame,
{
    move_circle(&mut env.circle1, buttons, LEFT_1, UP_1, RIGHT_1, DOWN_1);
    move_circle(&mut env.circle2, buttons, LEFT_2, UP_2, RIGHT_2, DOWN_2);
}

/// The hue that follows `color` on the ring that starts at `base`: one step
/// on, or back to `base` if the step would come within two steps of the
/// hue past the last outline pixel of a circle in the hue `base`.
pub open spec fn next_hue(color: u16, base: u16) -> int {
    if color + HUE_STEP + 2 * HUE_STEP > base + OUTLINE_HUES {
        base as int
    } else {
        color + HUE_STEP
    }
}

/// Steps a circle's hue along the ring that starts at `default`.
pub fn increment_color(circle: &mut Circle, default: u16)
    requires
        old(circle).color + 3 * HUE_STEP <= u16::MAX,
        default + OUTLINE_HUES <= u16::MAX,
    ensures
        final(circle).color == next_hue(old(circle).color, default),
        final(circle).rect == old(circle).rect,
        final(circle).center == old(circle).center,
        in_hue_ring(old(circle).color, default) ==> in_hue_ring(final(circle).color, default),
{
    circle.color += HUE_STEP;
    if circle.color + 2 * HUE_STEP > default + OUTLINE_HUES {
        circle.color = default;
    }
}

/// The first circle as a round starts.
pub open spec fn initial_circle1() -> Circle {
    Circle {
        rect: Rectangle { dx: 76, dy: 76, width: CIRCLE_SIZE, height: CIRCLE_SIZE },
        center: 67300,
        color: HUE_BASE_1,
    }
}

/// The second circle as a round starts.
pub open spec fn initial_circle2() -> Circle {
    Circle {
        rect: Rectangle { dx: 176, dy: 150, width: CIRCLE_SIZE, height: CIRCLE_SIZE },
        center: 117128,
        color: HUE_BASE_2,
    }
}

/// The state in which a round starts, with the best score so far and the
/// round's first obstacle.
pub open spec fn initial_round(max_score: u32, obstacle: Obstacle) -> GameEnv {
    GameEnv {
        circle1: initial_circle1(),
        circle2: initial_circle2(),
        obstacle,
        score: 0,
        max_score,
        frame: 0,
    }
}

/// Starts a round with the given first obstacle.
pub fn new_round(max_score: u32, obstacle: Obstacle) -> (env: GameEnv)
    requires
        obstacle.fresh(),
        obstacle.wf(),
    ensures
        env == initial_round(max_score, obstacle),
        env.wf(),
{
    let circle1 = Circle {
        rect: Rectangle { dx: 76, dy: 76, width: CIRCLE_SIZE, height: CIRCLE_SIZE },
        center: 100 * 672 + 100,
        color: HUE_BASE_1,
    };
    let circle2 = Circle {
        rect: Rectangle { dx: 176, dy: 150, width: CIRCLE_SIZE, height: CIRCLE_SIZE },
        center: 174 * 672 + 200,
        color: HUE_BASE_2,
    };
    proof {
        // 100 * 100 + 74 * 74 is well above the minimum separation.
        reveal(sq);
    }
    GameEnv { circle1, circle2, obstacle, score: 0, max_score, frame: 0 }
}

/// Starts a round over: blackens the display, draws a fresh obstacle from
/// `rng` and puts the circles back where a round starts. Of the round
/// before, only the best score is kept.
pub fn restart(max_score: u32, rng: &mut StdRng, fb: &mut FrameBuffer) -> (env: GameEnv)
    requires
        old(fb).wf(),
    ensures
        env == initial_round(max_score, env.obstacle),
        env.obstacle.fresh(),
        env.wf(),
        final(fb).wf(),
        forall|i: int| 0 <= i < FRAME_PIXELS ==> final(fb)@[i] == 0,
{
    clear(fb);
    let obstacle = generate_obstacle(rng);
    new_round(max_score, obstacle)
}

/// The state after the obstacle has come one row down within its cycle:
/// its rectangle follows two rows behind the tick, never above the panel.
pub open spec fn advanced(env: GameEnv) -> GameEnv {
    GameEnv {
        obstacle: Obstacle {
            rect: Rectangle {
                dx: env.obstacle.rect.dx,
                dy: if env.frame > 2 {
                    (env.frame - 2) as i32
                } else {
                    0
                },
                width: env.obstacle.rect.width,
                height: env.obstacle.rect.height,
            },
            pos: (env.obstacle.pos + 672) as usize,
            ..env.obstacle
        },
        frame: (env.frame + 1) as i32,
        ..env
    }
}

/// The state after a cycle has ended and `fresh` has replaced the obstacle:
/// the score counts the cycle, the best score follows it, and the tick
/// starts again at one.
pub open spec fn next_cycle(env: GameEnv, fresh: Obstacle) -> GameEnv {
    GameEnv {
        obstacle: fresh,
        score: (env.score + 1) as u32,
        max_score: if env.score + 1 > env.max_score {
            (env.score + 1) as u32
        } else {
            env.max_score
        },
        frame: 1,
        ..env
    }
}

/// The tick `frame` is the last one of its cycle.
pub open spec fn cycle_ends(frame: i32) -> bool {
    frame + 1 == CYCLE_TICKS
}

/// `after` is what one advance of the obstacle makes of `before`: within
/// the cycle the obstacle comes one row down, and at the cycle's end a
/// fresh obstacle replaces it.
pub open spec fn obstacle_advanced(before: GameEnv, after: GameEnv) -> bool {
    if cycle_ends(before.frame) {
        after.obstacle.fresh() && after == next_cycle(before, after.obstacle)
    } else {
        after == advanced(before)
    }
}

/// Brings the obstacle one row down.
pub fn advance_obstacle(env: &mut GameEnv)
    requires
        old(env).obstacle.row_aligned(),
        0 <= old(env).frame < CYCLE_TICKS,
    ensures
        *final(env) == advanced(*old(env)),
{
    env.obstacle.rect.dy = env.frame - 2;
    if env.obstacle.rect.dy < 0 {
        env.obstacle.rect.dy = 0;
    }
    env.frame += 1;
    env.obstacle.pos += 672;
}

/// Ends a cycle: counts it in the score and puts `fresh` in the place of
/// the obstacle, all at once.
pub fn begin_cycle(env: &mut GameEnv, fresh: Obstacle)
    requires
        old(env).score < u32::MAX,
    ensures
        *final(env) == next_cycle(*old(env), fresh),
{
    env.score += 1;
    if env.score > env.max_score {
        env.max_score = env.score;
    }
    env.frame = 1;
    env.obstacle = fresh;
}

/// Advances the obstacle by one tick and draws it. When the tick reaches
/// the cycle's length, the cycle ends: the score goes up and a fresh
/// obstacle, drawn from `rng`, replaces the old one.
pub fn update_obstacle(env: &mut GameEnv, rng: &mut StdRng, fb: &mut FrameBuffer)
    requires
        old(env).wf(),
        cycle_ends(old(env).frame) ==> old(env).score < u32::MAX,
        old(fb).wf(),
    ensures
        obstacle_advanced(*old(env), *final(env)),
        final(env).wf(),
        final(fb).wf(),
        final(fb)@ == obstacle_painted(old(fb)@, final(env).obstacle),
{
    advance_obstacle(env);
    if env.frame == CYCLE_TICKS {
        let fresh = generate_obstacle(rng);
        begin_cycle(env, fresh);
    }
    draw_obstacle(fb, &env.obstacle);
}

/// How a tick ended.
#[derive(Copy, Clone, Debug, PartialEq, Eq, Structural)]
pub enum TickOutcome {
    /// A circle hit the obstacle and a new round has started.
    Restarted,
    /// The round goes on.
    Advanced,
}

/// The state once the circles have moved by `buttons` and collision
/// resolution has pushed them apart again.
pub open spec fn settled(env: GameEnv, buttons: u32) -> GameEnv {
    let spots = resolved(
        moved_first(env.circle1, buttons).rect,
        moved_second(env.circle2, buttons).rect,
        env.circle1.rect,
        env.circle2.rect,
    );
    GameEnv {
        circle1: placed(env.circle1, spots.0.dx as int, spots.0.dy as int),
        circle2: placed(env.circle2, spots.1.dx as int, spots.1.dy as int),
        ..env
    }
}

/// Moving and resolving never leaves the reachable states: from a well
/// formed state, whatever the buttons, both circles end up inside the arena
/// and at least the minimum separation apart, and nothing else changes.
pub proof fn lemma_settled_stays_valid(env: GameEnv, buttons: u32)
    requires
        env.wf(),
    ensures
        settled(env, buttons).wf(),
        settled(env, buttons).circle1.rect.in_arena(),
        settled(env, buttons).circle2.rect.in_arena(),
        settled(env, buttons).circle1.rect.apart_from(&settled(env, buttons).circle2.rect),
        one_step(env.circle1.rect, settled(env, buttons).circle1.rect),
        one_step(env.circle2.rect, settled(env, buttons).circle2.rect),
{
    let m1 = moved_first(env.circle1, buttons);
    let m2 = moved_second(env.circle2, buttons);
    assert(one_step(env.circle1.rect, m1.rect) && m1.rect.in_arena());
    assert(one_step(env.circle2.rect, m2.rect) && m2.rect.in_arena());
    lemma_resolution_separates(m1.rect, m2.rect, env.circle1.rect, env.circle2.rect);
    // A resolved coordinate is the moved one or the one before the move.
    let spots = resolved(m1.rect, m2.rect, env.circle1.rect, env.circle2.rect);
    assert(spots.0.in_arena() && spots.1.in_arena());
}

/// One of the two circles is in lethal contact with the obstacle.
pub open spec fn round_lost(env: GameEnv) -> bool {
    ||| lethal_contact(env.obstacle, env.frame as int, env.circle1.rect)
    ||| lethal_contact(env.obstacle, env.frame as int, env.circle2.rect)
}

/// `env` with each circle's hue stepped along its ring.
pub open spec fn hues_stepped(env: GameEnv) -> GameEnv {
    GameEnv {
        circle1: Circle {
            color: next_hue(env.circle1.color, HUE_BASE_1) as u16,
            ..env.circle1
        },
        circle2: Circle {
            color: next_hue(env.circle2.color, HUE_BASE_2) as u16,
            ..env.circle2
        },
        ..env
    }
}

/// `env` with the hues that the circles have in `source`.
pub open spec fn with_hues_of(env: GameEnv, source: GameEnv) -> GameEnv {
    GameEnv {
        circle1: Circle { color: source.circle1.color, ..env.circle1 },
        circle2: Circle { color: source.circle2.color, ..env.circle2 },
        ..env
    }
}

/// The buffer after a tick that the round survived: the circles' old
/// outlines are blackened, then the obstacle, both circles, the score and
/// the best score are drawn, in this order. `before` is the state the tick
/// started from, `shown` the state that is drawn.
pub open spec fn tick_painted(buf: Seq<u16>, before: GameEnv, shown: GameEnv) -> Seq<u16> {
    let erased1 = circle_erased(buf, before.circle1);
    let erased2 = circle_erased(erased1, before.circle2);
    let barred = obstacle_painted(erased2, shown.obstacle);
    let ringed1 = circle_painted(barred, shown.circle1);
    let ringed2 = circle_painted(ringed1, shown.circle2);
    let scored = number_painted(ringed2, shown.score as int, SCORE_POS as int, SCORE_COLOR);
    number_painted(scored, shown.max_score as int, MAX_SCORE_POS as int, MAX_SCORE_COLOR)
}

/// Plays one tick.
///
/// The circles' outlines are blackened and the circles move by `buttons`;
/// collision resolution pushes them apart again. If a circle is then in
/// lethal contact with the obstacle, the round is over at once: a new round
/// starts, which keeps nothing but the best score. Otherwise the obstacle
/// advances, everything is drawn, and each circle's hue steps along its
/// ring.
pub fn tick(env: &mut GameEnv, rng: &mut StdRng, fb: &mut FrameBuffer, buttons: u32) -> (outcome:
    TickOutcome)
    requires
        old(env).wf(),
        cycle_ends(old(env).frame) ==> old(env).score < u32::MAX,
        old(fb).wf(),
    ensures
        final(env).wf(),
        final(fb).wf(),
        outcome == TickOutcome::Restarted <==> round_lost(settled(*old(env), buttons)),
        outcome == TickOutcome::Restarted ==> {
            &&& *final(env) == initial_round(old(env).max_score, final(env).obstacle)
            &&& final(env).obstacle.fresh()
            &&& forall|i: int| 0 <= i < FRAME_PIXELS ==> final(fb)@[i] == 0
        },
        outcome == TickOutcome::Advanced ==> {
            let shown = with_hues_of(*final(env), *old(env));
            &&& obstacle_advanced(settled(*old(env), buttons), shown)
            &&& *final(env) == hues_stepped(shown)
            &&& final(fb)@ == tick_painted(old(fb)@, *old(env), shown)
        },
{
    let old_rect1: Rectangle = env.circle1.rect;
    let old_rect2: Rectangle = env.circle2.rect;
    clear_circle(fb, &env.circle1);
    clear_circle(fb, &env.circle2);

    apply_buttons(env, buttons);
    detect_circle_collision(env, old_rect1, old_rect2);

    if detect_collission(env, env.circle1.rect) || detect_collission(env, env.circle2.rect) {
        *env = restart(env.max_score, rng, fb);
        return TickOutcome::Restarted;
    }
    update_obstacle(env, rng, fb);
    let ghost shown = *env;

    draw_circle(fb, &env.circle1);
    increment_color(&mut env.circle1, HUE_BASE_1);
    draw_circle(fb, &env.circle2);
    increment_color(&mut env.circle2, HUE_BASE_2);

    draw_number(fb, env.score as usize, SCORE_POS, SCORE_COLOR);
    draw_number(fb, env.max_score as usize, MAX_SCORE_POS, MAX_SCORE_COLOR);
    TickOutcome::Advanced
}

} // verus!

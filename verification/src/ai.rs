//! The autopilot: a stateless rule that presses the buttons for both
//! circles, steering them towards the obstacle's gaps.

use vstd::prelude::*;
use crate::game::{DOWN_1, DOWN_2, LEFT_1, LEFT_2, RIGHT_1, RIGHT_2, UP_1, UP_2};
use crate::world::{dist_sq, square, Circle, GameEnv, CYCLE_TICKS};

verus! {

/// Row that a circle's centre must lie below, farther down the panel, for
/// the autopilot to move the circle up.
pub const SAFE_HEIGHT: i32 = 165;

/// The column halfway between the posts of `gap`.
pub open spec fn gap_middle(gap: (i32, i32)) -> int {
    (gap.0 + gap.1) / 2
}

/// Squared distance from the centre of `circle` to the point `target`.
pub open spec fn target_distance(circle: Circle, target: (i32, i32)) -> int {
    dist_sq(
        circle.rect.dx + 25,
        circle.rect.dy + 25,
        target.0 as int,
        target.1 as int,
    )
}

/// The point `target` lies on the panel.
pub open spec fn on_panel(target: (i32, i32)) -> bool {
    0 <= target.0 <= 320 && 0 <= target.1 <= 240
}

/// Squared distance from the centre of `circle` to the centre of a gap.
pub fn distance(circle: &Circle, gap_center: (i32, i32)) -> (d: i32)
    requires
        circle.rect.in_arena(),
        on_panel(gap_center),
    ensures
        d == target_distance(*circle, gap_center),
{
    let x: i32 = circle.rect.dx + 25;
    let y: i32 = circle.rect.dy + 25;
    let (g_x, g_y) = gap_center;
    square(x - g_x) + square(y - g_y)
}

/// The horizontal button that brings `circle` towards the column `gap_x`:
/// `left` if the column lies left of the circle's centre, else `right`.
pub open spec fn steer(circle: Circle, gap_x: int, left: u32, right: u32) -> u32 {
    if gap_x < circle.rect.dx + 25 {
        left
    } else {
        right
    }
}

/// The button `up` if the centre of `circle` lies below the safe height,
/// that is on a row with a greater number, else no button.
pub open spec fn climb(circle: Circle, up: u32) -> u32 {
    if circle.rect.dy + 25 > SAFE_HEIGHT {
        up
    } else {
        0
    }
}

/// The buttons for two circles that head for the same gap: each steers
/// towards the gap's centre, and the one that is nearer to it, the second
/// if they are equally near, moves up while it is below the safe height.
pub open spec fn shared_pattern(env: GameEnv, gap_center: (i32, i32)) -> u32 {
    steer(env.circle1, gap_center.0 as int, LEFT_1, RIGHT_1) | steer(
        env.circle2,
        gap_center.0 as int,
        LEFT_2,
        RIGHT_2,
    ) | if target_distance(env.circle1, gap_center) < target_distance(env.circle2, gap_center) {
        climb(env.circle1, UP_1)
    } else {
        climb(env.circle2, UP_2)
    }
}

/// The buttons for one circle that heads for a gap of its own: it steers
/// towards the gap's centre. `circle` is 0 for the first circle.
pub open spec fn single_pattern(env: GameEnv, circle: u32, gap_center: (i32, i32)) -> u32 {
    if circle == 0 {
        steer(env.circle1, gap_center.0 as int, LEFT_1, RIGHT_1)
    } else {
        steer(env.circle2, gap_center.0 as int, LEFT_2, RIGHT_2)
    }
}

/// The buttons the autopilot wants held, one set bit per button.
///
/// The gaps' centres lie on the row the obstacle is aligned to. With one
/// gap both circles head for it. With two gaps both head for the second if
/// each is strictly nearer to it, both head for the first if each is
/// strictly nearer to that one, and otherwise the first circle heads for
/// the gap it is nearer to, the second gap if it is equally near to both,
/// and the second circle for the other gap.
pub open spec fn autopilot_pattern(env: GameEnv) -> u32 {
    let gap1 = (gap_middle(env.obstacle.gap1) as i32, env.frame);
    match env.obstacle.gap2 {
        Some(second) => {
            let gap2 = (gap_middle(second) as i32, env.frame);
            let diff1_1 = target_distance(env.circle1, gap1);
            let diff2_1 = target_distance(env.circle2, gap1);
            let diff1_2 = target_distance(env.circle1, gap2);
            let diff2_2 = target_distance(env.circle2, gap2);
            if diff1_1 > diff1_2 && diff2_1 > diff2_2 {
                shared_pattern(env, gap2)
            } else if diff1_1 < diff1_2 && diff2_1 < diff2_2 {
                shared_pattern(env, gap1)
            } else if diff1_1 < diff1_2 {
                single_pattern(env, 0, gap1) | single_pattern(env, 1, gap2)
            } else {
                single_pattern(env, 0, gap2) | single_pattern(env, 1, gap1)
            }
        },
        None => shared_pattern(env, gap1),
    }
}

/// In the set of buttons `pattern` no circle is sent both left and right,
/// nor both up and down.
pub open spec fn no_opposite_moves(pattern: u32) -> bool {
    &&& !(pattern & LEFT_1 != 0 && pattern & RIGHT_1 != 0)
    &&& !(pattern & UP_1 != 0 && pattern & DOWN_1 != 0)
    &&& !(pattern & LEFT_2 != 0 && pattern & RIGHT_2 != 0)
    &&& !(pattern & UP_2 != 0 && pattern & DOWN_2 != 0)
}

/// A set of buttons made of one horizontal button per circle and at most
/// one `up` button sends no circle in opposite directions.
proof fn lemma_pattern_consistent(first: u32, second: u32, up: u32)
    by (bit_vector)
    requires
        first == 0x1 || first == 0x4,
        second == 0x10 || second == 0x40,
        up == 0 || up == 0x2 || up == 0x20,
    ensures
        !((first | second | up) & 0x1 != 0 && (first | second | up) & 0x4 != 0),
        !((first | second | up) & 0x2 != 0 && (first | second | up) & 0x8 != 0),
        !((first | second | up) & 0x10 != 0 && (first | second | up) & 0x40 != 0),
        !((first | second | up) & 0x20 != 0 && (first | second | up) & 0x80 != 0),
        (first | second | 0) == (first | second),
{
}

/// The autopilot never sends a circle in opposite directions, whatever the
/// state.
pub proof fn lemma_autopilot_never_opposes(env: GameEnv)
    ensures
        no_opposite_moves(autopilot_pattern(env)),
{
    let gap1 = (gap_middle(env.obstacle.gap1) as i32, env.frame);
    lemma_shared_pattern_consistent(env, gap1);
    match env.obstacle.gap2 {
        Some(second) => {
            let gap2 = (gap_middle(second) as i32, env.frame);
            lemma_shared_pattern_consistent(env, gap2);
            lemma_pattern_consistent(
                single_pattern(env, 0, gap1),
                single_pattern(env, 1, gap2),
                0,
            );
            lemma_pattern_consistent(
                single_pattern(env, 0, gap2),
                single_pattern(env, 1, gap1),
                0,
            );
        },
        None => {},
    }
}

/// Two circles that head for the same gap are never sent in opposite
/// directions.
proof fn lemma_shared_pattern_consistent(env: GameEnv, gap_center: (i32, i32))
    ensures
        no_opposite_moves(shared_pattern(env, gap_center)),
{
    let up = if target_distance(env.circle1, gap_center) < target_distance(
        env.circle2,
        gap_center,
    ) {
        climb(env.circle1, UP_1)
    } else {
        climb(env.circle2, UP_2)
    };
    lemma_pattern_consistent(
        steer(env.circle1, gap_center.0 as int, LEFT_1, RIGHT_1),
        steer(env.circle2, gap_center.0 as int, LEFT_2, RIGHT_2),
        up,
    );
}

/// The buttons for two circles that head for the same gap.
pub fn both_go_to_gap(env: &GameEnv, gap_center: (i32, i32)) -> (buttons: u32)
    requires
        env.circle1.rect.in_arena(),
        env.circle2.rect.in_arena(),
        on_panel(gap_center),
    ensures
        buttons == shared_pattern(*env, gap_center),
        no_opposite_moves(buttons),
{
    let gap_x: i32 = gap_center.0;

    let first: u32 = if gap_x < env.circle1.rect.dx + 25 {
        LEFT_1
    } else {
        RIGHT_1
    };
    let second: u32 = if gap_x < env.circle2.rect.dx + 25 {
        LEFT_2
    } else {
        RIGHT_2
    };

    let diff1: i32 = distance(&env.circle1, gap_center);
    let diff2: i32 = distance(&env.circle2, gap_center);

    let up: u32 = if diff1 < diff2 {
        if env.circle1.rect.dy + 25 > SAFE_HEIGHT {
            UP_1
        } else {
            0
        }
    } else {
        if env.circle2.rect.dy + 25 > SAFE_HEIGHT {
            UP_2
        } else {
            0
        }
    };
    proof {
        lemma_pattern_consistent(first, second, up);
    }
    first | second | up
}

/// The buttons for one circle that heads for a gap of its own; `circle` is
/// 0 for the first circle and anything else for the second.
pub fn go_to_gap(env: &GameEnv, circle: u32, gap_center: (i32, i32)) -> (buttons: u32)
    requires
        env.circle1.rect.in_arena(),
        env.circle2.rect.in_arena(),
    ensures
        buttons == single_pattern(*env, circle, gap_center),
{
    let gap_x: i32 = gap_center.0;
    if circle == 0 {
        if gap_x < env.circle1.rect.dx + 25 {
            LEFT_1
        } else {
            RIGHT_1
        }
    } else {
        if gap_x < env.circle2.rect.dx + 25 {
            LEFT_2
        } else {
            RIGHT_2
        }
    }
}

/// The button word the autopilot hands to the game in place of the real
/// buttons: every button it wants held has its bit clear, all other bits
/// are set.
pub fn get_simulate_buttons(env: &GameEnv) -> (buttons: u32)
    requires
        env.circle1.rect.in_arena(),
        env.circle2.rect.in_arena(),
        env.obstacle.gaps_on_panel(),
        0 <= env.frame < CYCLE_TICKS,
    ensures
        buttons == !autopilot_pattern(*env),
        no_opposite_moves(!buttons),
{
    let gap_y: i32 = env.frame;
    let (gap_1_start, gap_1_end) = env.obstacle.gap1;
    let gap1: (i32, i32) = ((gap_1_start + gap_1_end) / 2, gap_y);

    let button_pattern: u32 = match env.obstacle.gap2 {
        Some((gap_2_start, gap_2_end)) => {
            let gap2: (i32, i32) = ((gap_2_start + gap_2_end) / 2, gap_y);

            let diff1_1: i32 = distance(&env.circle1, gap1);
            let diff2_1: i32 = distance(&env.circle2, gap1);
            let diff1_2: i32 = distance(&env.circle1, gap2);
            let diff2_2: i32 = distance(&env.circle2, gap2);

            if diff1_1 > diff1_2 && diff2_1 > diff2_2 {
                both_go_to_gap(env, gap2)
            } else if diff1_1 < diff1_2 && diff2_1 < diff2_2 {
                both_go_to_gap(env, gap1)
            } else if diff1_1 < diff1_2 {
                let first: u32 = go_to_gap(env, 0, gap1);
                let second: u32 = go_to_gap(env, 1, gap2);
                proof {
                    lemma_pattern_consistent(first, second, 0);
                }
                first | second
            } else {
                let first: u32 = go_to_gap(env, 0, gap2);
                let second: u32 = go_to_gap(env, 1, gap1);
                proof {
                    lemma_pattern_consistent(first, second, 0);
                }
                first | second
            }
        },
        None => both_go_to_gap(env, gap1),
    };
    assert(!(!button_pattern) == button_pattern) by (bit_vector);
    !button_pattern
}

} // verus!

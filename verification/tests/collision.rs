use circle_game::collision::{detect_circle_collision, detect_collission};
use circle_game::game::apply_buttons;
use circle_game::obstacle::layout_obstacle;
use circle_game::world::{Circle, GameEnv, Rectangle};

fn round_with(c1: (i32, i32), c2: (i32, i32), first_gap: i32, frame: i32) -> GameEnv {
    GameEnv {
        circle1: Circle::new(c1.0, c1.1, 2000),
        circle2: Circle::new(c2.0, c2.1, 12000),
        obstacle: layout_obstacle(true, first_gap, 0),
        score: 0,
        max_score: 0,
        frame,
    }
}

fn circle_rect(x: i32, y: i32) -> Rectangle {
    Rectangle { dx: x, dy: y, width: 51, height: 51 }
}

fn separation(env: &GameEnv) -> i32 {
    let ex = env.circle1.rect.dx - env.circle2.rect.dx;
    let ey = env.circle1.rect.dy - env.circle2.rect.dy;
    ex * ex + ey * ey
}

// Circle at (76, 76), first gap (40, 111), obstacle on row 76. The centre
// column 101 lies between the posts. The posts stand on row 76, 25 rows
// above the centre, so the nearer post is at squared distance
// 10 * 10 + 25 * 25 = 725, outside the collider.
#[test]
fn circle_at_76_76_with_gap_40_111_on_row_76() {
    let env = round_with((76, 76), (176, 150), 40, 76);
    assert_eq!(env.obstacle.gap1, (40, 111));
    assert!(!detect_collission(&env, circle_rect(76, 76)));
}

#[test]
fn post_ten_columns_from_the_centre_on_the_centre_row_is_lethal() {
    // Row 101 is the centre row of a circle at y = 76.
    let env = round_with((76, 76), (176, 150), 40, 101);
    assert!(detect_collission(&env, circle_rect(76, 76)));
}

#[test]
fn post_at_exactly_the_collider_radius_is_safe() {
    // Centre column 86 is 25 columns from the post at 111.
    let env = round_with((61, 76), (176, 150), 40, 101);
    assert!(!detect_collission(&env, circle_rect(61, 76)));
    // One column closer it is lethal.
    assert!(detect_collission(&env, circle_rect(62, 76)));
}

#[test]
fn left_post_is_tested_as_well() {
    // Centre column 64, post at 40: 24 columns away on the centre row.
    let env = round_with((39, 76), (176, 150), 40, 101);
    assert!(detect_collission(&env, circle_rect(39, 76)));
    // Centre column 65: 25 columns away.
    assert!(!detect_collission(&env, circle_rect(40, 76)));
}

#[test]
fn row_outside_the_circle_is_never_lethal() {
    let env = round_with((76, 76), (176, 150), 40, 75);
    // Centre column 301 is outside every gap, but the row is above the circle.
    assert!(!detect_collission(&env, circle_rect(268, 76)));
    let below = round_with((76, 76), (176, 150), 40, 127);
    assert!(!detect_collission(&below, circle_rect(268, 76)));
}

#[test]
fn row_on_the_circles_first_and_last_row_counts() {
    let top = round_with((76, 76), (176, 150), 40, 76);
    assert!(detect_collission(&top, circle_rect(268, 76)));
    let bottom = round_with((76, 76), (176, 150), 40, 126);
    assert!(detect_collission(&bottom, circle_rect(268, 76)));
}

#[test]
fn centre_outside_every_gap_is_lethal() {
    let env = round_with((76, 76), (176, 150), 40, 101);
    // Gaps are (40, 111) and (160, 231); centre column 135 is between them.
    assert_eq!(env.obstacle.gap2, Some((160, 231)));
    assert!(detect_collission(&env, circle_rect(110, 76)));
}

#[test]
fn centre_on_a_post_column_is_outside_the_gap() {
    let env = round_with((76, 76), (176, 150), 40, 76);
    // Centre column 40 equals the first post; far from the row's centre.
    assert!(detect_collission(&env, circle_rect(15, 76)));
    // Centre column 111 equals the second post.
    assert!(detect_collission(&env, circle_rect(86, 76)));
}

#[test]
fn second_gap_is_safe_between_its_posts() {
    let env = round_with((76, 76), (176, 150), 40, 101);
    // Centre column 195, posts at 160 and 231.
    assert!(!detect_collission(&env, circle_rect(170, 76)));
    // Centre column 207 is 24 columns from the post at 231.
    assert!(detect_collission(&env, circle_rect(182, 76)));
}

#[test]
fn single_gap_obstacle_has_no_second_chance() {
    let mut env = round_with((76, 76), (176, 150), 40, 101);
    env.obstacle = layout_obstacle(false, 100, 0);
    assert_eq!(env.obstacle.gap1, (100, 191));
    assert!(!detect_collission(&env, circle_rect(120, 76)));
    assert!(detect_collission(&env, circle_rect(200, 76)));
}

#[test]
fn circles_far_apart_are_left_alone() {
    let mut env = round_with((76, 76), (176, 150), 40, 0);
    let old1 = env.circle1.rect;
    let old2 = env.circle2.rect;
    apply_buttons(&mut env, !0x44);
    let moved = env;
    detect_circle_collision(&mut env, old1, old2);
    assert_eq!(env.circle1, moved.circle1);
    assert_eq!(env.circle2, moved.circle2);
    assert_eq!(env.circle1.rect, circle_rect(77, 76));
    assert_eq!(env.circle2.rect, circle_rect(177, 150));
}

#[test]
fn head_on_moves_are_both_undone() {
    let mut env = round_with((100, 100), (150, 100), 40, 0);
    let before = env;
    // First circle right, second circle left.
    apply_buttons(&mut env, !(0x4 | 0x10));
    assert_eq!(env.circle1.rect, circle_rect(101, 100));
    assert_eq!(env.circle2.rect, circle_rect(149, 100));
    detect_circle_collision(&mut env, before.circle1.rect, before.circle2.rect);
    assert_eq!(env.circle1, before.circle1);
    assert_eq!(env.circle2, before.circle2);
    assert_eq!(separation(&env), 2500);
}

#[test]
fn only_the_move_that_helps_is_undone() {
    let mut env = round_with((100, 100), (150, 100), 40, 0);
    let before = env;
    // First circle right and up: x closes in, y moves away.
    apply_buttons(&mut env, !(0x4 | 0x2));
    assert_eq!(env.circle1.rect, circle_rect(101, 99));
    detect_circle_collision(&mut env, before.circle1.rect, before.circle2.rect);
    assert_eq!(env.circle1.rect, circle_rect(100, 99));
    assert_eq!(env.circle1.center, 99 * 672 + 100 + 16152);
    assert_eq!(env.circle2, before.circle2);
    assert_eq!(separation(&env), 2501);
}

#[test]
fn diagonal_approach_is_undone_on_both_axes() {
    let mut env = round_with((100, 100), (130, 140), 40, 0);
    let before = env;
    assert_eq!(separation(&env), 2500);
    apply_buttons(&mut env, !(0x4 | 0x8));
    assert_eq!(env.circle1.rect, circle_rect(101, 101));
    detect_circle_collision(&mut env, before.circle1.rect, before.circle2.rect);
    assert_eq!(env.circle1, before.circle1);
    assert_eq!(separation(&env), 2500);
}

#[test]
fn second_circles_moves_are_undone_when_the_first_stood_still() {
    let mut env = round_with((100, 100), (130, 140), 40, 0);
    let before = env;
    // Second circle left and up, towards the first.
    apply_buttons(&mut env, !(0x10 | 0x20));
    assert_eq!(env.circle2.rect, circle_rect(129, 139));
    detect_circle_collision(&mut env, before.circle1.rect, before.circle2.rect);
    assert_eq!(env.circle1, before.circle1);
    assert_eq!(env.circle2, before.circle2);
    assert_eq!(env.circle2.center, 140 * 672 + 130 + 16152);
}

#[test]
fn resolution_keeps_score_tick_and_obstacle() {
    let mut env = round_with((100, 100), (150, 100), 40, 17);
    env.score = 3;
    env.max_score = 9;
    let before = env;
    apply_buttons(&mut env, !0x4);
    detect_circle_collision(&mut env, before.circle1.rect, before.circle2.rect);
    assert_eq!(env.score, 3);
    assert_eq!(env.max_score, 9);
    assert_eq!(env.frame, 17);
    assert_eq!(env.obstacle.gap1, before.obstacle.gap1);
    assert_eq!(env.obstacle.gap2, before.obstacle.gap2);
    assert_eq!(env.obstacle.pos, before.obstacle.pos);
    assert_eq!(env.circle1.color, 2000);
    assert_eq!(env.circle2.color, 12000);
}

#[test]
fn separation_holds_for_every_pair_of_moves_at_the_limit() {
    // All 256 button words from two states at exactly the minimum separation.
    for &(c1, c2) in [((100, 100), (150, 100)), ((100, 100), (130, 140)), ((0, 0), (30, 40))].iter() {
        for word in 0u32..256 {
            let mut env = round_with(c1, c2, 40, 0);
            let before = env;
            apply_buttons(&mut env, word);
            detect_circle_collision(&mut env, before.circle1.rect, before.circle2.rect);
            assert!(separation(&env) >= 2500, "buttons {:#x}", word);
            assert!(env.circle1.is_well_formed());
            assert!(env.circle2.is_well_formed());
        }
    }
}

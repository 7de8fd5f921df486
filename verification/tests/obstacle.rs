use circle_game::display::FrameBuffer;
use circle_game::game::{advance_obstacle, begin_cycle, new_round, update_obstacle};
use circle_game::obstacle::{generate_obstacle, layout_obstacle};
use circle_game::world::{Obstacle, Rectangle};
use rand::rngs::StdRng;
use rand::SeedableRng;

fn open_columns_of(obstacle: &Obstacle) -> Vec<usize> {
    (0..320).filter(|&col| !obstacle.obstacle[col]).collect()
}

fn covered(obstacle: &Obstacle, col: i32) -> bool {
    let inside = |gap: (i32, i32)| gap.0 <= col && col < gap.1 - 1;
    inside(obstacle.gap1) || obstacle.gap2.map_or(false, inside)
}

fn assert_layout_rules(obstacle: &Obstacle) {
    let (start1, end1) = obstacle.gap1;
    assert!(0 <= start1 && start1 < end1 && end1 <= 320);
    if let Some((start2, end2)) = obstacle.gap2 {
        assert!(0 <= start2 && start2 < end2 && end2 <= 320);
        assert!(end1 <= start2);
        assert_eq!(end1 - start1, 71);
        assert_eq!(end2 - start2, 71);
        assert!(start1 < 90);
        assert!(160 <= start2 && start2 < 250);
    } else {
        assert_eq!(end1 - start1, 91);
        assert!(start1 < 230);
    }
    for col in 0..320 {
        assert_eq!(obstacle.obstacle[col as usize], !covered(obstacle, col), "column {}", col);
    }
    assert_eq!(obstacle.rect, Rectangle { dx: 0, dy: 0, width: 320, height: 5 });
    assert_eq!(obstacle.pos, 0);
    assert!(obstacle.is_well_formed());
}

#[test]
fn single_gap_layout_is_90_wide_and_ends_one_past() {
    let obstacle = layout_obstacle(false, 100, 0);
    assert_eq!(obstacle.gap1, (100, 191));
    assert_eq!(obstacle.gap2, None);
    assert_eq!(open_columns_of(&obstacle), (100..190).collect::<Vec<usize>>());
    assert_layout_rules(&obstacle);
}

#[test]
fn single_gap_layout_ignores_the_second_draw() {
    let a = layout_obstacle(false, 17, 0);
    let b = layout_obstacle(false, 17, 55);
    assert_eq!(a.gap1, b.gap1);
    assert_eq!(a.gap2, b.gap2);
    assert_eq!(open_columns_of(&a), open_columns_of(&b));
}

#[test]
fn two_gap_layout_is_70_wide_with_the_second_band_160_on() {
    let obstacle = layout_obstacle(true, 40, 25);
    assert_eq!(obstacle.gap1, (40, 111));
    assert_eq!(obstacle.gap2, Some((185, 256)));
    let mut open: Vec<usize> = (40..110).collect();
    open.extend(185..255);
    assert_eq!(open_columns_of(&obstacle), open);
    assert_layout_rules(&obstacle);
}

#[test]
fn layouts_at_the_ends_of_the_bands_stay_on_the_panel() {
    let widest = layout_obstacle(false, 229, 0);
    assert_eq!(widest.gap1, (229, 320));
    assert_eq!(open_columns_of(&widest), (229..319).collect::<Vec<usize>>());
    assert_layout_rules(&widest);

    let first = layout_obstacle(false, 0, 0);
    assert_eq!(first.gap1, (0, 91));
    assert_layout_rules(&first);

    let closest = layout_obstacle(true, 89, 0);
    assert_eq!(closest.gap1, (89, 160));
    assert_eq!(closest.gap2, Some((160, 231)));
    assert_layout_rules(&closest);

    let last = layout_obstacle(true, 0, 89);
    assert_eq!(last.gap2, Some((249, 320)));
    assert_layout_rules(&last);
}

#[test]
fn generated_obstacles_obey_the_layout_rules() {
    let mut singles = 0;
    let mut doubles = 0;
    for seed in 0..200u64 {
        let mut rng = StdRng::seed_from_u64(seed);
        for _ in 0..5 {
            let obstacle = generate_obstacle(&mut rng);
            assert_layout_rules(&obstacle);
            if obstacle.gap2.is_some() {
                doubles += 1;
            } else {
                singles += 1;
            }
        }
    }
    assert!(singles > 100);
    assert!(doubles > 100);
}

#[test]
fn generated_gap_starts_spread_over_their_bands() {
    // A draw that handed its bound back would start every gap at the band's end.
    let mut rng = StdRng::seed_from_u64(7);
    let mut low = false;
    let mut high = false;
    for _ in 0..500 {
        let obstacle = generate_obstacle(&mut rng);
        if obstacle.gap2.is_none() {
            assert!(obstacle.gap1.0 < 230);
            low |= obstacle.gap1.0 < 115;
            high |= obstacle.gap1.0 >= 115;
        }
    }
    assert!(low && high);
}

#[test]
fn same_seed_gives_the_same_obstacles() {
    let mut a = StdRng::seed_from_u64(2024);
    let mut b = StdRng::seed_from_u64(2024);
    for _ in 0..50 {
        let x = generate_obstacle(&mut a);
        let y = generate_obstacle(&mut b);
        assert_eq!(x.gap1, y.gap1);
        assert_eq!(x.gap2, y.gap2);
        assert_eq!(x.obstacle.to_vec(), y.obstacle.to_vec());
        assert_eq!(x, y);
    }
}

#[test]
fn same_draws_give_the_same_layout() {
    for &(two, first, second) in [(false, 3, 0), (true, 3, 0), (true, 89, 89), (false, 229, 1)].iter() {
        let x = layout_obstacle(two, first, second);
        let y = layout_obstacle(two, first, second);
        assert_eq!(x.gap1, y.gap1);
        assert_eq!(x.gap2, y.gap2);
        assert_eq!(x.obstacle.to_vec(), y.obstacle.to_vec());
    }
}

#[test]
fn obstacle_comes_down_one_row_per_tick() {
    let mut env = new_round(0, layout_obstacle(false, 100, 0));
    advance_obstacle(&mut env);
    assert_eq!(env.frame, 1);
    assert_eq!(env.obstacle.pos, 672);
    assert_eq!(env.obstacle.rect.dy, 0);
    advance_obstacle(&mut env);
    advance_obstacle(&mut env);
    assert_eq!(env.frame, 3);
    assert_eq!(env.obstacle.rect.dy, 0);
    advance_obstacle(&mut env);
    assert_eq!(env.frame, 4);
    assert_eq!(env.obstacle.pos, 4 * 672);
    assert_eq!(env.obstacle.rect.dy, 1);
    assert_eq!(env.obstacle.gap1, (100, 191));
    assert!(env.is_well_formed());
}

#[test]
fn cycle_end_counts_the_score_and_swaps_the_obstacle() {
    let mut env = new_round(4, layout_obstacle(false, 100, 0));
    env.score = 4;
    env.frame = 239;
    let fresh = layout_obstacle(true, 10, 20);
    begin_cycle(&mut env, fresh);
    assert_eq!(env.score, 5);
    assert_eq!(env.max_score, 5);
    assert_eq!(env.frame, 1);
    assert_eq!(env.obstacle.gap1, (10, 81));
    assert_eq!(env.obstacle.gap2, Some((180, 251)));
    assert_eq!(env.obstacle.pos, 0);
    assert_eq!(env.obstacle.obstacle.to_vec(), fresh.obstacle.to_vec());
}

#[test]
fn cycle_end_keeps_a_higher_best_score() {
    let mut env = new_round(10, layout_obstacle(false, 100, 0));
    env.score = 4;
    begin_cycle(&mut env, layout_obstacle(false, 5, 0));
    assert_eq!(env.score, 5);
    assert_eq!(env.max_score, 10);
    env.score = 10;
    begin_cycle(&mut env, layout_obstacle(false, 5, 0));
    assert_eq!(env.score, 11);
    assert_eq!(env.max_score, 11);
}

#[test]
fn tick_240_starts_a_new_cycle() {
    let mut rng = StdRng::seed_from_u64(11);
    let mut fb = FrameBuffer::new();
    let mut env = new_round(0, layout_obstacle(false, 100, 0));
    for expected in 1..240 {
        update_obstacle(&mut env, &mut rng, &mut fb);
        assert_eq!(env.frame, expected);
        assert_eq!(env.score, 0);
        assert_eq!(env.obstacle.pos, 672 * expected as usize);
        assert_eq!(env.obstacle.gap1, (100, 191));
        assert!(env.is_well_formed());
    }
    update_obstacle(&mut env, &mut rng, &mut fb);
    assert_eq!(env.frame, 1);
    assert_eq!(env.score, 1);
    assert_eq!(env.max_score, 1);
    assert_eq!(env.obstacle.pos, 0);
    assert_layout_rules(&env.obstacle);
    assert!(env.is_well_formed());
    // The circles are not touched.
    assert_eq!((env.circle1.rect.dx, env.circle1.rect.dy), (76, 76));
    assert_eq!((env.circle2.rect.dx, env.circle2.rect.dy), (176, 150));

    // Later cycles last 239 ticks: from tick 1 up to tick 240.
    for expected in 2..240 {
        update_obstacle(&mut env, &mut rng, &mut fb);
        assert_eq!(env.frame, expected);
        assert_eq!(env.obstacle.pos, 672 * (expected as usize - 1));
        assert!(env.is_well_formed());
    }
    update_obstacle(&mut env, &mut rng, &mut fb);
    assert_eq!((env.frame, env.score, env.max_score), (1, 2, 2));
}

#[test]
fn update_draws_the_obstacle_on_its_new_row() {
    let mut rng = StdRng::seed_from_u64(11);
    let mut fb = FrameBuffer::new();
    let mut env = new_round(0, layout_obstacle(false, 100, 0));
    update_obstacle(&mut env, &mut rng, &mut fb);
    assert_eq!(fb.pixel(672), Some(63488));
    assert_eq!(fb.pixel(672 + 99), Some(63488));
    assert_eq!(fb.pixel(672 + 100), Some(0));
    assert_eq!(fb.pixel(672 + 189), Some(0));
    assert_eq!(fb.pixel(672 + 190), Some(63488));
    assert_eq!(fb.pixel(672 + 319), Some(63488));
    assert_eq!(fb.pixel(672 + 320), Some(0));
    // The row above carries the first trail colour.
    assert_eq!(fb.pixel(0), Some(57344));
    assert_eq!(fb.pixel(100), Some(0));
}

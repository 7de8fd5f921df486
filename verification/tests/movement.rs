use circle_game::game::{apply_buttons, increment_color};
use circle_game::obstacle::layout_obstacle;
use circle_game::world::{Circle, GameEnv};

fn round_at(c1: (i32, i32), c2: (i32, i32)) -> GameEnv {
    GameEnv {
        circle1: Circle::new(c1.0, c1.1, 2000),
        circle2: Circle::new(c2.0, c2.1, 12000),
        obstacle: layout_obstacle(false, 0, 0),
        score: 0,
        max_score: 0,
        frame: 0,
    }
}

fn spot(c: &Circle) -> (i32, i32) {
    (c.rect.dx, c.rect.dy)
}

#[test]
fn set_bits_move_nothing() {
    let mut env = round_at((76, 76), (176, 150));
    let before = env;
    apply_buttons(&mut env, 0xff);
    assert_eq!(env.circle1, before.circle1);
    assert_eq!(env.circle2, before.circle2);
    apply_buttons(&mut env, 0xffff_ffff);
    assert_eq!(env.circle1, before.circle1);
    assert_eq!(env.circle2, before.circle2);
}

#[test]
fn each_clear_bit_moves_its_circle_one_pixel() {
    let cases: [(u32, (i32, i32), (i32, i32)); 8] = [
        (0x01, (75, 76), (176, 150)),
        (0x02, (76, 75), (176, 150)),
        (0x04, (77, 76), (176, 150)),
        (0x08, (76, 77), (176, 150)),
        (0x10, (76, 76), (175, 150)),
        (0x20, (76, 76), (176, 149)),
        (0x40, (76, 76), (177, 150)),
        (0x80, (76, 76), (176, 151)),
    ];
    for &(bit, first, second) in cases.iter() {
        let mut env = round_at((76, 76), (176, 150));
        apply_buttons(&mut env, !bit);
        assert_eq!(spot(&env.circle1), first, "bit {:#x}", bit);
        assert_eq!(spot(&env.circle2), second, "bit {:#x}", bit);
    }
}

#[test]
fn scan_offset_follows_every_move() {
    let mut env = round_at((76, 76), (176, 150));
    assert_eq!(env.circle1.center, 100 * 672 + 100);
    apply_buttons(&mut env, !0x01);
    assert_eq!(env.circle1.center, 100 * 672 + 99);
    apply_buttons(&mut env, !0x02);
    assert_eq!(env.circle1.center, 99 * 672 + 99);
    apply_buttons(&mut env, !0x04);
    assert_eq!(env.circle1.center, 99 * 672 + 100);
    apply_buttons(&mut env, !0x08);
    assert_eq!(env.circle1.center, 100 * 672 + 100);
    apply_buttons(&mut env, !0x80);
    assert_eq!(env.circle2.center, 175 * 672 + 200);
}

#[test]
fn moves_stop_at_the_arena_bounds() {
    let mut env = round_at((0, 0), (268, 189));
    apply_buttons(&mut env, !(0x01 | 0x02 | 0x40 | 0x80));
    assert_eq!(spot(&env.circle1), (0, 0));
    assert_eq!(spot(&env.circle2), (268, 189));
    assert!(env.circle1.is_well_formed());
    assert!(env.circle2.is_well_formed());
}

#[test]
fn opposite_buttons_cancel_except_at_the_low_bound() {
    let mut env = round_at((76, 76), (268, 189));
    apply_buttons(&mut env, 0);
    assert_eq!(spot(&env.circle1), (76, 76));
    // At the high bound the move down comes first, then the move up again.
    assert_eq!(spot(&env.circle2), (268, 189));
    let mut low = round_at((0, 0), (176, 150));
    apply_buttons(&mut low, 0);
    // At the low bound the move down is refused and the move up is taken.
    assert_eq!(spot(&low.circle1), (1, 1));
}

#[test]
fn moving_keeps_everything_but_the_circles() {
    let mut env = round_at((76, 76), (176, 150));
    env.score = 4;
    env.max_score = 6;
    env.frame = 33;
    apply_buttons(&mut env, 0);
    assert_eq!((env.score, env.max_score, env.frame), (4, 6, 33));
    assert_eq!(env.circle1.color, 2000);
    assert_eq!(env.circle2.color, 12000);
    assert_eq!(env.obstacle.gap1, (0, 91));
}

#[test]
fn hue_steps_by_32_and_wraps_at_the_rings_end() {
    let mut c = Circle::new(76, 76, 2000);
    increment_color(&mut c, 2000);
    assert_eq!(c.color, 2032);
    c.color = 6256;
    increment_color(&mut c, 2000);
    assert_eq!(c.color, 6288);
    increment_color(&mut c, 2000);
    assert_eq!(c.color, 2000);
}

#[test]
fn hue_ring_has_135_steps() {
    let mut c = Circle::new(176, 150, 12000);
    let mut steps = 0;
    loop {
        increment_color(&mut c, 12000);
        steps += 1;
        assert!(c.color >= 12000 && c.color <= 16288);
        if c.color == 12000 {
            break;
        }
    }
    assert_eq!(steps, 135);
    assert_eq!(c.rect.dx, 176);
    assert_eq!(c.center, 174 * 672 + 200);
}

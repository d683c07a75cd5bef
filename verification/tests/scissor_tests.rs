use egui_paint_core::scissor::{
    scissor_from_clip_rect, scissor_from_clip_rect_opengl, Pos2, Rect, FX_ONE,
};

fn rect(min_x: i64, min_y: i64, max_x: i64, max_y: i64) -> Rect {
    Rect {
        min: Pos2 { x: min_x * FX_ONE, y: min_y * FX_ONE },
        max: Pos2 { x: max_x * FX_ONE, y: max_y * FX_ONE },
    }
}

#[test]
fn full_screen_rect_at_scale_one() {
    let r = rect(0, 0, 800, 600);
    let s = scissor_from_clip_rect(&r, FX_ONE, [800, 600]);
    assert_eq!(s, Some([0, 0, 800, 600]));
}

#[test]
fn y_flip_relation_on_examples() {
    let fb = [800u32, 600u32];
    let cases = [
        rect(10, 20, 110, 70),
        rect(0, 0, 800, 600),
        rect(-5, -5, 30, 40),
        rect(700, 500, 900, 700),
    ];
    for r in cases {
        let tl = scissor_from_clip_rect(&r, FX_ONE, fb).unwrap();
        let bl = scissor_from_clip_rect_opengl(&r, FX_ONE, fb).unwrap();
        assert_eq!(bl[0], tl[0]);
        assert_eq!(bl[2], tl[2]);
        assert_eq!(bl[3], tl[3]);
        assert_eq!(bl[1] + bl[3], 600 - tl[1]);
    }
}

#[test]
fn empty_rect_yields_none() {
    let r = rect(100, 100, 100, 100);
    assert_eq!(scissor_from_clip_rect(&r, FX_ONE, [800, 600]), None);
    assert_eq!(scissor_from_clip_rect_opengl(&r, FX_ONE, [800, 600]), None);
    let r2 = rect(0, 0, 0, 0);
    assert_eq!(scissor_from_clip_rect(&r2, 2 * FX_ONE, [800, 600]), None);
}

#[test]
fn rect_outside_framebuffer_yields_none() {
    let r = rect(1000, 1000, 2000, 2000);
    assert_eq!(scissor_from_clip_rect(&r, FX_ONE, [800, 600]), None);
    assert_eq!(scissor_from_clip_rect_opengl(&r, FX_ONE, [800, 600]), None);
    let left = rect(-500, 10, -100, 50);
    assert_eq!(scissor_from_clip_rect(&left, FX_ONE, [800, 600]), None);
}

#[test]
fn coordinates_round_to_nearest_independently() {
    // scale 1.5: min 1 -> 1.5 rounds (half away from zero) to 2,
    // max 3 -> 4.5 rounds to 5, so width is 3, not round(2 * 1.5) = 3 by
    // accident of scale-then-round on the width.
    let r = rect(1, 1, 3, 3);
    let s = scissor_from_clip_rect(&r, FX_ONE + FX_ONE / 2, [800, 600]).unwrap();
    assert_eq!(s, [2, 2, 3, 3]);
}

#[test]
fn negative_corner_is_clamped_to_zero() {
    let r = rect(-20, -10, 50, 40);
    let s = scissor_from_clip_rect(&r, FX_ONE, [800, 600]).unwrap();
    assert_eq!(s, [0, 0, 50, 40]);
}

#[test]
fn overhanging_rect_is_clamped_to_framebuffer() {
    let r = rect(700, 500, 900, 700);
    let s = scissor_from_clip_rect(&r, FX_ONE, [800, 600]).unwrap();
    assert_eq!(s, [700, 500, 100, 100]);
}

#[test]
fn fractional_coordinates_in_ticks() {
    // 0.25 logical units at scale 2.0 is 0.5 physical pixels, which rounds
    // half away from zero to 1.
    let r = Rect {
        min: Pos2 { x: FX_ONE / 4, y: 0 },
        max: Pos2 { x: 100 * FX_ONE, y: 100 * FX_ONE },
    };
    let s = scissor_from_clip_rect(&r, 2 * FX_ONE, [800, 600]).unwrap();
    assert_eq!(s, [1, 0, 199, 200]);
}

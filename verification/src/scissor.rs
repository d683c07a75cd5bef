//! Conversion of a clip rectangle from logical units to an integer scissor
//! rectangle in physical pixels, in both the top-left-origin convention
//! (wgpu/metal/directx) and the bottom-left-origin convention (opengl).
//!
//! Logical coordinates and the scale factor are fixed-point values counted
//! in ticks of `1 / FX_ONE` of a logical unit, so that the scaling and the
//! round-to-nearest step are exact integer arithmetic.

use vstd::prelude::*;

verus! {

/// Number of fixed-point ticks in one logical unit (or, for a scale factor,
/// in a scale of one physical pixel per logical unit).
pub const FX_ONE: i64 = 65536;

/// Largest magnitude accepted for a clip-rectangle coordinate, in ticks.
pub const MAX_COORD_TICKS: i64 = 0x4000_0000;

/// Largest scale factor accepted, in ticks.
pub const MAX_SCALE_TICKS: i64 = 0x4000_0000;

/// A point in logical space, in ticks of `1 / FX_ONE` of a logical unit.
#[derive(Clone, Copy, PartialEq, Eq, Structural, Debug)]
pub struct Pos2 {
    pub x: i64,
    pub y: i64,
}

/// A clip rectangle in logical space; `min` is the top-left corner and
/// `max` the bottom-right corner in the toolkit's convention.
#[derive(Clone, Copy, PartialEq, Eq, Structural, Debug)]
pub struct Rect {
    pub min: Pos2,
    pub max: Pos2,
}

/// Round `p / q` to the nearest integer, halves away from zero.
pub open spec fn round_div(p: int, q: int) -> int
    recommends
        q > 0,
{
    if p >= 0 {
        (p + q / 2) / q
    } else {
        -((-p + q / 2) / q)
    }
}

/// Physical-pixel value of a logical coordinate under a scale factor,
/// both given in ticks: the exact product rounded to the nearest pixel.
pub open spec fn phys_px(ticks: int, scale: int) -> int {
    round_div(ticks * scale, 0x1_0000_0000)
}

/// `x` clamped to the interval `[lo, hi]`.
pub open spec fn clamp_int(x: int, lo: int, hi: int) -> int
    recommends
        lo <= hi,
{
    if x < lo {
        lo
    } else if x > hi {
        hi
    } else {
        x
    }
}

pub open spec fn coord_in_range(c: int) -> bool {
    -(MAX_COORD_TICKS as int) <= c <= MAX_COORD_TICKS as int
}

pub open spec fn rect_in_range(r: Rect) -> bool {
    &&& coord_in_range(r.min.x as int)
    &&& coord_in_range(r.min.y as int)
    &&& coord_in_range(r.max.x as int)
    &&& coord_in_range(r.max.y as int)
}

pub open spec fn scale_in_range(s: int) -> bool {
    0 < s <= MAX_SCALE_TICKS as int
}

/// Left edge of the scissor rectangle: the scaled, rounded `min.x`
/// clamped to the framebuffer width.
pub open spec fn sc_x(r: Rect, s: int, fb_w: int) -> int {
    clamp_int(phys_px(r.min.x as int, s), 0, fb_w)
}

/// Top edge of the scissor rectangle (top-left-origin convention).
pub open spec fn sc_y(r: Rect, s: int, fb_h: int) -> int {
    clamp_int(phys_px(r.min.y as int, s), 0, fb_h)
}

/// Right edge: the scaled, rounded `max.x` clamped between the left edge
/// and the framebuffer width, so the width is never negative.
pub open spec fn sc_x_end(r: Rect, s: int, fb_w: int) -> int {
    clamp_int(phys_px(r.max.x as int, s), sc_x(r, s, fb_w), fb_w)
}

/// Bottom edge, clamped between the top edge and the framebuffer height.
pub open spec fn sc_y_end(r: Rect, s: int, fb_h: int) -> int {
    clamp_int(phys_px(r.max.y as int, s), sc_y(r, s, fb_h), fb_h)
}

pub open spec fn sc_width(r: Rect, s: int, fb_w: int) -> int {
    sc_x_end(r, s, fb_w) - sc_x(r, s, fb_w)
}

pub open spec fn sc_height(r: Rect, s: int, fb_h: int) -> int {
    sc_y_end(r, s, fb_h) - sc_y(r, s, fb_h)
}

/// Whether the transform yields a scissor rectangle at all: a zero-area
/// rectangle is reported as `None` so the caller skips the primitive.
pub open spec fn scissor_nonempty(r: Rect, s: int, fb_w: int, fb_h: int) -> bool {
    sc_width(r, s, fb_w) != 0 && sc_height(r, s, fb_h) != 0
}

/// Top edge of the scissor rectangle measured from the bottom of the
/// framebuffer, the convention opengl uses.
pub open spec fn sc_y_gl(r: Rect, s: int, fb_h: int) -> int {
    fb_h - (sc_y(r, s, fb_h) + sc_height(r, s, fb_h))
}

/// Law: whenever a scissor rectangle is produced, its bottom-left-origin y
/// coordinate and its height account exactly for the distance between the
/// framebuffer height and the top-left-origin y coordinate:
/// `y_bottom_left + height == framebuffer_height - y_top_left`.
pub proof fn lemma_y_flip_relation(r: Rect, s: int, fb_w: int, fb_h: int)
    ensures
        sc_y_gl(r, s, fb_h) + sc_height(r, s, fb_h) == fb_h - sc_y(r, s, fb_h),
{
}

/// Law: a clip rectangle whose min and max corners coincide yields no
/// scissor rectangle in either convention.
pub proof fn lemma_empty_rect_yields_none(r: Rect, s: int, fb_w: int, fb_h: int)
    requires
        r.min == r.max,
        0 <= fb_w,
        0 <= fb_h,
    ensures
        !scissor_nonempty(r, s, fb_w, fb_h),
{
}

/// Law: a clip rectangle that lies fully outside the framebuffer on any
/// side - its scaled top-left corner at or beyond the right or bottom
/// framebuffer edge, or its scaled bottom-right corner at or before the
/// left or top edge - yields no scissor rectangle.
pub proof fn lemma_rect_outside_framebuffer_yields_none(r: Rect, s: int, fb_w: int, fb_h: int)
    requires
        0 <= fb_w,
        0 <= fb_h,
        phys_px(r.min.x as int, s) >= fb_w || phys_px(r.min.y as int, s) >= fb_h || phys_px(
            r.max.x as int,
            s,
        ) <= 0 || phys_px(r.max.y as int, s) <= 0,
    ensures
        !scissor_nonempty(r, s, fb_w, fb_h),
{
}

/// The scaled product of a coordinate and the scale, rounded to the nearest
/// physical pixel with halves away from zero.
fn round_phys(ticks: i64, scale: i64) -> (r: i64)
    requires
        coord_in_range(ticks as int),
        scale_in_range(scale as int),
    ensures
        r == phys_px(ticks as int, scale as int),
        -0x1000_0000 <= r <= 0x1000_0000,
{
    proof {
        assert((-0x1000_0000_0000_0000 <= ticks * scale <= 0x1000_0000_0000_0000)
            && (ticks >= 0 ==> ticks * scale >= 0) && (ticks < 0 ==> ticks * scale <= 0))
            by (nonlinear_arith)
            requires
                -0x4000_0000 <= ticks <= 0x4000_0000,
                0 < scale <= 0x4000_0000,
        ;
    }
    let p: i64 = ticks * scale;
    if p >= 0 {
        let pu: u64 = p as u64;
        let q: u64 = (pu + 0x8000_0000) / 0x1_0000_0000;
        q as i64
    } else {
        let pu: u64 = (-p) as u64;
        let q: u64 = (pu + 0x8000_0000) / 0x1_0000_0000;
        -(q as i64)
    }
}

/// `x` clamped to `[lo, hi]`.
fn clamp_i64(x: i64, lo: i64, hi: i64) -> (r: i64)
    requires
        lo <= hi,
    ensures
        r == clamp_int(x as int, lo as int, hi as int),
{
    if x < lo {
        lo
    } else if x > hi {
        hi
    } else {
        x
    }
}

/// Converts a clip rectangle in logical units into a physical-pixel scissor
/// rectangle `[x, y, width, height]` with a top-left origin, for graphics
/// APIs such as wgpu, metal or directx.
///
/// Each corner coordinate is scaled and rounded to the nearest pixel
/// independently; the top-left corner is clamped to the framebuffer bounds
/// and the bottom-right corner is clamped between the top-left corner and
/// the framebuffer bounds, so the width and height are never negative.
/// Returns `None` exactly when the resulting width or height is zero, in
/// which case the caller must skip the primitive.
pub fn scissor_from_clip_rect(
    clip_rect: &Rect,
    scale: i64,
    physical_framebuffer_size: [u32; 2],
) -> (r: Option<[u32; 4]>)
    requires
        rect_in_range(*clip_rect),
        scale_in_range(scale as int),
    ensures
        match r {
            Some(a) => {
                let fb_w = physical_framebuffer_size@[0] as int;
                let fb_h = physical_framebuffer_size@[1] as int;
                &&& scissor_nonempty(*clip_rect, scale as int, fb_w, fb_h)
                &&& a@[0] == sc_x(*clip_rect, scale as int, fb_w)
                &&& a@[1] == sc_y(*clip_rect, scale as int, fb_h)
                &&& a@[2] == sc_width(*clip_rect, scale as int, fb_w)
                &&& a@[3] == sc_height(*clip_rect, scale as int, fb_h)
            },
            None => !scissor_nonempty(
                *clip_rect,
                scale as int,
                physical_framebuffer_size@[0] as int,
                physical_framebuffer_size@[1] as int,
            ),
        },
{
    let fb_w: i64 = physical_framebuffer_size[0] as i64;
    let fb_h: i64 = physical_framebuffer_size[1] as i64;
    let clip_min_x = round_phys(clip_rect.min.x, scale);
    let clip_min_y = round_phys(clip_rect.min.y, scale);
    let clip_max_x = round_phys(clip_rect.max.x, scale);
    let clip_max_y = round_phys(clip_rect.max.y, scale);
    let clip_min_x = clamp_i64(clip_min_x, 0, fb_w);
    let clip_min_y = clamp_i64(clip_min_y, 0, fb_h);
    let clip_max_x = clamp_i64(clip_max_x, clip_min_x, fb_w);
    let clip_max_y = clamp_i64(clip_max_y, clip_min_y, fb_h);
    let x = clip_min_x as u32;
    let y = clip_min_y as u32;
    let width = (clip_max_x - clip_min_x) as u32;
    let height = (clip_max_y - clip_min_y) as u32;
    if width != 0 && height != 0 {
        Some([x, y, width, height])
    } else {
        None
    }
}

/// The same transform in the bottom-left-origin convention used by opengl:
/// derived from the top-left-origin result by flipping the y coordinate, so
/// that the two conventions can never diverge through rounding.
pub fn scissor_from_clip_rect_opengl(
    clip_rect: &Rect,
    scale: i64,
    physical_framebuffer_size: [u32; 2],
) -> (r: Option<[u32; 4]>)
    requires
        rect_in_range(*clip_rect),
        scale_in_range(scale as int),
    ensures
        match r {
            Some(a) => {
                let fb_w = physical_framebuffer_size@[0] as int;
                let fb_h = physical_framebuffer_size@[1] as int;
                &&& scissor_nonempty(*clip_rect, scale as int, fb_w, fb_h)
                &&& a@[0] == sc_x(*clip_rect, scale as int, fb_w)
                &&& a@[1] == sc_y_gl(*clip_rect, scale as int, fb_h)
                &&& a@[2] == sc_width(*clip_rect, scale as int, fb_w)
                &&& a@[3] == sc_height(*clip_rect, scale as int, fb_h)
            },
            None => !scissor_nonempty(
                *clip_rect,
                scale as int,
                physical_framebuffer_size@[0] as int,
                physical_framebuffer_size@[1] as int,
            ),
        },
{
    match scissor_from_clip_rect(clip_rect, scale, physical_framebuffer_size) {
        Some(a) => {
            let x = a[0];
            let y = a[1];
            let width = a[2];
            let height = a[3];
            let y_gl = physical_framebuffer_size[1] - (y + height);
            Some([x, y_gl, width, height])
        },
        None => None,
    }
}

} // verus!

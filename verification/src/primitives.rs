//! The draw primitives a GUI toolkit hands over each frame, the draw calls
//! the translator hands back, and the mathematical model of how one frame's
//! primitive list turns into buffer contents and draw calls.
//!
//! The vertex layout is fixed: position (2 x 32-bit float), texture
//! coordinate (2 x 32-bit float) and color (4 x 8-bit normalized), for a
//! stride of 20 bytes per vertex; vertex data travels through the library as
//! packed bytes. An index is a 32-bit unsigned integer.

use crate::scissor::{
    sc_height, sc_width, sc_x, sc_y, scissor_nonempty, Rect,
};
use crate::textures::{tex_of, TexMaps, TextureId};
use vstd::prelude::*;

verus! {

/// Bytes per packed vertex.
pub const VERTEX_STRIDE: usize = 20;

/// A tessellated mesh: packed vertex bytes, triangle indices, and the
/// texture it samples.
pub struct Mesh {
    /// Packed vertex data, `VERTEX_STRIDE` bytes per vertex.
    pub vertices: Vec<u8>,
    pub indices: Vec<u32>,
    pub texture_id: TextureId,
}

/// Token standing for a host-supplied paint callback; the host side keeps
/// the callback object itself and resolves the token when executing the
/// frame's draw calls.
#[derive(Clone, Copy, PartialEq, Eq, Structural, Debug)]
pub struct PaintCallback {
    pub callback_id: u64,
}

/// What a clipped region contains: a mesh to draw, or a host callback.
pub enum Primitive {
    Mesh(Mesh),
    Callback(PaintCallback),
}

/// One entry of the toolkit's paint list: a primitive and the logical-space
/// rectangle it must be clipped to.
pub struct ClippedPrimitive {
    pub clip_rect: Rect,
    pub primitive: Primitive,
}

/// Context handed back to a paint callback when it runs.
#[derive(Clone, Copy, Debug)]
pub struct PaintCallbackInfo {
    /// The callback's clip rectangle in logical space.
    pub clip_rect: Rect,
    /// Physical pixels per logical unit, in ticks.
    pub pixels_per_point: i64,
    /// Framebuffer size in physical pixels.
    pub screen_size_px: [u32; 2],
}

/// One draw call of the finished frame, in painter's order.
pub enum EguiDrawCalls {
    Mesh {
        /// Scissor rectangle `[x, y, width, height]` in physical pixels.
        clip_rect: [u32; 4],
        texture_id: TextureId,
        /// First vertex of this mesh, as an element offset into the frame's
        /// packed vertex bytes.
        base_vertex: i32,
        /// First index of this mesh, as an element offset into the frame's
        /// index data.
        index_start: u32,
        /// One past the last index of this mesh.
        index_end: u32,
    },
    Callback {
        paint_callback_info: PaintCallbackInfo,
        /// Scissor rectangle `[x, y, width, height]` in physical pixels.
        clip_rect: [u32; 4],
        paint_callback: PaintCallback,
    },
}

/// A mesh's vertex data is a whole number of packed vertices.
pub open spec fn prim_wf(p: ClippedPrimitive) -> bool {
    match p.primitive {
        Primitive::Mesh(m) => m.vertices@.len() as int % (VERTEX_STRIDE as int) == 0,
        Primitive::Callback(_) => true,
    }
}

/// Number of vertices a primitive contributes.
pub open spec fn prim_vcount(p: ClippedPrimitive) -> int {
    match p.primitive {
        Primitive::Mesh(m) => m.vertices@.len() as int / (VERTEX_STRIDE as int),
        Primitive::Callback(_) => 0,
    }
}

/// Number of indices a primitive contributes.
pub open spec fn prim_icount(p: ClippedPrimitive) -> int {
    match p.primitive {
        Primitive::Mesh(m) => m.indices@.len() as int,
        Primitive::Callback(_) => 0,
    }
}

/// Total vertex count of a frame, summed over all mesh primitives.
pub open spec fn total_vcount(ps: Seq<ClippedPrimitive>) -> int
    decreases ps.len(),
{
    if ps.len() == 0 {
        0
    } else {
        prim_vcount(ps[0]) + total_vcount(ps.skip(1))
    }
}

/// Total index count of a frame, summed over all mesh primitives.
pub open spec fn total_icount(ps: Seq<ClippedPrimitive>) -> int
    decreases ps.len(),
{
    if ps.len() == 0 {
        0
    } else {
        prim_icount(ps[0]) + total_icount(ps.skip(1))
    }
}

pub proof fn lemma_total_vcount_nonneg(ps: Seq<ClippedPrimitive>)
    ensures
        total_vcount(ps) >= 0,
    decreases ps.len(),
{
    if ps.len() > 0 {
        lemma_total_vcount_nonneg(ps.skip(1));
    }
}

pub proof fn lemma_total_icount_nonneg(ps: Seq<ClippedPrimitive>)
    ensures
        total_icount(ps) >= 0,
    decreases ps.len(),
{
    if ps.len() > 0 {
        lemma_total_icount_nonneg(ps.skip(1));
    }
}

/// Whether a primitive survives clipping: its scissor rectangle is
/// non-empty. A primitive that does not is skipped whole, before any of its
/// geometry is copied.
pub open spec fn prim_kept(p: ClippedPrimitive, scale: i64, fb: [u32; 2]) -> bool {
    scissor_nonempty(p.clip_rect, scale as int, fb@[0] as int, fb@[1] as int)
}

/// The scissor rectangle of a kept primitive, as the four-element array the
/// draw call carries.
pub open spec fn scissor_arr(r: Rect, scale: i64, fb: [u32; 2]) -> [u32; 4] {
    [
        sc_x(r, scale as int, fb@[0] as int) as u32,
        sc_y(r, scale as int, fb@[1] as int) as u32,
        sc_width(r, scale as int, fb@[0] as int) as u32,
        sc_height(r, scale as int, fb@[1] as int) as u32,
    ]
}

/// The draw call recorded for a kept mesh whose geometry starts at the
/// given element offsets.
pub open spec fn mesh_call(m: Mesh, arr: [u32; 4], voff: int, ioff: int) -> EguiDrawCalls {
    EguiDrawCalls::Mesh {
        clip_rect: arr,
        texture_id: m.texture_id,
        base_vertex: voff as i32,
        index_start: ioff as u32,
        index_end: (ioff + m.indices@.len() as int) as u32,
    }
}

/// The draw call recorded for a kept callback primitive.
pub open spec fn callback_call(
    clip_rect: Rect,
    cb: PaintCallback,
    arr: [u32; 4],
    scale: i64,
    fb: [u32; 2],
) -> EguiDrawCalls {
    EguiDrawCalls::Callback {
        paint_callback_info: PaintCallbackInfo {
            clip_rect,
            pixels_per_point: scale,
            screen_size_px: fb,
        },
        clip_rect: arr,
        paint_callback: cb,
    }
}

/// The ordered draw-call list of a frame, starting from the given element
/// offsets. With `include_meshes` false only callback primitives produce
/// draw calls: the zero-geometry path, where no buffer is written. Skipped
/// primitives advance no offset.
pub open spec fn draw_calls_spec(
    ps: Seq<ClippedPrimitive>,
    scale: i64,
    fb: [u32; 2],
    include_meshes: bool,
    voff: int,
    ioff: int,
) -> Seq<EguiDrawCalls>
    decreases ps.len(),
{
    if ps.len() == 0 {
        Seq::empty()
    } else {
        let p = ps[0];
        let kept = prim_kept(p, scale, fb);
        let here: Seq<EguiDrawCalls> = if !kept {
            Seq::empty()
        } else {
            match p.primitive {
                Primitive::Mesh(m) => if include_meshes {
                    seq![mesh_call(m, scissor_arr(p.clip_rect, scale, fb), voff, ioff)]
                } else {
                    Seq::empty()
                },
                Primitive::Callback(cb) => seq![
                    callback_call(p.clip_rect, cb, scissor_arr(p.clip_rect, scale, fb), scale, fb),
                ],
            }
        };
        let dv = if kept {
            prim_vcount(p)
        } else {
            0
        };
        let di = if kept {
            prim_icount(p)
        } else {
            0
        };
        here + draw_calls_spec(ps.skip(1), scale, fb, include_meshes, voff + dv, ioff + di)
    }
}

/// The frame's packed vertex bytes: the vertex data of every kept mesh,
/// concatenated in painter's order.
pub open spec fn vertex_bytes_spec(ps: Seq<ClippedPrimitive>, scale: i64, fb: [u32; 2]) -> Seq<u8>
    decreases ps.len(),
{
    if ps.len() == 0 {
        Seq::empty()
    } else {
        (match ps[0].primitive {
            Primitive::Mesh(m) => if prim_kept(ps[0], scale, fb) {
                m.vertices@
            } else {
                Seq::empty()
            },
            Primitive::Callback(_) => Seq::empty(),
        }) + vertex_bytes_spec(ps.skip(1), scale, fb)
    }
}

/// The frame's index data: the indices of every kept mesh, concatenated in
/// painter's order.
pub open spec fn index_data_spec(ps: Seq<ClippedPrimitive>, scale: i64, fb: [u32; 2]) -> Seq<u32>
    decreases ps.len(),
{
    if ps.len() == 0 {
        Seq::empty()
    } else {
        (match ps[0].primitive {
            Primitive::Mesh(m) => if prim_kept(ps[0], scale, fb) {
                m.indices@
            } else {
                Seq::empty()
            },
            Primitive::Callback(_) => Seq::empty(),
        }) + index_data_spec(ps.skip(1), scale, fb)
    }
}

/// Every kept mesh primitive samples a texture that is live in the given
/// store.
pub open spec fn all_kept_mesh_textures_live(
    ps: Seq<ClippedPrimitive>,
    scale: i64,
    fb: [u32; 2],
    m: TexMaps,
) -> bool {
    forall|i: int|
        0 <= i < ps.len() && prim_kept(ps[i], scale, fb) ==> (#[trigger] ps[i].primitive matches
            Primitive::Mesh(mesh) ==> tex_of(m, mesh.texture_id) is Some)
}

/// Every mesh draw call of a finished frame references a texture that is
/// live in the given store: the invariant that makes one-frame-deferred
/// deletion safe.
pub open spec fn draws_reference_live_textures(calls: Seq<EguiDrawCalls>, m: TexMaps) -> bool {
    forall|i: int|
        0 <= i < calls.len() ==> (#[trigger] calls[i] matches EguiDrawCalls::Mesh {
            texture_id,
            ..
        } ==> tex_of(m, texture_id) is Some)
}

} // verus!

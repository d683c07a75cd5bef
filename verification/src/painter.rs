//! The per-frame translation engine: owns the texture store and the
//! vertex/index buffer capacities, and turns one frame's clipped primitives
//! and texture delta into an ordered list of GPU commands and draw calls.
//!
//! The engine is invoked once per rendered frame and performs no GPU work
//! itself; a thin adapter executes the returned texture commands, uploads
//! the returned buffer contents, and issues one draw per draw call.

use crate::primitives::{
    all_kept_mesh_textures_live, draw_calls_spec, draws_reference_live_textures, index_data_spec,
    lemma_total_icount_nonneg, lemma_total_vcount_nonneg, mesh_call, prim_icount, prim_kept,
    prim_vcount, prim_wf, scissor_arr, total_icount, total_vcount, vertex_bytes_spec,
    ClippedPrimitive, EguiDrawCalls, PaintCallbackInfo, Primitive, VERTEX_STRIDE,
};
use crate::scissor::{rect_in_range, scale_in_range, scissor_from_clip_rect};
use crate::textures::{
    apply_one, apply_set, cmds_one, created_record, insert_tex, lemma_insert_fresh_preserves_wf,
    lemma_reclaim_preserves_wf, maps_of, mip_level_count, reclaim_cmds, reclaim_maps, regen_cmds,
    remove_tex, sampler_for, set_cmds, tex_handles_unique, tex_maps_bounded, tex_of, EguiTexture,
    ImageDelta, SamplerKind, TexMaps, TexState, TextureCommand, TextureFilter, TextureId,
    TexturesDelta,
};
use std::collections::BTreeMap;
use vstd::prelude::*;

verus! {

broadcast use vstd::std_specs::btree::group_btree_axioms, vstd::laws_cmp::group_laws_cmp;

/// A caller contract violation detected while translating a frame. Any of
/// these is fatal for the frame: the toolkit broke its own output
/// invariants, and the caller must abandon the frame rather than recover.
#[derive(Clone, Copy, PartialEq, Eq, Structural, Debug)]
pub enum PaintError {
    /// A delta with a sub-region position named an id with no live record.
    TextureUpdateWithoutTexture(TextureId),
    /// A surviving mesh references an id with no live record.
    DrawTextureNotFound(TextureId),
}

/// Everything one frame translation produces, for the GPU adapter to
/// execute in order. Transient: rebuilt every frame, never persisted.
pub struct FrameOutput {
    /// Texture operations, in execution order: releases deferred from the
    /// previous frame, then this frame's creations and updates, then mipmap
    /// regeneration.
    pub texture_commands: Vec<TextureCommand>,
    /// Whether the vertex buffer must be reallocated (at exactly
    /// `vb_capacity` elements) before uploading `vertex_bytes`.
    pub vb_reallocated: bool,
    /// Whether the index buffer must be reallocated (at exactly
    /// `ib_capacity` elements) before uploading `index_data`.
    pub ib_reallocated: bool,
    /// Vertex buffer capacity in vertices after this frame.
    pub vb_capacity: usize,
    /// Index buffer capacity in indices after this frame.
    pub ib_capacity: usize,
    /// Packed vertex data of every surviving mesh, to write at offset 0.
    pub vertex_bytes: Vec<u8>,
    /// Index data of every surviving mesh, to write at offset 0.
    pub index_data: Vec<u32>,
    /// The frame's draw calls, in painter's order.
    pub draw_calls: Vec<EguiDrawCalls>,
}

/// Capacity of a geometry buffer after a frame needing `needed` elements:
/// grown to exactly the requirement when it does not fit, kept otherwise.
/// Capacities never shrink.
pub open spec fn grown_capacity(cap: int, needed: int) -> int {
    if needed > cap {
        needed
    } else {
        cap
    }
}

/// Whether a frame needing `needed` elements forces a reallocation.
pub open spec fn needs_realloc(cap: int, needed: int) -> bool {
    needed > cap
}

/// Law: geometry buffer capacities only grow, and a frame whose totals do
/// not exceed the previous frame's never triggers a reallocation: after a
/// frame needing `n1` elements, a following frame needing `n2 <= n1`
/// elements reuses the buffer as it is.
pub proof fn lemma_no_realloc_when_totals_shrink(cap: int, n1: int, n2: int)
    requires
        n2 <= n1,
    ensures
        grown_capacity(cap, n1) >= cap,
        !needs_realloc(grown_capacity(cap, n1), n2),
        grown_capacity(grown_capacity(cap, n1), n2) == grown_capacity(cap, n1),
{
}

/// The frame translation engine. Owns the texture records of both
/// namespaces, the free list deferred from the previous frame, and the
/// current capacities of the shared vertex and index buffers.
pub struct EguiPainter {
    /// Vertex buffer capacity, in vertices.
    pub vb_len: usize,
    /// Index buffer capacity, in indices.
    pub ib_len: usize,
    /// Live textures of the toolkit's namespace, by id.
    pub managed_textures: BTreeMap<u64, EguiTexture>,
    /// Live textures of the host application's namespace, by id.
    pub user_textures: BTreeMap<u64, EguiTexture>,
    /// Ids freed by the previous frame, released at the start of the next
    /// frame so the freeing frame's draw calls stay valid.
    pub delete_textures: Vec<TextureId>,
    /// Next fresh GPU handle.
    pub next_texture_handle: u64,
}

impl EguiPainter {
    /// Ghost view of the texture store.
    pub open spec fn tex_maps(self) -> TexMaps {
        maps_of(self.managed_textures@, self.user_textures@)
    }

    /// Well-formedness: every live handle was allocated below the next
    /// fresh handle, and distinct live textures never share a handle.
    pub open spec fn wf(self) -> bool {
        &&& tex_maps_bounded(self.tex_maps(), self.next_texture_handle as int)
        &&& tex_handles_unique(self.tex_maps())
    }

    /// A fresh engine: no textures, no pending frees, empty buffers.
    pub fn new() -> (r: Self)
        ensures
            r.wf(),
            r.tex_maps() == maps_of(Map::<u64, EguiTexture>::empty(), Map::<u64, EguiTexture>::empty()),
            r.delete_textures@ == Seq::<TextureId>::empty(),
            r.vb_len == 0,
            r.ib_len == 0,
            r.next_texture_handle == 0,
    {
        EguiPainter {
            vb_len: 0,
            ib_len: 0,
            managed_textures: BTreeMap::new(),
            user_textures: BTreeMap::new(),
            delete_textures: Vec::new(),
            next_texture_handle: 0,
        }
    }
}

/// Releases every id of the previous frame's free list: removes its record
/// and emits a `Free` for each id that still has one.
fn reclaim_textures(
    managed: &mut BTreeMap<u64, EguiTexture>,
    user: &mut BTreeMap<u64, EguiTexture>,
    pending: &Vec<TextureId>,
    cmds: &mut Vec<TextureCommand>,
)
    ensures
        maps_of(final(managed)@, final(user)@) == reclaim_maps(
            maps_of(old(managed)@, old(user)@),
            pending@,
        ),
        final(cmds)@ == old(cmds)@ + reclaim_cmds(maps_of(old(managed)@, old(user)@), pending@),
{
    let ghost m0 = maps_of(managed@, user@);
    proof {
        assert(pending@.skip(0) =~= pending@);
    }
    let mut i: usize = 0;
    while i < pending.len()
        invariant
            i <= pending@.len(),
            reclaim_maps(m0, pending@) == reclaim_maps(
                maps_of(managed@, user@),
                pending@.skip(i as int),
            ),
            old(cmds)@ + reclaim_cmds(m0, pending@) == cmds@ + reclaim_cmds(
                maps_of(managed@, user@),
                pending@.skip(i as int),
            ),
        decreases pending@.len() - i,
    {
        let ghost m_prev = maps_of(managed@, user@);
        proof {
            assert(pending@.skip(i as int)[0] == pending@[i as int]);
            assert(pending@.skip(i as int).skip(1) =~= pending@.skip(i as int + 1));
        }
        let id = pending[i];
        match id {
            TextureId::Managed(k) => {
                match managed.remove(&k) {
                    Some(t) => cmds.push(TextureCommand::Free { handle: t.handle }),
                    None => (),
                }
            },
            TextureId::User(k) => {
                match user.remove(&k) {
                    Some(t) => cmds.push(TextureCommand::Free { handle: t.handle }),
                    None => (),
                }
            },
        }
        proof {
            assert(maps_of(managed@, user@) == remove_tex(m_prev, pending@[i as int]));
            assert(old(cmds)@ + reclaim_cmds(m0, pending@) == cmds@ + reclaim_cmds(
                maps_of(managed@, user@),
                pending@.skip(i as int + 1),
            )) by {
                assert((cmds@ + reclaim_cmds(maps_of(managed@, user@), pending@.skip(i as int + 1)))
                    =~= (old(cmds)@ + reclaim_cmds(m0, pending@)));
            }
        }
        i = i + 1;
    }
    proof {
        assert(pending@.skip(pending@.len() as int) =~= Seq::<TextureId>::empty());
    }
}

/// Applies one frame's `set` list, front to back: a whole-image delta
/// creates a record under a fresh handle (freeing any record it replaces),
/// a positioned delta patches a live record in place, and a positioned
/// delta against an absent id is a caller contract violation. After all
/// uploads, records the mipmap regeneration pass for every non-font id of
/// the list that is live.
#[verifier::loop_isolation(false)]
fn set_textures(
    managed: &mut BTreeMap<u64, EguiTexture>,
    user: &mut BTreeMap<u64, EguiTexture>,
    next_handle: &mut u64,
    set: Vec<(TextureId, ImageDelta)>,
    cmds: &mut Vec<TextureCommand>,
) -> (r: Result<(), PaintError>)
    requires
        *old(next_handle) + set@.len() <= u64::MAX,
        tex_maps_bounded(maps_of(old(managed)@, old(user)@), *old(next_handle) as int),
        tex_handles_unique(maps_of(old(managed)@, old(user)@)),
    ensures
        ({
            let s0 = TexState {
                maps: maps_of(old(managed)@, old(user)@),
                next_handle: *old(next_handle) as int,
            };
            match r {
                Ok(()) => {
                    &&& apply_set(s0, set@) is Some
                    &&& ({
                        let s2 = apply_set(s0, set@)->Some_0;
                        &&& maps_of(final(managed)@, final(user)@) == s2.maps
                        &&& *final(next_handle) as int == s2.next_handle
                        &&& final(cmds)@ == old(cmds)@ + set_cmds(s0, set@) + regen_cmds(
                            s2.maps,
                            set@,
                        )
                        &&& tex_maps_bounded(s2.maps, s2.next_handle)
                        &&& tex_handles_unique(s2.maps)
                    })
                },
                Err(e) => {
                    &&& apply_set(s0, set@) is None
                    &&& match e {
                        PaintError::TextureUpdateWithoutTexture(id) => exists|j: int|
                            0 <= j < set@.len() && #[trigger] set@[j].0 == id
                                && set@[j].1.pos is Some,
                        PaintError::DrawTextureNotFound(_) => false,
                    }
                },
            }
        }),
{
    let ghost s0 = TexState {
        maps: maps_of(managed@, user@),
        next_handle: *next_handle as int,
    };
    let ghost es = set@;
    let mut rem = set;
    let mut ids: Vec<TextureId> = Vec::new();
    let mut i: usize = 0;
    proof {
        assert(es.skip(0) =~= es);
    }
    while rem.len() > 0
        invariant
            i == ids@.len(),
            i + rem@.len() == es.len(),
            rem@ == es.skip(i as int),
            forall|j: int| 0 <= j < i ==> #[trigger] ids@[j] == es[j].0,
            *next_handle as int + rem@.len() <= u64::MAX,
            tex_maps_bounded(maps_of(managed@, user@), *next_handle as int),
            tex_handles_unique(maps_of(managed@, user@)),
            apply_set(s0, es) == apply_set(
                TexState { maps: maps_of(managed@, user@), next_handle: *next_handle as int },
                es.skip(i as int),
            ),
            old(cmds)@ + set_cmds(s0, es) == cmds@ + set_cmds(
                TexState { maps: maps_of(managed@, user@), next_handle: *next_handle as int },
                es.skip(i as int),
            ),
        decreases rem@.len(),
    {
        let ghost s_prev = TexState {
            maps: maps_of(managed@, user@),
            next_handle: *next_handle as int,
        };
        let ghost cmds_before = cmds@;
        proof {
            assert(es.skip(i as int)[0] == es[i as int]);
            assert(es.skip(i as int).skip(1) =~= es.skip(i as int + 1));
        }
        let (id, delta) = rem.remove(0);
        proof {
            assert(rem@ =~= es.skip(i as int + 1));
            assert(id == es[i as int].0 && delta == es[i as int].1);
        }
        ids.push(id);
        match delta.pos {
            Some(p) => {
                let rec: Option<EguiTexture> = lookup_texture(managed, user, id);
                match rec {
                    Some(t) => {
                        let upd = TextureCommand::Update {
                            handle: t.handle,
                            x: p[0],
                            y: p[1],
                            width: delta.width,
                            height: delta.height,
                            pixels: delta.pixels,
                        };
                        cmds.push(upd);
                        proof {
                            assert(tex_of(s_prev.maps, id) == Some(t));
                            assert(apply_one(s_prev, es[i as int].0, es[i as int].1) == Some(
                                s_prev,
                            ));
                            assert(cmds@ =~= cmds_before + cmds_one(
                                s_prev,
                                es[i as int].0,
                                es[i as int].1,
                            ));
                            assert((cmds_before + cmds_one(s_prev, es[i as int].0, es[i as int].1))
                                + set_cmds(s_prev, es.skip(i as int + 1)) =~= cmds_before + (
                            cmds_one(s_prev, es[i as int].0, es[i as int].1) + set_cmds(
                                s_prev,
                                es.skip(i as int + 1),
                            )));
                        }
                    },
                    None => {
                        proof {
                            assert(tex_of(s_prev.maps, id) is None);
                            assert(apply_one(s_prev, es[i as int].0, es[i as int].1) is None);
                            assert(apply_set(s0, es) is None);
                            assert((i as int) < es.len() && es[i as int].0 == id && es[
                                i as int
                            ].1.pos is Some);
                        }
                        return Err(PaintError::TextureUpdateWithoutTexture(id));
                    },
                }
            },
            None => {
                let mips: u32 = if id == TextureId::Managed(0) {
                    1
                } else {
                    mip_level_count(delta.width, delta.height)
                };
                let sampler: SamplerKind = sampler_kind_of(id, delta.filter);
                let handle: u64 = *next_handle;
                let record = EguiTexture {
                    handle,
                    width: delta.width,
                    height: delta.height,
                    sampler,
                    mip_level_count: mips,
                };
                proof {
                    assert(record == created_record(s_prev, id, es[i as int].1));
                }
                match id {
                    TextureId::Managed(k) => {
                        match managed.get(&k) {
                            Some(prev) => {
                                let h = prev.handle;
                                cmds.push(TextureCommand::Free { handle: h });
                            },
                            None => (),
                        }
                        managed.insert(k, record);
                    },
                    TextureId::User(k) => {
                        match user.get(&k) {
                            Some(prev) => {
                                let h = prev.handle;
                                cmds.push(TextureCommand::Free { handle: h });
                            },
                            None => (),
                        }
                        user.insert(k, record);
                    },
                }
                cmds.push(
                    TextureCommand::Create {
                        handle,
                        width: delta.width,
                        height: delta.height,
                        mip_level_count: mips,
                        sampler,
                        pixels: delta.pixels,
                    },
                );
                *next_handle = *next_handle + 1;
                proof {
                    lemma_insert_fresh_preserves_wf(s_prev.maps, id, record, s_prev.next_handle);
                    let s_next = TexState {
                        maps: maps_of(managed@, user@),
                        next_handle: *next_handle as int,
                    };
                    assert(maps_of(managed@, user@) == insert_tex(s_prev.maps, id, record));
                    assert(apply_one(s_prev, es[i as int].0, es[i as int].1) == Some(s_next));
                    assert(cmds@ =~= cmds_before + cmds_one(
                        s_prev,
                        es[i as int].0,
                        es[i as int].1,
                    ));
                    assert((cmds_before + cmds_one(s_prev, es[i as int].0, es[i as int].1))
                        + set_cmds(s_next, es.skip(i as int + 1)) =~= cmds_before + (cmds_one(
                        s_prev,
                        es[i as int].0,
                        es[i as int].1,
                    ) + set_cmds(s_next, es.skip(i as int + 1))));
                }
            },
        }
        i = ids.len();
    }
    proof {
        assert(es.skip(es.len() as int) =~= Seq::<(TextureId, ImageDelta)>::empty());
    }
    let ghost m2 = maps_of(managed@, user@);
    let ghost cmds_mid = cmds@;
    let mut j: usize = 0;
    proof {
        assert(es.skip(0) =~= es);
    }
    while j < ids.len()
        invariant
            j <= ids@.len(),
            ids@.len() == es.len(),
            forall|t: int| 0 <= t < es.len() ==> #[trigger] ids@[t] == es[t].0,
            maps_of(managed@, user@) == m2,
            cmds_mid + regen_cmds(m2, es) == cmds@ + regen_cmds(m2, es.skip(j as int)),
        decreases ids@.len() - j,
    {
        let ghost cmds_before = cmds@;
        proof {
            assert(es.skip(j as int)[0] == es[j as int]);
            assert(es.skip(j as int).skip(1) =~= es.skip(j as int + 1));
        }
        let id = ids[j];
        if !(id == TextureId::Managed(0)) {
            let rec: Option<EguiTexture> = lookup_texture(managed, user, id);
            match rec {
                Some(t) => {
                    let cmd = TextureCommand::RegenerateMipmaps {
                        handle: t.handle,
                        mip_level_count: t.mip_level_count,
                    };
                    cmds.push(cmd);
                    proof {
                        assert(tex_of(m2, es[j as int].0) == Some(t));
                        assert(cmds@ =~= cmds_before + seq![
                            TextureCommand::RegenerateMipmaps {
                                handle: t.handle,
                                mip_level_count: t.mip_level_count,
                            },
                        ]);
                        assert((cmds_before + seq![
                            TextureCommand::RegenerateMipmaps {
                                handle: t.handle,
                                mip_level_count: t.mip_level_count,
                            },
                        ]) + regen_cmds(m2, es.skip(j as int + 1)) =~= cmds_before + (seq![
                            TextureCommand::RegenerateMipmaps {
                                handle: t.handle,
                                mip_level_count: t.mip_level_count,
                            },
                        ] + regen_cmds(m2, es.skip(j as int + 1))));
                    }
                },
                None => {
                    proof {
                        assert(tex_of(m2, es[j as int].0) is None);
                    }
                },
            }
        }
        j = j + 1;
    }
    proof {
        assert(es.skip(es.len() as int) =~= Seq::<(TextureId, ImageDelta)>::empty());
        assert(old(cmds)@ + set_cmds(s0, es) + regen_cmds(m2, es) =~= cmds@);
    }
    Ok(())
}

/// Sampler a created texture gets: clamp-to-edge for the font atlas,
/// otherwise the delta's own filter.
fn sampler_kind_of(id: TextureId, filter: TextureFilter) -> (r: SamplerKind)
    ensures
        r == sampler_for(id, filter),
{
    if id == TextureId::Managed(0) {
        SamplerKind::Font
    } else {
        match filter {
            TextureFilter::Nearest => SamplerKind::Nearest,
            TextureFilter::Linear => SamplerKind::Linear,
        }
    }
}

/// The live record for an id, looked up across both namespaces.
fn lookup_texture(
    managed: &BTreeMap<u64, EguiTexture>,
    user: &BTreeMap<u64, EguiTexture>,
    id: TextureId,
) -> (r: Option<EguiTexture>)
    ensures
        r == tex_of(maps_of(managed@, user@), id),
{
    match id {
        TextureId::Managed(k) => match managed.get(&k) {
            Some(t) => Some(*t),
            None => None,
        },
        TextureId::User(k) => match user.get(&k) {
            Some(t) => Some(*t),
            None => None,
        },
    }
}

impl EguiPainter {
    /// Translates one frame. Must be called exactly once per rendered
    /// frame. In order: releases the textures freed by the previous frame;
    /// applies this frame's texture delta (creates, patches, then the
    /// mipmap regeneration pass); records this frame's free list for the
    /// next call; sizes the geometry buffers to the frame's totals, growing
    /// but never shrinking them; and walks the primitives in painter's
    /// order, skipping every primitive whose scissor rectangle is empty
    /// before copying any of its geometry, appending one draw call per
    /// surviving primitive.
    ///
    /// Returns the commands and draw calls for the adapter to execute, or
    /// the caller contract violation that aborts the frame, in which case
    /// the engine is left exactly as it was. Every mesh draw call returned
    /// references a texture that is live in the updated store: textures
    /// freed this frame are still live until the next call.
    #[verifier::loop_isolation(false)]
    pub fn upload_egui_data(
        &mut self,
        meshes: Vec<ClippedPrimitive>,
        textures_delta: TexturesDelta,
        scale: i64,
        physical_framebuffer_size: [u32; 2],
    ) -> (r: Result<FrameOutput, PaintError>)
        requires
            old(self).wf(),
            scale_in_range(scale as int),
            forall|i: int|
                0 <= i < meshes@.len() ==> rect_in_range(#[trigger] meshes@[i].clip_rect)
                    && prim_wf(meshes@[i]),
            forall|i: int|
                0 <= i < textures_delta.set@.len() ==> (
                #[trigger] textures_delta.set@[i].1).wf(),
            total_vcount(meshes@) <= i32::MAX,
            total_icount(meshes@) <= u32::MAX,
            old(self).next_texture_handle + textures_delta.set@.len() <= u64::MAX,
        ensures
            final(self).wf(),
            ({
                let s1 = TexState {
                    maps: reclaim_maps(old(self).tex_maps(), old(self).delete_textures@),
                    next_handle: old(self).next_texture_handle as int,
                };
                let fb = physical_framebuffer_size;
                match r {
                    Ok(out) => {
                        &&& apply_set(s1, textures_delta.set@) is Some
                        &&& ({
                            let s2 = apply_set(s1, textures_delta.set@)->Some_0;
                            &&& final(self).tex_maps() == s2.maps
                            &&& final(self).next_texture_handle as int == s2.next_handle
                            &&& final(self).delete_textures@ == textures_delta.free@
                            &&& out.texture_commands@ == reclaim_cmds(
                                old(self).tex_maps(),
                                old(self).delete_textures@,
                            ) + set_cmds(s1, textures_delta.set@) + regen_cmds(
                                s2.maps,
                                textures_delta.set@,
                            )
                            &&& draws_reference_live_textures(out.draw_calls@, s2.maps)
                            &&& if total_vcount(meshes@) == 0 || total_icount(meshes@) == 0 {
                                &&& final(self).vb_len == old(self).vb_len
                                &&& final(self).ib_len == old(self).ib_len
                                &&& out.vb_reallocated == false
                                &&& out.ib_reallocated == false
                                &&& out.vb_capacity == old(self).vb_len
                                &&& out.ib_capacity == old(self).ib_len
                                &&& out.vertex_bytes@ == Seq::<u8>::empty()
                                &&& out.index_data@ == Seq::<u32>::empty()
                                &&& out.draw_calls@ == draw_calls_spec(meshes@, scale, fb, false, 0, 0)
                            } else {
                                &&& out.vb_reallocated == needs_realloc(
                                    old(self).vb_len as int,
                                    total_vcount(meshes@),
                                )
                                &&& out.ib_reallocated == needs_realloc(
                                    old(self).ib_len as int,
                                    total_icount(meshes@),
                                )
                                &&& final(self).vb_len as int == grown_capacity(
                                    old(self).vb_len as int,
                                    total_vcount(meshes@),
                                )
                                &&& final(self).ib_len as int == grown_capacity(
                                    old(self).ib_len as int,
                                    total_icount(meshes@),
                                )
                                &&& out.vb_capacity == final(self).vb_len
                                &&& out.ib_capacity == final(self).ib_len
                                &&& out.vertex_bytes@ == vertex_bytes_spec(meshes@, scale, fb)
                                &&& out.index_data@ == index_data_spec(meshes@, scale, fb)
                                &&& out.draw_calls@ == draw_calls_spec(meshes@, scale, fb, true, 0, 0)
                            }
                        })
                    },
                    Err(e) => {
                        &&& *final(self) == *old(self)
                        &&& match e {
                            PaintError::TextureUpdateWithoutTexture(id) => {
                                &&& apply_set(s1, textures_delta.set@) is None
                                &&& exists|j: int|
                                    0 <= j < textures_delta.set@.len()
                                        && #[trigger] textures_delta.set@[j].0 == id
                                        && textures_delta.set@[j].1.pos is Some
                            },
                            PaintError::DrawTextureNotFound(id) => {
                                &&& apply_set(s1, textures_delta.set@) is Some
                                &&& total_vcount(meshes@) != 0
                                &&& total_icount(meshes@) != 0
                                &&& !all_kept_mesh_textures_live(
                                    meshes@,
                                    scale,
                                    fb,
                                    apply_set(s1, textures_delta.set@)->Some_0.maps,
                                )
                                &&& tex_of(
                                    apply_set(s1, textures_delta.set@)->Some_0.maps,
                                    id,
                                ) is None
                            },
                        }
                    },
                }
            }),
    {
        let ghost ms = meshes@;
        let ghost s0 = TexState {
            maps: self.tex_maps(),
            next_handle: self.next_texture_handle as int,
        };
        let TexturesDelta { set, free } = textures_delta;
        let ghost es = set@;

        // Texture phases run on a local copy of the store; the engine is
        // only committed to once the whole frame has translated, so a
        // contract violation leaves it untouched.
        let mut managed = self.managed_textures.clone();
        let mut user = self.user_textures.clone();
        let mut next = self.next_texture_handle;
        let mut tex_cmds: Vec<TextureCommand> = Vec::new();
        reclaim_textures(&mut managed, &mut user, &self.delete_textures, &mut tex_cmds);
        let ghost s1 = TexState {
            maps: maps_of(managed@, user@),
            next_handle: next as int,
        };
        proof {
            lemma_reclaim_preserves_wf(s0.maps, self.delete_textures@, s0.next_handle);
        }
        match set_textures(&mut managed, &mut user, &mut next, set, &mut tex_cmds) {
            Ok(()) => (),
            Err(e) => {
                return Err(e);
            },
        }
        let ghost s2 = apply_set(s1, es)->Some_0;
        let ghost m2 = maps_of(managed@, user@);

        // Frame totals, over every mesh primitive, kept or not.
        let n = meshes.len();
        let mut tvc: usize = 0;
        let mut tic: usize = 0;
        let mut i: usize = 0;
        proof {
            assert(ms.skip(0) =~= ms);
        }
        while i < n
            invariant
                i <= n,
                n == ms.len(),
                tvc + total_vcount(ms.skip(i as int)) == total_vcount(ms),
                tic + total_icount(ms.skip(i as int)) == total_icount(ms),
                0 <= tvc,
                0 <= tic,
            decreases n - i,
        {
            proof {
                assert(ms.skip(i as int)[0] == ms[i as int]);
                assert(ms.skip(i as int).skip(1) =~= ms.skip(i as int + 1));
                lemma_total_vcount_nonneg(ms.skip(i as int + 1));
                lemma_total_icount_nonneg(ms.skip(i as int + 1));
            }
            match &meshes[i].primitive {
                Primitive::Mesh(m) => {
                    let vc = m.vertices.len() / VERTEX_STRIDE;
                    tvc = tvc + vc;
                    tic = tic + m.indices.len();
                },
                Primitive::Callback(_) => (),
            }
            i = i + 1;
        }
        proof {
            assert(ms.skip(n as int) =~= Seq::<ClippedPrimitive>::empty());
        }

        if tvc == 0 || tic == 0 {
            // No geometry at all this frame: no buffer is touched and only
            // the surviving callbacks produce draw calls, still in order.
            let mut draws: Vec<EguiDrawCalls> = Vec::new();
            let mut i: usize = 0;
            let ghost mut gvoff: int = 0;
            let ghost mut gioff: int = 0;
            proof {
                assert(ms.skip(0) =~= ms);
            }
            while i < n
                invariant
                    i <= n,
                    draw_calls_spec(ms, scale, physical_framebuffer_size, false, 0, 0) == draws@
                        + draw_calls_spec(
                        ms.skip(i as int),
                        scale,
                        physical_framebuffer_size,
                        false,
                        gvoff,
                        gioff,
                    ),
                    draws_reference_live_textures(draws@, m2),
                decreases n - i,
            {
                proof {
                    assert(ms.skip(i as int)[0] == ms[i as int]);
                    assert(ms.skip(i as int).skip(1) =~= ms.skip(i as int + 1));
                }
                let cp = &meshes[i];
                match &cp.primitive {
                    Primitive::Callback(cb) => {
                        match scissor_from_clip_rect(&cp.clip_rect, scale, physical_framebuffer_size) {
                            Some(arr) => {
                                proof {
                                    assert(arr =~= scissor_arr(
                                        ms[i as int].clip_rect,
                                        scale,
                                        physical_framebuffer_size,
                                    ));
                                }
                                draws.push(
                                    EguiDrawCalls::Callback {
                                        paint_callback_info: PaintCallbackInfo {
                                            clip_rect: cp.clip_rect,
                                            pixels_per_point: scale,
                                            screen_size_px: physical_framebuffer_size,
                                        },
                                        clip_rect: arr,
                                        paint_callback: *cb,
                                    },
                                );
                            },
                            None => (),
                        }
                    },
                    Primitive::Mesh(_) => (),
                }
                proof {
                    let p = ms[i as int];
                    let dv: int = if prim_kept(p, scale, physical_framebuffer_size) {
                        prim_vcount(p)
                    } else {
                        0
                    };
                    let di: int = if prim_kept(p, scale, physical_framebuffer_size) {
                        prim_icount(p)
                    } else {
                        0
                    };
                    gvoff = gvoff + dv;
                    gioff = gioff + di;
                }
                i = i + 1;
            }
            proof {
                assert(ms.skip(n as int) =~= Seq::<ClippedPrimitive>::empty());
            }
            self.managed_textures = managed;
            self.user_textures = user;
            self.next_texture_handle = next;
            self.delete_textures = free;
            return Ok(
                FrameOutput {
                    texture_commands: tex_cmds,
                    vb_reallocated: false,
                    ib_reallocated: false,
                    vb_capacity: self.vb_len,
                    ib_capacity: self.ib_len,
                    vertex_bytes: Vec::new(),
                    index_data: Vec::new(),
                    draw_calls: draws,
                },
            );
        }

        // Grow the geometry buffers exactly to the frame's totals when they
        // do not fit; never shrink them.
        let vb_reallocated = self.vb_len < tvc;
        let new_vb_len = if vb_reallocated {
            tvc
        } else {
            self.vb_len
        };
        let ib_reallocated = self.ib_len < tic;
        let new_ib_len = if ib_reallocated {
            tic
        } else {
            self.ib_len
        };

        // Walk the primitives in painter's order, copying the geometry of
        // every surviving mesh at strictly increasing offsets.
        let mut vertex_bytes: Vec<u8> = Vec::new();
        let mut index_data: Vec<u32> = Vec::new();
        let mut draws: Vec<EguiDrawCalls> = Vec::new();
        let mut voff: usize = 0;
        let mut ioff: usize = 0;
        let mut rem = meshes;
        let mut i: usize = 0;
        proof {
            assert(ms.skip(0) =~= ms);
        }
        while rem.len() > 0
            invariant
                i + rem@.len() == n as int,
                n == ms.len(),
                rem@ == ms.skip(i as int),
                voff + total_vcount(ms.skip(i as int)) <= total_vcount(ms),
                ioff + total_icount(ms.skip(i as int)) <= total_icount(ms),
                draw_calls_spec(ms, scale, physical_framebuffer_size, true, 0, 0) == draws@
                    + draw_calls_spec(
                    ms.skip(i as int),
                    scale,
                    physical_framebuffer_size,
                    true,
                    voff as int,
                    ioff as int,
                ),
                vertex_bytes_spec(ms, scale, physical_framebuffer_size) == vertex_bytes@
                    + vertex_bytes_spec(ms.skip(i as int), scale, physical_framebuffer_size),
                index_data_spec(ms, scale, physical_framebuffer_size) == index_data@
                    + index_data_spec(ms.skip(i as int), scale, physical_framebuffer_size),
                draws_reference_live_textures(draws@, m2),
                maps_of(managed@, user@) == m2,
            decreases rem@.len(),
        {
            proof {
                assert(ms.skip(i as int)[0] == ms[i as int]);
                assert(ms.skip(i as int).skip(1) =~= ms.skip(i as int + 1));
                lemma_total_vcount_nonneg(ms.skip(i as int + 1));
                lemma_total_icount_nonneg(ms.skip(i as int + 1));
            }
            let cp = rem.remove(0);
            proof {
                assert(rem@ =~= ms.skip(i as int + 1));
                assert(cp == ms[i as int]);
            }
            match scissor_from_clip_rect(&cp.clip_rect, scale, physical_framebuffer_size) {
                None => {
                    proof {
                        assert(!prim_kept(ms[i as int], scale, physical_framebuffer_size));
                    }
                },
                Some(arr) => {
                    proof {
                        assert(prim_kept(ms[i as int], scale, physical_framebuffer_size));
                        assert(arr =~= scissor_arr(
                            ms[i as int].clip_rect,
                            scale,
                            physical_framebuffer_size,
                        ));
                    }
                    match cp.primitive {
                        Primitive::Mesh(mut m) => {
                            match lookup_texture(&managed, &user, m.texture_id) {
                                Some(_) => (),
                                None => {
                                    proof {
                                        assert(!all_kept_mesh_textures_live(
                                            ms,
                                            scale,
                                            physical_framebuffer_size,
                                            m2,
                                        ));
                                    }
                                    return Err(PaintError::DrawTextureNotFound(m.texture_id));
                                },
                            }
                            let vc = m.vertices.len() / VERTEX_STRIDE;
                            let ic = m.indices.len();
                            let ghost mesh_snapshot = m;
                            draws.push(
                                EguiDrawCalls::Mesh {
                                    clip_rect: arr,
                                    texture_id: m.texture_id,
                                    base_vertex: voff as i32,
                                    index_start: ioff as u32,
                                    index_end: (ioff + ic) as u32,
                                },
                            );
                            vertex_bytes.append(&mut m.vertices);
                            index_data.append(&mut m.indices);
                            proof {
                                assert(draws@.last() == mesh_call(
                                    mesh_snapshot,
                                    scissor_arr(
                                        ms[i as int].clip_rect,
                                        scale,
                                        physical_framebuffer_size,
                                    ),
                                    voff as int,
                                    ioff as int,
                                ));
                            }
                            voff = voff + vc;
                            ioff = ioff + ic;
                        },
                        Primitive::Callback(cb) => {
                            draws.push(
                                EguiDrawCalls::Callback {
                                    paint_callback_info: PaintCallbackInfo {
                                        clip_rect: cp.clip_rect,
                                        pixels_per_point: scale,
                                        screen_size_px: physical_framebuffer_size,
                                    },
                                    clip_rect: arr,
                                    paint_callback: cb,
                                },
                            );
                        },
                    }
                },
            }
            i = i + 1;
        }
        proof {
            assert(ms.skip(n as int) =~= Seq::<ClippedPrimitive>::empty());
        }
        self.managed_textures = managed;
        self.user_textures = user;
        self.next_texture_handle = next;
        self.delete_textures = free;
        self.vb_len = new_vb_len;
        self.ib_len = new_ib_len;
        Ok(
            FrameOutput {
                texture_commands: tex_cmds,
                vb_reallocated,
                ib_reallocated,
                vb_capacity: new_vb_len,
                ib_capacity: new_ib_len,
                vertex_bytes,
                index_data,
                draw_calls: draws,
            },
        )
    }
}

} // verus!

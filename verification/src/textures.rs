//! Texture lifecycle management: the data carried by a texture delta, the
//! record kept for each live GPU texture, the commands the manager emits for
//! the GPU adapter to execute, and the mathematical model of how one frame's
//! deltas and frees evolve the texture store.
//!
//! Per texture id the life cycle is `Absent -> Live -> PendingDelete ->
//! Absent`: a whole-image delta creates, a positioned delta patches a live
//! record in place, an id on the frame's free list is only marked, and the
//! actual release happens at the start of the next frame, so draw calls
//! recorded in the freeing frame can still reference the texture.

use vstd::prelude::*;

verus! {

/// Identifier of a texture. `Managed` ids are owned by the GUI toolkit (the
/// font atlas is `Managed(0)`); `User` ids are registered by the host
/// application. The two namespaces are independent.
#[derive(Clone, Copy, PartialEq, Eq, Structural, Debug)]
pub enum TextureId {
    Managed(u64),
    User(u64),
}

/// Minification/magnification filter requested by a texture delta.
#[derive(Clone, Copy, PartialEq, Eq, Structural, Debug)]
pub enum TextureFilter {
    Nearest,
    Linear,
}

/// The sampler configuration a texture was created with. The font atlas
/// always samples clamp-to-edge regardless of the requested filter, to
/// avoid bleeding at atlas edges.
#[derive(Clone, Copy, PartialEq, Eq, Structural, Debug)]
pub enum SamplerKind {
    Font,
    Nearest,
    Linear,
}

/// Record for one live texture. `handle` stands for the GPU-side objects
/// (texture, view, bind group) owned by the adapter; the manager guarantees
/// that distinct live records carry distinct handles.
#[derive(Clone, Copy, PartialEq, Eq, Structural, Debug)]
pub struct EguiTexture {
    pub handle: u64,
    pub width: u32,
    pub height: u32,
    pub sampler: SamplerKind,
    pub mip_level_count: u32,
}

/// A create-or-patch instruction for one texture, as emitted by the GUI
/// toolkit: either a full image replacement (`pos == None`) or a
/// sub-rectangle patch at `pos` of a live texture.
pub struct ImageDelta {
    /// `None` for a whole-image replacement; `Some([x, y])` for the
    /// top-left corner, in pixels, of the patched sub-rectangle.
    pub pos: Option<[u32; 2]>,
    /// Width in pixels of the delta's image.
    pub width: u32,
    /// Height in pixels of the delta's image.
    pub height: u32,
    /// RGBA8 pixel data with straight alpha, row-major, 4 bytes per pixel.
    pub pixels: Vec<u8>,
    /// Filter to sample the texture with.
    pub filter: TextureFilter,
}

impl ImageDelta {
    /// The pixel data covers exactly the advertised size.
    pub open spec fn wf(self) -> bool {
        self.pixels@.len() == 4 * self.width * self.height
    }
}

/// Everything the GUI toolkit says about textures in one frame: records to
/// set (create or patch) and ids to free.
pub struct TexturesDelta {
    pub set: Vec<(TextureId, ImageDelta)>,
    pub free: Vec<TextureId>,
}

/// One GPU resource operation for the adapter to execute, in list order.
pub enum TextureCommand {
    /// Allocate a texture of the given size and mip chain, upload the whole
    /// image, and create its sampling/binding objects.
    Create {
        handle: u64,
        width: u32,
        height: u32,
        mip_level_count: u32,
        sampler: SamplerKind,
        pixels: Vec<u8>,
    },
    /// Write the given sub-rectangle of a live texture in place.
    Update { handle: u64, x: u32, y: u32, width: u32, height: u32, pixels: Vec<u8> },
    /// Release all GPU objects of a texture.
    Free { handle: u64 },
    /// Regenerate levels `1..mip_level_count` of the mip chain, each level
    /// downsampled from the one before it.
    RegenerateMipmaps { handle: u64, mip_level_count: u32 },
}

/// Number of mip levels for an image whose largest dimension is `m`:
/// `floor(log2(m)) + 1`, and 1 for a degenerate empty image.
pub open spec fn mip_count_spec(m: nat) -> nat
    decreases m,
{
    if m <= 1 {
        1
    } else {
        1 + mip_count_spec(m / 2)
    }
}

pub proof fn lemma_mip_count_bound(m: nat, k: nat)
    requires
        m < vstd::arithmetic::power2::pow2(k),
    ensures
        mip_count_spec(m) <= k + 1,
    decreases k,
{
    if m <= 1 {
    } else {
        assert(k > 0) by {
            if k == 0 {
                vstd::arithmetic::power2::lemma2_to64();
            }
        }
        vstd::arithmetic::power2::lemma_pow2_unfold(k);
        lemma_mip_count_bound(m / 2, (k - 1) as nat);
    }
}

/// Largest of the two dimensions, as the mip policy sees it.
pub open spec fn max_dim(width: nat, height: nat) -> nat {
    if width >= height {
        width
    } else {
        height
    }
}

/// Number of mip levels allocated for a texture created with the given id
/// and size: the font atlas gets a single level, every other texture a full
/// chain of `floor(log2(max(width, height))) + 1` levels.
pub open spec fn mip_levels_for(id: TextureId, width: nat, height: nat) -> nat {
    if id == TextureId::Managed(0) {
        1
    } else {
        mip_count_spec(max_dim(width, height))
    }
}

/// Computes `floor(log2(max(width, height))) + 1`.
pub fn mip_level_count(width: u32, height: u32) -> (r: u32)
    ensures
        r == mip_count_spec(max_dim(width as nat, height as nat)),
        1 <= r <= 33,
{
    let m0: u32 = if width >= height {
        width
    } else {
        height
    };
    proof {
        vstd::arithmetic::power2::lemma2_to64();
        lemma_mip_count_bound(m0 as nat, 32);
    }
    let mut m: u32 = m0;
    let mut count: u32 = 1;
    while m > 1
        invariant
            mip_count_spec(m0 as nat) == count - 1 + mip_count_spec(m as nat),
            1 <= count,
            count - 1 + mip_count_spec(m as nat) <= 33,
        decreases m,
    {
        m = m / 2;
        count = count + 1;
    }
    count
}

/// Sampler a texture created by the given delta gets: clamp-to-edge for the
/// font atlas, else the delta's own filter.
pub open spec fn sampler_for(id: TextureId, filter: TextureFilter) -> SamplerKind {
    if id == TextureId::Managed(0) {
        SamplerKind::Font
    } else {
        match filter {
            TextureFilter::Nearest => SamplerKind::Nearest,
            TextureFilter::Linear => SamplerKind::Linear,
        }
    }
}

/// Ghost view of the two texture namespaces.
pub struct TexMaps {
    pub managed: Map<u64, EguiTexture>,
    pub user: Map<u64, EguiTexture>,
}

/// Ghost state of the texture store between operations: the live records
/// plus the next fresh GPU handle.
pub struct TexState {
    pub maps: TexMaps,
    pub next_handle: int,
}

/// The live record for an id, if any.
pub open spec fn tex_of(m: TexMaps, id: TextureId) -> Option<EguiTexture> {
    match id {
        TextureId::Managed(k) => if m.managed.contains_key(k) {
            Some(m.managed[k])
        } else {
            None
        },
        TextureId::User(k) => if m.user.contains_key(k) {
            Some(m.user[k])
        } else {
            None
        },
    }
}

pub open spec fn insert_tex(m: TexMaps, id: TextureId, t: EguiTexture) -> TexMaps {
    match id {
        TextureId::Managed(k) => TexMaps { managed: m.managed.insert(k, t), user: m.user },
        TextureId::User(k) => TexMaps { managed: m.managed, user: m.user.insert(k, t) },
    }
}

pub open spec fn remove_tex(m: TexMaps, id: TextureId) -> TexMaps {
    match id {
        TextureId::Managed(k) => TexMaps { managed: m.managed.remove(k), user: m.user },
        TextureId::User(k) => TexMaps { managed: m.managed, user: m.user.remove(k) },
    }
}

/// Texture store after releasing every id of a free list, front to back.
pub open spec fn reclaim_maps(m: TexMaps, ids: Seq<TextureId>) -> TexMaps
    decreases ids.len(),
{
    if ids.len() == 0 {
        m
    } else {
        reclaim_maps(remove_tex(m, ids[0]), ids.skip(1))
    }
}

/// Free commands emitted while releasing a free list: one `Free` per id
/// that still has a live record when its turn comes.
pub open spec fn reclaim_cmds(m: TexMaps, ids: Seq<TextureId>) -> Seq<TextureCommand>
    decreases ids.len(),
{
    if ids.len() == 0 {
        Seq::empty()
    } else {
        (match tex_of(m, ids[0]) {
            Some(t) => seq![TextureCommand::Free { handle: t.handle }],
            None => Seq::empty(),
        }) + reclaim_cmds(remove_tex(m, ids[0]), ids.skip(1))
    }
}

/// The record a whole-image delta creates.
pub open spec fn created_record(s: TexState, id: TextureId, d: ImageDelta) -> EguiTexture {
    EguiTexture {
        handle: s.next_handle as u64,
        width: d.width,
        height: d.height,
        sampler: sampler_for(id, d.filter),
        mip_level_count: mip_levels_for(id, d.width as nat, d.height as nat) as u32,
    }
}

/// State transition for one delta. A whole-image delta (no position)
/// creates a fresh record under a fresh handle, replacing any previous
/// record for the id; a positioned delta patches a live record in place and
/// is a caller contract violation (`None`) when no record is live.
pub open spec fn apply_one(s: TexState, id: TextureId, d: ImageDelta) -> Option<TexState> {
    match d.pos {
        None => Some(
            TexState {
                maps: insert_tex(s.maps, id, created_record(s, id, d)),
                next_handle: s.next_handle + 1,
            },
        ),
        Some(_) => if tex_of(s.maps, id) is Some {
            Some(s)
        } else {
            None
        },
    }
}

/// Commands one delta emits: a creation frees the replaced record, if any,
/// then creates and uploads the whole image; a patch updates in place.
pub open spec fn cmds_one(s: TexState, id: TextureId, d: ImageDelta) -> Seq<TextureCommand> {
    match d.pos {
        None => (match tex_of(s.maps, id) {
            Some(t) => seq![TextureCommand::Free { handle: t.handle }],
            None => Seq::empty(),
        }) + seq![
            TextureCommand::Create {
                handle: s.next_handle as u64,
                width: d.width,
                height: d.height,
                mip_level_count: mip_levels_for(id, d.width as nat, d.height as nat) as u32,
                sampler: sampler_for(id, d.filter),
                pixels: d.pixels,
            },
        ],
        Some(p) => match tex_of(s.maps, id) {
            Some(t) => seq![
                TextureCommand::Update {
                    handle: t.handle,
                    x: p@[0],
                    y: p@[1],
                    width: d.width,
                    height: d.height,
                    pixels: d.pixels,
                },
            ],
            None => Seq::empty(),
        },
    }
}

/// State after applying a frame's whole `set` list, front to back; `None`
/// as soon as one delta is a contract violation.
pub open spec fn apply_set(s: TexState, es: Seq<(TextureId, ImageDelta)>) -> Option<TexState>
    decreases es.len(),
{
    if es.len() == 0 {
        Some(s)
    } else {
        match apply_one(s, es[0].0, es[0].1) {
            Some(s1) => apply_set(s1, es.skip(1)),
            None => None,
        }
    }
}

/// Commands emitted while applying a `set` list, in order.
pub open spec fn set_cmds(s: TexState, es: Seq<(TextureId, ImageDelta)>) -> Seq<TextureCommand>
    decreases es.len(),
{
    if es.len() == 0 {
        Seq::empty()
    } else {
        cmds_one(s, es[0].0, es[0].1) + (match apply_one(s, es[0].0, es[0].1) {
            Some(s1) => set_cmds(s1, es.skip(1)),
            None => Seq::empty(),
        })
    }
}

/// Mipmap regeneration commands recorded after all of a frame's uploads:
/// one per `set` entry whose id is not the font atlas and is live once the
/// whole list has been applied.
pub open spec fn regen_cmds(m: TexMaps, es: Seq<(TextureId, ImageDelta)>) -> Seq<TextureCommand>
    decreases es.len(),
{
    if es.len() == 0 {
        Seq::empty()
    } else {
        (if es[0].0 != TextureId::Managed(0) && tex_of(m, es[0].0) is Some {
            seq![
                TextureCommand::RegenerateMipmaps {
                    handle: tex_of(m, es[0].0)->Some_0.handle,
                    mip_level_count: tex_of(m, es[0].0)->Some_0.mip_level_count,
                },
            ]
        } else {
            Seq::empty()
        }) + regen_cmds(m, es.skip(1))
    }
}

/// Every live record's handle was allocated below the next fresh handle.
pub open spec fn tex_maps_bounded(m: TexMaps, next_handle: int) -> bool {
    &&& forall|k: u64| m.managed.contains_key(k) ==> #[trigger] m.managed[k].handle
        < next_handle
    &&& forall|k: u64| m.user.contains_key(k) ==> #[trigger] m.user[k].handle < next_handle
}

/// Distinct live textures never share a GPU handle, across both
/// namespaces.
pub open spec fn tex_handles_unique(m: TexMaps) -> bool {
    forall|id1: TextureId, id2: TextureId|
        #![trigger tex_of(m, id1), tex_of(m, id2)]
        id1 != id2 && tex_of(m, id1) is Some && tex_of(m, id2) is Some ==> tex_of(
            m,
            id1,
        )->Some_0.handle != tex_of(m, id2)->Some_0.handle
}

/// The two namespaces bundled into one ghost view.
pub open spec fn maps_of(managed: Map<u64, EguiTexture>, user: Map<u64, EguiTexture>) -> TexMaps {
    TexMaps { managed: managed, user: user }
}

pub proof fn lemma_tex_of_insert(m: TexMaps, id: TextureId, t: EguiTexture, x: TextureId)
    ensures
        tex_of(insert_tex(m, id, t), x) == if x == id {
            Some(t)
        } else {
            tex_of(m, x)
        },
{
}

pub proof fn lemma_tex_of_remove(m: TexMaps, id: TextureId, x: TextureId)
    ensures
        tex_of(remove_tex(m, id), x) == if x == id {
            None::<EguiTexture>
        } else {
            tex_of(m, x)
        },
{
}

pub proof fn lemma_tex_of_bounded(m: TexMaps, next_handle: int, x: TextureId)
    requires
        tex_maps_bounded(m, next_handle),
        tex_of(m, x) is Some,
    ensures
        tex_of(m, x)->Some_0.handle < next_handle,
{
}

pub proof fn lemma_remove_preserves_wf(m: TexMaps, id: TextureId, next_handle: int)
    requires
        tex_maps_bounded(m, next_handle),
        tex_handles_unique(m),
    ensures
        tex_maps_bounded(remove_tex(m, id), next_handle),
        tex_handles_unique(remove_tex(m, id)),
{
    let m2 = remove_tex(m, id);
    assert forall|id1: TextureId, id2: TextureId|
        id1 != id2 && #[trigger] tex_of(m2, id1) is Some && #[trigger] tex_of(
            m2,
            id2,
        ) is Some implies tex_of(m2, id1)->Some_0.handle != tex_of(m2, id2)->Some_0.handle by {
        lemma_tex_of_remove(m, id, id1);
        lemma_tex_of_remove(m, id, id2);
        assert(tex_of(m, id1) is Some && tex_of(m, id2) is Some);
    }
}

pub proof fn lemma_insert_fresh_preserves_wf(m: TexMaps, id: TextureId, t: EguiTexture, next_handle: int)
    requires
        tex_maps_bounded(m, next_handle),
        tex_handles_unique(m),
        t.handle == next_handle,
    ensures
        tex_maps_bounded(insert_tex(m, id, t), next_handle + 1),
        tex_handles_unique(insert_tex(m, id, t)),
{
    let m2 = insert_tex(m, id, t);
    assert forall|id1: TextureId, id2: TextureId|
        id1 != id2 && #[trigger] tex_of(m2, id1) is Some && #[trigger] tex_of(
            m2,
            id2,
        ) is Some implies tex_of(m2, id1)->Some_0.handle != tex_of(m2, id2)->Some_0.handle by {
        lemma_tex_of_insert(m, id, t, id1);
        lemma_tex_of_insert(m, id, t, id2);
        if id1 != id && id2 != id {
        } else if id1 == id {
            lemma_tex_of_bounded(m, next_handle, id2);
        } else {
            lemma_tex_of_bounded(m, next_handle, id1);
        }
    }
}

/// Law: a positioned delta patches a live texture strictly in place: the
/// store, the record and in particular its GPU handle are exactly as they
/// were before, so a sub-region update can never reallocate or replace the
/// underlying texture object.
pub proof fn lemma_patch_updates_in_place(s: TexState, id: TextureId, d: ImageDelta)
    requires
        d.pos is Some,
        tex_of(s.maps, id) is Some,
    ensures
        apply_one(s, id, d) == Some(s),
{
}

pub proof fn lemma_reclaim_preserves_wf(m: TexMaps, ids: Seq<TextureId>, next_handle: int)
    requires
        tex_maps_bounded(m, next_handle),
        tex_handles_unique(m),
    ensures
        tex_maps_bounded(reclaim_maps(m, ids), next_handle),
        tex_handles_unique(reclaim_maps(m, ids)),
    decreases ids.len(),
{
    if ids.len() > 0 {
        lemma_remove_preserves_wf(m, ids[0], next_handle);
        lemma_reclaim_preserves_wf(remove_tex(m, ids[0]), ids.skip(1), next_handle);
    }
}

} // verus!

use egui_paint_core::painter::{EguiPainter, FrameOutput, PaintError};
use egui_paint_core::primitives::{
    ClippedPrimitive, EguiDrawCalls, Mesh, PaintCallback, Primitive,
};
use egui_paint_core::scissor::{Pos2, Rect, FX_ONE};
use egui_paint_core::textures::{
    ImageDelta, SamplerKind, TextureCommand, TextureFilter, TextureId, TexturesDelta,
};

fn rect(min_x: i64, min_y: i64, max_x: i64, max_y: i64) -> Rect {
    Rect {
        min: Pos2 { x: min_x * FX_ONE, y: min_y * FX_ONE },
        max: Pos2 { x: max_x * FX_ONE, y: max_y * FX_ONE },
    }
}

fn whole_delta(width: u32, height: u32, filter: TextureFilter) -> ImageDelta {
    ImageDelta {
        pos: None,
        width,
        height,
        pixels: vec![255u8; (4 * width * height) as usize],
        filter,
    }
}

fn patch_delta(x: u32, y: u32, width: u32, height: u32) -> ImageDelta {
    ImageDelta {
        pos: Some([x, y]),
        width,
        height,
        pixels: vec![128u8; (4 * width * height) as usize],
        filter: TextureFilter::Linear,
    }
}

fn no_delta() -> TexturesDelta {
    TexturesDelta { set: Vec::new(), free: Vec::new() }
}

fn quad(texture_id: TextureId) -> Mesh {
    Mesh {
        vertices: vec![0u8; 4 * 20],
        indices: vec![0, 1, 2, 2, 1, 3],
        texture_id,
    }
}

fn run(
    painter: &mut EguiPainter,
    meshes: Vec<ClippedPrimitive>,
    delta: TexturesDelta,
) -> FrameOutput {
    painter
        .upload_egui_data(meshes, delta, FX_ONE, [800, 600])
        .expect("frame translation failed")
}

#[test]
fn single_quad_full_screen_frame() {
    let mut p = EguiPainter::new();
    let delta = TexturesDelta {
        set: vec![(TextureId::Managed(0), whole_delta(2, 2, TextureFilter::Linear))],
        free: Vec::new(),
    };
    let meshes = vec![ClippedPrimitive {
        clip_rect: rect(0, 0, 800, 600),
        primitive: Primitive::Mesh(quad(TextureId::Managed(0))),
    }];
    let out = run(&mut p, meshes, delta);
    assert_eq!(out.draw_calls.len(), 1);
    match &out.draw_calls[0] {
        EguiDrawCalls::Mesh { clip_rect, texture_id, base_vertex, index_start, index_end } => {
            assert_eq!(*clip_rect, [0, 0, 800, 600]);
            assert_eq!(*texture_id, TextureId::Managed(0));
            assert_eq!(*base_vertex, 0);
            assert_eq!(*index_start, 0);
            assert_eq!(*index_end, 6);
        },
        EguiDrawCalls::Callback { .. } => panic!("expected a mesh draw call"),
    }
    assert_eq!(out.vertex_bytes.len(), 80);
    assert_eq!(out.index_data, vec![0, 1, 2, 2, 1, 3]);
    assert!(out.vb_reallocated);
    assert!(out.ib_reallocated);
    assert_eq!(out.vb_capacity, 4);
    assert_eq!(out.ib_capacity, 6);
}

#[test]
fn texture_lifecycle_with_deferred_deletion() {
    let mut p = EguiPainter::new();

    // Frame 1: create id 5 with a whole-image delta.
    let delta = TexturesDelta {
        set: vec![(TextureId::Managed(5), whole_delta(4, 4, TextureFilter::Linear))],
        free: Vec::new(),
    };
    let out = run(&mut p, Vec::new(), delta);
    let handle = p.managed_textures.get(&5).expect("id 5 must be live").handle;
    assert!(out
        .texture_commands
        .iter()
        .any(|c| matches!(c, TextureCommand::Create { handle: h, .. } if *h == handle)));

    // Frame 2: a sub-region delta patches in place, no reallocation: the
    // record and its handle stay identical and no Create or Free is issued.
    let delta = TexturesDelta {
        set: vec![(TextureId::Managed(5), patch_delta(1, 1, 2, 2))],
        free: Vec::new(),
    };
    let out = run(&mut p, Vec::new(), delta);
    assert_eq!(p.managed_textures.get(&5).unwrap().handle, handle);
    assert_eq!(p.managed_textures.get(&5).unwrap().width, 4);
    for c in &out.texture_commands {
        match c {
            TextureCommand::Update { handle: h, x, y, width, height, .. } => {
                assert_eq!((*h, *x, *y, *width, *height), (handle, 1, 1, 2, 2));
            },
            TextureCommand::RegenerateMipmaps { .. } => {},
            _ => panic!("patch frame must not create or free textures"),
        }
    }

    // Frame 3: id 5 is freed and drawn in the same frame: the draw call is
    // still emitted and the record is still live afterwards.
    let delta = TexturesDelta { set: Vec::new(), free: vec![TextureId::Managed(5)] };
    let meshes = vec![ClippedPrimitive {
        clip_rect: rect(0, 0, 100, 100),
        primitive: Primitive::Mesh(quad(TextureId::Managed(5))),
    }];
    let out = run(&mut p, meshes, delta);
    assert_eq!(out.draw_calls.len(), 1);
    assert!(p.managed_textures.contains_key(&5));
    assert!(!out
        .texture_commands
        .iter()
        .any(|c| matches!(c, TextureCommand::Free { .. })));

    // Frame 4: the next frame releases it for real.
    let out = run(&mut p, Vec::new(), no_delta());
    assert!(p.managed_textures.get(&5).is_none());
    assert_eq!(out.texture_commands.len(), 1);
    assert!(matches!(out.texture_commands[0], TextureCommand::Free { handle: h } if h == handle));
}

#[test]
fn buffer_pool_capacity_only_grows() {
    let mut p = EguiPainter::new();
    let delta = TexturesDelta {
        set: vec![(TextureId::Managed(0), whole_delta(2, 2, TextureFilter::Linear))],
        free: Vec::new(),
    };
    let big = Mesh {
        vertices: vec![0u8; 9 * 20],
        indices: vec![0; 12],
        texture_id: TextureId::Managed(0),
    };
    let meshes = vec![ClippedPrimitive {
        clip_rect: rect(0, 0, 800, 600),
        primitive: Primitive::Mesh(big),
    }];
    let out = run(&mut p, meshes, delta);
    assert!(out.vb_reallocated && out.ib_reallocated);
    assert_eq!((out.vb_capacity, out.ib_capacity), (9, 12));

    // Frame 2 needs less: no reallocation, capacities unchanged.
    let meshes = vec![ClippedPrimitive {
        clip_rect: rect(0, 0, 800, 600),
        primitive: Primitive::Mesh(quad(TextureId::Managed(0))),
    }];
    let out = run(&mut p, meshes, no_delta());
    assert!(!out.vb_reallocated && !out.ib_reallocated);
    assert_eq!((out.vb_capacity, out.ib_capacity), (9, 12));
    assert_eq!((p.vb_len, p.ib_len), (9, 12));

    // Frame 3 needs more: grown to exactly the requirement.
    let bigger = Mesh {
        vertices: vec![0u8; 11 * 20],
        indices: vec![0; 12],
        texture_id: TextureId::Managed(0),
    };
    let meshes = vec![ClippedPrimitive {
        clip_rect: rect(0, 0, 800, 600),
        primitive: Primitive::Mesh(bigger),
    }];
    let out = run(&mut p, meshes, no_delta());
    assert!(out.vb_reallocated && !out.ib_reallocated);
    assert_eq!((out.vb_capacity, out.ib_capacity), (11, 12));
}

#[test]
fn patch_on_absent_texture_is_a_contract_violation() {
    // The very first delta for an id carries a position: there is nothing
    // to patch, and guessing a canvas size would mask toolkit corruption,
    // so the frame is rejected.
    let mut p = EguiPainter::new();
    let delta = TexturesDelta {
        set: vec![(TextureId::Managed(0), patch_delta(5, 5, 10, 10))],
        free: Vec::new(),
    };
    let r = p.upload_egui_data(Vec::new(), delta, FX_ONE, [800, 600]);
    assert_eq!(r.err(), Some(PaintError::TextureUpdateWithoutTexture(TextureId::Managed(0))));
    assert!(p.managed_textures.is_empty());
}

#[test]
fn draw_with_unknown_texture_is_a_contract_violation() {
    let mut p = EguiPainter::new();
    let meshes = vec![ClippedPrimitive {
        clip_rect: rect(0, 0, 100, 100),
        primitive: Primitive::Mesh(quad(TextureId::Managed(9))),
    }];
    let r = p.upload_egui_data(meshes, no_delta(), FX_ONE, [800, 600]);
    assert_eq!(r.err(), Some(PaintError::DrawTextureNotFound(TextureId::Managed(9))));
}

#[test]
fn mip_chain_for_non_font_textures() {
    let mut p = EguiPainter::new();
    let delta = TexturesDelta {
        set: vec![
            (TextureId::Managed(0), whole_delta(2048, 64, TextureFilter::Linear)),
            (TextureId::Managed(7), whole_delta(256, 100, TextureFilter::Nearest)),
        ],
        free: Vec::new(),
    };
    let out = run(&mut p, Vec::new(), delta);
    // Font atlas: single level, clamp-to-edge sampler, never regenerated.
    let font = p.managed_textures.get(&0).unwrap();
    assert_eq!(font.mip_level_count, 1);
    assert_eq!(font.sampler, SamplerKind::Font);
    // Other textures: floor(log2(max(w, h))) + 1 levels.
    let tex = p.managed_textures.get(&7).unwrap();
    assert_eq!(tex.mip_level_count, 9);
    assert_eq!(tex.sampler, SamplerKind::Nearest);
    let regens: Vec<u64> = out
        .texture_commands
        .iter()
        .filter_map(|c| match c {
            TextureCommand::RegenerateMipmaps { handle, mip_level_count } => {
                assert_eq!(*mip_level_count, 9);
                Some(*handle)
            },
            _ => None,
        })
        .collect();
    assert_eq!(regens, vec![tex.handle]);
}

#[test]
fn whole_delta_replaces_and_frees_previous_texture() {
    let mut p = EguiPainter::new();
    let delta = TexturesDelta {
        set: vec![(TextureId::Managed(3), whole_delta(4, 4, TextureFilter::Linear))],
        free: Vec::new(),
    };
    run(&mut p, Vec::new(), delta);
    let first = p.managed_textures.get(&3).unwrap().handle;

    let delta = TexturesDelta {
        set: vec![(TextureId::Managed(3), whole_delta(8, 8, TextureFilter::Linear))],
        free: Vec::new(),
    };
    let out = run(&mut p, Vec::new(), delta);
    let second = p.managed_textures.get(&3).unwrap().handle;
    assert_ne!(first, second);
    assert_eq!(p.managed_textures.get(&3).unwrap().width, 8);
    let mut saw_free_then_create = false;
    for w in out.texture_commands.windows(2) {
        if matches!(w[0], TextureCommand::Free { handle } if handle == first)
            && matches!(&w[1], TextureCommand::Create { handle, .. } if *handle == second)
        {
            saw_free_then_create = true;
        }
    }
    assert!(saw_free_then_create);
}

#[test]
fn skipped_primitive_contributes_no_geometry() {
    let mut p = EguiPainter::new();
    let delta = TexturesDelta {
        set: vec![(TextureId::Managed(0), whole_delta(2, 2, TextureFilter::Linear))],
        free: Vec::new(),
    };
    let clipped_out = Mesh {
        vertices: vec![7u8; 3 * 20],
        indices: vec![0, 1, 2],
        texture_id: TextureId::Managed(0),
    };
    let meshes = vec![
        ClippedPrimitive {
            // Empty clip rectangle: skipped whole, before copying geometry.
            clip_rect: rect(50, 50, 50, 50),
            primitive: Primitive::Mesh(clipped_out),
        },
        ClippedPrimitive {
            clip_rect: rect(0, 0, 800, 600),
            primitive: Primitive::Mesh(quad(TextureId::Managed(0))),
        },
    ];
    let out = run(&mut p, meshes, delta);
    assert_eq!(out.draw_calls.len(), 1);
    match &out.draw_calls[0] {
        EguiDrawCalls::Mesh { base_vertex, index_start, index_end, .. } => {
            assert_eq!((*base_vertex, *index_start, *index_end), (0, 0, 6));
        },
        _ => panic!("expected a mesh draw call"),
    }
    // Only the surviving quad's geometry was copied.
    assert_eq!(out.vertex_bytes.len(), 80);
    assert_eq!(out.index_data.len(), 6);
    // Capacities are still sized to the frame's full totals.
    assert_eq!((out.vb_capacity, out.ib_capacity), (7, 9));
}

#[test]
fn zero_geometry_frame_keeps_callbacks_in_order() {
    let mut p = EguiPainter::new();
    let meshes = vec![
        ClippedPrimitive {
            clip_rect: rect(0, 0, 100, 100),
            primitive: Primitive::Callback(PaintCallback { callback_id: 7 }),
        },
        ClippedPrimitive {
            // Outside the framebuffer: skipped.
            clip_rect: rect(1000, 1000, 2000, 2000),
            primitive: Primitive::Callback(PaintCallback { callback_id: 8 }),
        },
        ClippedPrimitive {
            clip_rect: rect(10, 10, 20, 20),
            primitive: Primitive::Callback(PaintCallback { callback_id: 9 }),
        },
    ];
    let out = run(&mut p, meshes, no_delta());
    assert!(!out.vb_reallocated && !out.ib_reallocated);
    assert_eq!(out.vertex_bytes.len(), 0);
    assert_eq!(out.index_data.len(), 0);
    let ids: Vec<u64> = out
        .draw_calls
        .iter()
        .map(|c| match c {
            EguiDrawCalls::Callback { paint_callback, .. } => paint_callback.callback_id,
            _ => panic!("expected callback draw calls only"),
        })
        .collect();
    assert_eq!(ids, vec![7, 9]);
}

#[test]
fn user_namespace_is_independent() {
    let mut p = EguiPainter::new();
    let delta = TexturesDelta {
        set: vec![
            (TextureId::Managed(1), whole_delta(2, 2, TextureFilter::Linear)),
            (TextureId::User(1), whole_delta(4, 4, TextureFilter::Linear)),
        ],
        free: Vec::new(),
    };
    let meshes = vec![ClippedPrimitive {
        clip_rect: rect(0, 0, 800, 600),
        primitive: Primitive::Mesh(quad(TextureId::User(1))),
    }];
    let out = run(&mut p, meshes, delta);
    assert_eq!(out.draw_calls.len(), 1);
    assert_ne!(
        p.managed_textures.get(&1).unwrap().handle,
        p.user_textures.get(&1).unwrap().handle
    );
    assert_eq!(p.user_textures.get(&1).unwrap().width, 4);
}

#[test]
fn draw_call_offsets_increase_across_meshes() {
    let mut p = EguiPainter::new();
    let delta = TexturesDelta {
        set: vec![(TextureId::Managed(0), whole_delta(2, 2, TextureFilter::Linear))],
        free: Vec::new(),
    };
    let m1 = Mesh {
        vertices: vec![1u8; 3 * 20],
        indices: vec![0, 1, 2],
        texture_id: TextureId::Managed(0),
    };
    let m2 = Mesh {
        vertices: vec![2u8; 4 * 20],
        indices: vec![0, 1, 2, 2, 1, 3],
        texture_id: TextureId::Managed(0),
    };
    let meshes = vec![
        ClippedPrimitive { clip_rect: rect(0, 0, 400, 300), primitive: Primitive::Mesh(m1) },
        ClippedPrimitive { clip_rect: rect(10, 10, 500, 400), primitive: Primitive::Mesh(m2) },
    ];
    let out = run(&mut p, meshes, delta);
    assert_eq!(out.draw_calls.len(), 2);
    let ranges: Vec<(i32, u32, u32)> = out
        .draw_calls
        .iter()
        .map(|c| match c {
            EguiDrawCalls::Mesh { base_vertex, index_start, index_end, .. } => {
                (*base_vertex, *index_start, *index_end)
            },
            _ => panic!("expected mesh draw calls"),
        })
        .collect();
    assert_eq!(ranges, vec![(0, 0, 3), (3, 3, 9)]);
    // The two meshes' bytes are concatenated in painter's order.
    assert_eq!(&out.vertex_bytes[..60], &[1u8; 60][..]);
    assert_eq!(&out.vertex_bytes[60..], &[2u8; 80][..]);
}

#[test]
fn create_then_patch_same_frame() {
    // A whole-image delta followed by a patch for the same id within one
    // frame's set list: the patch finds the record the creation just made.
    let mut p = EguiPainter::new();
    let delta = TexturesDelta {
        set: vec![
            (TextureId::Managed(6), whole_delta(8, 8, TextureFilter::Linear)),
            (TextureId::Managed(6), patch_delta(2, 2, 3, 3)),
        ],
        free: Vec::new(),
    };
    let out = run(&mut p, Vec::new(), delta);
    let handle = p.managed_textures.get(&6).unwrap().handle;
    let kinds: Vec<&'static str> = out
        .texture_commands
        .iter()
        .map(|c| match c {
            TextureCommand::Create { handle: h, pixels, .. } => {
                assert_eq!(*h, handle);
                assert_eq!(pixels.len(), 4 * 8 * 8);
                "create"
            },
            TextureCommand::Update { handle: h, pixels, .. } => {
                assert_eq!(*h, handle);
                assert_eq!(pixels.len(), 4 * 3 * 3);
                "update"
            },
            TextureCommand::RegenerateMipmaps { .. } => "regen",
            TextureCommand::Free { .. } => "free",
        })
        .collect();
    assert_eq!(kinds, vec!["create", "update", "regen", "regen"]);
}

#[test]
fn duplicate_ids_in_free_list_release_once() {
    let mut p = EguiPainter::new();
    let delta = TexturesDelta {
        set: vec![(TextureId::Managed(4), whole_delta(2, 2, TextureFilter::Linear))],
        free: Vec::new(),
    };
    run(&mut p, Vec::new(), delta);
    let handle = p.managed_textures.get(&4).unwrap().handle;

    let delta = TexturesDelta {
        set: Vec::new(),
        free: vec![TextureId::Managed(4), TextureId::Managed(4)],
    };
    run(&mut p, Vec::new(), delta);
    // Deferred: released at the start of the next frame, exactly once.
    let out = run(&mut p, Vec::new(), no_delta());
    let frees: Vec<u64> = out
        .texture_commands
        .iter()
        .filter_map(|c| match c {
            TextureCommand::Free { handle } => Some(*handle),
            _ => None,
        })
        .collect();
    assert_eq!(frees, vec![handle]);
    assert!(p.managed_textures.is_empty());
}
